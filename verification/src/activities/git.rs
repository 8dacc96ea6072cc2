pub mod make_worktree;
