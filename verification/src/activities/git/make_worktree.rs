use crate::cmd_spec::ShellCommand;
use serde_json::Value;
use vstd::prelude::*;

verus! {

pub const ID: &'static str = "make_worktree";

pub struct WorktreeConfig {
    repo: String,
    target_dir: String,
    branch_name: String,
}

impl WorktreeConfig {
    pub fn new(repo: String, target_dir: String, branch_name: String) -> (r: WorktreeConfig)
        ensures
            r.repo() == repo@,
            r.target_dir() == target_dir@,
            r.branch_name() == branch_name@,
    {
        WorktreeConfig { repo, target_dir, branch_name }
    }

    pub closed spec fn repo(&self) -> Seq<char> {
        self.repo@
    }

    pub closed spec fn target_dir(&self) -> Seq<char> {
        self.target_dir@
    }

    pub closed spec fn branch_name(&self) -> Seq<char> {
        self.branch_name@
    }
}

/// Succeeds with no output; the worktree itself is not made yet.
pub fn handler(_config: &WorktreeConfig, _input: &Value) -> (r: Result<Vec<String>, Vec<String>>)
    ensures
        r matches Ok(v) && v@.len() == 0,
{
    Ok(Vec::new())
}

pub struct ActivityParameters {
    pub commands: Vec<ShellCommand>,
}

} // verus!
