use evented_worker::cmd_spec::experiments::fluent_plus_mutator_style::ShellCommand as BuiltCommand;
use evented_worker::cmd_spec::ShellCommand;
use evented_worker::serde_command::ShellCommand as PlainCommand;

// ── cmd_spec: fluent and mutable styles ──

#[test]
fn fluent_one_liner() {
    let cmd = ShellCommand::new("cargo").arg("build").arg("--release").env("RUST_LOG", "debug").working_dir("/tmp");

    assert_eq!(cmd.program, "cargo");
    assert_eq!(cmd.args, vec!["build", "--release"]);
    assert_eq!(cmd.env, vec![("RUST_LOG".into(), "debug".into())]);
    assert_eq!(cmd.working_dir, Some("/tmp".into()));
}

#[test]
fn fluent_batch_args() {
    let cmd = ShellCommand::new("echo").args(&["hello", "world"]);

    assert_eq!(cmd.to_string(), "echo hello world");
}

#[test]
fn mutate_for_conditional_args() {
    let release = true;
    let verbose = false;

    let mut cmd = ShellCommand::new("cargo").arg("build").mutate();

    if release {
        cmd.arg("--release");
    }
    if verbose {
        cmd.arg("--verbose");
    }
    cmd.env("RUST_LOG", "info");

    let cmd = cmd.finish();

    assert_eq!(cmd.to_string(), "cargo build --release");
    assert_eq!(cmd.env, vec![("RUST_LOG".into(), "info".into())]);
}

#[test]
fn mutate_loop() {
    let extra_args = vec!["--features", "serde,tokio"];

    let mut cmd = ShellCommand::new("cargo").arg("build").mutate();

    for a in extra_args {
        cmd.arg(a);
    }

    let cmd = cmd.finish();
    assert_eq!(cmd.to_string(), "cargo build --features serde,tokio");
}

#[test]
fn with_closure_stays_fluent() {
    let release = true;

    let cmd = ShellCommand::new("cargo")
        .arg("build")
        .with(|cmd| {
            if release {
                cmd.arg("--release");
            }
            cmd.env("RUST_LOG", "debug");
        })
        .working_dir("/project");

    assert_eq!(cmd.to_string(), "cargo build --release");
    assert_eq!(cmd.working_dir, Some("/project".into()));
}

#[test]
fn with_closure_no_ops() {
    let cmd = ShellCommand::new("ls").arg("-la").with(|_| {
        // nothing to add
    });

    assert_eq!(cmd.to_string(), "ls -la");
}

#[test]
fn with_closure_dynamic_args() {
    let user_flags: Vec<&str> = vec!["-v", "--color=always"];

    let cmd = ShellCommand::new("ls").with(|cmd| {
        for flag in &user_flags {
            cmd.arg(*flag);
        }
    });

    assert_eq!(cmd.to_string(), "ls -v --color=always");
}

#[test]
fn lib_display_matches_to_command() {
    let cmd = ShellCommand::new("ls").arg("-la");
    assert_eq!(cmd.to_string(), "ls -la");
    assert_eq!(cmd.to_string(), cmd.to_string());
}

#[test]
fn display_without_args_keeps_the_space() {
    let cmd = ShellCommand::new("ls");
    assert_eq!(cmd.to_string(), "ls ");
}

#[test]
fn mutable_handle_sets_every_field() {
    let mut handle = ShellCommand::new("git").mutate();
    handle.args(&["worktree", "add"]).working_dir("/repo").env("A", "1").arg("x");
    let cmd = handle.finish();
    assert_eq!(cmd.args, vec!["worktree", "add", "x"]);
    assert_eq!(cmd.env, vec![("A".to_string(), "1".to_string())]);
    assert_eq!(cmd.working_dir, Some("/repo".to_string()));
}

#[test]
fn mutate_then_finish_is_identity() {
    let cmd = ShellCommand::new("cargo").arg("test").env("K", "V").working_dir("/w");
    let again = cmd.clone().mutate().finish();
    assert_eq!(again, cmd);
}

#[test]
fn fluent_and_mutable_styles_agree() {
    let fluent = ShellCommand::new("cargo").arg("build").env("RUST_LOG", "info").working_dir("/p");
    let mut handle = ShellCommand::new("cargo").mutate();
    handle.arg("build");
    handle.env("RUST_LOG", "info");
    handle.working_dir("/p");
    assert_eq!(handle.finish(), fluent);
}

// ── experiments: builder then mutation ──

#[test]
fn builder_one_liner() {
    let cmd = BuiltCommand::build("cargo")
        .arg("build")
        .arg("--release")
        .env("RUST_LOG", "debug")
        .working_dir("/tmp")
        .finish();

    assert_eq!(cmd.program, "cargo");
    assert_eq!(cmd.args, vec!["build", "--release"]);
    assert_eq!(cmd.env, vec![("RUST_LOG".into(), "debug".into())]);
    assert_eq!(cmd.working_dir, Some("/tmp".into()));
}

#[test]
fn builder_then_mutate() {
    let mut cmd = BuiltCommand::build("which")
        .args(&vec!["a", "b", "c"])
        .finish();

    cmd.arg("d").arg("e");

    assert_eq!(cmd.to_command(), "which a b c d e");
}

#[test]
fn conditional_mutation() {
    let mut cmd = BuiltCommand::build("cargo")
        .arg("build")
        .finish();

    let release = true;
    if release {
        cmd.arg("--release");
    }

    let verbose = false;
    if verbose {
        cmd.arg("--verbose");
    }

    assert_eq!(cmd.to_command(), "cargo build --release");
}

#[test]
fn builder_with_batch_args() {
    let cmd = BuiltCommand::build("echo")
        .args(&["hello", "world"])
        .finish();

    assert_eq!(cmd.args, vec!["hello", "world"]);
}

#[test]
fn fluent_plus_mutator_style_display_matches_to_command() {
    let cmd = BuiltCommand::build("ls")
        .arg("-la")
        .finish();

    assert_eq!(cmd.to_string(), cmd.to_command());
}

#[test]
fn mutate_env_after_build() {
    let mut cmd = BuiltCommand::build("cargo")
        .arg("test")
        .finish();

    cmd.env("RUST_LOG", "trace");
    cmd.env("RUST_BACKTRACE", "1");

    assert_eq!(cmd.env.len(), 2);
}

#[test]
fn built_command_mutation_chains() {
    let mut cmd = BuiltCommand::build("ls").finish();
    cmd.args(&["-l", "-a"]).working_dir("/tmp").env("X", "y");
    assert_eq!(cmd.to_command(), "ls -l -a");
    assert_eq!(cmd.working_dir, Some("/tmp".to_string()));
    assert_eq!(cmd.env, vec![("X".to_string(), "y".to_string())]);
}

// ── serde_command ──

#[test]
fn builder_sets_fields() {
    let cmd = PlainCommand::new("cargo").arg("build").arg("--release").env("RUST_LOG", "debug").working_dir("/tmp");

    assert_eq!(cmd.program, "cargo");
    assert_eq!(cmd.args, vec!["build", "--release"]);
    assert_eq!(cmd.env, vec![("RUST_LOG".into(), "debug".into())]);
    assert_eq!(cmd.working_dir, Some("/tmp".into()));
}

#[test]
fn args_batch() {
    let cmd = PlainCommand::new("echo").args(&["hello", "world"]);
    assert_eq!(cmd.args, vec!["hello", "world"]);
}

#[test]
fn working_dir_is_replaced() {
    let cmd = PlainCommand::new("ls").working_dir("/a").working_dir("/b");
    assert_eq!(cmd.working_dir, Some("/b".to_string()));
    assert!(cmd.args.is_empty());
    assert!(cmd.env.is_empty());
}
