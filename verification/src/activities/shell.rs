//! Shell activity — runs shell commands one after the other
use crate::cmd_spec::ShellCommand;
use vstd::prelude::*;

verus! {

pub const ID: &'static str = "shell";

pub struct ShellConfig {
    pub commands: Vec<ShellCommand>,
}

/// A shell configuration is valid when it has at least one command.
pub fn validate_config(config: &ShellConfig) -> (r: bool)
    ensures
        r == (config.commands@.len() > 0),
{
    config.commands.len() != 0
}

pub struct ActivityParameters {
    pub commands: Vec<ShellCommand>,
}

} // verus!
