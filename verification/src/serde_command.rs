//! A shell command as plain data, built in a functional style.
use crate::cmd_spec::{command_of, opt_string_view, pairs_view, push_strs, strs_view, CommandView};
use crate::text::{owned, strings_view};
use vstd::prelude::*;

verus! {

#[derive(Debug, Clone, PartialEq)]
pub struct ShellCommand {
    pub program: String,
    pub args: Vec<String>,
    pub env: Vec<(String, String)>,
    pub working_dir: Option<String>,
}

impl View for ShellCommand {
    type V = CommandView;

    open spec fn view(&self) -> CommandView {
        CommandView {
            program: self.program@,
            args: strings_view(self.args@),
            env: pairs_view(self.env@),
            working_dir: opt_string_view(self.working_dir),
        }
    }
}

impl ShellCommand {
    pub fn new(program: &str) -> (r: Self)
        ensures
            r@ == command_of(program@),
    {
        let r = Self { program: owned(program), args: Vec::new(), env: Vec::new(), working_dir: None };
        proof {
            assert(r@ =~= command_of(program@));
        }
        r
    }

    pub fn arg(self, arg: &str) -> (r: Self)
        ensures
            r@ == self@.with_arg(arg@),
    {
        let mut cmd = self;
        cmd.args.push(owned(arg));
        proof {
            assert(cmd@ =~= self@.with_arg(arg@));
        }
        cmd
    }

    pub fn args(self, args: &[&str]) -> (r: Self)
        ensures
            r@ == self@.with_args(strs_view(args@)),
    {
        let mut cmd = self;
        push_strs(&mut cmd.args, args);
        proof {
            assert(cmd@ =~= self@.with_args(strs_view(args@)));
        }
        cmd
    }

    pub fn env(self, key: &str, val: &str) -> (r: Self)
        ensures
            r@ == self@.with_env(key@, val@),
    {
        let mut cmd = self;
        cmd.env.push((owned(key), owned(val)));
        proof {
            assert(cmd@ =~= self@.with_env(key@, val@));
        }
        cmd
    }

    pub fn working_dir(self, dir: &str) -> (r: Self)
        ensures
            r@ == self@.with_working_dir(dir@),
    {
        let mut cmd = self;
        cmd.working_dir = Some(owned(dir));
        cmd
    }
}

} // verus!
