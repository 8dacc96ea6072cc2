//! A builder that produces a shell command, which can then be mutated in place.
use crate::cmd_spec::{
    command_line, command_of, opt_string_view, pairs_view, push_strs, strs_view, CommandView,
};
use crate::text::{owned, strings_view};
use vstd::prelude::*;

verus! {

#[derive(Debug, Clone, PartialEq)]
pub struct ShellCommand {
    pub program: String,
    pub args: Vec<String>,
    pub env: Vec<(String, String)>,
    pub working_dir: Option<String>,
}

impl View for ShellCommand {
    type V = CommandView;

    open spec fn view(&self) -> CommandView {
        CommandView {
            program: self.program@,
            args: strings_view(self.args@),
            env: pairs_view(self.env@),
            working_dir: opt_string_view(self.working_dir),
        }
    }
}

pub struct ShellCommandBuilder {
    program: String,
    args: Vec<String>,
    env: Vec<(String, String)>,
    working_dir: Option<String>,
}

impl View for ShellCommandBuilder {
    type V = CommandView;

    /// The command that the builder will produce.
    closed spec fn view(&self) -> CommandView {
        CommandView {
            program: self.program@,
            args: strings_view(self.args@),
            env: pairs_view(self.env@),
            working_dir: opt_string_view(self.working_dir),
        }
    }
}

impl ShellCommandBuilder {
    pub fn new(program: &str) -> (r: Self)
        ensures
            r@ == command_of(program@),
    {
        let r = Self { program: owned(program), args: Vec::new(), env: Vec::new(), working_dir: None };
        proof {
            assert(r@ =~= command_of(program@));
        }
        r
    }

    pub fn arg(self, arg: &str) -> (r: Self)
        ensures
            r@ == self@.with_arg(arg@),
    {
        let mut b = self;
        b.args.push(owned(arg));
        proof {
            assert(b@ =~= self@.with_arg(arg@));
        }
        b
    }

    pub fn args(self, args: &[&str]) -> (r: Self)
        ensures
            r@ == self@.with_args(strs_view(args@)),
    {
        let mut b = self;
        push_strs(&mut b.args, args);
        proof {
            assert(b@ =~= self@.with_args(strs_view(args@)));
        }
        b
    }

    pub fn env(self, key: &str, val: &str) -> (r: Self)
        ensures
            r@ == self@.with_env(key@, val@),
    {
        let mut b = self;
        b.env.push((owned(key), owned(val)));
        proof {
            assert(b@ =~= self@.with_env(key@, val@));
        }
        b
    }

    pub fn working_dir(self, dir: &str) -> (r: Self)
        ensures
            r@ == self@.with_working_dir(dir@),
    {
        let mut b = self;
        b.working_dir = Some(owned(dir));
        b
    }

    pub fn finish(self) -> (r: ShellCommand)
        ensures
            r@ == self@,
    {
        ShellCommand {
            program: self.program,
            args: self.args,
            env: self.env,
            working_dir: self.working_dir,
        }
    }
}

impl ShellCommand {
    pub fn build(program: &str) -> (r: ShellCommandBuilder)
        ensures
            r@ == command_of(program@),
    {
        ShellCommandBuilder::new(program)
    }

    pub fn arg(&mut self, arg: &str) -> (r: &mut Self)
        ensures
            r@ == old(self)@.with_arg(arg@),
            *final(self) == *final(r),
    {
        self.args.push(owned(arg));
        proof {
            assert(self@ =~= old(self)@.with_arg(arg@));
        }
        self
    }

    pub fn args(&mut self, args: &[&str]) -> (r: &mut Self)
        ensures
            r@ == old(self)@.with_args(strs_view(args@)),
            *final(self) == *final(r),
    {
        push_strs(&mut self.args, args);
        proof {
            assert(self@ =~= old(self)@.with_args(strs_view(args@)));
        }
        self
    }

    pub fn env(&mut self, key: &str, val: &str) -> (r: &mut Self)
        ensures
            r@ == old(self)@.with_env(key@, val@),
            *final(self) == *final(r),
    {
        self.env.push((owned(key), owned(val)));
        proof {
            assert(self@ =~= old(self)@.with_env(key@, val@));
        }
        self
    }

    pub fn working_dir(&mut self, dir: &str) -> (r: &mut Self)
        ensures
            r@ == old(self)@.with_working_dir(dir@),
            *final(self) == *final(r),
    {
        self.working_dir = Some(owned(dir));
        self
    }

    /// How the command would be called in a shell.
    pub fn to_command(&self) -> (r: String)
        ensures
            r@ == self@.display(),
    {
        command_line(&self.program, &self.args)
    }

    /// The same text as `to_command`.
    pub fn to_string(&self) -> (r: String)
        ensures
            r@ == self@.display(),
    {
        self.to_command()
    }
}

} // verus!
