//! A shell command as plain data: program, arguments, environment and working
//! directory, built in a functional style or mutated in place.
pub mod experiments;

use crate::text::{join_spec, join_strings, owned, strings_view};
use vstd::prelude::*;

verus! {

#[derive(Debug, Clone, PartialEq)]
pub struct ShellCommand {
    pub program: String,
    pub args: Vec<String>,
    pub env: Vec<(String, String)>,
    pub working_dir: Option<String>,
}

/// A shell command as mathematical values.
#[verifier::ext_equal]
pub struct CommandView {
    pub program: Seq<char>,
    pub args: Seq<Seq<char>>,
    pub env: Seq<(Seq<char>, Seq<char>)>,
    pub working_dir: Option<Seq<char>>,
}

/// The views of environment entries.
pub open spec fn pairs_view(v: Seq<(String, String)>) -> Seq<(Seq<char>, Seq<char>)> {
    v.map_values(|p: (String, String)| (p.0@, p.1@))
}

/// The views of borrowed strings.
pub open spec fn strs_view(v: Seq<&str>) -> Seq<Seq<char>> {
    v.map_values(|s: &str| s@)
}

/// The view of an optional string.
pub open spec fn opt_string_view(v: Option<String>) -> Option<Seq<char>> {
    match v {
        Some(s) => Some(s@),
        None => None,
    }
}

/// The command of a program, with no arguments, no environment and no working directory.
pub open spec fn command_of(program: Seq<char>) -> CommandView {
    CommandView {
        program,
        args: Seq::empty(),
        env: Seq::empty(),
        working_dir: None,
    }
}

impl CommandView {
    pub open spec fn with_arg(self, arg: Seq<char>) -> CommandView {
        CommandView { args: self.args.push(arg), ..self }
    }

    pub open spec fn with_args(self, args: Seq<Seq<char>>) -> CommandView {
        CommandView { args: self.args + args, ..self }
    }

    pub open spec fn with_env(self, key: Seq<char>, val: Seq<char>) -> CommandView {
        CommandView { env: self.env.push((key, val)), ..self }
    }

    pub open spec fn with_working_dir(self, dir: Seq<char>) -> CommandView {
        CommandView { working_dir: Some(dir), ..self }
    }

    /// How the command would be called in a shell: the program, a space, and the
    /// arguments separated by spaces.
    pub open spec fn display(self) -> Seq<char> {
        self.program + seq![' '] + join_spec(self.args, seq![' '])
    }
}

/// Adding arguments keeps the earlier arguments, in their order, and puts the
/// new ones after them; the program, environment and working directory stay.
pub proof fn lemma_args_extend(c: CommandView, xs: Seq<Seq<char>>)
    ensures
        c.with_args(xs).args.len() == c.args.len() + xs.len(),
        forall|i: int| 0 <= i < c.args.len() ==> #[trigger] c.with_args(xs).args[i] == c.args[i],
        forall|j: int|
            0 <= j < xs.len() ==> c.with_args(xs).args[c.args.len() + j] == #[trigger] xs[j],
        c.with_args(xs).program == c.program,
        c.with_args(xs).env == c.env,
        c.with_args(xs).working_dir == c.working_dir,
{
}

/// Adding one argument keeps the earlier ones and puts it last; adding a list
/// of one argument is adding that argument, and adding two lists one after the
/// other is adding them joined.
pub proof fn lemma_arg_extends(c: CommandView, x: Seq<char>, xs: Seq<Seq<char>>, ys: Seq<Seq<char>>)
    ensures
        c.with_arg(x).args.len() == c.args.len() + 1,
        forall|i: int| 0 <= i < c.args.len() ==> #[trigger] c.with_arg(x).args[i] == c.args[i],
        c.with_arg(x).args[c.args.len() as int] == x,
        c.with_args(seq![x]) == c.with_arg(x),
        c.with_args(xs).with_args(ys) == c.with_args(xs + ys),
{
    assert(c.with_args(seq![x]).args =~= c.with_arg(x).args);
    assert(c.with_args(xs).with_args(ys).args =~= c.with_args(xs + ys).args);
}

/// Setting an environment variable keeps the earlier entries and puts the new
/// one last; setting the working directory replaces it; neither touches the
/// program or the arguments.
pub proof fn lemma_env_and_dir(c: CommandView, k: Seq<char>, v: Seq<char>, d: Seq<char>)
    ensures
        c.with_env(k, v).env.len() == c.env.len() + 1,
        forall|i: int| 0 <= i < c.env.len() ==> #[trigger] c.with_env(k, v).env[i] == c.env[i],
        c.with_env(k, v).env[c.env.len() as int] == (k, v),
        c.with_env(k, v).program == c.program && c.with_env(k, v).args == c.args,
        c.with_env(k, v).working_dir == c.working_dir,
        c.with_working_dir(d).working_dir == Some(d),
        c.with_working_dir(d).program == c.program && c.with_working_dir(d).args == c.args,
        c.with_working_dir(d).env == c.env,
        command_of(c.program).args.len() == 0 && command_of(c.program).env.len() == 0,
        command_of(c.program).working_dir is None,
{
}

/// How a command is shown: the program and a space, then each argument, the
/// arguments separated by single spaces; one more argument adds a space and
/// that argument at the end.
pub proof fn lemma_display(c: CommandView, x: Seq<char>)
    ensures
        command_of(c.program).display() == c.program + seq![' '],
        command_of(c.program).with_arg(x).display() == c.program + seq![' '] + x,
        c.args.len() > 0 ==> c.with_arg(x).display() == c.display() + seq![' '] + x,
{
    let e = command_of(c.program);
    assert(e.args =~= Seq::<Seq<char>>::empty());
    assert(e.display() =~= c.program + seq![' ']);
    assert(e.with_arg(x).args =~= seq![x]);
    assert(e.with_arg(x).display() =~= c.program + seq![' '] + x);
    if c.args.len() > 0 {
        let a = c.with_arg(x).args;
        assert(a.drop_last() =~= c.args);
        assert(c.with_arg(x).display() =~= c.display() + seq![' '] + x);
    }
}

impl View for ShellCommand {
    type V = CommandView;

    open spec fn view(&self) -> CommandView {
        CommandView {
            program: self.program@,
            args: strings_view(self.args@),
            env: pairs_view(self.env@),
            working_dir: opt_string_view(self.working_dir),
        }
    }
}

/// Appends each of `args` to `v`.
pub fn push_strs(v: &mut Vec<String>, args: &[&str])
    ensures
        strings_view(final(v)@) == strings_view(old(v)@) + strs_view(args@),
{
    let ghost start = strings_view(v@);
    let mut i: usize = 0;
    while i < args.len()
        invariant
            i <= args@.len(),
            strings_view(v@) == start + strs_view(args@).take(i as int),
        decreases args@.len() - i,
    {
        let ghost before = v@;
        v.push(owned(args[i]));
        assert(strings_view(v@) =~= strings_view(before).push(args@[i as int]@));
        assert(strs_view(args@).take(i + 1) =~= strs_view(args@).take(i as int).push(
            args@[i as int]@,
        ));
        i = i + 1;
    }
    assert(strs_view(args@).take(args@.len() as int) =~= strs_view(args@));
}

/// The text `program args...` with the arguments separated by spaces.
pub fn command_line(program: &String, args: &Vec<String>) -> (r: String)
    ensures
        r@ == program@ + seq![' '] + join_spec(strings_view(args@), seq![' ']),
{
    let mut s = program.clone();
    proof {
        reveal_strlit(" ");
        assert(" "@ =~= seq![' ']);
    }
    s.append(" ");
    let joined = join_strings(args, " ");
    s.append(joined.as_str());
    s
}

/// Mutable handle for in-place mutation of a ShellCommand.
/// Call `.finish()` to get the ShellCommand back.
///
/// This is a wrapper around the primary ShellCommand struct that
/// provides in place mutation of the values for ergonomic reasons.
pub struct ShellCommandMut {
    inner: ShellCommand,
}

impl ShellCommandMut {
    /// The command being mutated.
    pub closed spec fn inner_view(&self) -> ShellCommand {
        self.inner
    }

    /// The view of a handle is the view of the command it holds.
    pub proof fn lemma_view_is_inner(&self)
        ensures
            self@ == self.inner_view()@,
    {
    }
}

impl View for ShellCommandMut {
    type V = CommandView;

    closed spec fn view(&self) -> CommandView {
        self.inner@
    }
}

impl ShellCommandMut {
    pub fn arg(&mut self, arg: &str) -> (r: &mut Self)
        ensures
            r@ == old(self)@.with_arg(arg@),
            *final(self) == *final(r),
    {
        self.inner.args.push(owned(arg));
        proof {
            assert(self@ =~= old(self)@.with_arg(arg@));
        }
        self
    }

    pub fn args(&mut self, args: &[&str]) -> (r: &mut Self)
        ensures
            r@ == old(self)@.with_args(strs_view(args@)),
            *final(self) == *final(r),
    {
        push_strs(&mut self.inner.args, args);
        proof {
            assert(self@ =~= old(self)@.with_args(strs_view(args@)));
        }
        self
    }

    pub fn env(&mut self, key: &str, val: &str) -> (r: &mut Self)
        ensures
            r@ == old(self)@.with_env(key@, val@),
            *final(self) == *final(r),
    {
        self.inner.env.push((owned(key), owned(val)));
        proof {
            assert(self@ =~= old(self)@.with_env(key@, val@));
        }
        self
    }

    pub fn working_dir(&mut self, dir: &str) -> (r: &mut Self)
        ensures
            r@ == old(self)@.with_working_dir(dir@),
            *final(self) == *final(r),
    {
        self.inner.working_dir = Some(owned(dir));
        self
    }

    pub fn finish(self) -> (r: ShellCommand)
        ensures
            r == self.inner_view(),
            r@ == self@,
    {
        self.inner
    }
}

// Functional style API - consumes self, which also gives the nice one liner constructions to start
// Also has 'escape hatch' mutability functions for later modification or inline modification based
// on other application state
impl ShellCommand {
    pub fn new(program: &str) -> (r: Self)
        ensures
            r@ == command_of(program@),
    {
        let r = Self { program: owned(program), args: Vec::new(), env: Vec::new(), working_dir: None };
        proof {
            assert(r@ =~= command_of(program@));
        }
        r
    }

    pub fn arg(self, arg: &str) -> (r: Self)
        ensures
            r@ == self@.with_arg(arg@),
    {
        let mut cmd = self;
        cmd.args.push(owned(arg));
        proof {
            assert(cmd@ =~= self@.with_arg(arg@));
        }
        cmd
    }

    pub fn args(self, args: &[&str]) -> (r: Self)
        ensures
            r@ == self@.with_args(strs_view(args@)),
    {
        let mut cmd = self;
        push_strs(&mut cmd.args, args);
        proof {
            assert(cmd@ =~= self@.with_args(strs_view(args@)));
        }
        cmd
    }

    pub fn env(self, key: &str, val: &str) -> (r: Self)
        ensures
            r@ == self@.with_env(key@, val@),
    {
        let mut cmd = self;
        cmd.env.push((owned(key), owned(val)));
        proof {
            assert(cmd@ =~= self@.with_env(key@, val@));
        }
        cmd
    }

    pub fn working_dir(self, dir: &str) -> (r: Self)
        ensures
            r@ == self@.with_working_dir(dir@),
    {
        let mut cmd = self;
        cmd.working_dir = Some(owned(dir));
        cmd
    }

    /// Gives a mutable version for ergonomic assignment of additional values
    pub fn mutate(self) -> (r: ShellCommandMut)
        ensures
            r.inner_view() == self,
            r@ == self@,
    {
        ShellCommandMut { inner: self }
    }

    /// Scoped mutation via closure — stays in functional style.
    pub fn with<F: FnOnce(&mut ShellCommandMut)>(self, f: F) -> (r: Self)
        requires
            forall|h: &mut ShellCommandMut| f.requires((h,)),
        ensures
            exists|h: &mut ShellCommandMut|
                h.inner_view() == self && h@ == self@ && f.ensures((h,), ()) && r
                    == final(h).inner_view() && r@ == final(h)@,
    {
        let mut handle = ShellCommandMut { inner: self };
        let hr = &mut handle;
        let ghost g = hr;
        assert(g.inner_view() == self);
        f(hr);
        assert(exists|h: &mut ShellCommandMut|
            f.ensures((h,), ()) && h.inner_view() == self && h@ == self@ && *final(h) == handle);
        handle.inner
    }

    /// Displays how the command would actually be called in shell.
    pub fn to_string(&self) -> (r: String)
        ensures
            r@ == self@.display(),
    {
        command_line(&self.program, &self.args)
    }
}

} // verus!
