//! The command specification that every utility builder produces, and the
//! pieces its argument lists are made of.
use vstd::prelude::*;
use vstd::string::{StrSliceExecFns, StringExecFns};
use crate::decimal::{decimal_digits, decimal_string};

verus! {

/// The text of each string of a sequence.
pub open spec fn texts(v: Seq<String>) -> Seq<Seq<char>> {
    v.map_values(|s: String| s@)
}

/// The text of an optional string.
pub open spec fn opt_text(o: Option<String>) -> Option<Seq<char>> {
    match o {
        Some(s) => Some(s@),
        None => None,
    }
}

/// A configured 64-bit number as a natural number.
pub open spec fn number_opt(o: Option<u64>) -> Option<nat> {
    match o {
        Some(n) => Some(n as nat),
        None => None,
    }
}

/// A switch: its flag when it is set, nothing otherwise.
#[verifier::opaque]
pub open spec fn flag_arg(set: bool, flag: Seq<char>) -> Seq<Seq<char>> {
    if set {
        seq![flag]
    } else {
        Seq::empty()
    }
}

/// An option with a text value: the flag followed by the value when it is
/// configured, nothing otherwise.
#[verifier::opaque]
pub open spec fn text_arg(value: Option<String>, flag: Seq<char>) -> Seq<Seq<char>> {
    match value {
        Some(v) => seq![flag, v@],
        None => Seq::empty(),
    }
}

/// An option with a numeric value: the flag followed by the number in
/// decimal when it is configured, nothing otherwise.
#[verifier::opaque]
pub open spec fn number_arg(value: Option<nat>, flag: Seq<char>) -> Seq<Seq<char>> {
    match value {
        Some(n) => seq![flag, decimal_digits(n)],
        None => Seq::empty(),
    }
}

/// A set switch gives its flag alone.
pub proof fn lemma_flag_set(flag: Seq<char>)
    ensures
        flag_arg(true, flag) == seq![flag],
{
    reveal(flag_arg);
}

/// A configured number gives its flag first.
pub proof fn lemma_number_set(n: nat, flag: Seq<char>)
    ensures
        number_arg(Some(n), flag).len() == 2,
        number_arg(Some(n), flag)[0] == flag,
{
    reveal(number_arg);
}

/// The path of a program found in `dir`: the directory, a `/` unless the
/// directory is empty or already ends with one, then the program name.
pub open spec fn joined_path(dir: Seq<char>, program: Seq<char>) -> Seq<char> {
    if dir.len() == 0 {
        program
    } else if dir.last() == '/' {
        dir + program
    } else {
        dir + seq!['/'] + program
    }
}

/// The executable to run: the program name, inside the directory override
/// when there is one.
pub open spec fn program_path(dir: Option<Seq<char>>, program: Seq<char>) -> Seq<char> {
    match dir {
        Some(d) => joined_path(d, program),
        None => program,
    }
}

/// A part of a command line in double quotes.
pub open spec fn quoted(s: Seq<char>) -> Seq<char> {
    seq!['"'] + s + seq!['"']
}

/// The arguments, each quoted and preceded by a space.
pub open spec fn quoted_args(args: Seq<Seq<char>>) -> Seq<char>
    decreases args.len(),
{
    if args.len() == 0 {
        Seq::empty()
    } else {
        quoted_args(args.drop_last()) + seq![' '] + quoted(args.last())
    }
}

/// A command ready to be run: what to execute and with which arguments.
#[derive(Clone, Debug)]
pub struct CommandSpec {
    pub program: String,
    pub program_dir: Option<String>,
    pub args: Vec<String>,
}

impl CommandSpec {
    /// The executable's path as text.
    pub open spec fn path_view(&self) -> Seq<char> {
        program_path(opt_text(self.program_dir), self.program@)
    }

    /// The command line as text: the quoted path, then each argument quoted,
    /// separated by single spaces.
    pub open spec fn command_line(&self) -> Seq<char> {
        quoted(self.path_view()) + quoted_args(texts(self.args@))
    }

    /// The path of the executable.
    pub fn program_path(&self) -> (r: String)
        ensures
            r@ == self.path_view(),
    {
        match &self.program_dir {
            None => self.program.clone(),
            Some(dir) => {
                let n = dir.as_str().unicode_len();
                if n == 0 {
                    self.program.clone()
                } else {
                    let mut path = dir.clone();
                    if dir.as_str().get_char(n - 1) != '/' {
                        path.append("/");
                        proof {
                            reveal_strlit("/");
                        }
                    }
                    path.append(self.program.as_str());
                    path
                }
            }
        }
    }

    /// The command line, as a shell would show it.
    pub fn to_command_string(&self) -> (r: String)
        ensures
            r@ == self.command_line(),
    {
        proof {
            reveal_strlit("\"");
            reveal_strlit(" \"");
        }
        let mut line = String::from_str("\"");
        let path = self.program_path();
        line.append(path.as_str());
        line.append("\"");
        let mut i: usize = 0;
        while i < self.args.len()
            invariant
                i <= self.args@.len(),
                line@ == quoted(self.path_view()) + quoted_args(texts(self.args@.take(i as int))),
            decreases self.args@.len() - i,
        {
            let ghost before = line@;
            line.append(" \"");
            line.append(self.args[i].as_str());
            line.append("\"");
            proof {
                reveal_strlit("\"");
                reveal_strlit(" \"");
                let prev = texts(self.args@.take(i as int));
                let next = texts(self.args@.take(i + 1));
                assert(next.drop_last() =~= prev);
                assert(next.last() == self.args@[i as int]@);
                assert(quoted_args(next) == quoted_args(prev) + seq![' '] + quoted(next.last()));
                assert(line@ =~= before + seq![' '] + quoted(next.last()));
            }
            i = i + 1;
        }
        proof {
            assert(self.args@.take(i as int) =~= self.args@);
        }
        line
    }
}

/// Appends `flag` when `set` holds.
pub fn push_flag(args: &mut Vec<String>, set: bool, flag: &str)
    ensures
        texts(final(args)@) == texts(old(args)@) + flag_arg(set, flag@),
{
    reveal(flag_arg);
    if set {
        args.push(String::from_str(flag));
    }
    assert(texts(final(args)@) =~= texts(old(args)@) + flag_arg(set, flag@));
}

/// Appends `flag` and the value when a value is configured.
pub fn push_text(args: &mut Vec<String>, value: &Option<String>, flag: &str)
    ensures
        texts(final(args)@) == texts(old(args)@) + text_arg(*value, flag@),
{
    reveal(text_arg);
    if let Some(v) = value {
        args.push(String::from_str(flag));
        args.push(v.clone());
    }
    assert(texts(final(args)@) =~= texts(old(args)@) + text_arg(*value, flag@));
}

/// Appends `flag` and the number in decimal when a number is configured.
pub fn push_number(args: &mut Vec<String>, value: Option<u64>, flag: &str)
    ensures
        texts(final(args)@) == texts(old(args)@) + number_arg(number_opt(value), flag@),
{
    reveal(number_arg);
    if let Some(n) = value {
        args.push(String::from_str(flag));
        args.push(decimal_string(n));
    }
    assert(texts(final(args)@) =~= texts(old(args)@) + number_arg(number_opt(value), flag@));
}

/// A utility that ships with the server: its executable's name, where to
/// find it, and the arguments its configured options call for.
pub trait CommandBuilder {
    /// The executable's name, fixed for each utility.
    spec fn program_spec(&self) -> Seq<char>;

    /// The configured directory of the executable, if any.
    spec fn program_dir_spec(&self) -> Option<Seq<char>>;

    /// The arguments, in the utility's fixed order, for the options that
    /// were configured.
    spec fn args_spec(&self) -> Seq<Seq<char>>;

    /// The executable's name.
    fn get_program(&self) -> (r: String)
        ensures
            r@ == self.program_spec(),
    ;

    /// The configured directory of the executable, if any.
    fn get_program_dir(&self) -> (r: Option<String>)
        ensures
            opt_text(r) == self.program_dir_spec(),
    ;

    /// The arguments for the configured options.
    fn get_args(&self) -> (r: Vec<String>)
        ensures
            texts(r@) == self.args_spec(),
    ;

    /// The command specification for the current configuration.
    fn build(&self) -> (r: CommandSpec)
        ensures
            r.program@ == self.program_spec(),
            opt_text(r.program_dir) == self.program_dir_spec(),
            texts(r.args@) == self.args_spec(),
    {
        CommandSpec {
            program: self.get_program(),
            program_dir: self.get_program_dir(),
            args: self.get_args(),
        }
    }
}

/// A copy of an optional string.
pub fn clone_opt(o: &Option<String>) -> (r: Option<String>)
    ensures
        opt_text(r) == opt_text(*o),
{
    match o {
        Some(s) => Some(s.clone()),
        None => None,
    }
}

} // verus!
