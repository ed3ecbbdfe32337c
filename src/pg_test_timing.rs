//! `pg_test_timing`, which measures the timing overhead of the host.
use vstd::prelude::*;
use vstd::string::StringExecFns;
use crate::command::{clone_opt, opt_text, push_text, text_arg, texts, CommandBuilder};

verus! {

/// Builds the invocation of `pg_test_timing`.
#[derive(Clone, Debug)]
pub struct PgTestTimingBuilder {
    pub program_dir: Option<String>,
    pub duration: Option<String>,
}

impl PgTestTimingBuilder {
    /// A builder with no option configured.
    pub fn new() -> (r: Self)
        ensures
            r.program_dir is None,
            r.duration is None,
    {
        PgTestTimingBuilder { program_dir: None, duration: None }
    }

    /// Location of the program binary.
    pub fn program_dir(self, path: &str) -> (r: Self)
        ensures
            opt_text(r.program_dir) == Some(path@),
            r.duration == self.duration,
    {
        PgTestTimingBuilder { program_dir: Some(String::from_str(path)), ..self }
    }

    /// How long the test runs.
    pub fn duration(self, duration: &str) -> (r: Self)
        ensures
            opt_text(r.duration) == Some(duration@),
            r.program_dir == self.program_dir,
    {
        PgTestTimingBuilder { duration: Some(String::from_str(duration)), ..self }
    }
}

impl Default for PgTestTimingBuilder {
    fn default() -> (r: Self)
        ensures
            r.program_dir is None,
            r.duration is None,
    {
        Self::new()
    }
}

impl CommandBuilder for PgTestTimingBuilder {
    open spec fn program_spec(&self) -> Seq<char> {
        "pg_test_timing"@
    }

    open spec fn program_dir_spec(&self) -> Option<Seq<char>> {
        opt_text(self.program_dir)
    }

    open spec fn args_spec(&self) -> Seq<Seq<char>> {
        text_arg(self.duration, "-d"@)
    }

    fn get_program(&self) -> (r: String) {
        String::from_str("pg_test_timing")
    }

    fn get_program_dir(&self) -> (r: Option<String>) {
        clone_opt(&self.program_dir)
    }

    fn get_args(&self) -> (r: Vec<String>) {
        let mut args: Vec<String> = Vec::new();
        assert(texts(args@) =~= Seq::empty());
        push_text(&mut args, &self.duration, "-d");
        args
    }
}

} // verus!
