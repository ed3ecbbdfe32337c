//! `vacuumdb`, which cleans and analyzes a database.
use vstd::prelude::*;
use vstd::seq_lib::lemma_concat_associative;
use vstd::string::StringExecFns;
use crate::command::{
    clone_opt, flag_arg, lemma_flag_set, lemma_number_set, number_arg, number_opt, opt_text,
    push_flag, push_number, push_text, text_arg, texts, CommandBuilder,
};

verus! {

/// A configured 32-bit number as a natural number.
pub open spec fn nat_opt_u32(o: Option<u32>) -> Option<nat> {
    match o {
        Some(n) => Some(n as nat),
        None => None,
    }
}

/// A configured port as a natural number.
pub open spec fn nat_opt_u16(o: Option<u16>) -> Option<nat> {
    match o {
        Some(n) => Some(n as nat),
        None => None,
    }
}

fn widen_u32(o: Option<u32>) -> (r: Option<u64>)
    ensures
        number_opt(r) == nat_opt_u32(o),
{
    match o {
        Some(n) => Some(n as u64),
        None => None,
    }
}

fn widen_u16(o: Option<u16>) -> (r: Option<u64>)
    ensures
        number_opt(r) == nat_opt_u16(o),
{
    match o {
        Some(n) => Some(n as u64),
        None => None,
    }
}

/// Builds the invocation of `vacuumdb`.
#[derive(Clone, Debug)]
pub struct VacuumDbBuilder {
    pub program_dir: Option<String>,
    pub all: bool,
    pub buffer_usage_limit: Option<String>,
    pub dbname: Option<String>,
    pub disable_page_skipping: bool,
    pub echo: bool,
    pub full: bool,
    pub freeze: bool,
    pub force_index_cleanup: bool,
    pub jobs: Option<u32>,
    pub min_mxid_age: Option<String>,
    pub min_xid_age: Option<String>,
    pub no_index_cleanup: bool,
    pub no_process_main: bool,
    pub no_process_toast: bool,
    pub no_truncate: bool,
    pub schema: Option<String>,
    pub exclude_schema: Option<String>,
    pub parallel: Option<u32>,
    pub quiet: bool,
    pub skip_locked: bool,
    pub table: Option<String>,
    pub verbose: bool,
    pub version: bool,
    pub analyze: bool,
    pub analyze_only: bool,
    pub analyze_in_stages: bool,
    pub help: bool,
    pub host: Option<String>,
    pub port: Option<u16>,
    pub username: Option<String>,
    pub no_password: bool,
    pub password: bool,
    pub maintenance_db: Option<String>,
}

impl VacuumDbBuilder {
    /// The configuration with no option set.
    pub open spec fn unconfigured() -> Self {
        VacuumDbBuilder {
            program_dir: None,
            all: false,
            buffer_usage_limit: None,
            dbname: None,
            disable_page_skipping: false,
            echo: false,
            full: false,
            freeze: false,
            force_index_cleanup: false,
            jobs: None,
            min_mxid_age: None,
            min_xid_age: None,
            no_index_cleanup: false,
            no_process_main: false,
            no_process_toast: false,
            no_truncate: false,
            schema: None,
            exclude_schema: None,
            parallel: None,
            quiet: false,
            skip_locked: false,
            table: None,
            verbose: false,
            version: false,
            analyze: false,
            analyze_only: false,
            analyze_in_stages: false,
            help: false,
            host: None,
            port: None,
            username: None,
            no_password: false,
            password: false,
            maintenance_db: None,
        }
    }

    /// The arguments up to `--force-index-cleanup`.
    pub open spec fn head_args(&self) -> Seq<Seq<char>> {
        flag_arg(self.all, "--all"@)
            + text_arg(self.buffer_usage_limit, "--buffer-usage-limit"@)
            + text_arg(self.dbname, "--dbname"@)
            + flag_arg(self.disable_page_skipping, "--disable-page-skipping"@)
            + flag_arg(self.echo, "--echo"@)
            + flag_arg(self.full, "--full"@)
            + flag_arg(self.freeze, "--freeze"@)
            + flag_arg(self.force_index_cleanup, "--force-index-cleanup"@)
    }

    /// The arguments from `--jobs` up to `--host`.
    pub open spec fn middle_args(&self) -> Seq<Seq<char>> {
        number_arg(nat_opt_u32(self.jobs), "--jobs"@)
            + text_arg(self.min_mxid_age, "--min-mxid-age"@)
            + text_arg(self.min_xid_age, "--min-xid-age"@)
            + flag_arg(self.no_index_cleanup, "--no-index-cleanup"@)
            + flag_arg(self.no_process_main, "--no-process-main"@)
            + flag_arg(self.no_process_toast, "--no-process-toast"@)
            + flag_arg(self.no_truncate, "--no-truncate"@)
            + text_arg(self.schema, "--schema"@)
            + text_arg(self.exclude_schema, "--exclude-schema"@)
            + number_arg(nat_opt_u32(self.parallel), "--parallel"@)
            + flag_arg(self.quiet, "--quiet"@)
            + flag_arg(self.skip_locked, "--skip-locked"@)
            + text_arg(self.table, "--table"@)
            + flag_arg(self.verbose, "--verbose"@)
            + flag_arg(self.version, "--version"@)
            + flag_arg(self.analyze, "--analyze"@)
            + flag_arg(self.analyze_only, "--analyze-only"@)
            + flag_arg(self.analyze_in_stages, "--analyze-in-stages"@)
            + flag_arg(self.help, "--help"@)
            + text_arg(self.host, "--host"@)
    }

    /// The arguments from `--port` on.
    pub open spec fn tail_args(&self) -> Seq<Seq<char>> {
        number_arg(nat_opt_u16(self.port), "--port"@)
            + text_arg(self.username, "--username"@)
            + flag_arg(self.no_password, "--no-password"@)
            + flag_arg(self.password, "--password"@)
            + text_arg(self.maintenance_db, "--maintenance-db"@)
    }

    /// The arguments for the configured options, in the fixed order.
    pub open spec fn vacuumdb_args(&self) -> Seq<Seq<char>> {
        self.head_args() + self.middle_args() + self.tail_args()
    }

    /// A builder with no option configured.
    pub fn new() -> (r: Self)
        ensures
            r == Self::unconfigured(),
    {
        VacuumDbBuilder {
            program_dir: None,
            all: false,
            buffer_usage_limit: None,
            dbname: None,
            disable_page_skipping: false,
            echo: false,
            full: false,
            freeze: false,
            force_index_cleanup: false,
            jobs: None,
            min_mxid_age: None,
            min_xid_age: None,
            no_index_cleanup: false,
            no_process_main: false,
            no_process_toast: false,
            no_truncate: false,
            schema: None,
            exclude_schema: None,
            parallel: None,
            quiet: false,
            skip_locked: false,
            table: None,
            verbose: false,
            version: false,
            analyze: false,
            analyze_only: false,
            analyze_in_stages: false,
            help: false,
            host: None,
            port: None,
            username: None,
            no_password: false,
            password: false,
            maintenance_db: None,
        }
    }

    /// Location of the program binary.
    pub fn program_dir(self, path: &str) -> (r: Self)
        ensures
            opt_text(r.program_dir) == Some(path@),
            r == (VacuumDbBuilder { program_dir: r.program_dir, ..self }),
    {
        VacuumDbBuilder { program_dir: Some(String::from_str(path)), ..self }
    }

    /// Vacuum all databases.
    pub fn all(self) -> (r: Self)
        ensures
            r == (VacuumDbBuilder { all: true, ..self }),
    {
        VacuumDbBuilder { all: true, ..self }
    }

    /// Size of ring buffer used for vacuum.
    pub fn buffer_usage_limit(self, buffer_usage_limit: &str) -> (r: Self)
        ensures
            opt_text(r.buffer_usage_limit) == Some(buffer_usage_limit@),
            r == (VacuumDbBuilder { buffer_usage_limit: r.buffer_usage_limit, ..self }),
    {
        VacuumDbBuilder { buffer_usage_limit: Some(String::from_str(buffer_usage_limit)), ..self }
    }

    /// Database to vacuum.
    pub fn dbname(self, dbname: &str) -> (r: Self)
        ensures
            opt_text(r.dbname) == Some(dbname@),
            r == (VacuumDbBuilder { dbname: r.dbname, ..self }),
    {
        VacuumDbBuilder { dbname: Some(String::from_str(dbname)), ..self }
    }

    /// Disable all page-skipping behavior.
    pub fn disable_page_skipping(self) -> (r: Self)
        ensures
            r == (VacuumDbBuilder { disable_page_skipping: true, ..self }),
    {
        VacuumDbBuilder { disable_page_skipping: true, ..self }
    }

    /// Show the commands being sent to the server.
    pub fn echo(self) -> (r: Self)
        ensures
            r == (VacuumDbBuilder { echo: true, ..self }),
    {
        VacuumDbBuilder { echo: true, ..self }
    }

    /// Do full vacuuming.
    pub fn full(self) -> (r: Self)
        ensures
            r == (VacuumDbBuilder { full: true, ..self }),
    {
        VacuumDbBuilder { full: true, ..self }
    }

    /// Freeze row transaction information.
    pub fn freeze(self) -> (r: Self)
        ensures
            r == (VacuumDbBuilder { freeze: true, ..self }),
    {
        VacuumDbBuilder { freeze: true, ..self }
    }

    /// Always remove index entries that point to dead tuples.
    pub fn force_index_cleanup(self) -> (r: Self)
        ensures
            r == (VacuumDbBuilder { force_index_cleanup: true, ..self }),
    {
        VacuumDbBuilder { force_index_cleanup: true, ..self }
    }

    /// Use this many concurrent connections to vacuum.
    pub fn jobs(self, jobs: u32) -> (r: Self)
        ensures
            r == (VacuumDbBuilder { jobs: Some(jobs), ..self }),
    {
        VacuumDbBuilder { jobs: Some(jobs), ..self }
    }

    /// Minimum multixact ID age of tables to vacuum.
    pub fn min_mxid_age(self, min_mxid_age: &str) -> (r: Self)
        ensures
            opt_text(r.min_mxid_age) == Some(min_mxid_age@),
            r == (VacuumDbBuilder { min_mxid_age: r.min_mxid_age, ..self }),
    {
        VacuumDbBuilder { min_mxid_age: Some(String::from_str(min_mxid_age)), ..self }
    }

    /// Minimum transaction ID age of tables to vacuum.
    pub fn min_xid_age(self, min_xid_age: &str) -> (r: Self)
        ensures
            opt_text(r.min_xid_age) == Some(min_xid_age@),
            r == (VacuumDbBuilder { min_xid_age: r.min_xid_age, ..self }),
    {
        VacuumDbBuilder { min_xid_age: Some(String::from_str(min_xid_age)), ..self }
    }

    /// Don't remove index entries that point to dead tuples.
    pub fn no_index_cleanup(self) -> (r: Self)
        ensures
            r == (VacuumDbBuilder { no_index_cleanup: true, ..self }),
    {
        VacuumDbBuilder { no_index_cleanup: true, ..self }
    }

    /// Skip the main relation.
    pub fn no_process_main(self) -> (r: Self)
        ensures
            r == (VacuumDbBuilder { no_process_main: true, ..self }),
    {
        VacuumDbBuilder { no_process_main: true, ..self }
    }

    /// Skip the TOAST table associated with the table to vacuum.
    pub fn no_process_toast(self) -> (r: Self)
        ensures
            r == (VacuumDbBuilder { no_process_toast: true, ..self }),
    {
        VacuumDbBuilder { no_process_toast: true, ..self }
    }

    /// Don't truncate empty pages at the end of the table.
    pub fn no_truncate(self) -> (r: Self)
        ensures
            r == (VacuumDbBuilder { no_truncate: true, ..self }),
    {
        VacuumDbBuilder { no_truncate: true, ..self }
    }

    /// Vacuum tables in the specified schema(s) only.
    pub fn schema(self, schema: &str) -> (r: Self)
        ensures
            opt_text(r.schema) == Some(schema@),
            r == (VacuumDbBuilder { schema: r.schema, ..self }),
    {
        VacuumDbBuilder { schema: Some(String::from_str(schema)), ..self }
    }

    /// Do not vacuum tables in the specified schema(s).
    pub fn exclude_schema(self, exclude_schema: &str) -> (r: Self)
        ensures
            opt_text(r.exclude_schema) == Some(exclude_schema@),
            r == (VacuumDbBuilder { exclude_schema: r.exclude_schema, ..self }),
    {
        VacuumDbBuilder { exclude_schema: Some(String::from_str(exclude_schema)), ..self }
    }

    /// Use this many background workers for vacuum, if available.
    pub fn parallel(self, parallel: u32) -> (r: Self)
        ensures
            r == (VacuumDbBuilder { parallel: Some(parallel), ..self }),
    {
        VacuumDbBuilder { parallel: Some(parallel), ..self }
    }

    /// Don't write any messages.
    pub fn quiet(self) -> (r: Self)
        ensures
            r == (VacuumDbBuilder { quiet: true, ..self }),
    {
        VacuumDbBuilder { quiet: true, ..self }
    }

    /// Skip relations that cannot be immediately locked.
    pub fn skip_locked(self) -> (r: Self)
        ensures
            r == (VacuumDbBuilder { skip_locked: true, ..self }),
    {
        VacuumDbBuilder { skip_locked: true, ..self }
    }

    /// Vacuum specific table(s) only.
    pub fn table(self, table: &str) -> (r: Self)
        ensures
            opt_text(r.table) == Some(table@),
            r == (VacuumDbBuilder { table: r.table, ..self }),
    {
        VacuumDbBuilder { table: Some(String::from_str(table)), ..self }
    }

    /// Write a lot of output.
    pub fn verbose(self) -> (r: Self)
        ensures
            r == (VacuumDbBuilder { verbose: true, ..self }),
    {
        VacuumDbBuilder { verbose: true, ..self }
    }

    /// Output version information, then exit.
    pub fn version(self) -> (r: Self)
        ensures
            r == (VacuumDbBuilder { version: true, ..self }),
    {
        VacuumDbBuilder { version: true, ..self }
    }

    /// Update optimizer statistics.
    pub fn analyze(self) -> (r: Self)
        ensures
            r == (VacuumDbBuilder { analyze: true, ..self }),
    {
        VacuumDbBuilder { analyze: true, ..self }
    }

    /// Only update optimizer statistics; no vacuum.
    pub fn analyze_only(self) -> (r: Self)
        ensures
            r == (VacuumDbBuilder { analyze_only: true, ..self }),
    {
        VacuumDbBuilder { analyze_only: true, ..self }
    }

    /// Only update optimizer statistics, in multiple stages for faster results; no vacuum.
    pub fn analyze_in_stages(self) -> (r: Self)
        ensures
            r == (VacuumDbBuilder { analyze_in_stages: true, ..self }),
    {
        VacuumDbBuilder { analyze_in_stages: true, ..self }
    }

    /// Show help, then exit.
    pub fn help(self) -> (r: Self)
        ensures
            r == (VacuumDbBuilder { help: true, ..self }),
    {
        VacuumDbBuilder { help: true, ..self }
    }

    /// Database server host or socket directory.
    pub fn host(self, host: &str) -> (r: Self)
        ensures
            opt_text(r.host) == Some(host@),
            r == (VacuumDbBuilder { host: r.host, ..self }),
    {
        VacuumDbBuilder { host: Some(String::from_str(host)), ..self }
    }

    /// Database server port.
    pub fn port(self, port: u16) -> (r: Self)
        ensures
            r == (VacuumDbBuilder { port: Some(port), ..self }),
    {
        VacuumDbBuilder { port: Some(port), ..self }
    }

    /// User name to connect as.
    pub fn username(self, username: &str) -> (r: Self)
        ensures
            opt_text(r.username) == Some(username@),
            r == (VacuumDbBuilder { username: r.username, ..self }),
    {
        VacuumDbBuilder { username: Some(String::from_str(username)), ..self }
    }

    /// Never prompt for password.
    pub fn no_password(self) -> (r: Self)
        ensures
            r == (VacuumDbBuilder { no_password: true, ..self }),
    {
        VacuumDbBuilder { no_password: true, ..self }
    }

    /// Force password prompt.
    pub fn password(self) -> (r: Self)
        ensures
            r == (VacuumDbBuilder { password: true, ..self }),
    {
        VacuumDbBuilder { password: true, ..self }
    }

    /// Alternate maintenance database.
    pub fn maintenance_db(self, maintenance_db: &str) -> (r: Self)
        ensures
            opt_text(r.maintenance_db) == Some(maintenance_db@),
            r == (VacuumDbBuilder { maintenance_db: r.maintenance_db, ..self }),
    {
        VacuumDbBuilder { maintenance_db: Some(String::from_str(maintenance_db)), ..self }
    }

}

impl Default for VacuumDbBuilder {
    fn default() -> (r: Self)
        ensures
            r == Self::unconfigured(),
    {
        Self::new()
    }
}

impl CommandBuilder for VacuumDbBuilder {
    open spec fn program_spec(&self) -> Seq<char> {
        "vacuumdb"@
    }

    open spec fn program_dir_spec(&self) -> Option<Seq<char>> {
        opt_text(self.program_dir)
    }

    open spec fn args_spec(&self) -> Seq<Seq<char>> {
        self.vacuumdb_args()
    }

    fn get_program(&self) -> (r: String) {
        String::from_str("vacuumdb")
    }

    fn get_program_dir(&self) -> (r: Option<String>) {
        clone_opt(&self.program_dir)
    }

    fn get_args(&self) -> (r: Vec<String>) {
        let mut args: Vec<String> = Vec::new();
        assert(texts(args@) =~= Seq::empty());
        self.push_head_args(&mut args);
        self.push_middle_args(&mut args);
        self.push_tail_args(&mut args);
        assert(texts(args@) =~= self.vacuumdb_args());
        args
    }
}

impl VacuumDbBuilder {
    /// Appends the arguments up to `--force-index-cleanup`.
    fn push_head_args(&self, args: &mut Vec<String>)
        ensures
            texts(final(args)@) == texts(old(args)@) + self.head_args(),
    {
        let ghost start = texts(args@);
        let ghost mut done: Seq<Seq<char>> = Seq::empty();
        push_flag(args, self.all, "--all");
        proof {
            assert(texts(args@) =~= start + flag_arg(self.all, "--all"@));
            done = flag_arg(self.all, "--all"@);
        }
        push_text(args, &self.buffer_usage_limit, "--buffer-usage-limit");
        proof {
            lemma_concat_associative(start, done, text_arg(self.buffer_usage_limit, "--buffer-usage-limit"@));
            done = done + text_arg(self.buffer_usage_limit, "--buffer-usage-limit"@);
        }
        push_text(args, &self.dbname, "--dbname");
        proof {
            lemma_concat_associative(start, done, text_arg(self.dbname, "--dbname"@));
            done = done + text_arg(self.dbname, "--dbname"@);
        }
        push_flag(args, self.disable_page_skipping, "--disable-page-skipping");
        proof {
            lemma_concat_associative(start, done, flag_arg(self.disable_page_skipping, "--disable-page-skipping"@));
            done = done + flag_arg(self.disable_page_skipping, "--disable-page-skipping"@);
        }
        push_flag(args, self.echo, "--echo");
        proof {
            lemma_concat_associative(start, done, flag_arg(self.echo, "--echo"@));
            done = done + flag_arg(self.echo, "--echo"@);
        }
        push_flag(args, self.full, "--full");
        proof {
            lemma_concat_associative(start, done, flag_arg(self.full, "--full"@));
            done = done + flag_arg(self.full, "--full"@);
        }
        push_flag(args, self.freeze, "--freeze");
        proof {
            lemma_concat_associative(start, done, flag_arg(self.freeze, "--freeze"@));
            done = done + flag_arg(self.freeze, "--freeze"@);
        }
        push_flag(args, self.force_index_cleanup, "--force-index-cleanup");
        proof {
            lemma_concat_associative(start, done, flag_arg(self.force_index_cleanup, "--force-index-cleanup"@));
            done = done + flag_arg(self.force_index_cleanup, "--force-index-cleanup"@);
        }
    }

    /// Appends the arguments from `--jobs` up to `--host`.
    fn push_middle_args(&self, args: &mut Vec<String>)
        ensures
            texts(final(args)@) == texts(old(args)@) + self.middle_args(),
    {
        let ghost start = texts(args@);
        let ghost mut done: Seq<Seq<char>> = Seq::empty();
        push_number(args, widen_u32(self.jobs), "--jobs");
        proof {
            assert(texts(args@) =~= start + number_arg(nat_opt_u32(self.jobs), "--jobs"@));
            done = number_arg(nat_opt_u32(self.jobs), "--jobs"@);
        }
        push_text(args, &self.min_mxid_age, "--min-mxid-age");
        proof {
            lemma_concat_associative(start, done, text_arg(self.min_mxid_age, "--min-mxid-age"@));
            done = done + text_arg(self.min_mxid_age, "--min-mxid-age"@);
        }
        push_text(args, &self.min_xid_age, "--min-xid-age");
        proof {
            lemma_concat_associative(start, done, text_arg(self.min_xid_age, "--min-xid-age"@));
            done = done + text_arg(self.min_xid_age, "--min-xid-age"@);
        }
        push_flag(args, self.no_index_cleanup, "--no-index-cleanup");
        proof {
            lemma_concat_associative(start, done, flag_arg(self.no_index_cleanup, "--no-index-cleanup"@));
            done = done + flag_arg(self.no_index_cleanup, "--no-index-cleanup"@);
        }
        push_flag(args, self.no_process_main, "--no-process-main");
        proof {
            lemma_concat_associative(start, done, flag_arg(self.no_process_main, "--no-process-main"@));
            done = done + flag_arg(self.no_process_main, "--no-process-main"@);
        }
        push_flag(args, self.no_process_toast, "--no-process-toast");
        proof {
            lemma_concat_associative(start, done, flag_arg(self.no_process_toast, "--no-process-toast"@));
            done = done + flag_arg(self.no_process_toast, "--no-process-toast"@);
        }
        push_flag(args, self.no_truncate, "--no-truncate");
        proof {
            lemma_concat_associative(start, done, flag_arg(self.no_truncate, "--no-truncate"@));
            done = done + flag_arg(self.no_truncate, "--no-truncate"@);
        }
        push_text(args, &self.schema, "--schema");
        proof {
            lemma_concat_associative(start, done, text_arg(self.schema, "--schema"@));
            done = done + text_arg(self.schema, "--schema"@);
        }
        push_text(args, &self.exclude_schema, "--exclude-schema");
        proof {
            lemma_concat_associative(start, done, text_arg(self.exclude_schema, "--exclude-schema"@));
            done = done + text_arg(self.exclude_schema, "--exclude-schema"@);
        }
        push_number(args, widen_u32(self.parallel), "--parallel");
        proof {
            lemma_concat_associative(start, done, number_arg(nat_opt_u32(self.parallel), "--parallel"@));
            done = done + number_arg(nat_opt_u32(self.parallel), "--parallel"@);
        }
        push_flag(args, self.quiet, "--quiet");
        proof {
            lemma_concat_associative(start, done, flag_arg(self.quiet, "--quiet"@));
            done = done + flag_arg(self.quiet, "--quiet"@);
        }
        push_flag(args, self.skip_locked, "--skip-locked");
        proof {
            lemma_concat_associative(start, done, flag_arg(self.skip_locked, "--skip-locked"@));
            done = done + flag_arg(self.skip_locked, "--skip-locked"@);
        }
        push_text(args, &self.table, "--table");
        proof {
            lemma_concat_associative(start, done, text_arg(self.table, "--table"@));
            done = done + text_arg(self.table, "--table"@);
        }
        push_flag(args, self.verbose, "--verbose");
        proof {
            lemma_concat_associative(start, done, flag_arg(self.verbose, "--verbose"@));
            done = done + flag_arg(self.verbose, "--verbose"@);
        }
        push_flag(args, self.version, "--version");
        proof {
            lemma_concat_associative(start, done, flag_arg(self.version, "--version"@));
            done = done + flag_arg(self.version, "--version"@);
        }
        push_flag(args, self.analyze, "--analyze");
        proof {
            lemma_concat_associative(start, done, flag_arg(self.analyze, "--analyze"@));
            done = done + flag_arg(self.analyze, "--analyze"@);
        }
        push_flag(args, self.analyze_only, "--analyze-only");
        proof {
            lemma_concat_associative(start, done, flag_arg(self.analyze_only, "--analyze-only"@));
            done = done + flag_arg(self.analyze_only, "--analyze-only"@);
        }
        push_flag(args, self.analyze_in_stages, "--analyze-in-stages");
        proof {
            lemma_concat_associative(start, done, flag_arg(self.analyze_in_stages, "--analyze-in-stages"@));
            done = done + flag_arg(self.analyze_in_stages, "--analyze-in-stages"@);
        }
        push_flag(args, self.help, "--help");
        proof {
            lemma_concat_associative(start, done, flag_arg(self.help, "--help"@));
            done = done + flag_arg(self.help, "--help"@);
        }
        push_text(args, &self.host, "--host");
        proof {
            lemma_concat_associative(start, done, text_arg(self.host, "--host"@));
            done = done + text_arg(self.host, "--host"@);
        }
    }

    /// Appends the arguments from `--port` on.
    fn push_tail_args(&self, args: &mut Vec<String>)
        ensures
            texts(final(args)@) == texts(old(args)@) + self.tail_args(),
    {
        let ghost start = texts(args@);
        let ghost mut done: Seq<Seq<char>> = Seq::empty();
        push_number(args, widen_u16(self.port), "--port");
        proof {
            assert(texts(args@) =~= start + number_arg(nat_opt_u16(self.port), "--port"@));
            done = number_arg(nat_opt_u16(self.port), "--port"@);
        }
        push_text(args, &self.username, "--username");
        proof {
            lemma_concat_associative(start, done, text_arg(self.username, "--username"@));
            done = done + text_arg(self.username, "--username"@);
        }
        push_flag(args, self.no_password, "--no-password");
        proof {
            lemma_concat_associative(start, done, flag_arg(self.no_password, "--no-password"@));
            done = done + flag_arg(self.no_password, "--no-password"@);
        }
        push_flag(args, self.password, "--password");
        proof {
            lemma_concat_associative(start, done, flag_arg(self.password, "--password"@));
            done = done + flag_arg(self.password, "--password"@);
        }
        push_text(args, &self.maintenance_db, "--maintenance-db");
        proof {
            lemma_concat_associative(start, done, text_arg(self.maintenance_db, "--maintenance-db"@));
            done = done + text_arg(self.maintenance_db, "--maintenance-db"@);
        }
    }
}

/// Configuring "all databases", a number of jobs and a port gives the same
/// builder whichever order the setters run in, and its arguments hold
/// `--all`, `--jobs` and `--port` in that relative order.
pub proof fn lemma_vacuumdb_order_fixed(b: VacuumDbBuilder, jobs: u32, port: u16)
    ensures
        ({
            let one = VacuumDbBuilder {
                port: Some(port),
                ..VacuumDbBuilder { jobs: Some(jobs), ..VacuumDbBuilder { all: true, ..b } }
            };
            let other = VacuumDbBuilder {
                all: true,
                ..VacuumDbBuilder { jobs: Some(jobs), ..VacuumDbBuilder { port: Some(port), ..b } }
            };
            let args = one.args_spec();
            &&& one == other
            &&& exists|i: int, k: int, m: int|
                0 <= i < k < m < args.len() && args[i] == "--all"@ && args[k] == "--jobs"@
                    && args[m] == "--port"@
        }),
{
    let one = VacuumDbBuilder {
        port: Some(port),
        ..VacuumDbBuilder { jobs: Some(jobs), ..VacuumDbBuilder { all: true, ..b } }
    };
    lemma_head_starts_with_all(one);
    lemma_middle_starts_with_jobs(one);
    lemma_tail_starts_with_port(one);
    let head = one.head_args();
    let middle = one.middle_args();
    let args = one.args_spec();
    assert(args[0] == "--all"@);
    assert(args[head.len() as int] == "--jobs"@);
    assert(args[(head.len() + middle.len()) as int] == "--port"@);
    assert(0 <= 0 < head.len() < head.len() + middle.len() < args.len());
}

proof fn lemma_head_starts_with_all(b: VacuumDbBuilder)
    requires
        b.all,
    ensures
        b.head_args().len() > 0,
        b.head_args()[0] == "--all"@,
{
    lemma_flag_set("--all"@);
}

proof fn lemma_middle_starts_with_jobs(b: VacuumDbBuilder)
    requires
        b.jobs is Some,
    ensures
        b.middle_args().len() > 0,
        b.middle_args()[0] == "--jobs"@,
{
    lemma_number_set(b.jobs->Some_0 as nat, "--jobs"@);
    let first = number_arg(nat_opt_u32(b.jobs), "--jobs"@);
    assert(first.len() > 0 && first[0] == "--jobs"@);
}

proof fn lemma_tail_starts_with_port(b: VacuumDbBuilder)
    requires
        b.port is Some,
    ensures
        b.tail_args().len() > 0,
        b.tail_args()[0] == "--port"@,
{
    lemma_number_set(b.port->Some_0 as nat, "--port"@);
}

} // verus!
