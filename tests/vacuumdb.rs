use postgresql_embedded::command::CommandBuilder;
use postgresql_embedded::vacuumdb::VacuumDbBuilder;
use std::path::PathBuf;

#[test]
fn vacuumdb_test_builder_new() {
    let command = VacuumDbBuilder::new().program_dir(".").build();

    assert_eq!(
        PathBuf::from(".").join("vacuumdb"),
        PathBuf::from(command.to_command_string().replace("\"", ""))
    );
}

#[test]
fn vacuumdb_test_builder() {
    let command = VacuumDbBuilder::new()
        .all()
        .buffer_usage_limit("buffer_usage_limit")
        .dbname("dbname")
        .disable_page_skipping()
        .echo()
        .full()
        .freeze()
        .force_index_cleanup()
        .jobs(1)
        .min_mxid_age("min_mxid_age")
        .min_xid_age("min_xid_age")
        .no_index_cleanup()
        .no_process_main()
        .no_process_toast()
        .no_truncate()
        .schema("schema")
        .exclude_schema("exclude_schema")
        .parallel(1)
        .quiet()
        .skip_locked()
        .table("table")
        .verbose()
        .version()
        .analyze()
        .analyze_only()
        .analyze_in_stages()
        .help()
        .host("localhost")
        .port(5432)
        .username("username")
        .no_password()
        .password()
        .maintenance_db("maintenance_db")
        .build();

    assert_eq!(
        r#""vacuumdb" "--all" "--buffer-usage-limit" "buffer_usage_limit" "--dbname" "dbname" "--disable-page-skipping" "--echo" "--full" "--freeze" "--force-index-cleanup" "--jobs" "1" "--min-mxid-age" "min_mxid_age" "--min-xid-age" "min_xid_age" "--no-index-cleanup" "--no-process-main" "--no-process-toast" "--no-truncate" "--schema" "schema" "--exclude-schema" "exclude_schema" "--parallel" "1" "--quiet" "--skip-locked" "--table" "table" "--verbose" "--version" "--analyze" "--analyze-only" "--analyze-in-stages" "--help" "--host" "localhost" "--port" "5432" "--username" "username" "--no-password" "--password" "--maintenance-db" "maintenance_db""#,
        command.to_command_string()
    );
}

#[test]
fn vacuumdb_order_does_not_depend_on_call_order() {
    let a = VacuumDbBuilder::new().all().jobs(1).port(5432).get_args();
    let b = VacuumDbBuilder::new().port(5432).jobs(1).all().get_args();
    let expected: Vec<String> = vec![
        "--all".to_string(),
        "--jobs".to_string(),
        "1".to_string(),
        "--port".to_string(),
        "5432".to_string(),
    ];
    assert_eq!(a, expected);
    assert_eq!(b, expected);
}

#[test]
fn vacuumdb_args_repeat_identically() {
    let builder = VacuumDbBuilder::new().dbname("db").verbose().parallel(4);
    assert_eq!(builder.get_args(), builder.get_args());
    assert_eq!(builder.build().args, builder.get_args());
}

#[test]
fn vacuumdb_contradictory_password_flags_are_both_emitted() {
    let args = VacuumDbBuilder::new().password().no_password().get_args();
    assert_eq!(args, vec!["--no-password".to_string(), "--password".to_string()]);
}

#[test]
fn vacuumdb_numbers_in_decimal() {
    let args = VacuumDbBuilder::new().jobs(4294967295).port(0).get_args();
    assert_eq!(args, vec!["--jobs", "4294967295", "--port", "0"]);
    let args = VacuumDbBuilder::new().port(65535).parallel(10).get_args();
    assert_eq!(args, vec!["--parallel", "10", "--port", "65535"]);
}

#[test]
fn vacuumdb_program_dir_joins_paths() {
    let with_slash = VacuumDbBuilder::new().program_dir("/usr/bin/").build();
    assert_eq!(with_slash.program_path(), "/usr/bin/vacuumdb");
    let without = VacuumDbBuilder::new().program_dir("/usr/bin").build();
    assert_eq!(without.program_path(), "/usr/bin/vacuumdb");
    let empty = VacuumDbBuilder::new().program_dir("").build();
    assert_eq!(empty.program_path(), "vacuumdb");
    let none = VacuumDbBuilder::new().build();
    assert_eq!(none.program_path(), "vacuumdb");
}

#[test]
fn vacuumdb_default_is_unconfigured() {
    let builder = VacuumDbBuilder::default();
    assert!(builder.get_args().is_empty());
    assert_eq!(builder.get_program(), "vacuumdb");
    assert_eq!(builder.get_program_dir(), None);
}
