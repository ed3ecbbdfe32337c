use postgresql_embedded::command::CommandBuilder;
use postgresql_embedded::pg_test_timing::PgTestTimingBuilder;
use std::path::PathBuf;

#[test]
fn pg_test_timing_test_builder_new() {
    let command = PgTestTimingBuilder::new().program_dir(".").build();

    assert_eq!(
        PathBuf::from(".").join("pg_test_timing"),
        PathBuf::from(command.to_command_string().replace("\"", ""))
    );
}

#[test]
fn pg_test_timing_test_builder() {
    let command = PgTestTimingBuilder::new().duration("10").build();

    assert_eq!(r#""pg_test_timing" "-d" "10""#, command.to_command_string());
}

#[test]
fn pg_test_timing_without_options_has_no_args() {
    let builder = PgTestTimingBuilder::new();
    assert_eq!(builder.get_program(), "pg_test_timing");
    assert_eq!(builder.get_program_dir(), None);
    assert!(builder.get_args().is_empty());
    assert_eq!(builder.build().to_command_string(), r#""pg_test_timing""#);
}

#[test]
fn pg_test_timing_default_is_unconfigured() {
    let builder = PgTestTimingBuilder::default();
    assert!(builder.get_args().is_empty());
    assert_eq!(builder.program_dir("/opt/pg/bin").get_program_dir(), Some("/opt/pg/bin".to_string()));
}
