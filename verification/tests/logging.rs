use kos::file_logging::{
    directives, level_named, log_file_name, parse_log_level, CompressedWriter, LevelFilter,
    WriteStep, COMPRESSION_LEVEL, DRAIN_MILLIS,
};

#[test]
fn levels_by_name() {
    assert_eq!(level_named("trace"), Some(LevelFilter::Trace));
    assert_eq!(level_named("debug"), Some(LevelFilter::Debug));
    assert_eq!(level_named("info"), Some(LevelFilter::Info));
    assert_eq!(level_named("warn"), Some(LevelFilter::Warn));
    assert_eq!(level_named("error"), Some(LevelFilter::Error));
    assert_eq!(level_named("Info"), None);
    assert_eq!(level_named("warning"), None);
    assert_eq!(level_named(""), None);
}

#[test]
fn levels_are_understood_in_any_case() {
    assert_eq!(parse_log_level("DEBUG"), (LevelFilter::Debug, true));
    assert_eq!(parse_log_level("Trace"), (LevelFilter::Trace, true));
    assert_eq!(parse_log_level("wArN"), (LevelFilter::Warn, true));
    assert_eq!(parse_log_level("error"), (LevelFilter::Error, true));
    assert_eq!(parse_log_level("INFO"), (LevelFilter::Info, true));
}

#[test]
fn an_unknown_level_stands_for_info() {
    assert_eq!(parse_log_level("verbose"), (LevelFilter::Info, false));
    assert_eq!(parse_log_level(""), (LevelFilter::Info, false));
    assert_eq!(parse_log_level(" info"), (LevelFilter::Info, false));
}

#[test]
fn log_file_names() {
    assert_eq!(log_file_name("20240131_235959"), "kos-daemon_20240131_235959.log.gz");
    assert_eq!(log_file_name(""), "kos-daemon_.log.gz");
}

#[test]
fn console_directives() {
    assert_eq!(
        directives("debug"),
        vec![
            "kos=debug",
            "h2=error",
            "grpc=error",
            "rumqttc=error",
            "kos_core::telemetry=error",
            "polling=error",
            "async_io=error",
            "krec=error"
        ]
    );
}

#[test]
fn a_write_is_synced_when_it_took_something_of_a_buffer_with_a_line_feed() {
    assert!(CompressedWriter::sync(3, &b"ab\n".to_vec()));
    assert!(CompressedWriter::sync(1, &b"\nabc".to_vec()));
    assert!(!CompressedWriter::sync(0, &b"ab\n".to_vec()));
    assert!(!CompressedWriter::sync(3, &b"abc".to_vec()));
    assert!(!CompressedWriter::sync(0, &vec![]));
    assert!(!CompressedWriter::sync(5, &vec![]));
}

#[test]
fn a_finalized_writer_refuses_writes() {
    let mut w = CompressedWriter::new("/var/log/kos.log.gz");
    assert_eq!(w.path(), "/var/log/kos.log.gz");
    assert_eq!(w.write(), WriteStep::Encode);
    assert!(w.finalize());
    assert_eq!(w.write(), WriteStep::Refuse);
    assert!(!w.finalize());
    assert_eq!(w.write(), WriteStep::Refuse);
    assert_eq!(w.path(), "/var/log/kos.log.gz");
    assert_eq!(COMPRESSION_LEVEL, 6);
    assert_eq!(DRAIN_MILLIS, 100);
}
