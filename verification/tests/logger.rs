use hunter_bot::logger::{
    get_padded_loglevel_string, logfile_name, needs_rotate, rotation_notice, route_log, LogLevel,
    LogLevelFilter, LogTarget, Logger,
};

const LEVELS: [LogLevel; 5] =
    [LogLevel::Error, LogLevel::Warn, LogLevel::Info, LogLevel::Debug, LogLevel::Trace];
const FILTERS: [LogLevelFilter; 6] = [
    LogLevelFilter::Off,
    LogLevelFilter::Error,
    LogLevelFilter::Warn,
    LogLevelFilter::Info,
    LogLevelFilter::Debug,
    LogLevelFilter::Trace,
];

#[test]
fn level_names_are_six_wide() {
    assert_eq!(get_padded_loglevel_string(LogLevel::Error), "Error:");
    assert_eq!(get_padded_loglevel_string(LogLevel::Warn), "Warn: ");
    assert_eq!(get_padded_loglevel_string(LogLevel::Info), "Info: ");
    assert_eq!(get_padded_loglevel_string(LogLevel::Debug), "Debug:");
    assert_eq!(get_padded_loglevel_string(LogLevel::Trace), "Trace:");
}

#[test]
fn records_pass_up_to_the_filter() {
    for (f, filter) in FILTERS.iter().enumerate() {
        let logger = Logger::new(filter);
        for (l, level) in LEVELS.iter().enumerate() {
            assert_eq!(logger.enabled(*level), l + 1 <= f, "{:?} {:?}", filter, level);
        }
    }
}

#[test]
fn record_becomes_a_line() {
    let logger = Logger::new(&LogLevelFilter::Info);
    assert_eq!(
        logger.log(" 1-Jan-2024 10:00:00:000000000", LogLevel::Warn, "Thread 'main': careful"),
        Some(" 1-Jan-2024 10:00:00:000000000: Warn:  Thread 'main': careful\n".to_string())
    );
    assert_eq!(logger.log("t", LogLevel::Error, ""), Some("t: Error: \n".to_string()));
    assert_eq!(logger.log("t", LogLevel::Debug, "hidden"), None);
    assert_eq!(Logger::new(&LogLevelFilter::Off).log("t", LogLevel::Error, "x"), None);
}

#[test]
fn crash_marker_passes_as_it_is() {
    let logger = Logger::new(&LogLevelFilter::Trace);
    assert_eq!(
        logger.log("t", LogLevel::Error, "**INTERNAL** CRASH!!!"),
        Some("**INTERNAL** CRASH!!!".to_string())
    );
    assert_eq!(
        logger.log("t", LogLevel::Warn, "**INTERNAL** CRASH!!!"),
        Some("t: Warn:  **INTERNAL** CRASH!!!\n".to_string())
    );
    assert_eq!(
        Logger::new(&LogLevelFilter::Off).log("t", LogLevel::Error, "**INTERNAL** CRASH!!!"),
        None
    );
}

#[test]
fn writer_sorts_messages() {
    assert_eq!(route_log("**INTERNAL** CRASH!!!", LogLevel::Error), LogTarget::Exit);
    assert_eq!(route_log("t: Error: broken\n", LogLevel::Error), LogTarget::ErrorFile);
    assert_eq!(route_log("**INTERNAL** CRASH!!!", LogLevel::Warn), LogTarget::MessageFile);
    assert_eq!(route_log("x", LogLevel::Info), LogTarget::MessageFile);
    assert_eq!(route_log("x", LogLevel::Debug), LogTarget::MessageFile);
    assert_eq!(route_log("x", LogLevel::Trace), LogTarget::MessageFile);
}

#[test]
fn rotation_counts_full_megabytes() {
    assert!(!needs_rotate(0, 5));
    assert!(!needs_rotate(5_999_999, 5));
    assert!(needs_rotate(6_000_000, 5));
    assert!(!needs_rotate(999_999, 0));
    assert!(needs_rotate(1_000_000, 0));
    assert!(!needs_rotate(u64::MAX, u64::MAX));
    assert!(needs_rotate(u64::MAX, 18_446_744_073_708));
    assert!(!needs_rotate(u64::MAX, 18_446_744_073_709));
}

#[test]
fn log_files_are_named_by_variant_date_and_counter() {
    assert_eq!(logfile_name("log-msg", " 1-Jan-2024", 0), "log-msg_ 1-Jan-2024_0.log");
    assert_eq!(logfile_name("log-err", "31-Dec-2024", 12), "log-err_31-Dec-2024_12.log");
}

#[test]
fn rotation_is_announced() {
    assert_eq!(
        rotation_notice("./log-msg_ 1-Jan-2024_1.log"),
        "***INFO: Log has been rotated, further messages are in ./log-msg_ 1-Jan-2024_1.log"
    );
}
