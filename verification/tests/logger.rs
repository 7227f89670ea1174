use haven::logger::{console_line, level_icon, EmitContext, LogLevel, Logger};

fn ctx() -> EmitContext {
    EmitContext { timestamp: "2026-01-01 00:00:00:000".to_string(), pid: 42, tid: 7 }
}

#[test]
fn from_str_all_valid_lowercase() {
    assert_eq!(LogLevel::from_str("trace"), Some(LogLevel::Trace));
    assert_eq!(LogLevel::from_str("debug"), Some(LogLevel::Debug));
    assert_eq!(LogLevel::from_str("info"), Some(LogLevel::Info));
    assert_eq!(LogLevel::from_str("warn"), Some(LogLevel::Warn));
    assert_eq!(LogLevel::from_str("error"), Some(LogLevel::Error));
    assert_eq!(LogLevel::from_str("off"), Some(LogLevel::Off));
}

#[test]
fn from_str_case_insensitive() {
    assert_eq!(LogLevel::from_str("INFO"), Some(LogLevel::Info));
    assert_eq!(LogLevel::from_str("Debug"), Some(LogLevel::Debug));
    assert_eq!(LogLevel::from_str("WARN"), Some(LogLevel::Warn));
    assert_eq!(LogLevel::from_str("ERROR"), Some(LogLevel::Error));
}

#[test]
fn from_str_invalid_returns_none() {
    assert_eq!(LogLevel::from_str("verbose"), None);
    assert_eq!(LogLevel::from_str(""), None);
    assert_eq!(LogLevel::from_str("INFO2"), None);
    assert_eq!(LogLevel::from_str("log"), None);
}

#[test]
fn partial_ord_ordering_is_correct() {
    assert!(LogLevel::Trace < LogLevel::Debug);
    assert!(LogLevel::Debug < LogLevel::Info);
    assert!(LogLevel::Info < LogLevel::Warn);
    assert!(LogLevel::Warn < LogLevel::Error);
    assert!(LogLevel::Error < LogLevel::Off);
}

#[test]
fn set_and_get_level_round_trip() {
    let mut logger = Logger::new();
    logger.set_level(LogLevel::Debug, &ctx());
    assert_eq!(logger.current_level(), LogLevel::Debug);
    logger.set_level(LogLevel::Info, &ctx());
    assert_eq!(logger.current_level(), LogLevel::Info);
}

#[test]
fn from_u8_maps_ranks_and_saturates_to_off() {
    assert_eq!(LogLevel::from(0u8), LogLevel::Trace);
    assert_eq!(LogLevel::from(2u8), LogLevel::Info);
    assert_eq!(LogLevel::from(4u8), LogLevel::Error);
    assert_eq!(LogLevel::from(5u8), LogLevel::Off);
    assert_eq!(LogLevel::from(200u8), LogLevel::Off);
    assert_eq!(LogLevel::Warn.as_u8(), 3);
}

#[test]
fn messages_below_the_level_are_filtered() {
    let mut logger = Logger::new();
    assert!(logger.debug("core", "hidden", &ctx()).is_none());
    let line = logger.warn("core", "shown", &ctx()).expect("warn passes at info");
    assert_eq!(line.level, "WARN");
    assert_eq!(line.tag, "core");
    assert_eq!(line.message, "shown");
    assert_eq!(line.pid, 42);
    assert_eq!(line.tid, 7);
    assert_eq!(logger.get_history().len(), 1);
}

#[test]
fn set_level_logs_the_change_unless_filtered() {
    let mut logger = Logger::new();
    let line = logger.set_level(LogLevel::Debug, &ctx()).expect("info passes at debug");
    assert_eq!(line.message, "Log level changed to Debug");
    assert_eq!(line.tag, "server");
    assert!(logger.set_level(LogLevel::Error, &ctx()).is_none());
    assert_eq!(logger.get_history().len(), 1);
}

#[test]
fn off_is_never_emitted() {
    let mut logger = Logger::new();
    logger.set_level(LogLevel::Trace, &ctx());
    assert!(logger.emit(LogLevel::Off, "x", "y", &ctx()).is_none());
}

#[test]
fn console_line_pads_level_and_thread_id() {
    let mut logger = Logger::new();
    let line = logger.info("http", "hello", &ctx()).unwrap();
    let text = console_line(&line, LogLevel::Info);
    assert_eq!(text, "[2026-01-01 00:00:00:000] 🟦 [ INFO] [PID:42 TID:  7] [http] hello");
    assert_eq!(level_icon(LogLevel::Error), "🟥");
    assert_eq!(level_icon(LogLevel::Off), "");
}

#[test]
fn time_stamps_are_local_and_millisecond_precise() {
    assert_eq!(haven::logger::get_time(0, 0), "1970-01-01 00:00:00:000");
    assert_eq!(haven::logger::get_time(1_500_000_000, 3600), "1970-01-01 01:00:01:500");
    assert_eq!(haven::logger::get_time(86_399_999_000_000, 0), "1970-01-01 23:59:59:999");
}
