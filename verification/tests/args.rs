use haven::config::args::{parse_args, AutostartAction};
use haven::logger::LogLevel;

fn args(v: &[&str]) -> Vec<String> {
    v.iter().map(|s| s.to_string()).collect()
}

#[test]
fn no_args_gives_defaults() {
    let cfg = parse_args(args(&[]));
    assert_eq!(cfg.address,   "127.0.0.1");
    assert_eq!(cfg.port,      9000);
    assert_eq!(cfg.log_level, LogLevel::Info);
}

#[test]
fn long_flags_are_parsed() {
    let cfg = parse_args(args(&["--address", "0.0.0.0", "--port", "8080", "--log-level", "debug"]));
    assert_eq!(cfg.address,   "0.0.0.0");
    assert_eq!(cfg.port,      8080);
    assert_eq!(cfg.log_level, LogLevel::Debug);
}

#[test]
fn short_flags_are_parsed() {
    let cfg = parse_args(args(&["-a", "192.168.1.1", "-p", "1234", "-l", "warn"]));
    assert_eq!(cfg.address,   "192.168.1.1");
    assert_eq!(cfg.port,      1234);
    assert_eq!(cfg.log_level, LogLevel::Warn);
}

#[test]
fn equals_form_is_parsed() {
    let cfg = parse_args(args(&["--address=0.0.0.0", "--port=8080", "--log-level=error"]));
    assert_eq!(cfg.address,   "0.0.0.0");
    assert_eq!(cfg.port,      8080);
    assert_eq!(cfg.log_level, LogLevel::Error);
}

#[test]
fn binary_name_is_skipped() {
    let cfg = parse_args(args(&["haven", "--port", "1111"]));
    assert_eq!(cfg.port, 1111);
}

#[test]
fn invalid_ip_uses_default() {
    let cfg = parse_args(args(&["--address", "not-an-ip"]));
    assert_eq!(cfg.address, "127.0.0.1");
}

#[test]
fn invalid_port_zero_uses_default() {
    let cfg = parse_args(args(&["--port", "0"]));
    assert_eq!(cfg.port, 9000);
}

#[test]
fn invalid_port_text_uses_default() {
    let cfg = parse_args(args(&["--port", "notaport"]));
    assert_eq!(cfg.port, 9000);
}

#[test]
fn unknown_flag_is_ignored() {
    let cfg = parse_args(args(&["--unknown", "value"]));
    assert_eq!(cfg.address, "127.0.0.1");
    assert_eq!(cfg.port,    9000);
}

#[test]
fn setup_autostart_long_flag() {
    let cfg = parse_args(args(&["--setup-autostart"]));
    assert_eq!(cfg.autostart_action, Some(AutostartAction::Setup));
    assert!(!cfg.address_specified);
}

#[test]
fn setup_autostart_short_flag() {
    let cfg = parse_args(args(&["-A"]));
    assert_eq!(cfg.autostart_action, Some(AutostartAction::Setup));
}

#[test]
fn remove_autostart_long_flag() {
    let cfg = parse_args(args(&["--remove-autostart"]));
    assert_eq!(cfg.autostart_action, Some(AutostartAction::Remove));
    assert!(!cfg.address_specified);
}

#[test]
fn remove_autostart_short_flag() {
    let cfg = parse_args(args(&["-R"]));
    assert_eq!(cfg.autostart_action, Some(AutostartAction::Remove));
}

#[test]
fn autostart_with_valid_address_sets_address_specified() {
    let cfg = parse_args(args(&["-A", "-a", "0.0.0.0"]));
    assert_eq!(cfg.autostart_action, Some(AutostartAction::Setup));
    assert!(cfg.address_specified);
    assert_eq!(cfg.address, "0.0.0.0");
}

#[test]
fn autostart_with_invalid_address_leaves_address_specified_false() {
    let cfg = parse_args(args(&["-A", "-a", "not-an-ip"]));
    assert_eq!(cfg.autostart_action, Some(AutostartAction::Setup));
    assert!(!cfg.address_specified);
}

#[test]
fn all_log_levels_parse() {
    for (s, expected) in &[
        ("trace", LogLevel::Trace),
        ("debug", LogLevel::Debug),
        ("info",  LogLevel::Info),
        ("warn",  LogLevel::Warn),
        ("error", LogLevel::Error),
        ("off",   LogLevel::Off),
    ] {
        let cfg = parse_args(args(&["-l", s]));
        assert_eq!(cfg.log_level, *expected, "failed for level '{}'", s);
    }
}
