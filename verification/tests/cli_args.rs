use haven::config::args::{parse_args, EarlyExit};
use haven::new_src::args_reader::{looks_like_negative_number, read_args, RawArgs};
use haven::new_src::args_validator::{parse_and_validate, validate};
use haven::new_src::commander::cli_command_template::CliCommandTemplate;
use haven::utils::args_reader::{get_server_config, is_valid_ipv4};

fn args(v: &[&str]) -> Vec<String> {
    v.iter().map(|s| s.to_string()).collect()
}

fn ipv4(s: &str) -> bool {
    let cs: Vec<char> = s.chars().collect();
    is_valid_ipv4(&cs)
}

#[test]
fn ipv4_addresses_are_dotted_quads() {
    assert!(ipv4("127.0.0.1"));
    assert!(ipv4("0.0.0.0"));
    assert!(ipv4("255.255.255.255"));
    assert!(!ipv4("256.0.0.1"));
    assert!(!ipv4("01.2.3.4"));
    assert!(!ipv4("1.2.3"));
    assert!(!ipv4("1.2.3.4.5"));
    assert!(!ipv4("1..3.4"));
    assert!(!ipv4("a.b.c.d"));
    assert!(!ipv4(""));
    assert!(!ipv4("+1.2.3.4"));
}

#[test]
fn help_and_version_stop_reading() {
    let cfg = parse_args(args(&["haven", "-h", "--port", "1"]));
    assert_eq!(cfg.early_exit, Some(EarlyExit::Help));
    assert_eq!(cfg.port, 9000);
    let cfg = parse_args(args(&["--version"]));
    assert_eq!(cfg.early_exit, Some(EarlyExit::Version));
    let cfg = parse_args(args(&["haven"]));
    assert_eq!(cfg.early_exit, None);
}

#[test]
fn later_options_win_and_values_are_trimmed() {
    let cfg = parse_args(args(&["-p", "1", "--port= 2 ", "-l", " ERROR "]));
    assert_eq!(cfg.port, 2);
    assert_eq!(cfg.log_level, haven::logger::LogLevel::Error);
}

#[test]
fn raw_args_are_read_without_validation() {
    let raw = read_args(args(&["haven", "--address", " 1.2.3.4 ", "-p=x"]));
    assert_eq!(raw, RawArgs { address: Some("1.2.3.4".to_string()), port: Some("x".to_string()) });
    let raw = read_args(args(&["-a", "-p", "-1"]));
    assert_eq!(raw, RawArgs { address: None, port: Some("-1".to_string()) });
    let raw = read_args(args(&["--port", "--address"]));
    assert_eq!(raw, RawArgs { address: None, port: None });
    let raw = read_args(args(&["port=1", "-p", "5"]));
    assert_eq!(raw.port, Some("5".to_string()));
}

#[test]
fn negative_numbers_are_recognised() {
    assert!(looks_like_negative_number("-1"));
    assert!(looks_like_negative_number("-42"));
    assert!(!looks_like_negative_number("-"));
    assert!(!looks_like_negative_number("-a"));
    assert!(!looks_like_negative_number("5"));
}

#[test]
fn validation_applies_defaults() {
    let v = validate(RawArgs { address: Some("10.0.0.1".to_string()), port: Some("8080".to_string()) });
    assert_eq!((v.address.as_str(), v.port.as_str()), ("10.0.0.1", "8080"));
    let v = validate(RawArgs { address: Some("".to_string()), port: Some("70000".to_string()) });
    assert_eq!((v.address.as_str(), v.port.as_str()), ("127.0.0.1", "9000"));
    let v = validate(RawArgs::default());
    assert_eq!((v.address.as_str(), v.port.as_str()), ("127.0.0.1", "9000"));
    let v = parse_and_validate(args(&["haven", "-p", "-1"]));
    assert_eq!(v.port, "9000");
}

#[test]
fn server_config_reads_address_and_byte_port() {
    let c = get_server_config(&args(&["haven", "-a", "192.168.0.2", "--port", "200"]));
    assert_eq!((c.address.as_str(), c.port.as_str()), ("192.168.0.2", "200"));
    let c = get_server_config(&args(&["haven", "--address", "bad", "-p", "8080"]));
    assert_eq!((c.address.as_str(), c.port.as_str()), ("127.0.0.1", "9000"));
    let c = get_server_config(&args(&[]));
    assert_eq!((c.address.as_str(), c.port.as_str()), ("127.0.0.1", "9000"));
}

#[test]
fn command_templates_join_their_arguments() {
    let t = CliCommandTemplate::new("nmcli ", args(&["connection", "up", "id", "home"]));
    assert_eq!(t.assemble(), "nmcli connection up id home");
    let t = CliCommandTemplate::new("status", Vec::new());
    assert_eq!(t.assemble(), "status");
}
