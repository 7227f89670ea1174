use haven::vpn::sysinfo::{parse_cpu_temp as cpu_millidegrees, parse_mem_free, parse_mem_total, system_info, uptime_field};

fn parse_uptime(s: &str) -> u64 {
    uptime_field(s)
        .and_then(|v| v.parse::<f64>().ok())
        .map(|v| v as u64)
        .unwrap_or(0)
}

fn parse_cpu_temp(s: &str) -> Option<f32> {
    cpu_millidegrees(s).map(|v| v as f32 / 1000.0)
}

#[test]
fn read_cpu_temp_invalid_content_returns_none() {
    assert_eq!(parse_cpu_temp("not_a_number\n"), None);
    assert_eq!(parse_cpu_temp(""), None);
}

#[test]
fn read_cpu_temp_valid_millidegrees_converts_correctly() {
    assert!((parse_cpu_temp("48000\n").unwrap() - 48.0).abs() < 0.001);
    assert!((parse_cpu_temp("55500").unwrap() - 55.5).abs() < 0.001);
}

#[test]
fn read_uptime_invalid_content_returns_zero() {
    assert_eq!(parse_uptime(""), 0);
    assert_eq!(parse_uptime("not a number"), 0);
}

#[test]
fn read_uptime_valid_content_parses_first_field() {
    assert_eq!(parse_uptime("3600.42 1234.56\n"), 3600);
    assert_eq!(parse_uptime("120.0 60.0"), 120);
}

#[test]
fn read_mem_free_missing_key_returns_zero() {
    assert_eq!(parse_mem_free("MemTotal: 8000000 kB\n"), 0);
    assert_eq!(parse_mem_free(""), 0);
}

#[test]
fn read_mem_free_valid_content_returns_kb() {
    let content = "MemTotal:       8000000 kB\nMemAvailable:   3500000 kB\n";
    assert_eq!(parse_mem_free(content), 3_500_000);
}

#[test]
fn read_mem_total_missing_key_returns_zero() {
    assert_eq!(parse_mem_total("MemAvailable: 3500000 kB\n"), 0);
    assert_eq!(parse_mem_total(""), 0);
}

#[test]
fn read_mem_total_valid_content_returns_kb() {
    let content = "MemTotal:       8000000 kB\nMemAvailable:   3500000 kB\n";
    assert_eq!(parse_mem_total(content), 8_000_000);
}

#[test]
fn cpu_temp_handles_negative_and_range() {
    assert_eq!(cpu_millidegrees("  -1500 \n"), Some(-1500));
    assert_eq!(cpu_millidegrees("2147483648"), None);
    assert_eq!(cpu_millidegrees("-2147483648"), Some(i32::MIN));
}

#[test]
fn uptime_field_is_the_first_word() {
    assert_eq!(uptime_field("3600.42 1234.56\n"), Some("3600.42".to_string()));
    assert_eq!(uptime_field("  \t 1e3\n"), Some("1e3".to_string()));
    assert_eq!(uptime_field(" \n "), None);
    assert_eq!(uptime_field(""), None);
    assert_eq!(parse_uptime("1e3 5"), 1000);
    assert_eq!(parse_uptime("0.99999999999999999999"), 1);
}

#[test]
fn system_info_without_files_is_empty() {
    let info = system_info(None, 0, None);
    assert_eq!(info.cpu_temp_millidegrees, None);
    assert_eq!(info.uptime_s, 0);
    assert_eq!(info.mem_free_kb, 0);
    assert_eq!(info.mem_total_kb, 0);
    let info = system_info(
        Some("51234\n".to_string()),
        10,
        Some("MemTotal: 10 kB\nMemAvailable: 4 kB\n".to_string()),
    );
    assert_eq!(info.cpu_temp_millidegrees, Some(51234));
    assert_eq!(info.uptime_s, 10);
    assert_eq!(info.mem_free_kb, 4);
    assert_eq!(info.mem_total_kb, 10);
}

