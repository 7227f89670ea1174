use haven::server::router::{content_type, is_mobile_ua, percent_decode};

#[test]
fn is_mobile_ua_desktop_returns_false() {
    assert!(!is_mobile_ua("Mozilla/5.0 (Macintosh; Intel Mac OS X 10_15_7) AppleWebKit/537.36"));
    assert!(!is_mobile_ua("Mozilla/5.0 (Windows NT 10.0; Win64; x64) AppleWebKit/537.36"));
    assert!(!is_mobile_ua(""));
}

#[test]
fn is_mobile_ua_mobile_keyword_returns_true() {
    assert!(is_mobile_ua("Mozilla/5.0 (Linux; Android 14) Mobile"));
    assert!(is_mobile_ua("Mozilla/5.0 (Linux; Android 14; Pixel 8)"));
    assert!(is_mobile_ua("Mozilla/5.0 (iPhone; CPU iPhone OS 17_0 like Mac OS X)"));
    assert!(is_mobile_ua("Mozilla/5.0 (iPad; CPU OS 17_0 like Mac OS X)"));
    assert!(is_mobile_ua("Mozilla/5.0 (iPod touch; CPU iPhone OS 17_0 like Mac OS X)"));
}

#[test]
fn content_type_js() {
    assert_eq!(content_type("script.js"), "application/javascript");
}

#[test]
fn content_type_html() {
    assert_eq!(content_type("page.html"), "text/html");
}

#[test]
fn content_type_css() {
    assert_eq!(content_type("style.css"), "text/css");
}

#[test]
fn content_type_svg() {
    assert_eq!(content_type("flag.svg"), "image/svg+xml");
    assert_eq!(content_type("resources/web_resources/assets/flags/US.svg"), "image/svg+xml");
}

#[test]
fn content_type_unknown_falls_back_to_octet_stream() {
    assert_eq!(content_type("file.bin"), "application/octet-stream");
    assert_eq!(content_type("data.json"), "application/octet-stream");
    assert_eq!(content_type("noextension"), "application/octet-stream");
}

#[test]
fn percent_decode_plain_passthrough() {
    assert_eq!(
        percent_decode("resources/web_resources/assets/flags/US.svg"),
        "resources/web_resources/assets/flags/US.svg"
    );
}

#[test]
fn percent_decode_space() {
    assert_eq!(percent_decode("some%20path.svg"), "some path.svg");
    assert_eq!(percent_decode("a%20b%20c"), "a b c");
}

#[test]
fn percent_decode_invalid_sequence_passed_through() {
    assert_eq!(percent_decode("a%2Zb"), "a%2Zb");
    assert_eq!(percent_decode("a%"), "a%");
}

#[test]
fn content_type_path_with_directories() {
    assert_eq!(content_type("resources/page_scripts/client.js"), "application/javascript");
    assert_eq!(content_type("resources/html_pages/index.html"), "text/html");
}
