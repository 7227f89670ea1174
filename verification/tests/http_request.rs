use haven::requests::http_method::HttpMethod;
use haven::requests::http_request::HttpRequest;

#[test]
fn valid_get_request_parses() {
    let req = HttpRequest::new("GET / HTTP/1.1\r\nHost: localhost\r\n\r\n");
    assert!(req.is_some());
    let req = req.unwrap();
    assert!(matches!(req.method, HttpMethod::GET));
    assert_eq!(req.path, "/");
    assert_eq!(req.body, None);
}

#[test]
fn valid_post_request_with_body_parses() {
    let raw = "POST /api/config HTTP/1.1\r\nContent-Type: application/json\r\n\r\n{\"log_level\":\"debug\"}";
    let req = HttpRequest::new(raw).unwrap();
    assert!(matches!(req.method, HttpMethod::POST));
    assert_eq!(req.path, "/api/config");
    assert_eq!(req.body, Some("{\"log_level\":\"debug\"}".to_string()));
}

#[test]
fn empty_input_returns_none() {
    assert!(HttpRequest::new("").is_none());
}

#[test]
fn unknown_method_returns_none() {
    assert!(HttpRequest::new("FOOBAR / HTTP/1.1\r\n\r\n").is_none());
}

#[test]
fn headers_are_parsed_into_map() {
    let raw = "GET /ws HTTP/1.1\r\nUpgrade: websocket\r\nSec-WebSocket-Key: abc123\r\n\r\n";
    let req = HttpRequest::new(raw).unwrap();
    assert_eq!(req.headers.get("Upgrade").map(String::as_str), Some("websocket"));
    assert_eq!(req.headers.get("Sec-WebSocket-Key").map(String::as_str), Some("abc123"));
}

#[test]
fn request_with_no_headers_parses() {
    let req = HttpRequest::new("GET /health HTTP/1.1\r\n\r\n");
    assert!(req.is_some());
    let req = req.unwrap();
    assert_eq!(req.path, "/health");
    assert!(req.headers.is_empty());
}

#[test]
fn request_line_missing_path_returns_none() {
    assert!(HttpRequest::new("GET\r\n\r\n").is_none());
}
