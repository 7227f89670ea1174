use haven::requests::http_method::HttpMethod;
use haven::requests::http_request::HttpRequest;
use haven::vpn::http_request_get_processor::{create_builder, process as route_get, GetRoute};
use haven::vpn::http_request_processor::{process, Processing};
use haven::vpn::ws_messaging_processor::{generate_websocket_accept_key, handle_ws_message, init_ws_handshake};

#[test]
fn get_paths_are_routed() {
    let r = route_get(&HttpRequest::new("GET / HTTP/1.1\r\n\r\n").unwrap());
    assert!(matches!(r, GetRoute::File { ref path, ref content_type } if path == "resources/web_resources/html_pages/index.html" && content_type == "text/html"));
    let r = route_get(&HttpRequest::new("GET /resources/web_resources/page_scripts/WebSocket.js HTTP/1.1\r\n\r\n").unwrap());
    assert!(matches!(r, GetRoute::File { ref content_type, .. } if content_type == "application/javascript"));
    let r = route_get(&HttpRequest::new("GET /ws HTTP/1.1\r\n\r\n").unwrap());
    assert!(matches!(r, GetRoute::WebSocket));
    let r = route_get(&HttpRequest::new("GET /other HTTP/1.1\r\n\r\n").unwrap());
    assert!(matches!(r, GetRoute::Unknown));
}

#[test]
fn only_get_is_processed() {
    assert!(matches!(process(&HttpRequest::new("GET /ws HTTP/1.1\r\n\r\n").unwrap()), Processing::Get(GetRoute::WebSocket)));
    assert!(matches!(process(&HttpRequest::new("PATCH / HTTP/1.1\r\n\r\n").unwrap()), Processing::Unsupported(HttpMethod::PATCH)));
}

#[test]
fn file_builder_falls_back_to_404() {
    assert!(create_builder(None, "text/html").build().starts_with("HTTP/1.1 404 Not Found\r\nContent-Type: text/plain"));
    assert!(create_builder(Some("x".to_string()), "text/html").build().starts_with("HTTP/1.1 200 OK\r\nContent-Type: text/html"));
}

#[test]
fn echo_endpoint() {
    assert_eq!(generate_websocket_accept_key("dGhlIHNhbXBsZSBub25jZQ=="), "s3pPLMBiTxaQ9kYGzzhZRbK+xOo=");
    let req = HttpRequest::new("GET /ws HTTP/1.1\r\nUpgrade: websocket\r\nSec-WebSocket-Key: dGhlIHNhbXBsZSBub25jZQ==\r\n\r\n").unwrap();
    assert!(init_ws_handshake(&req).unwrap().contains("Sec-WebSocket-Accept: s3pPLMBiTxaQ9kYGzzhZRbK+xOo=\r\n\r\n"));
    let req = HttpRequest::new("GET /ws HTTP/1.1\r\nUpgrade: h2c\r\n\r\n").unwrap();
    assert!(init_ws_handshake(&req).is_none());
    assert_eq!(handle_ws_message("hi"), Some("hi".to_string()));
    assert_eq!(handle_ws_message("exit"), None);
}
