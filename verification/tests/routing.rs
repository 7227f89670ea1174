use haven::logger::LogLevel;
use haven::requests::http_request::HttpRequest;
use haven::server::http_handler::handle_request;
use haven::server::router::{
    bad_request, file_response, handle_api_config, handle_health, hex_val, not_found, ok_json,
    route, RouteAction,
};
use haven::vpn::{CoreError, CoreState};

fn routed(raw: &str) -> RouteAction {
    route(&HttpRequest::new(raw).unwrap())
}

fn is_404(a: RouteAction) -> bool {
    match a {
        RouteAction::Respond(b) => b.build().starts_with("HTTP/1.1 404 Not Found\r\n"),
        _ => false,
    }
}

#[test]
fn root_serves_the_page_for_the_user_agent() {
    match routed("GET / HTTP/1.1\r\nUser-Agent: Mozilla/5.0 (iPhone)\r\n\r\n") {
        RouteAction::ServeFile { path, content_type } => {
            assert_eq!(path, "resources/web_resources/html_pages/index_mobile.html");
            assert_eq!(content_type, "text/html");
        }
        other => panic!("unexpected {:?}", other),
    }
    match routed("GET / HTTP/1.1\r\n\r\n") {
        RouteAction::ServeFile { path, .. } => {
            assert_eq!(path, "resources/web_resources/html_pages/index_desktop.html");
        }
        other => panic!("unexpected {:?}", other),
    }
}

#[test]
fn resources_are_decoded_and_typed() {
    match routed("GET /resources/web_resources/assets/flags/United%20States.svg HTTP/1.1\r\n\r\n") {
        RouteAction::ServeFile { path, content_type } => {
            assert_eq!(path, "resources/web_resources/assets/flags/United States.svg");
            assert_eq!(content_type, "image/svg+xml");
        }
        other => panic!("unexpected {:?}", other),
    }
}

#[test]
fn known_endpoints_and_fallbacks() {
    assert!(matches!(routed("GET /health HTTP/1.1\r\n\r\n"), RouteAction::Health));
    assert!(matches!(routed("GET /ws HTTP/1.1\r\n\r\n"), RouteAction::WebSocket));
    assert!(matches!(routed("POST /api/config HTTP/1.1\r\n\r\n"), RouteAction::ApiConfig));
    assert!(is_404(routed("GET /nowhere HTTP/1.1\r\n\r\n")));
    assert!(is_404(routed("POST /health HTTP/1.1\r\n\r\n")));
    assert!(is_404(routed("PUT / HTTP/1.1\r\n\r\n")));
}

#[test]
fn not_found_and_friends_build_responses() {
    assert_eq!(
        not_found().build(),
        "HTTP/1.1 404 Not Found\r\nContent-Type: text/plain\r\nContent-Length: 13\r\n\r\n404 Not Found"
    );
    assert_eq!(
        bad_request("nope").build(),
        "HTTP/1.1 400 Bad Request\r\nContent-Type: text/plain\r\nContent-Length: 4\r\n\r\nnope"
    );
    assert_eq!(
        ok_json("{}").build(),
        "HTTP/1.1 200 OK\r\nContent-Type: application/json\r\nContent-Length: 2\r\n\r\n{}"
    );
    assert!(file_response(None, "text/css").build().starts_with("HTTP/1.1 404 Not Found"));
    assert!(file_response(Some("a{}".to_string()), "text/css").build().ends_with("text/css\r\nContent-Length: 3\r\n\r\na{}"));
}

#[test]
fn api_config_sets_valid_levels_only() {
    let out = handle_api_config(Some(Ok("Debug".to_string())));
    assert_eq!(out.level, Some(LogLevel::Debug));
    assert!(out.response.build().ends_with("\r\n\r\n{\"log_level\":\"Debug\"}"));
    let out = handle_api_config(Some(Ok("chatty".to_string())));
    assert_eq!(out.level, None);
    assert!(out.response.build().ends_with("\r\n\r\ninvalid log_level: chatty"));
    let out = handle_api_config(Some(Err("expected value".to_string())));
    assert_eq!(out.level, None);
    assert!(out.response.build().ends_with("\r\n\r\ninvalid JSON"));
    let out = handle_api_config(None);
    assert!(out.response.build().ends_with("\r\n\r\nmissing body"));
}

#[test]
fn health_reports_state_and_uptime() {
    let body = handle_health(&Ok((CoreState::Reconnecting, None)), 12).build();
    assert!(body.ends_with("\r\n\r\n{\"status\":\"ok\",\"vpn\":\"reconnecting\",\"uptime_s\":12}"));
    let body = handle_health(&Err(CoreError::IoError("x".to_string())), 0).build();
    assert!(body.ends_with("{\"status\":\"ok\",\"vpn\":\"disconnected\",\"uptime_s\":0}"));
}

#[test]
fn hex_digits_have_values() {
    assert_eq!(hex_val(b'0'), Some(0));
    assert_eq!(hex_val(b'9'), Some(9));
    assert_eq!(hex_val(b'a'), Some(10));
    assert_eq!(hex_val(b'F'), Some(15));
    assert_eq!(hex_val(b'g'), None);
}

#[test]
fn bytes_read_become_a_request() {
    let data = b"GET /health HTTP/1.1\r\n\r\ntrailing garbage";
    let req = handle_request(24, data).expect("request");
    assert_eq!(req.path, "/health");
    assert_eq!(req.body, None);
    assert!(handle_request(0, data).is_none());
}
