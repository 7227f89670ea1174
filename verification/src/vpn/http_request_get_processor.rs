//! A request router for the control page: the index page, its
//! WebSocket script and the WebSocket endpoint.
use vstd::prelude::*;

use crate::requests::http_request::HttpRequest;
use crate::responses::http_response_builder::HttpResponseBuilder;
use crate::text::{chars_of, equals_str, owned};

verus! {

/// The index page, relative to the working directory.
pub open spec fn index_page_path() -> Seq<char> {
    "resources/web_resources/html_pages/index.html"@
}

/// The page's WebSocket script, relative to the working directory.
pub open spec fn websocket_js_path() -> Seq<char> {
    "resources/web_resources/page_scripts/WebSocket.js"@
}

/// What a `GET` request is served.
#[derive(Debug)]
pub enum GetRoute {
    /// This file, with this content type.
    File { path: String, content_type: String },
    /// The WebSocket endpoint.
    WebSocket,
    /// A path that is not served; the request is dropped.
    Unknown,
}

/// The route of a `GET` path: `/` is the index page, `/` followed by the
/// script's path is the script, `/ws` the WebSocket endpoint.
pub open spec fn get_routes_to(path: Seq<char>, res: GetRoute) -> bool {
    if path == "/"@ {
        res matches GetRoute::File { path, content_type } && path@ == index_page_path()
            && content_type@ == "text/html"@
    } else if path == "/"@ + websocket_js_path() {
        res matches GetRoute::File { path, content_type } && path@ == websocket_js_path()
            && content_type@ == "application/javascript"@
    } else if path == "/ws"@ {
        res is WebSocket
    } else {
        res is Unknown
    }
}

pub fn process(http_request: &HttpRequest) -> (res: GetRoute)
    ensures
        get_routes_to(http_request.path@, res),
{
    let p = chars_of(http_request.path.as_str());
    proof {
        reveal_strlit("/");
        reveal_strlit("resources/web_resources/page_scripts/WebSocket.js");
        reveal_strlit("/resources/web_resources/page_scripts/WebSocket.js");
        assert("/"@ + websocket_js_path() =~= "/resources/web_resources/page_scripts/WebSocket.js"@);
    }
    if equals_str(p.as_slice(), "/") {
        GetRoute::File {
            path: owned("resources/web_resources/html_pages/index.html"),
            content_type: owned("text/html"),
        }
    } else if equals_str(p.as_slice(), "/resources/web_resources/page_scripts/WebSocket.js") {
        GetRoute::File {
            path: owned("resources/web_resources/page_scripts/WebSocket.js"),
            content_type: owned("application/javascript"),
        }
    } else if equals_str(p.as_slice(), "/ws") {
        GetRoute::WebSocket
    } else {
        GetRoute::Unknown
    }
}

/// The response for a file: its content with the content type and `200`,
/// or `404` when it could not be read.
pub fn create_builder(content: Option<String>, content_type: &str) -> (res: HttpResponseBuilder)
    ensures
        match content {
            Some(c) => res.spec_status_code() == Some(200u16) && res.spec_content_type() == Some(
                content_type@,
            ) && res.spec_text() == Some(c@),
            None => res.spec_status_code() == Some(404u16) && res.spec_content_type() == Some(
                "text/plain"@,
            ) && res.spec_text() == Some("404 Not Found"@),
        },
{
    match content {
        Some(c) => HttpResponseBuilder::new().content_type(content_type).status_code(200).text(
            c.as_str(),
        ),
        None => HttpResponseBuilder::new().content_type("text/plain").status_code(404).text(
            "404 Not Found",
        ),
    }
}

} // verus!
