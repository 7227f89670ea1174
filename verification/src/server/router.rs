//! Routing of HTTP requests, and the responses that the router writes itself.
use vstd::prelude::*;

use super::pages::Page;
use crate::logger::LogLevel;
use crate::requests::http_method::HttpMethod;
use crate::requests::http_request::{HttpRequest, RequestView};
use crate::responses::http_response_builder::HttpResponseBuilder;
use crate::text::{
    append_str, chars_of, contains, contains_chars, lower, occurs_at, decimal, ends_with, ends_with_chars,
    equals_str, owned, push_decimal, starts_with, starts_with_chars, string_of,
};
use crate::vpn::state_parser::status_of;
use crate::vpn::{CoreResult, CoreState};
use vstd::utf8::{encode_utf8, is_ascii_chars, is_ascii_chars_encode_utf8};

verus! {

// ---------------------------------------------------------------------------
// Small helpers
// ---------------------------------------------------------------------------

/// A user agent names a mobile device when it mentions `Mobile`, `Android`,
/// `iPhone`, `iPad` or `iPod`.
pub open spec fn is_mobile(ua: Seq<char>) -> bool {
    contains(ua, "Mobile"@) || contains(ua, "Android"@) || contains(ua, "iPhone"@) || contains(
        ua,
        "iPad"@,
    ) || contains(ua, "iPod"@)
}

pub fn is_mobile_ua(ua: &str) -> (res: bool)
    ensures
        res == is_mobile(ua@),
{
    let u = chars_of(ua);
    contains_chars(u.as_slice(), chars_of("Mobile").as_slice()) || contains_chars(
        u.as_slice(),
        chars_of("Android").as_slice(),
    ) || contains_chars(u.as_slice(), chars_of("iPhone").as_slice()) || contains_chars(
        u.as_slice(),
        chars_of("iPad").as_slice(),
    ) || contains_chars(u.as_slice(), chars_of("iPod").as_slice())
}

/// The content type of a file, by its extension.
pub open spec fn type_of_path(path: Seq<char>) -> Seq<char> {
    if ends_with(path, ".js"@) {
        "application/javascript"@
    } else if ends_with(path, ".html"@) {
        "text/html"@
    } else if ends_with(path, ".css"@) {
        "text/css"@
    } else if ends_with(path, ".svg"@) {
        "image/svg+xml"@
    } else {
        "application/octet-stream"@
    }
}

pub fn content_type(path: &str) -> (res: &'static str)
    ensures
        res@ == type_of_path(path@),
{
    let p = chars_of(path);
    if ends_with_chars(p.as_slice(), chars_of(".js").as_slice()) {
        "application/javascript"
    } else if ends_with_chars(p.as_slice(), chars_of(".html").as_slice()) {
        "text/html"
    } else if ends_with_chars(p.as_slice(), chars_of(".css").as_slice()) {
        "text/css"
    } else if ends_with_chars(p.as_slice(), chars_of(".svg").as_slice()) {
        "image/svg+xml"
    } else {
        "application/octet-stream"
    }
}

/// The value of a hexadecimal digit (either case).
pub open spec fn hex_value(b: u8) -> Option<u8> {
    if 48 <= b <= 57 {
        Some((b - 48) as u8)
    } else if 97 <= b <= 102 {
        Some((b - 97 + 10) as u8)
    } else if 65 <= b <= 70 {
        Some((b - 65 + 10) as u8)
    } else {
        None
    }
}

pub fn hex_val(b: u8) -> (res: Option<u8>)
    ensures
        res == hex_value(b),
{
    if 48 <= b && b <= 57 {
        Some(b - 48)
    } else if 97 <= b && b <= 102 {
        Some(b - 97 + 10)
    } else if 65 <= b && b <= 70 {
        Some(b - 65 + 10)
    } else {
        None
    }
}

/// The characters that percent-decoding the bytes `b` gives: `%` and two hex
/// digits stand for the byte they spell, any other byte stands for itself;
/// each byte becomes the character of the same number.
pub open spec fn percent_decoded(b: Seq<u8>) -> Seq<char>
    decreases b.len(),
{
    if b.len() == 0 {
        Seq::empty()
    } else if b[0] == 37 && b.len() > 2 && hex_value(b[1]) is Some && hex_value(b[2]) is Some {
        seq![((hex_value(b[1]).unwrap() * 16 + hex_value(b[2]).unwrap()) as u8) as char]
            + percent_decoded(b.skip(3))
    } else {
        seq![b[0] as char] + percent_decoded(b.skip(1))
    }
}

/// Decodes `%XX` escapes in a path, byte by byte.
pub fn percent_decode(s: &str) -> (res: String)
    ensures
        res@ == percent_decoded(encode_utf8(s@)),
{
    let b: &[u8] = s.as_bytes();
    let ghost all = b@;
    let mut out: Vec<char> = Vec::new();
    let mut i: usize = 0;
    assert(all.skip(0) =~= all);
    assert(out@ + percent_decoded(all) =~= percent_decoded(all));
    while i < b.len()
        invariant
            i <= b@.len(),
            b@ == all,
            out@ + percent_decoded(all.skip(i as int)) == percent_decoded(all),
        decreases b@.len() - i,
    {
        let ghost rest = all.skip(i as int);
        if b[i] == 37 && b.len() - i > 2 {
            let h = hex_val(b[i + 1]);
            let l = hex_val(b[i + 2]);
            if h.is_some() && l.is_some() {
                let hv = h.unwrap();
                let lv = l.unwrap();
                let c: u8 = hv * 16 + lv;
                assert(rest[1] == b@[i + 1] && rest[2] == b@[i + 2]);
                assert(rest.skip(3) =~= all.skip(i + 3));
                out.push(c as char);
                proof {
                    assert(out@ + percent_decoded(all.skip(i + 3)) =~= percent_decoded(all));
                }
                i = i + 3;
                continue;
            }
            assert(rest[1] == b@[i + 1] && rest[2] == b@[i + 2]);
        }
        assert(rest[0] == b@[i as int]);
        assert(rest.skip(1) =~= all.skip(i + 1));
        out.push(b[i] as char);
        proof {
            assert(out@ + percent_decoded(all.skip(i + 1)) =~= percent_decoded(all));
        }
        i = i + 1;
    }
    assert(out@ =~= percent_decoded(all));
    string_of(out.as_slice())
}

proof fn lemma_plain_bytes_decode(b: Seq<u8>)
    requires
        forall|i: int| 0 <= i < b.len() ==> b[i] != 37 && b[i] < 128,
    ensures
        percent_decoded(b) == b.map_values(|x: u8| x as char),
    decreases b.len(),
{
    if b.len() > 0 {
        lemma_plain_bytes_decode(b.skip(1));
        assert(percent_decoded(b) =~= b.map_values(|x: u8| x as char));
    }
}

/// A path of ASCII characters without `%` decodes to itself.
pub proof fn law_plain_paths_pass_through(s: Seq<char>)
    requires
        is_ascii_chars(s),
        forall|i: int| 0 <= i < s.len() ==> s[i] != '%',
    ensures
        percent_decoded(encode_utf8(s)) == s,
{
    is_ascii_chars_encode_utf8(s);
    let b = encode_utf8(s);
    assert forall|i: int| 0 <= i < b.len() implies b[i] != 37 && b[i] < 128 by {
        assert(s[i] as u8 == b[i]);
        assert('\0' <= s[i] <= '\u{7f}');
    }
    lemma_plain_bytes_decode(b);
    assert forall|i: int| 0 <= i < s.len() implies b.map_values(|x: u8| x as char)[i] == s[i] by {
        assert(s[i] as u8 == b[i]);
        assert('\0' <= s[i] <= '\u{7f}');
    }
    assert(b.map_values(|x: u8| x as char) =~= s);
}

/// `b` writes a response with this code, content type and body.
pub open spec fn is_response(b: HttpResponseBuilder, code: u16, ct: Seq<char>, body: Seq<char>) -> bool {
    b.spec_status_code() == Some(code) && b.spec_content_type() == Some(ct) && b.spec_text() == Some(
        body,
    )
}

pub fn not_found() -> (res: HttpResponseBuilder)
    ensures
        is_response(res, 404, "text/plain"@, "404 Not Found"@),
{
    HttpResponseBuilder::new().status_code(404).content_type("text/plain").text("404 Not Found")
}

pub fn bad_request(msg: &str) -> (res: HttpResponseBuilder)
    ensures
        is_response(res, 400, "text/plain"@, msg@),
{
    HttpResponseBuilder::new().status_code(400).content_type("text/plain").text(msg)
}

pub fn ok_json(body: &str) -> (res: HttpResponseBuilder)
    ensures
        is_response(res, 200, "application/json"@, body@),
{
    HttpResponseBuilder::new().status_code(200).content_type("application/json").text(body)
}

/// A path without its leading slashes.
pub open spec fn without_leading_slashes(s: Seq<char>) -> Seq<char>
    decreases s.len(),
{
    if s.len() > 0 && s[0] == '/' {
        without_leading_slashes(s.drop_first())
    } else {
        s
    }
}

fn trim_leading_slashes(s: &str) -> (res: String)
    ensures
        res@ == without_leading_slashes(s@),
{
    let cs = chars_of(s);
    let mut i: usize = 0;
    assert(cs@.skip(0) =~= cs@);
    while i < cs.len() && cs[i] == '/'
        invariant
            i <= cs@.len(),
            cs@ == s@,
            without_leading_slashes(cs@.skip(i as int)) == without_leading_slashes(s@),
        decreases cs@.len() - i,
    {
        assert(cs@.skip(i as int).drop_first() =~= cs@.skip(i + 1));
        i = i + 1;
    }
    let rest = crate::text::slice_chars(cs.as_slice(), i, cs.len());
    assert(rest@ =~= cs@.skip(i as int));
    string_of(rest.as_slice())
}

// ---------------------------------------------------------------------------
// Routing
// ---------------------------------------------------------------------------

/// What the server does with a request.
#[derive(Debug)]
pub enum RouteAction {
    /// Send the file at `path` (relative to the working directory) with this
    /// content type, or `404` when it cannot be read.
    ServeFile { path: String, content_type: String },
    /// Answer `/health` with the VPN state and the uptime.
    Health,
    /// Take the connection over as a WebSocket session.
    WebSocket,
    /// Apply the log level that the JSON body names.
    ApiConfig,
    /// Send this response.
    Respond(HttpResponseBuilder),
}

/// The user agent of a request, empty when it has none.
pub open spec fn user_agent(req: RequestView) -> Seq<char> {
    if req.headers.contains_key("User-Agent"@) {
        req.headers["User-Agent"@]
    } else {
        Seq::empty()
    }
}

/// The page for a user agent.
pub open spec fn page_for(ua: Seq<char>) -> Page {
    if is_mobile(ua) {
        Page::Mobile
    } else {
        Page::Desktop
    }
}

/// `a` is the not-found response.
pub open spec fn is_not_found(a: RouteAction) -> bool {
    a matches RouteAction::Respond(b) && is_response(b, 404, "text/plain"@, "404 Not Found"@)
}

/// The file path that a `/resources/...` request names.
pub open spec fn resource_path(path: Seq<char>) -> Seq<char> {
    percent_decoded(encode_utf8(without_leading_slashes(path)))
}

/// How a request is routed: `GET /` serves the desktop or mobile page by the
/// user agent, `GET /health`, `GET /ws` and `POST /api/config` have their
/// handlers, `GET /resources/...` serves the decoded file path, anything
/// else is `404`.
pub open spec fn routes_to(req: RequestView, a: RouteAction) -> bool {
    match req.method {
        HttpMethod::GET => if req.path == "/"@ {
            a matches RouteAction::ServeFile { path, content_type } && path@ == page_for(
                user_agent(req),
            ).spec_path() && content_type@ == "text/html"@
        } else if req.path == "/health"@ {
            a is Health
        } else if req.path == "/ws"@ {
            a is WebSocket
        } else if starts_with(req.path, "/resources/"@) {
            a matches RouteAction::ServeFile { path, content_type } && path@ == resource_path(
                req.path,
            ) && content_type@ == type_of_path(resource_path(req.path))
        } else {
            is_not_found(a)
        },
        HttpMethod::POST => if req.path == "/api/config"@ {
            a is ApiConfig
        } else {
            is_not_found(a)
        },
        _ => is_not_found(a),
    }
}

/// Decides what to do with a request.
pub fn route(req: &HttpRequest) -> (res: RouteAction)
    ensures
        routes_to(req.view_of(), res),
{
    let path = req.path.as_str();
    let p = chars_of(path);
    match req.method {
        HttpMethod::GET => {
            if equals_str(p.as_slice(), "/") {
                let ua: &str = match req.headers.get("User-Agent") {
                    Some(v) => v.as_str(),
                    None => "",
                };
                proof {
                    reveal_strlit("");
                    assert(ua@ == user_agent(req.view_of()));
                }
                let page = if is_mobile_ua(ua) {
                    Page::Mobile
                } else {
                    Page::Desktop
                };
                RouteAction::ServeFile { path: owned(page.path()), content_type: owned("text/html") }
            } else if equals_str(p.as_slice(), "/health") {
                RouteAction::Health
            } else if equals_str(p.as_slice(), "/ws") {
                RouteAction::WebSocket
            } else if starts_with_chars(p.as_slice(), chars_of("/resources/").as_slice()) {
                let trimmed = trim_leading_slashes(path);
                let decoded = percent_decode(trimmed.as_str());
                let ct = content_type(decoded.as_str());
                RouteAction::ServeFile { path: decoded, content_type: owned(ct) }
            } else {
                RouteAction::Respond(not_found())
            }
        },
        HttpMethod::POST => {
            if equals_str(p.as_slice(), "/api/config") {
                RouteAction::ApiConfig
            } else {
                RouteAction::Respond(not_found())
            }
        },
        _ => RouteAction::Respond(not_found()),
    }
}

/// The response to a file request: the file's content with its type, or
/// `404` when it could not be read.
pub fn file_response(content: Option<String>, content_type: &str) -> (res: HttpResponseBuilder)
    ensures
        match content {
            Some(c) => is_response(res, 200, content_type@, c@),
            None => is_response(res, 404, "text/plain"@, "404 Not Found"@),
        },
{
    match content {
        Some(c) => HttpResponseBuilder::new().status_code(200).content_type(content_type).text(
            c.as_str(),
        ),
        None => not_found(),
    }
}

// ---------------------------------------------------------------------------
// POST /api/config
// ---------------------------------------------------------------------------

/// What `POST /api/config` does.
#[derive(Debug)]
pub struct ApiConfigOutcome {
    /// The level to set, when the request names a valid one.
    pub level: Option<LogLevel>,
    /// The response to send.
    pub response: HttpResponseBuilder,
}

/// The body `{"log_level":"<name>"}`.
pub open spec fn level_json(name: Seq<char>) -> Seq<char> {
    "{\"log_level\":\""@ + name + "\"}"@
}

/// The outcome of `POST /api/config`, given what reading its body gave:
/// `None` for a request without body, `Err` for a body that is not a JSON
/// object with a string `log_level`, `Ok` with that string otherwise.
/// A valid level is set and echoed back as sent; anything else is `400`.
pub fn handle_api_config(body: Option<Result<String, String>>) -> (res: ApiConfigOutcome)
    ensures
        match body {
            None => res.level is None && is_response(res.response, 400, "text/plain"@, "missing body"@),
            Some(Err(_)) => res.level is None && is_response(
                res.response,
                400,
                "text/plain"@,
                "invalid JSON"@,
            ),
            Some(Ok(name)) => match LogLevel::spec_from_str(name@) {
                Some(level) => res.level == Some(level) && is_response(
                    res.response,
                    200,
                    "application/json"@,
                    level_json(name@),
                ),
                None => res.level is None && is_response(
                    res.response,
                    400,
                    "text/plain"@,
                    "invalid log_level: "@ + name@,
                ),
            },
        },
{
    match body {
        None => ApiConfigOutcome { level: None, response: bad_request("missing body") },
        Some(Err(_)) => ApiConfigOutcome { level: None, response: bad_request("invalid JSON") },
        Some(Ok(name)) => match LogLevel::from_str(name.as_str()) {
            Some(level) => {
                let mut out: Vec<char> = chars_of("{\"log_level\":\"");
                append_str(&mut out, name.as_str());
                append_str(&mut out, "\"}");
                let text = string_of(out.as_slice());
                ApiConfigOutcome { level: Some(level), response: ok_json(text.as_str()) }
            },
            None => {
                let mut out: Vec<char> = chars_of("invalid log_level: ");
                append_str(&mut out, name.as_str());
                let text = string_of(out.as_slice());
                ApiConfigOutcome { level: None, response: bad_request(text.as_str()) }
            },
        },
    }
}

// ---------------------------------------------------------------------------
// GET /health
// ---------------------------------------------------------------------------

/// The name of a VPN state in the health report.
pub open spec fn state_word(state: CoreState) -> Seq<char> {
    match state {
        CoreState::Connected => "connected"@,
        CoreState::Disconnected => "disconnected"@,
        CoreState::Reconnecting => "reconnecting"@,
    }
}

/// The health report names the state it was given: its word reads back as
/// that state through the status parser, so different states get different
/// words.
pub proof fn law_health_names_the_state(state: CoreState, other: CoreState)
    ensures
        status_of(state_word(state)) == state,
        state_word(other) == state_word(state) ==> other == state,
{
    reveal_strlit("connected");
    reveal_strlit("disconnected");
    reveal_strlit("reconnecting");
    let c = "connected"@;
    let d = "disconnected"@;
    let r = "reconnecting"@;
    assert(lower(c) =~= c);
    assert(lower(d) =~= d);
    assert(lower(r) =~= r);
    assert(occurs_at(c, c, 0)) by {
        assert(c.subrange(0, c.len() as int) =~= c);
    }
    assert(occurs_at(d, d, 0)) by {
        assert(d.subrange(0, d.len() as int) =~= d);
    }
    assert(occurs_at(r, r, 0)) by {
        assert(r.subrange(0, r.len() as int) =~= r);
    }
    assert(!contains(c, r));
    assert(!contains(c, d));
    assert(!contains(d, r)) by {
        if contains(d, r) {
            let i = choose|i: int| occurs_at(d, r, i);
            assert(i == 0);
            assert(d.subrange(0, 12)[0] != r[0]);
        }
    }
    assert(state_word(CoreState::Connected) != state_word(CoreState::Disconnected));
    assert(state_word(CoreState::Connected) != state_word(CoreState::Reconnecting));
    assert(state_word(CoreState::Disconnected)[0] != state_word(CoreState::Reconnecting)[0]);
    if state_word(other) == state_word(state) && other != state {
        match (other, state) {
            (CoreState::Disconnected, CoreState::Reconnecting) => {
                assert(state_word(other)[0] != state_word(state)[0]);
            },
            (CoreState::Reconnecting, CoreState::Disconnected) => {
                assert(state_word(other)[0] != state_word(state)[0]);
            },
            _ => {},
        }
    }
}

/// `{"status":"ok","vpn":"<state>","uptime_s":<seconds>}`.
pub open spec fn health_json(state: CoreState, uptime: u64) -> Seq<char> {
    "{\"status\":\"ok\",\"vpn\":\""@ + state_word(state) + "\",\"uptime_s\":"@ + decimal(
        uptime as nat,
    ) + "}"@
}

pub fn health_body(state: CoreState, uptime: u64) -> (res: String)
    ensures
        res@ == health_json(state, uptime),
{
    let mut out: Vec<char> = chars_of("{\"status\":\"ok\",\"vpn\":\"");
    let word = match state {
        CoreState::Connected => "connected",
        CoreState::Disconnected => "disconnected",
        CoreState::Reconnecting => "reconnecting",
    };
    append_str(&mut out, word);
    append_str(&mut out, "\",\"uptime_s\":");
    push_decimal(&mut out, uptime);
    append_str(&mut out, "}");
    string_of(out.as_slice())
}

/// The state that the health report shows for a status query: a failed
/// query shows `disconnected`.
pub open spec fn reported_state(status: CoreResult<(CoreState, Option<String>)>) -> CoreState {
    match status {
        Ok((state, _)) => state,
        Err(_) => CoreState::Disconnected,
    }
}

/// The answer to `GET /health`.
pub fn handle_health(status: &CoreResult<(CoreState, Option<String>)>, uptime: u64) -> (res:
    HttpResponseBuilder)
    ensures
        is_response(res, 200, "application/json"@, health_json(reported_state(*status), uptime)),
{
    let state = match status {
        Ok((s, _)) => *s,
        Err(_) => CoreState::Disconnected,
    };
    let body = health_body(state, uptime);
    ok_json(body.as_str())
}

} // verus!
