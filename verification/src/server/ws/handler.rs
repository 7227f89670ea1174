//! The WebSocket session: the opening handshake, and what the server does
//! for each client message and each event of the connection.
use vstd::prelude::*;

use base64::Engine;
use sha1::{Digest, Sha1};

use super::messages::{ClientMessage, ServerMessage};
use crate::logger::LogLevel;
use crate::requests::http_request::{HttpRequest, RequestView};
use crate::responses::ws_connection_response_builder::{
    switching_protocols, WsConnectionResponseBuilder,
};
use crate::text::{append_str, chars_of, equals_str, owned, string_of, trim, trim_chars};
use crate::vpn::{debug_quoted, debug_text, CoreResult, CoreState, Location};
use vstd::utf8::encode_utf8;

verus! {

// ---------------------------------------------------------------------------
// The accept key
// ---------------------------------------------------------------------------

/// The character of a 6-bit value in the standard base64 alphabet
/// (`A`-`Z`, `a`-`z`, `0`-`9`, `+`, `/`).
pub open spec fn base64_char(v: int) -> char {
    if v < 26 {
        (65 + v) as char
    } else if v < 52 {
        (97 + v - 26) as char
    } else if v < 62 {
        (48 + v - 52) as char
    } else if v == 62 {
        '+'
    } else {
        '/'
    }
}

/// Standard base64 (RFC 4648, with `=` padding): each group of three bytes
/// becomes four characters of six bits each; a last group of one or two
/// bytes is zero-filled and padded with `=`.
pub open spec fn base64_standard(b: Seq<u8>) -> Seq<char>
    decreases b.len(),
{
    if b.len() == 0 {
        Seq::empty()
    } else if b.len() == 1 {
        let n = b[0] as int;
        seq![base64_char(n / 4), base64_char((n % 4) * 16), '=', '=']
    } else if b.len() == 2 {
        let n = b[0] as int * 256 + b[1] as int;
        seq![base64_char(n / 1024), base64_char((n / 16) % 64), base64_char((n % 16) * 4), '=']
    } else {
        let n = b[0] as int * 65536 + b[1] as int * 256 + b[2] as int;
        seq![
            base64_char(n / 262144),
            base64_char((n / 4096) % 64),
            base64_char((n / 64) % 64),
            base64_char(n % 64),
        ] + base64_standard(b.skip(3))
    }
}

/// `base64::engine::general_purpose::STANDARD.encode`: the standard base64
/// text of the bytes, with padding. It panics when the length of the text
/// would overflow `usize`, which the bound on the input rules out.
#[verifier::external_body]
fn base64_encode(bytes: &[u8]) -> (res: String)
    requires
        bytes@.len() <= 0x1000_0000,
    ensures
        res@ == base64_standard(bytes@),
{
    base64::engine::general_purpose::STANDARD.encode(bytes)
}

/// The SHA-1 digest of a byte string.
pub uninterp spec fn sha1_digest(data: Seq<u8>) -> Seq<u8>;

/// `<sha1::Sha1 as Digest>::digest`: the SHA-1 digest of the bytes, which is
/// 20 bytes long; the digest itself is only named.
#[verifier::external_body]
fn sha1_of(data: &[u8]) -> (res: Vec<u8>)
    ensures
        res@ == sha1_digest(data@),
        res@.len() == 20,
{
    Sha1::digest(data).to_vec()
}

/// The GUID that RFC 6455 appends to the client's key.
pub open spec fn websocket_guid() -> Seq<char> {
    "258EAFA5-E914-47DA-95CA-C5AB0DC85B11"@
}

/// The `Sec-WebSocket-Accept` value for a client key: the base64 text of the
/// SHA-1 digest of the key followed by the GUID.
pub open spec fn accept_key_of(key: Seq<char>) -> Seq<char> {
    base64_standard(sha1_digest(encode_utf8(key + websocket_guid())))
}

/// The accept key for a client's `Sec-WebSocket-Key`.
pub fn generate_accept_key(key: &str) -> (res: String)
    ensures
        res@ == accept_key_of(key@),
{
    let mut text: Vec<char> = chars_of(key);
    append_str(&mut text, "258EAFA5-E914-47DA-95CA-C5AB0DC85B11");
    let joined = string_of(text.as_slice());
    let digest = sha1_of(joined.as_str().as_bytes());
    base64_encode(digest.as_slice())
}

// ---------------------------------------------------------------------------
// The handshake
// ---------------------------------------------------------------------------

/// The key that a handshake request carries: its `Sec-WebSocket-Key`
/// trimmed, or empty.
pub open spec fn client_key(req: RequestView) -> Seq<char> {
    if req.headers.contains_key("Sec-WebSocket-Key"@) {
        trim(req.headers["Sec-WebSocket-Key"@])
    } else {
        Seq::empty()
    }
}

/// A request asks for a WebSocket when its `Upgrade` field is `websocket`.
pub open spec fn asks_upgrade(req: RequestView) -> bool {
    req.headers.contains_key("Upgrade"@) && req.headers["Upgrade"@] == "websocket"@
}

/// The `101 Switching Protocols` response to a handshake request, or `None`
/// when the request does not ask for a WebSocket (the connection is then
/// closed).
pub fn handshake(req: &HttpRequest) -> (res: Option<String>)
    ensures
        match res {
            Some(r) => asks_upgrade(req.view_of()) && r@ == switching_protocols(
                accept_key_of(client_key(req.view_of())),
            ),
            None => !asks_upgrade(req.view_of()),
        },
{
    let upgrade = match req.headers.get("Upgrade") {
        Some(v) => v,
        None => return None,
    };
    if !equals_str(chars_of(upgrade.as_str()).as_slice(), "websocket") {
        return None;
    }
    let key = match req.headers.get("Sec-WebSocket-Key") {
        Some(v) => string_of(trim_chars(chars_of(v.as_str()).as_slice()).as_slice()),
        None => {
            proof {
                reveal_strlit("");
            }
            owned("")
        },
    };
    let accept = generate_accept_key(key.as_str());
    let response = WsConnectionResponseBuilder::new().response_key(accept.as_str()).build();
    Some(response)
}

// ---------------------------------------------------------------------------
// Client messages
// ---------------------------------------------------------------------------

/// The work that a client message asks for.
#[derive(Debug)]
pub enum WsTask {
    /// Query the VPN status and send it.
    SendStatus,
    /// Run the connect command (to this location, or the fastest).
    Connect { location: Option<String> },
    /// Run the disconnect command.
    Disconnect,
    /// Reconnect the Wi-Fi network.
    ReconnectWifi,
    /// Restart the machine.
    Restart,
    /// Start refreshing the location cache, then send what it holds.
    RefreshLocations,
    /// Set the log level, then send the reply.
    SetLevel { level: LogLevel, reply: ServerMessage },
    /// Send this message.
    Reply(ServerMessage),
    /// Read the system figures and send them.
    SendSystemInfo,
}

/// The error message sent to the page.
pub open spec fn is_error(m: ServerMessage, code: Seq<char>, text: Seq<char>) -> bool {
    m matches ServerMessage::Error { code: c, message } && c@ == code && message@ == text
}

fn error_message(code: &str, message: &str) -> (res: ServerMessage)
    ensures
        is_error(res, code@, message@),
{
    ServerMessage::Error { code: owned(code), message: owned(message) }
}

/// What to do for a client message.
pub fn dispatch(msg: ClientMessage) -> (res: WsTask)
    ensures
        match msg {
            ClientMessage::Status => res is SendStatus,
            ClientMessage::Connect { location } => res == (WsTask::Connect { location }),
            ClientMessage::Disconnect => res is Disconnect,
            ClientMessage::ReconnectWifi => res is ReconnectWifi,
            ClientMessage::Restart => res is Restart,
            ClientMessage::RefreshLocations => res is RefreshLocations,
            ClientMessage::SetLogLevel { level } => match LogLevel::spec_from_str(level@) {
                Some(l) => res matches WsTask::SetLevel { level: set, reply } && set == l && (
                reply matches ServerMessage::LogLevelChanged { level: echoed } && echoed@
                    == level@),
                None => res matches WsTask::Reply(m) && is_error(
                    m,
                    "InvalidLevel"@,
                    "Unknown log level: "@ + level@,
                ),
            },
            ClientMessage::GetSystemInfo => res is SendSystemInfo,
        },
{
    match msg {
        ClientMessage::Status => WsTask::SendStatus,
        ClientMessage::Connect { location } => WsTask::Connect { location },
        ClientMessage::Disconnect => WsTask::Disconnect,
        ClientMessage::ReconnectWifi => WsTask::ReconnectWifi,
        ClientMessage::Restart => WsTask::Restart,
        ClientMessage::RefreshLocations => WsTask::RefreshLocations,
        ClientMessage::SetLogLevel { level } => match LogLevel::from_str(level.as_str()) {
            Some(l) => WsTask::SetLevel { level: l, reply: ServerMessage::LogLevelChanged { level } },
            None => {
                let mut text: Vec<char> = chars_of("Unknown log level: ");
                append_str(&mut text, level.as_str());
                let t = string_of(text.as_slice());
                WsTask::Reply(error_message("InvalidLevel", t.as_str()))
            },
        },
        ClientMessage::GetSystemInfo => WsTask::SendSystemInfo,
    }
}

/// What follows a command that the page asked for.
#[derive(Debug)]
pub enum FollowUp {
    /// Query the VPN status and send it.
    SendStatus,
    /// Send this message.
    Reply(ServerMessage),
}

/// After connect, disconnect or a Wi-Fi reconnect: the new status on
/// success, else a `CommandFailed` error with the error's text.
pub fn after_command(result: &CoreResult<()>) -> (res: FollowUp)
    ensures
        match result {
            Ok(()) => res is SendStatus,
            Err(e) => res matches FollowUp::Reply(m) && is_error(
                m,
                "CommandFailed"@,
                e.spec_message(),
            ),
        },
{
    match result {
        Ok(()) => FollowUp::SendStatus,
        Err(e) => {
            let text = e.message();
            FollowUp::Reply(error_message("CommandFailed", text.as_str()))
        },
    }
}

/// After a restart: nothing on success, else a `CommandFailed` error.
pub fn after_restart(result: &CoreResult<()>) -> (res: Option<ServerMessage>)
    ensures
        match result {
            Ok(()) => res is None,
            Err(e) => res matches Some(m) && is_error(m, "CommandFailed"@, e.spec_message()),
        },
{
    match result {
        Ok(()) => None,
        Err(e) => {
            let text = e.message();
            Some(error_message("CommandFailed", text.as_str()))
        },
    }
}

/// The status message for a status query; a failed query reports
/// `Disconnected` without location.
pub fn status_message(result: CoreResult<(CoreState, Option<String>)>) -> (res: ServerMessage)
    ensures
        match result {
            Ok((state, location)) => res == (ServerMessage::StatusUpdate { state, location }),
            Err(_) => res == (ServerMessage::StatusUpdate {
                state: CoreState::Disconnected,
                location: None,
            }),
        },
{
    match result {
        Ok((state, location)) => ServerMessage::StatusUpdate { state, location },
        Err(_) => ServerMessage::StatusUpdate { state: CoreState::Disconnected, location: None },
    }
}

/// The message that tells the page the current log level, by its name in
/// lower case.
pub fn level_message(level: LogLevel) -> (res: ServerMessage)
    ensures
        res matches ServerMessage::LogLevelChanged { level: name } && name@
            == level.spec_lower_name(),
{
    ServerMessage::LogLevelChanged { level: owned(level.lower_name()) }
}

/// The messages that open a session, after the status: the locations that
/// the cache holds, then the current log level.
pub fn initial_messages(locations: Vec<Location>, level: LogLevel) -> (res: Vec<ServerMessage>)
    ensures
        res@.len() == 2,
        res@[0] == (ServerMessage::LocationList { locations }),
        res@[1] matches ServerMessage::LogLevelChanged { level: name } && name@
            == level.spec_lower_name(),
{
    let mut out: Vec<ServerMessage> = Vec::new();
    out.push(ServerMessage::LocationList { locations });
    out.push(level_message(level));
    out
}

// ---------------------------------------------------------------------------
// Connection events
// ---------------------------------------------------------------------------

/// What happened on the connection.
#[derive(Debug)]
pub enum WsEvent {
    /// A text frame that holds a client message.
    Text(ClientMessage),
    /// A text frame that holds no client message: the parse error and the
    /// text.
    Unparseable { error: String, text: String },
    /// A close frame.
    Close,
    /// A ping with its payload.
    Ping(Vec<u8>),
    /// Any other frame.
    Other,
    /// Nothing arrived before the read timed out.
    Idle,
    /// The connection is closed.
    Closed,
    /// Reading failed.
    Failed,
    /// A log line could not be sent to the page.
    LogSendFailed,
}

/// What the session does next.
#[derive(Debug)]
pub enum WsStep {
    /// Handle this client message.
    Handle(ClientMessage),
    /// Answer a ping with this payload.
    Pong(Vec<u8>),
    /// Log this warning, then keep reading.
    Warn(String),
    /// Keep reading.
    Continue,
    /// End the session.
    Stop,
}

/// The warning for a text frame that holds no client message.
pub open spec fn unparseable_warning(error: Seq<char>, text: Seq<char>) -> Seq<char> {
    "Unparseable client message: "@ + error + " \u{2014} "@ + debug_text(text)
}

/// The session's next step after an event: close frames, a closed
/// connection, read errors and a failed log line end it; pings are
/// answered; client messages are handled; a text that is no client message
/// is warned about; anything else is skipped.
pub fn on_event(event: WsEvent) -> (res: WsStep)
    ensures
        match event {
            WsEvent::Text(m) => res == WsStep::Handle(m),
            WsEvent::Unparseable { error, text } => res matches WsStep::Warn(w) && w@
                == unparseable_warning(error@, text@),
            WsEvent::Ping(data) => res == WsStep::Pong(data),
            WsEvent::Close | WsEvent::Closed | WsEvent::Failed | WsEvent::LogSendFailed => res is Stop,
            WsEvent::Other | WsEvent::Idle => res is Continue,
        },
{
    match event {
        WsEvent::Text(m) => WsStep::Handle(m),
        WsEvent::Unparseable { error, text } => {
            let mut out: Vec<char> = chars_of("Unparseable client message: ");
            append_str(&mut out, error.as_str());
            append_str(&mut out, " \u{2014} ");
            let quoted = debug_quoted(text.as_str());
            append_str(&mut out, quoted.as_str());
            WsStep::Warn(string_of(out.as_slice()))
        },
        WsEvent::Ping(data) => WsStep::Pong(data),
        WsEvent::Close => WsStep::Stop,
        WsEvent::Closed => WsStep::Stop,
        WsEvent::Failed => WsStep::Stop,
        WsEvent::LogSendFailed => WsStep::Stop,
        WsEvent::Other => WsStep::Continue,
        WsEvent::Idle => WsStep::Continue,
    }
}

} // verus!
