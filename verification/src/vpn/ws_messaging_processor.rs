//! An echoing WebSocket endpoint: after the handshake it echoes every
//! message until the client sends `exit`.
use vstd::prelude::*;

use crate::requests::http_request::HttpRequest;
use crate::responses::ws_connection_response_builder::{
    switching_protocols, WsConnectionResponseBuilder,
};
use crate::server::ws::handler::{accept_key_of, client_key, generate_accept_key};
use crate::text::{chars_of, equals_str, owned, string_of, trim_chars};

verus! {

/// The accept key for a client key (the same computation as the server's
/// handshake).
pub fn generate_websocket_accept_key(key: &str) -> (res: String)
    ensures
        res@ == accept_key_of(key@),
{
    generate_accept_key(key)
}

/// The handshake response, or `None` when the request's `Upgrade` field is
/// not `websocket`. The field must be present.
pub fn init_ws_handshake(http_request: &HttpRequest) -> (res: Option<String>)
    requires
        http_request.view_of().headers.contains_key("Upgrade"@),
    ensures
        match res {
            Some(r) => http_request.view_of().headers["Upgrade"@] == "websocket"@ && r@
                == switching_protocols(accept_key_of(client_key(http_request.view_of()))),
            None => http_request.view_of().headers["Upgrade"@] != "websocket"@,
        },
{
    let upgrade = match http_request.headers.get("Upgrade") {
        Some(v) => v,
        None => return None,
    };
    if !equals_str(chars_of(upgrade.as_str()).as_slice(), "websocket") {
        return None;
    }
    let key = match http_request.headers.get("Sec-WebSocket-Key") {
        Some(v) => string_of(trim_chars(chars_of(v.as_str()).as_slice()).as_slice()),
        None => {
            proof {
                reveal_strlit("");
            }
            owned("")
        },
    };
    let accept = generate_websocket_accept_key(key.as_str());
    Some(WsConnectionResponseBuilder::new().response_key(accept.as_str()).build())
}

/// The answer to a message: the message itself, or `None` for `exit`, which
/// ends the session.
pub fn handle_ws_message(message: &str) -> (res: Option<String>)
    ensures
        message@ == "exit"@ ==> res is None,
        message@ != "exit"@ ==> (res matches Some(m) && m@ == message@),
{
    if equals_str(chars_of(message).as_slice(), "exit") {
        None
    } else {
        Some(owned(message))
    }
}

} // verus!
