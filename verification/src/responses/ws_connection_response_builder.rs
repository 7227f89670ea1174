//! The response that completes a WebSocket handshake.
use vstd::prelude::*;

use crate::text::{append_str, owned, string_of};

verus! {

/// Builds the `101 Switching Protocols` response of a WebSocket handshake.
#[derive(Debug)]
pub struct WsConnectionResponseBuilder {
    response_key: Option<String>,
}

/// The handshake response carrying `key` as `Sec-WebSocket-Accept`.
pub open spec fn switching_protocols(key: Seq<char>) -> Seq<char> {
    "HTTP/1.1 101 Switching Protocols\r\nUpgrade: websocket\r\nConnection: Upgrade\r\nSec-WebSocket-Accept: "@
        + key + "\r\n\r\n"@
}

impl WsConnectionResponseBuilder {
    pub closed spec fn spec_response_key(&self) -> Option<Seq<char>> {
        match self.response_key {
            Some(k) => Some(k@),
            None => None,
        }
    }

    /// A builder with no accept key.
    pub fn new() -> (res: Self)
        ensures
            res.spec_response_key() is None,
    {
        WsConnectionResponseBuilder { response_key: None }
    }

    pub fn response_key(self, response_key: &str) -> (res: Self)
        ensures
            res.spec_response_key() == Some(response_key@),
    {
        let mut b = self;
        b.response_key = Some(owned(response_key));
        b
    }

    /// The handshake response; the accept key is empty when none was set.
    pub fn build(self) -> (res: String)
        ensures
            res@ == switching_protocols(
                match self.spec_response_key() {
                    Some(k) => k,
                    None => Seq::<char>::empty(),
                },
            ),
    {
        let mut out: Vec<char> = Vec::new();
        append_str(
            &mut out,
            "HTTP/1.1 101 Switching Protocols\r\nUpgrade: websocket\r\nConnection: Upgrade\r\nSec-WebSocket-Accept: ",
        );
        match &self.response_key {
            Some(k) => append_str(&mut out, k.as_str()),
            None => {},
        }
        append_str(&mut out, "\r\n\r\n");
        proof {
            if self.response_key is None {
                assert(out@ =~= switching_protocols(Seq::<char>::empty()));
            }
        }
        string_of(out.as_slice())
    }
}

} // verus!
