//! Recognition of the requests of the single-page control panel by the start of
//! what the client sent.
use vstd::prelude::*;

use vstd::utf8::encode_utf8;

verus! {

/// The requests that the single-page control panel sends.
#[derive(Debug, Clone, Copy, PartialEq, Eq, Structural)]
pub enum Requests {
    Get,
    GetJs,
    GetWs,
    PostStart,
    PostStop,
}

/// The bytes `b` begin with `prefix`.
pub open spec fn begins_with(b: Seq<u8>, prefix: Seq<u8>) -> bool {
    prefix.len() <= b.len() && b.take(prefix.len() as int) == prefix
}

/// The request that data beginning with these bytes is, by its request line.
pub open spec fn request_kind(b: Seq<u8>) -> Option<Requests> {
    if begins_with(b, encode_utf8("GET / HTTP/1.1"@)) {
        Some(Requests::Get)
    } else if begins_with(b, encode_utf8("GET /web_js/update_status.js HTTP/1.1"@)) {
        Some(Requests::GetJs)
    } else if begins_with(b, encode_utf8("GET /ws HTTP/1.1"@)) {
        Some(Requests::GetWs)
    } else if begins_with(b, encode_utf8("POST /start HTTP/1.1"@)) {
        Some(Requests::PostStart)
    } else if begins_with(b, encode_utf8("POST /stop HTTP/1.1"@)) {
        Some(Requests::PostStop)
    } else {
        None
    }
}

fn begins_with_str(b: &[u8], prefix: &str) -> (res: bool)
    ensures
        res == begins_with(b@, encode_utf8(prefix@)),
{
    let p: &[u8] = prefix.as_bytes();
    if p.len() > b.len() {
        return false;
    }
    let mut i: usize = 0;
    while i < p.len()
        invariant
            p@ == encode_utf8(prefix@),
            p@.len() <= b@.len(),
            i <= p@.len(),
            forall|j: int| 0 <= j < i ==> b@[j] == p@[j],
        decreases p@.len() - i,
    {
        if b[i] != p[i] {
            assert(b@.take(p@.len() as int)[i as int] != p@[i as int]);
            return false;
        }
        i = i + 1;
    }
    assert(b@.take(p@.len() as int) =~= p@);
    true
}

/// Which request the bytes peeked from a connection are; `None` for nothing
/// read or anything else.
pub fn parse_request(data: &[u8]) -> (res: Option<Requests>)
    ensures
        res == request_kind(data@),
{
    if begins_with_str(data, "GET / HTTP/1.1") {
        Some(Requests::Get)
    } else if begins_with_str(data, "GET /web_js/update_status.js HTTP/1.1") {
        Some(Requests::GetJs)
    } else if begins_with_str(data, "GET /ws HTTP/1.1") {
        Some(Requests::GetWs)
    } else if begins_with_str(data, "POST /start HTTP/1.1") {
        Some(Requests::PostStart)
    } else if begins_with_str(data, "POST /stop HTTP/1.1") {
        Some(Requests::PostStop)
    } else {
        None
    }
}

} // verus!
