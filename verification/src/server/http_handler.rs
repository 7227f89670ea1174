//! The first step of handling a connection: the bytes read become a request.
use vstd::prelude::*;

use crate::requests::http_request::{request_of, HttpRequest};
use vstd::utf8::{decode_utf8, valid_utf8};

verus! {

/// The text that lossy UTF-8 decoding gives for a byte string: each
/// invalid sequence becomes U+FFFD. It depends on the bytes alone.
pub uninterp spec fn lossy_text(bytes: Seq<u8>) -> Seq<char>;

/// `String::from_utf8_lossy`, made owned: its text is named `lossy_text`;
/// on valid UTF-8 that is the text the bytes encode.
#[verifier::external_body]
fn decode_lossy(bytes: &[u8]) -> (res: String)
    ensures
        res@ == lossy_text(bytes@),
        valid_utf8(bytes@) ==> res@ == decode_utf8(bytes@),
{
    String::from_utf8_lossy(bytes).into_owned()
}

/// The request that the first `size` bytes read hold, decoded as UTF-8 with
/// invalid sequences replaced; `None` when they hold no valid request, in
/// which case the connection is closed.
pub fn handle_request(size: usize, data: &[u8]) -> (res: Option<HttpRequest>)
    requires
        size <= data@.len(),
    ensures
        match res {
            Some(r) => request_of(lossy_text(data@.take(size as int))) == Some(r.view_of()),
            None => request_of(lossy_text(data@.take(size as int))) is None,
        },
        valid_utf8(data@.take(size as int)) ==> lossy_text(data@.take(size as int))
            == decode_utf8(data@.take(size as int)),
{
    let read = vstd::slice::slice_subrange(data, 0, size);
    assert(read@ =~= data@.take(size as int));
    let text = decode_lossy(read);
    HttpRequest::new(text.as_str())
}

} // verus!
