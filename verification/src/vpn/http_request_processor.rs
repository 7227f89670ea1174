//! A request dispatcher: `GET` requests are routed, other methods
//! are not processed.
use vstd::prelude::*;

use super::http_request_get_processor::{self as get_processor, GetRoute};
use crate::requests::http_method::HttpMethod;
use crate::requests::http_request::HttpRequest;

verus! {

/// What a request leads to.
#[derive(Debug)]
pub enum Processing {
    /// A `GET` request and its route.
    Get(GetRoute),
    /// Any other method, which is not processed.
    Unsupported(HttpMethod),
}

pub fn process(http_request: &HttpRequest) -> (res: Processing)
    ensures
        http_request.method == HttpMethod::GET ==> res is Get,
        http_request.method != HttpMethod::GET ==> res == Processing::Unsupported(
            http_request.method,
        ),
{
    match http_request.method {
        HttpMethod::GET => Processing::Get(get_processor::process(http_request)),
        m => Processing::Unsupported(m),
    }
}

} // verus!
