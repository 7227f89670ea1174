//! HTTP request methods.
use vstd::prelude::*;

use crate::text::{chars_equal, chars_of};

verus! {

/// The request methods that the server recognises.
#[allow(non_camel_case_types)]
#[derive(Debug, Clone, Copy, PartialEq, Eq, Structural)]
pub enum HttpMethod {
    GET,
    POST,
    DELETE,
    UPDATE,
    HEAD,
    PUT,
    OPTIONS,
    CONNECT,
    TRACE,
    PATCH,
}

impl HttpMethod {
    /// The method's name, as it appears on a request line.
    pub open spec fn spec_name(self) -> Seq<char> {
        match self {
            HttpMethod::GET => "GET"@,
            HttpMethod::POST => "POST"@,
            HttpMethod::DELETE => "DELETE"@,
            HttpMethod::UPDATE => "UPDATE"@,
            HttpMethod::HEAD => "HEAD"@,
            HttpMethod::PUT => "PUT"@,
            HttpMethod::OPTIONS => "OPTIONS"@,
            HttpMethod::CONNECT => "CONNECT"@,
            HttpMethod::TRACE => "TRACE"@,
            HttpMethod::PATCH => "PATCH"@,
        }
    }

    /// The method that `s` names exactly (names are case-sensitive).
    pub open spec fn spec_named(s: Seq<char>) -> Option<HttpMethod> {
        if s == "GET"@ {
            Some(HttpMethod::GET)
        } else if s == "POST"@ {
            Some(HttpMethod::POST)
        } else if s == "DELETE"@ {
            Some(HttpMethod::DELETE)
        } else if s == "UPDATE"@ {
            Some(HttpMethod::UPDATE)
        } else if s == "HEAD"@ {
            Some(HttpMethod::HEAD)
        } else if s == "PUT"@ {
            Some(HttpMethod::PUT)
        } else if s == "OPTIONS"@ {
            Some(HttpMethod::OPTIONS)
        } else if s == "CONNECT"@ {
            Some(HttpMethod::CONNECT)
        } else if s == "TRACE"@ {
            Some(HttpMethod::TRACE)
        } else if s == "PATCH"@ {
            Some(HttpMethod::PATCH)
        } else {
            None
        }
    }

    /// The method named by `cs`.
    pub fn from_chars(cs: &[char]) -> (res: Option<HttpMethod>)
        ensures
            res == Self::spec_named(cs@),
    {
        if chars_equal(cs, chars_of("GET").as_slice()) {
            Some(HttpMethod::GET)
        } else if chars_equal(cs, chars_of("POST").as_slice()) {
            Some(HttpMethod::POST)
        } else if chars_equal(cs, chars_of("DELETE").as_slice()) {
            Some(HttpMethod::DELETE)
        } else if chars_equal(cs, chars_of("UPDATE").as_slice()) {
            Some(HttpMethod::UPDATE)
        } else if chars_equal(cs, chars_of("HEAD").as_slice()) {
            Some(HttpMethod::HEAD)
        } else if chars_equal(cs, chars_of("PUT").as_slice()) {
            Some(HttpMethod::PUT)
        } else if chars_equal(cs, chars_of("OPTIONS").as_slice()) {
            Some(HttpMethod::OPTIONS)
        } else if chars_equal(cs, chars_of("CONNECT").as_slice()) {
            Some(HttpMethod::CONNECT)
        } else if chars_equal(cs, chars_of("TRACE").as_slice()) {
            Some(HttpMethod::TRACE)
        } else if chars_equal(cs, chars_of("PATCH").as_slice()) {
            Some(HttpMethod::PATCH)
        } else {
            None
        }
    }

    /// The method named by `s`; `Err(())` for any other text.
    pub fn parse_method(s: &str) -> (res: Result<HttpMethod, ()>)
        ensures
            match Self::spec_named(s@) {
                Some(m) => res == Ok::<HttpMethod, ()>(m),
                None => res is Err,
            },
    {
        match Self::from_chars(chars_of(s).as_slice()) {
            Some(m) => Ok(m),
            None => Err(()),
        }
    }
}

impl std::str::FromStr for HttpMethod {
    type Err = ();

    fn from_str(s: &str) -> (res: Result<Self, Self::Err>)
        ensures
            match HttpMethod::spec_named(s@) {
                Some(m) => res == Ok::<HttpMethod, ()>(m),
                None => res is Err,
            },
    {
        HttpMethod::parse_method(s)
    }
}

/// Every method's name parses back to that method.
pub proof fn law_method_name_round_trip(m: HttpMethod)
    ensures
        HttpMethod::spec_named(m.spec_name()) == Some(m),
{
    reveal_strlit("GET");
    reveal_strlit("POST");
    reveal_strlit("DELETE");
    reveal_strlit("UPDATE");
    reveal_strlit("HEAD");
    reveal_strlit("PUT");
    reveal_strlit("OPTIONS");
    reveal_strlit("CONNECT");
    reveal_strlit("TRACE");
    reveal_strlit("PATCH");
    let n = m.spec_name();
    match m {
        HttpMethod::GET => {
        },
        HttpMethod::POST => {
            assert(n.len() != "GET"@.len());
        },
        HttpMethod::DELETE => {
            assert(n.len() != "GET"@.len());
            assert(n.len() != "POST"@.len());
        },
        HttpMethod::UPDATE => {
            assert(n.len() != "GET"@.len());
            assert(n.len() != "POST"@.len());
            assert(n[0] != "DELETE"@[0]);
        },
        HttpMethod::HEAD => {
            assert(n.len() != "GET"@.len());
            assert(n[0] != "POST"@[0]);
            assert(n.len() != "DELETE"@.len());
            assert(n.len() != "UPDATE"@.len());
        },
        HttpMethod::PUT => {
            assert(n[0] != "GET"@[0]);
            assert(n.len() != "POST"@.len());
            assert(n.len() != "DELETE"@.len());
            assert(n.len() != "UPDATE"@.len());
            assert(n.len() != "HEAD"@.len());
        },
        HttpMethod::OPTIONS => {
            assert(n.len() != "GET"@.len());
            assert(n.len() != "POST"@.len());
            assert(n.len() != "DELETE"@.len());
            assert(n.len() != "UPDATE"@.len());
            assert(n.len() != "HEAD"@.len());
            assert(n.len() != "PUT"@.len());
        },
        HttpMethod::CONNECT => {
            assert(n.len() != "GET"@.len());
            assert(n.len() != "POST"@.len());
            assert(n.len() != "DELETE"@.len());
            assert(n.len() != "UPDATE"@.len());
            assert(n.len() != "HEAD"@.len());
            assert(n.len() != "PUT"@.len());
            assert(n[0] != "OPTIONS"@[0]);
        },
        HttpMethod::TRACE => {
            assert(n.len() != "GET"@.len());
            assert(n.len() != "POST"@.len());
            assert(n.len() != "DELETE"@.len());
            assert(n.len() != "UPDATE"@.len());
            assert(n.len() != "HEAD"@.len());
            assert(n.len() != "PUT"@.len());
            assert(n.len() != "OPTIONS"@.len());
            assert(n.len() != "CONNECT"@.len());
        },
        HttpMethod::PATCH => {
            assert(n.len() != "GET"@.len());
            assert(n.len() != "POST"@.len());
            assert(n.len() != "DELETE"@.len());
            assert(n.len() != "UPDATE"@.len());
            assert(n.len() != "HEAD"@.len());
            assert(n.len() != "PUT"@.len());
            assert(n.len() != "OPTIONS"@.len());
            assert(n.len() != "CONNECT"@.len());
            assert(n[0] != "TRACE"@[0]);
        },
    }
}

} // verus!
