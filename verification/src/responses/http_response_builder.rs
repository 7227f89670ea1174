//! Building HTTP responses.
use vstd::prelude::*;

use crate::text::{append_str, decimal, owned, push_decimal, string_of};
use vstd::utf8::encode_utf8;

verus! {

/// Collects the parts of an HTTP response; `build` writes it out once the
/// status code, the content type and the body are all set.
#[derive(Debug)]
pub struct HttpResponseBuilder {
    status_code: Option<u16>,
    content_type: Option<String>,
    text: Option<String>,
}

/// The reason phrase of a status code; `Unknown` for codes without one.
pub open spec fn reason_of(code: u16) -> Seq<char> {
    if code == 200 {
        "OK"@
    } else if code == 201 {
        "Created"@
    } else if code == 204 {
        "No Content"@
    } else if code == 301 {
        "Moved Permanently"@
    } else if code == 302 {
        "Found"@
    } else if code == 304 {
        "Not Modified"@
    } else if code == 400 {
        "Bad Request"@
    } else if code == 401 {
        "Unauthorized"@
    } else if code == 403 {
        "Forbidden"@
    } else if code == 404 {
        "Not Found"@
    } else if code == 405 {
        "Method Not Allowed"@
    } else if code == 500 {
        "Internal Server Error"@
    } else if code == 503 {
        "Service Unavailable"@
    } else {
        "Unknown"@
    }
}

pub fn reason_phrase(code: u16) -> (res: &'static str)
    ensures
        res@ == reason_of(code),
{
    match code {
        200 => "OK",
        201 => "Created",
        204 => "No Content",
        301 => "Moved Permanently",
        302 => "Found",
        304 => "Not Modified",
        400 => "Bad Request",
        401 => "Unauthorized",
        403 => "Forbidden",
        404 => "Not Found",
        405 => "Method Not Allowed",
        500 => "Internal Server Error",
        503 => "Service Unavailable",
        _ => "Unknown",
    }
}

/// The text of a response: status line, `Content-Type` and `Content-Length`
/// (the body's length in UTF-8 bytes), a blank line, then the body.
pub open spec fn response_text(code: u16, content_type: Seq<char>, body: Seq<char>) -> Seq<char> {
    "HTTP/1.1 "@ + decimal(code as nat) + " "@ + reason_of(code) + "\r\nContent-Type: "@
        + content_type + "\r\nContent-Length: "@ + decimal(encode_utf8(body).len()) + "\r\n\r\n"@
        + body
}

impl HttpResponseBuilder {
    pub closed spec fn spec_status_code(&self) -> Option<u16> {
        self.status_code
    }

    pub closed spec fn spec_content_type(&self) -> Option<Seq<char>> {
        match self.content_type {
            Some(c) => Some(c@),
            None => None,
        }
    }

    pub closed spec fn spec_text(&self) -> Option<Seq<char>> {
        match self.text {
            Some(t) => Some(t@),
            None => None,
        }
    }

    /// The response that `build` writes: empty unless all three parts are set.
    pub open spec fn spec_build(&self) -> Seq<char> {
        match (self.spec_status_code(), self.spec_content_type(), self.spec_text()) {
            (Some(code), Some(ct), Some(body)) => response_text(code, ct, body),
            _ => Seq::<char>::empty(),
        }
    }

    /// A builder with no part set.
    pub fn new() -> (res: Self)
        ensures
            res.spec_status_code() is None,
            res.spec_content_type() is None,
            res.spec_text() is None,
    {
        HttpResponseBuilder { status_code: None, content_type: None, text: None }
    }

    pub fn status_code(self, status_code: u16) -> (res: Self)
        ensures
            res.spec_status_code() == Some(status_code),
            res.spec_content_type() == self.spec_content_type(),
            res.spec_text() == self.spec_text(),
    {
        let mut b = self;
        b.status_code = Some(status_code);
        b
    }

    pub fn content_type(self, content_type: &str) -> (res: Self)
        ensures
            res.spec_status_code() == self.spec_status_code(),
            res.spec_content_type() == Some(content_type@),
            res.spec_text() == self.spec_text(),
    {
        let mut b = self;
        b.content_type = Some(owned(content_type));
        b
    }

    pub fn text(self, text: &str) -> (res: Self)
        ensures
            res.spec_status_code() == self.spec_status_code(),
            res.spec_content_type() == self.spec_content_type(),
            res.spec_text() == Some(text@),
    {
        let mut b = self;
        b.text = Some(owned(text));
        b
    }

    /// The response text, or an empty string when a part is missing.
    pub fn build(self) -> (res: String)
        ensures
            res@ == self.spec_build(),
    {
        let code = match self.status_code {
            Some(c) => c,
            None => return String::new(),
        };
        let content_type = match &self.content_type {
            Some(c) => c,
            None => return String::new(),
        };
        let text = match &self.text {
            Some(t) => t,
            None => return String::new(),
        };
        let mut out: Vec<char> = Vec::new();
        append_str(&mut out, "HTTP/1.1 ");
        push_decimal(&mut out, code as u64);
        append_str(&mut out, " ");
        append_str(&mut out, reason_phrase(code));
        append_str(&mut out, "\r\nContent-Type: ");
        append_str(&mut out, content_type.as_str());
        append_str(&mut out, "\r\nContent-Length: ");
        let length: usize = text.as_str().as_bytes().len();
        push_decimal(&mut out, length as u64);
        append_str(&mut out, "\r\n\r\n");
        append_str(&mut out, text.as_str());
        assert(length as nat == encode_utf8(text@).len());
        assert(out@ =~= response_text(code, content_type@, text@));
        string_of(out.as_slice())
    }
}

/// A response is written only when all three of its parts are set.
pub proof fn law_build_needs_all_parts(b: HttpResponseBuilder)
    ensures
        b.spec_build().len() > 0 <==> (b.spec_status_code() is Some && b.spec_content_type() is Some
            && b.spec_text() is Some),
{
    match (b.spec_status_code(), b.spec_content_type(), b.spec_text()) {
        (Some(code), Some(ct), Some(body)) => {
            reveal_strlit("HTTP/1.1 ");
        },
        _ => {},
    }
}

/// A written response ends with its body, after a blank line.
pub proof fn law_body_follows_blank_line(code: u16, content_type: Seq<char>, body: Seq<char>)
    ensures
        ({
            let r = response_text(code, content_type, body);
            &&& r.len() >= body.len() + 4
            &&& r.subrange(r.len() - body.len(), r.len() as int) == body
            &&& r.subrange(r.len() - body.len() - 4, r.len() - body.len()) == "\r\n\r\n"@
        }),
{
    reveal_strlit("\r\n\r\n");
    let head = "HTTP/1.1 "@ + decimal(code as nat) + " "@ + reason_of(code) + "\r\nContent-Type: "@
        + content_type + "\r\nContent-Length: "@ + decimal(encode_utf8(body).len());
    let r = response_text(code, content_type, body);
    assert(r == head + "\r\n\r\n"@ + body);
    assert(r.subrange(r.len() - body.len(), r.len() as int) =~= body);
    assert(r.subrange(r.len() - body.len() - 4, r.len() - body.len()) =~= "\r\n\r\n"@);
}

} // verus!
