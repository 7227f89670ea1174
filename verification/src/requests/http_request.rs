//! Parsing an HTTP request: the request line, the header fields and the
//! body.
use vstd::prelude::*;

use crate::requests::http_method::HttpMethod;
use crate::text::{chars_equal, chars_of, contains, ends_with, find, find_in, lemma_first_newline, lemma_lines_after_crlf, lemma_lines_at, lemma_lines_concat_crlf, lemma_lines_nonempty, lemma_lines_one, lines, occurs_at, slice_chars, split_lines, split_words, string_of, views, words};

verus! {

// ---------------------------------------------------------------------------
// Header fields
// ---------------------------------------------------------------------------

/// The header fields of a request, by name; a later field with the same name
/// replaces an earlier one.
#[derive(Debug)]
pub struct Headers {
    entries: Vec<(String, String)>,
}

/// The map that a list of (name, value) fields gives, later fields winning.
pub open spec fn entries_map(e: Seq<(String, String)>) -> Map<Seq<char>, Seq<char>>
    decreases e.len(),
{
    if e.len() == 0 {
        Map::empty()
    } else {
        entries_map(e.drop_last()).insert(e.last().0@, e.last().1@)
    }
}

proof fn lemma_entries_map_last(e: Seq<(String, String)>, key: Seq<char>, i: int)
    requires
        0 <= i < e.len(),
        e[i].0@ == key,
        forall|j: int| i < j < e.len() ==> e[j].0@ != key,
    ensures
        entries_map(e).contains_key(key),
        entries_map(e)[key] == e[i].1@,
    decreases e.len(),
{
    if i < e.len() - 1 {
        lemma_entries_map_last(e.drop_last(), key, i);
    }
}

proof fn lemma_entries_map_absent(e: Seq<(String, String)>, key: Seq<char>)
    requires
        forall|j: int| 0 <= j < e.len() ==> e[j].0@ != key,
    ensures
        !entries_map(e).contains_key(key),
    decreases e.len(),
{
    if e.len() > 0 {
        lemma_entries_map_absent(e.drop_last(), key);
    }
}

impl View for Headers {
    type V = Map<Seq<char>, Seq<char>>;

    closed spec fn view(&self) -> Map<Seq<char>, Seq<char>> {
        entries_map(self.entries@)
    }
}

impl Headers {
    /// No header fields.
    pub fn new() -> (res: Headers)
        ensures
            res@ == Map::<Seq<char>, Seq<char>>::empty(),
    {
        Headers { entries: Vec::new() }
    }

    /// Sets the field `key` to `value`, replacing any earlier value.
    pub fn insert(&mut self, key: String, value: String)
        ensures
            final(self)@ == old(self)@.insert(key@, value@),
    {
        let ghost before = self.entries@;
        self.entries.push((key, value));
        assert(self.entries@.drop_last() == before);
    }

    /// The value of the field `key`.
    pub fn get(&self, key: &str) -> (res: Option<&String>)
        ensures
            match res {
                Some(v) => self@.contains_key(key@) && self@[key@] == v@,
                None => !self@.contains_key(key@),
            },
    {
        let k = chars_of(key);
        let mut i: usize = self.entries.len();
        while i > 0
            invariant
                i <= self.entries@.len(),
                k@ == key@,
                forall|j: int| i <= j < self.entries@.len() ==> self.entries@[j].0@ != key@,
            decreases i,
        {
            let name = chars_of(self.entries[i - 1].0.as_str());
            if chars_equal(name.as_slice(), k.as_slice()) {
                proof {
                    lemma_entries_map_last(self.entries@, key@, i - 1);
                }
                return Some(&self.entries[i - 1].1);
            }
            i = i - 1;
        }
        proof {
            lemma_entries_map_absent(self.entries@, key@);
        }
        None
    }

    /// Whether there are no header fields.
    pub fn is_empty(&self) -> (res: bool)
        ensures
            res == (self@ == Map::<Seq<char>, Seq<char>>::empty()),
    {
        if self.entries.len() == 0 {
            assert(self@ =~= Map::<Seq<char>, Seq<char>>::empty());
            true
        } else {
            assert(self@.contains_key(self.entries@.last().0@));
            false
        }
    }
}

// ---------------------------------------------------------------------------
// Requests
// ---------------------------------------------------------------------------

/// A parsed HTTP request.
#[derive(Debug)]
pub struct HttpRequest {
    pub method: HttpMethod,
    pub path: String,
    pub headers: Headers,
    pub body: Option<String>,
}

/// The position of the first empty line in `ls`, or its length.
pub open spec fn blank_line_pos(ls: Seq<Seq<char>>) -> int {
    if exists|i: int| 0 <= i < ls.len() && ls[i].len() == 0 {
        choose|i: int| 0 <= i < ls.len() && ls[i].len() == 0 && forall|j: int| 0 <= j < i ==> ls[j].len() != 0
    } else {
        ls.len() as int
    }
}

/// The header fields that lines of the form `name: value` give; the name
/// ends at the first `": "`, and other lines are ignored.
pub open spec fn header_map(ls: Seq<Seq<char>>) -> Map<Seq<char>, Seq<char>>
    decreases ls.len(),
{
    if ls.len() == 0 {
        Map::empty()
    } else {
        let m = header_map(ls.drop_last());
        match find(ls.last(), ": "@) {
            Some(p) => m.insert(ls.last().take(p), ls.last().skip(p + 2)),
            None => m,
        }
    }
}

/// The pieces joined with `sep` between them.
pub open spec fn join(parts: Seq<Seq<char>>, sep: Seq<char>) -> Seq<char>
    decreases parts.len(),
{
    if parts.len() == 0 {
        seq![]
    } else if parts.len() == 1 {
        parts[0]
    } else {
        join(parts.drop_last(), sep) + sep + parts.last()
    }
}

proof fn lemma_join_holds_parts(parts: Seq<Seq<char>>, sep: Seq<char>, k: int)
    requires
        0 <= k < parts.len(),
    ensures
        contains(join(parts, sep), parts[k]),
    decreases parts.len(),
{
    let j = join(parts, sep);
    if parts.len() == 1 {
        assert(j == parts[0]);
        assert(j.subrange(0, j.len() as int) =~= parts[0]);
        assert(occurs_at(j, parts[k], 0));
    } else {
        let front = join(parts.drop_last(), sep);
        assert(j == front + sep + parts.last());
        if k == parts.len() - 1 {
            let o = (front.len() + sep.len()) as int;
            assert(j.subrange(o, o + parts[k].len()) =~= parts[k]);
            assert(occurs_at(j, parts[k], o));
        } else {
            lemma_join_holds_parts(parts.drop_last(), sep, k);
            assert(parts.drop_last()[k] == parts[k]);
            let i = choose|i: int| occurs_at(front, parts[k], i);
            assert(j.subrange(i, i + parts[k].len()) =~= front.subrange(i, i + parts[k].len()));
            assert(occurs_at(j, parts[k], i));
        }
    }
}

proof fn lemma_join_ends_with_last(parts: Seq<Seq<char>>, sep: Seq<char>)
    requires
        parts.len() >= 1,
    ensures
        ends_with(join(parts, sep), parts.last()),
{
    let j = join(parts, sep);
    if parts.len() == 1 {
        assert(j.subrange(0, j.len() as int) =~= parts.last());
    } else {
        let front = join(parts.drop_last(), sep);
        assert(j == front + sep + parts.last());
        assert(j.subrange(j.len() - parts.last().len(), j.len() as int) =~= parts.last());
    }
}

/// The body of a request keeps every line after the first empty line: each
/// one that is not empty occurs in it, and the body ends with the last line;
/// there is a body whenever one of those lines is not empty.
pub proof fn law_body_keeps_every_line(text: Seq<char>, r: RequestView)
    requires
        request_of(text) == Some(r),
    ensures
        ({
            let rest = lines(text).skip(1);
            let e = blank_line_pos(rest);
            &&& forall|k: int|
                e < k < rest.len() && rest[k].len() > 0 ==> (r.body matches Some(b) && contains(
                    b,
                    #[trigger] rest[k],
                ))
            &&& (e + 1 < rest.len() && r.body is Some) ==> ends_with(r.body.unwrap(), rest.last())
        }),
{
    let ls = lines(text);
    let rest = ls.skip(1);
    let e = blank_line_pos(rest);
    lemma_blank_line_pos_in_range(rest);
    if e < rest.len() {
        let body_lines = rest.skip(e + 1);
        let body = join(body_lines, "\n"@);
        assert forall|k: int| e < k < rest.len() && rest[k].len() > 0 implies (r.body matches Some(
            b,
        ) && contains(b, #[trigger] rest[k])) by {
            assert(body_lines[k - e - 1] == rest[k]);
            lemma_join_holds_parts(body_lines, "\n"@, k - e - 1);
            let i = choose|i: int| occurs_at(body, rest[k], i);
            assert(body.len() > 0);
        }
        if e + 1 < rest.len() && r.body is Some {
            assert(body_lines.last() == rest.last());
            lemma_join_ends_with_last(body_lines, "\n"@);
        }
    }
}

proof fn lemma_join_prepend(p: Seq<char>, q: Seq<Seq<char>>, sep: Seq<char>)
    requires
        q.len() >= 1,
    ensures
        join(seq![p] + q, sep) == p + sep + join(q, sep),
    decreases q.len(),
{
    let all = seq![p] + q;
    if q.len() == 1 {
        assert(all.drop_last() =~= seq![p]);
        assert(all.last() == q[0]);
        assert(join(seq![p], sep) == p);
        assert(join(q, sep) == q[0]);
        assert(join(all, sep) == join(all.drop_last(), sep) + sep + all.last());
    } else {
        assert(all.drop_last() =~= seq![p] + q.drop_last());
        lemma_join_prepend(p, q.drop_last(), sep);
        assert(all.last() == q.last());
        assert(join(all, sep) =~= p + sep + join(q, sep));
    }
}

/// Joining the lines of a text with line feeds gives the text back, when it
/// holds no carriage return and does not end with a line feed.
proof fn lemma_join_lines(b: Seq<char>)
    requires
        forall|k: int| 0 <= k < b.len() ==> b[k] != '\r',
        b.len() == 0 || b.last() != '\n',
    ensures
        join(lines(b), "\n"@) == b,
    decreases b.len(),
{
    reveal_strlit("\n");
    if b.len() == 0 {
        reveal(lines);
        assert(lines(b) == Seq::<Seq<char>>::empty());
    } else if exists|k: int| 0 <= k < b.len() && b[k] == '\n' {
        let i = lemma_first_newline(b);
        lemma_lines_at(b, i);
        let b2 = b.skip(i + 1);
        assert(i < b.len() - 1);
        assert(b2.last() == b.last());
        lemma_join_lines(b2);
        lemma_lines_nonempty(b2);
        if i > 0 {
            assert(b.take(i).last() == b[i - 1]);
        }
        assert(strip_cr_free(b.take(i)));
        lemma_join_prepend(b.take(i), lines(b2), "\n"@);
        assert(b =~= b.take(i) + "\n"@ + b2);
    } else {
        lemma_lines_one(b);
    }
}

/// Whether a piece of text is its own line (no carriage return at its end).
spec fn strip_cr_free(s: Seq<char>) -> bool {
    crate::text::strip_cr(s) == s
}

/// The body of a request is the text that follows the first empty line, as
/// it stands: after a head whose lines are all non-empty and an empty line,
/// a body text that holds no carriage return and does not end with a line
/// feed is the parsed body (none when it is empty).
pub proof fn law_body_is_text_after_blank_line(head: Seq<char>, b: Seq<char>, r: RequestView)
    requires
        head.len() > 0,
        head.last() != '\n',
        forall|k: int| 0 <= k < lines(head).len() ==> #[trigger] lines(head)[k].len() > 0,
        forall|k: int| 0 <= k < b.len() ==> b[k] != '\r',
        b.len() == 0 || b.last() != '\n',
        request_of(head + "\r\n\r\n"@ + b) == Some(r),
    ensures
        r.body == (if b.len() == 0 {
            None
        } else {
            Some(b)
        }),
{
    reveal_strlit("\r\n\r\n");
    let crlf = seq!['\r', '\n'];
    let text = head + "\r\n\r\n"@ + b;
    assert(text =~= head + crlf + (crlf + b));
    lemma_lines_concat_crlf(head, crlf + b);
    lemma_lines_after_crlf(b);
    lemma_lines_nonempty(head);
    let h = lines(head);
    let ls = lines(text);
    assert(ls == h + (seq![Seq::<char>::empty()] + lines(b)));
    let rest = ls.skip(1);
    let e = h.len() - 1;
    assert forall|j: int| 0 <= j < e implies rest[j].len() != 0 by {
        assert(rest[j] == h[j + 1]);
    }
    assert(rest[e] == Seq::<char>::empty());
    lemma_blank_line_pos(rest, e);
    assert(rest.skip(e + 1) =~= lines(b));
    lemma_join_lines(b);
}

/// A request as the contracts see it.
pub struct RequestView {
    pub method: HttpMethod,
    pub path: Seq<char>,
    pub headers: Map<Seq<char>, Seq<char>>,
    pub body: Option<Seq<char>>,
}

/// The request that `text` holds: its first line has at least two words, a
/// method name and a path; the header lines run up to the first empty line;
/// the lines after that, joined with line feeds, are the body (none when
/// that is empty).
pub open spec fn request_of(text: Seq<char>) -> Option<RequestView> {
    let ls = lines(text);
    if ls.len() == 0 {
        None
    } else {
        let parts = words(ls[0]);
        if parts.len() < 2 {
            None
        } else {
            match HttpMethod::spec_named(parts[0]) {
                None => None,
                Some(method) => {
                    let rest = ls.skip(1);
                    let e = blank_line_pos(rest);
                    let body_lines = if e < rest.len() {
                        rest.skip(e + 1)
                    } else {
                        Seq::<Seq<char>>::empty()
                    };
                    let body = join(body_lines, "\n"@);
                    Some(
                        RequestView {
                            method,
                            path: parts[1],
                            headers: header_map(rest.take(e)),
                            body: if body.len() == 0 {
                                None
                            } else {
                                Some(body)
                            },
                        },
                    )
                },
            }
        }
    }
}

impl HttpRequest {
    pub open spec fn view_of(&self) -> RequestView {
        RequestView {
            method: self.method,
            path: self.path@,
            headers: self.headers@,
            body: match self.body {
                Some(b) => Some(b@),
                None => None,
            },
        }
    }

    /// Parses the text of a request; `None` when the request line lacks a
    /// path or names no known method, or when the text is empty.
    pub fn new(request: &str) -> (res: Option<HttpRequest>)
        ensures
            match res {
                Some(r) => request_of(request@) == Some(r.view_of()),
                None => request_of(request@) is None,
            },
    {
        let text = chars_of(request);
        let ls = split_lines(text.as_slice());
        if ls.len() == 0 {
            return None;
        }
        let parts = split_words(ls[0].as_slice());
        if parts.len() < 2 {
            return None;
        }
        proof {
            assert(views(ls@)[0] == ls@[0]@);
            assert(views(parts@)[0] == parts@[0]@);
            assert(views(parts@)[1] == parts@[1]@);
        }
        let method = match HttpMethod::from_chars(parts[0].as_slice()) {
            Some(m) => m,
            None => return None,
        };
        let path = string_of(parts[1].as_slice());
        let ghost rest = views(ls@).skip(1);
        let mut headers = Headers::new();
        let mut i: usize = 1;
        assert(rest.take(0) =~= Seq::<Seq<char>>::empty());
        while i < ls.len() && ls[i].len() > 0
            invariant
                1 <= i <= ls@.len(),
                rest == views(ls@).skip(1),
                forall|j: int| 0 <= j < i - 1 ==> rest[j].len() != 0,
                headers@ == header_map(rest.take(i - 1)),
            decreases ls@.len() - i,
        {
            let line = &ls[i];
            proof {
                assert(rest[i - 1] == line@);
                assert(rest.take(i as int).drop_last() == rest.take(i - 1));
                assert(rest.take(i as int).last() == line@);
            }
            proof {
                reveal_strlit(": ");
            }
            match find_in(line.as_slice(), chars_of(": ").as_slice()) {
                Some(p) => {
                    let key = string_of(slice_chars(line.as_slice(), 0, p).as_slice());
                    let value = string_of(slice_chars(line.as_slice(), p + 2, line.len()).as_slice());
                    proof {
                        assert(line@.subrange(0, p as int) == line@.take(p as int));
                        assert(line@.subrange(p + 2, line@.len() as int) == line@.skip(p + 2));
                    }
                    headers.insert(key, value);
                },
                None => {},
            }
            i = i + 1;
        }
        proof {
            if i < ls@.len() {
                assert(rest[i - 1].len() == 0);
            }
            lemma_blank_line_pos(rest, i - 1);
        }
        let mut body: Vec<char> = Vec::new();
        if i < ls.len() {
            let mut k: usize = i + 1;
            proof {
                reveal_strlit("\n");
                assert(views(ls@).subrange(i + 1, k as int) =~= Seq::<Seq<char>>::empty());
            }
            while k < ls.len()
                invariant
                    i < k <= ls@.len(),
                    body@ == join(views(ls@).subrange(i + 1, k as int), "\n"@),
                    "\n"@ == seq!['\n'],
                decreases ls@.len() - k,
            {
                let ghost parts_before = views(ls@).subrange(i + 1, k as int);
                let ghost parts_after = views(ls@).subrange(i + 1, k + 1);
                proof {
                    assert(parts_after.drop_last() == parts_before);
                    assert(parts_after.last() == ls@[k as int]@);
                }
                if k > i + 1 {
                    body.push('\n');
                }
                crate::text::append_chars(&mut body, ls[k].as_slice());
                proof {
                    if k == i + 1 {
                        assert(parts_after =~= seq![ls@[k as int]@]);
                        assert(body@ =~= parts_after[0]);
                    } else {
                        assert(body@ =~= join(parts_before, "\n"@) + "\n"@ + ls@[k as int]@);
                    }
                }
                k = k + 1;
            }
            assert(views(ls@).subrange(i + 1, ls@.len() as int) == rest.skip(i as int));
        } else {
            assert(join(Seq::<Seq<char>>::empty(), "\n"@) == Seq::<char>::empty());
        }
        let body_text = if body.len() == 0 {
            None
        } else {
            Some(string_of(body.as_slice()))
        };
        Some(HttpRequest { method, path, headers, body: body_text })
    }
}

proof fn lemma_blank_line_pos(ls: Seq<Seq<char>>, e: int)
    requires
        0 <= e <= ls.len(),
        forall|j: int| 0 <= j < e ==> ls[j].len() != 0,
        e < ls.len() ==> ls[e].len() == 0,
    ensures
        blank_line_pos(ls) == e,
{
    if e < ls.len() {
        let k = choose|i: int|
            0 <= i < ls.len() && ls[i].len() == 0 && forall|j: int| 0 <= j < i ==> ls[j].len() != 0;
        assert(0 <= k < ls.len() && ls[k].len() == 0);
        if k < e {
            assert(ls[k].len() != 0);
        }
        if e < k {
            assert(ls[e].len() != 0);
        }
    }
}

proof fn lemma_first_blank_from(ls: Seq<Seq<char>>, k: int)
    requires
        0 <= k <= ls.len(),
        forall|j: int| 0 <= j < k ==> ls[j].len() != 0,
    ensures
        0 <= blank_line_pos(ls) <= ls.len(),
    decreases ls.len() - k,
{
    if k == ls.len() || ls[k].len() == 0 {
        lemma_blank_line_pos(ls, k);
    } else {
        lemma_first_blank_from(ls, k + 1);
    }
}

proof fn lemma_blank_line_pos_in_range(ls: Seq<Seq<char>>)
    ensures
        0 <= blank_line_pos(ls) <= ls.len(),
{
    lemma_first_blank_from(ls, 0);
}

} // verus!
