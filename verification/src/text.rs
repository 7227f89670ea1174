//! Character-level text handling shared by the parsers and formatters of the
//! library: whitespace, case folding, searching, trimming, line and word
//! splitting, and decimal numbers.
use vstd::prelude::*;

verus! {

// ---------------------------------------------------------------------------
// Character classes
// ---------------------------------------------------------------------------

/// Unicode `White_Space`, as used by `char::is_whitespace`, `str::trim`,
/// `str::split_whitespace` and the regex class `\s`.
pub open spec fn is_ws(c: char) -> bool {
    ||| ('\t' <= c && c <= '\r')
    ||| c == ' '
    ||| c == '\u{85}'
    ||| c == '\u{a0}'
    ||| c == '\u{1680}'
    ||| ('\u{2000}' <= c && c <= '\u{200a}')
    ||| c == '\u{2028}'
    ||| c == '\u{2029}'
    ||| c == '\u{202f}'
    ||| c == '\u{205f}'
    ||| c == '\u{3000}'
}

pub open spec fn is_ascii_digit(c: char) -> bool {
    '0' <= c && c <= '9'
}

pub open spec fn is_ascii_upper(c: char) -> bool {
    'A' <= c && c <= 'Z'
}

pub open spec fn is_ascii_alpha(c: char) -> bool {
    ('A' <= c && c <= 'Z') || ('a' <= c && c <= 'z')
}

/// `u8::is_ascii_whitespace`: space, tab, line feed, form feed, carriage return.
pub open spec fn is_ascii_ws(c: char) -> bool {
    c == ' ' || c == '\t' || c == '\n' || c == '\x0C' || c == '\r'
}

/// ASCII lower-casing of one character; other characters are unchanged.
pub open spec fn ascii_lower(c: char) -> char {
    if is_ascii_upper(c) {
        ((c as u32) + 32) as char
    } else {
        c
    }
}

pub open spec fn lower(s: Seq<char>) -> Seq<char> {
    s.map_values(|c: char| ascii_lower(c))
}

pub open spec fn digit_value(c: char) -> nat {
    ((c as u32) - ('0' as u32)) as nat
}

pub fn is_whitespace(c: char) -> (res: bool)
    ensures
        res == is_ws(c),
{
    ('\t' <= c && c <= '\r') || c == ' ' || c == '\u{85}' || c == '\u{a0}' || c == '\u{1680}'
        || ('\u{2000}' <= c && c <= '\u{200a}') || c == '\u{2028}' || c == '\u{2029}'
        || c == '\u{202f}' || c == '\u{205f}' || c == '\u{3000}'
}

pub fn to_ascii_lower(c: char) -> (res: char)
    ensures
        res == ascii_lower(c),
{
    if 'A' <= c && c <= 'Z' {
        let code: u32 = c as u32;
        let lowered: u8 = (code + 32) as u8;
        lowered as char
    } else {
        c
    }
}

// ---------------------------------------------------------------------------
// Conversions between strings and character vectors
// ---------------------------------------------------------------------------

/// The characters of a string slice, in order.
pub fn chars_of(s: &str) -> (res: Vec<char>)
    ensures
        res@ == s@,
{
    let mut out: Vec<char> = Vec::new();
    for c in it: s.chars()
        invariant
            out@ == it.seq().take(it.index() as int),
    {
        out.push(c);
    }
    out
}

/// An owned copy of a string slice.
pub fn owned(s: &str) -> (res: String)
    ensures
        res@ == s@,
{
    s.to_string()
}

/// The views of a sequence of strings.
pub open spec fn string_views(v: Seq<String>) -> Seq<Seq<char>> {
    v.map_values(|x: String| x@)
}

pub proof fn lemma_string_views_push(v: Seq<String>, x: String)
    ensures
        string_views(v.push(x)) == string_views(v).push(x@),
{
    assert(string_views(v.push(x)) =~= string_views(v).push(x@));
}

/// `String::push`: appends one character.
#[verifier::external_body]
fn push_char(s: &mut String, c: char)
    ensures
        final(s)@ == old(s)@.push(c),
{
    s.push(c);
}

/// The string made of the given characters.
pub fn string_of(cs: &[char]) -> (res: String)
    ensures
        res@ == cs@,
{
    let mut out = String::new();
    let mut i: usize = 0;
    while i < cs.len()
        invariant
            i <= cs@.len(),
            out@ == cs@.take(i as int),
        decreases cs@.len() - i,
    {
        push_char(&mut out, cs[i]);
        assert(cs@.take(i + 1) == cs@.take(i as int).push(cs@[i as int]));
        i = i + 1;
    }
    assert(cs@.take(cs@.len() as int) == cs@);
    out
}

/// Appends the characters of `s` to `out`.
pub fn append_str(out: &mut Vec<char>, s: &str)
    ensures
        final(out)@ == old(out)@ + s@,
{
    let mut cs = chars_of(s);
    out.append(&mut cs);
}

/// Appends the characters of `s` to `out`.
pub fn append_chars(out: &mut Vec<char>, s: &[char])
    ensures
        final(out)@ == old(out)@ + s@,
{
    let mut i: usize = 0;
    while i < s.len()
        invariant
            i <= s@.len(),
            out@ == old(out)@ + s@.take(i as int),
        decreases s@.len() - i,
    {
        out.push(s[i]);
        assert(s@.take(i + 1) == s@.take(i as int).push(s@[i as int]));
        i = i + 1;
    }
    assert(s@.take(s@.len() as int) == s@);
}

/// A copy of the characters `s[start..end]`.
pub fn slice_chars(s: &[char], start: usize, end: usize) -> (res: Vec<char>)
    requires
        start <= end <= s@.len(),
    ensures
        res@ == s@.subrange(start as int, end as int),
{
    let mut out: Vec<char> = Vec::new();
    let mut i: usize = start;
    while i < end
        invariant
            start <= i <= end <= s@.len(),
            out@ == s@.subrange(start as int, i as int),
        decreases end - i,
    {
        out.push(s[i]);
        assert(s@.subrange(start as int, i + 1) == s@.subrange(start as int, i as int).push(
            s@[i as int],
        ));
        i = i + 1;
    }
    out
}

pub fn lower_chars(s: &[char]) -> (res: Vec<char>)
    ensures
        res@ == lower(s@),
{
    let mut out: Vec<char> = Vec::new();
    let mut i: usize = 0;
    while i < s.len()
        invariant
            i <= s@.len(),
            out@ == lower(s@.take(i as int)),
        decreases s@.len() - i,
    {
        let c = to_ascii_lower(s[i]);
        out.push(c);
        assert(lower(s@.take(i + 1)) == lower(s@.take(i as int)).push(ascii_lower(s@[i as int])));
        i = i + 1;
    }
    assert(s@.take(s@.len() as int) == s@);
    out
}

pub fn chars_equal(a: &[char], b: &[char]) -> (res: bool)
    ensures
        res == (a@ == b@),
{
    if a.len() != b.len() {
        return false;
    }
    let mut i: usize = 0;
    while i < a.len()
        invariant
            a@.len() == b@.len(),
            i <= a@.len(),
            forall|j: int| 0 <= j < i ==> a@[j] == b@[j],
        decreases a@.len() - i,
    {
        if a[i] != b[i] {
            return false;
        }
        i = i + 1;
    }
    assert(a@ =~= b@);
    true
}

/// Whether the characters `s` spell the string `lit`.
pub fn equals_str(s: &[char], lit: &str) -> (res: bool)
    ensures
        res == (s@ == lit@),
{
    chars_equal(s, chars_of(lit).as_slice())
}

// ---------------------------------------------------------------------------
// Searching
// ---------------------------------------------------------------------------

/// `needle` occurs in `hay` starting at position `i`.
pub open spec fn occurs_at(hay: Seq<char>, needle: Seq<char>, i: int) -> bool {
    0 <= i && i + needle.len() <= hay.len() && hay.subrange(i, i + needle.len()) == needle
}

pub open spec fn contains(hay: Seq<char>, needle: Seq<char>) -> bool {
    exists|i: int| occurs_at(hay, needle, i)
}

/// The first position at which `needle` occurs in `hay`, as `str::find` gives it.
#[verifier::opaque]
pub open spec fn find(hay: Seq<char>, needle: Seq<char>) -> Option<int> {
    if contains(hay, needle) {
        Some(
            choose|i: int|
                occurs_at(hay, needle, i) && forall|j: int| 0 <= j < i ==> !occurs_at(hay, needle, j),
        )
    } else {
        None
    }
}

pub open spec fn starts_with(s: Seq<char>, prefix: Seq<char>) -> bool {
    occurs_at(s, prefix, 0)
}

pub open spec fn ends_with(s: Seq<char>, suffix: Seq<char>) -> bool {
    suffix.len() <= s.len() && s.subrange(s.len() - suffix.len(), s.len() as int) == suffix
}

/// The first position of a character of `s` that satisfies `p`.
#[verifier::opaque]
pub open spec fn find_char(s: Seq<char>, p: spec_fn(char) -> bool) -> Option<int> {
    if exists|i: int| 0 <= i < s.len() && p(s[i]) {
        Some(
            choose|i: int|
                0 <= i < s.len() && p(s[i]) && forall|j: int| 0 <= j < i ==> !p(s[j]),
        )
    } else {
        None
    }
}

pub proof fn lemma_find_is(hay: Seq<char>, needle: Seq<char>, i: int)
    requires
        occurs_at(hay, needle, i),
        forall|j: int| 0 <= j < i ==> !occurs_at(hay, needle, j),
    ensures
        find(hay, needle) == Some(i),
{
    reveal(find);
    reveal(find_char);
    let k = choose|k: int|
        occurs_at(hay, needle, k) && forall|j: int| 0 <= j < k ==> !occurs_at(hay, needle, j);
    assert(occurs_at(hay, needle, k));
    if k < i {
        assert(!occurs_at(hay, needle, k));
    }
    if i < k {
        assert(!occurs_at(hay, needle, i));
    }
}

pub proof fn lemma_find_char_is(s: Seq<char>, p: spec_fn(char) -> bool, i: int)
    requires
        0 <= i < s.len(),
        p(s[i]),
        forall|j: int| 0 <= j < i ==> !p(s[j]),
    ensures
        find_char(s, p) == Some(i),
{
    reveal(find);
    reveal(find_char);
    let k = choose|k: int| 0 <= k < s.len() && p(s[k]) && forall|j: int| 0 <= j < k ==> !p(s[j]);
    assert(0 <= k < s.len() && p(s[k]));
    if k < i {
        assert(!p(s[k]));
    }
    if i < k {
        assert(!p(s[i]));
    }
}

/// Whether `needle` occurs at position `i` of `hay`.
pub fn matches_at(hay: &[char], needle: &[char], i: usize) -> (res: bool)
    ensures
        res == occurs_at(hay@, needle@, i as int),
{
    if i > hay.len() || needle.len() > hay.len() - i {
        return false;
    }
    let mut k: usize = 0;
    while k < needle.len()
        invariant
            i + needle@.len() <= hay@.len(),
            hay@.len() == hay.len(),
            needle@.len() == needle.len(),
            k <= needle@.len(),
            forall|j: int| 0 <= j < k ==> hay@[i + j] == needle@[j],
        decreases needle@.len() - k,
    {
        if hay[i + k] != needle[k] {
            assert(hay@.subrange(i as int, i + needle@.len())[k as int] != needle@[k as int]);
            return false;
        }
        k = k + 1;
    }
    assert(hay@.subrange(i as int, i + needle@.len()) =~= needle@);
    true
}

/// `str::find` with a string pattern: the first position of `needle` in `hay`.
pub fn find_in(hay: &[char], needle: &[char]) -> (res: Option<usize>)
    ensures
        res matches Some(i) ==> find(hay@, needle@) == Some(i as int) && occurs_at(
            hay@,
            needle@,
            i as int,
        ),
        res is None ==> find(hay@, needle@) is None,
        res is Some <==> contains(hay@, needle@),
{
    let mut i: usize = 0;
    while i < hay.len()
        invariant
            i <= hay@.len(),
            forall|j: int| 0 <= j < i ==> !occurs_at(hay@, needle@, j),
        decreases hay@.len() - i,
    {
        if matches_at(hay, needle, i) {
            proof {
                lemma_find_is(hay@, needle@, i as int);
            }
            return Some(i);
        }
        i = i + 1;
    }
    if matches_at(hay, needle, i) {
        proof {
            lemma_find_is(hay@, needle@, i as int);
        }
        return Some(i);
    }
    assert forall|j: int| !occurs_at(hay@, needle@, j) by {
        if 0 <= j && j < i {
        } else if j >= i {
        }
    }
    reveal(find);
    None
}

pub fn contains_chars(hay: &[char], needle: &[char]) -> (res: bool)
    ensures
        res == contains(hay@, needle@),
{
    match find_in(hay, needle) {
        Some(_) => true,
        None => false,
    }
}

pub fn starts_with_chars(s: &[char], prefix: &[char]) -> (res: bool)
    ensures
        res == starts_with(s@, prefix@),
{
    matches_at(s, prefix, 0)
}

pub fn ends_with_chars(s: &[char], suffix: &[char]) -> (res: bool)
    ensures
        res == ends_with(s@, suffix@),
{
    if suffix.len() > s.len() {
        return false;
    }
    matches_at(s, suffix, s.len() - suffix.len())
}


// ---------------------------------------------------------------------------
// Trimming
// ---------------------------------------------------------------------------

/// `str::trim_start`: drops leading whitespace.
#[verifier::opaque]
pub open spec fn trim_start(s: Seq<char>) -> Seq<char>
    decreases s.len(),
{
    if s.len() > 0 && is_ws(s[0]) {
        trim_start(s.drop_first())
    } else {
        s
    }
}

/// `str::trim_end`: drops trailing whitespace.
#[verifier::opaque]
pub open spec fn trim_end(s: Seq<char>) -> Seq<char>
    decreases s.len(),
{
    if s.len() > 0 && is_ws(s.last()) {
        trim_end(s.drop_last())
    } else {
        s
    }
}

/// `str::trim`.
pub open spec fn trim(s: Seq<char>) -> Seq<char> {
    trim_end(trim_start(s))
}

pub proof fn lemma_trim_start_at(s: Seq<char>, a: int)
    requires
        0 <= a <= s.len(),
        forall|j: int| 0 <= j < a ==> is_ws(s[j]),
        a < s.len() ==> !is_ws(s[a]),
    ensures
        trim_start(s) == s.skip(a),
    decreases a,
{
    reveal(trim_start);
    reveal(trim_end);
    if a == 0 {
        assert(s.skip(0) == s);
    } else {
        lemma_trim_start_at(s.drop_first(), a - 1);
        assert(s.drop_first().skip(a - 1) == s.skip(a));
    }
}

pub proof fn lemma_trim_end_at(s: Seq<char>, b: int)
    requires
        0 <= b <= s.len(),
        forall|j: int| b <= j < s.len() ==> is_ws(s[j]),
        b > 0 ==> !is_ws(s[b - 1]),
    ensures
        trim_end(s) == s.take(b),
    decreases s.len() - b,
{
    reveal(trim_start);
    reveal(trim_end);
    if b == s.len() {
        assert(s.take(b) == s);
    } else {
        lemma_trim_end_at(s.drop_last(), b);
        assert(s.drop_last().take(b) == s.take(b));
    }
}

pub proof fn lemma_trim_start_len(s: Seq<char>)
    ensures
        trim_start(s).len() <= s.len(),
        trim_start(s).len() > 0 ==> !is_ws(trim_start(s)[0]),
        trim_start(s).len() == 0 ==> forall|j: int| 0 <= j < s.len() ==> is_ws(s[j]),
    decreases s.len(),
{
    reveal(trim_start);
    reveal(trim_end);
    if s.len() > 0 && is_ws(s[0]) {
        lemma_trim_start_len(s.drop_first());
        assert forall|j: int| 0 <= j < s.len() && trim_start(s).len() == 0 implies is_ws(s[j]) by {
            if j > 0 {
                assert(s[j] == s.drop_first()[j - 1]);
            }
        }
    }
}

/// The bounds `(a, b)` of the trimmed part of `s`.
pub fn trim_bounds(s: &[char]) -> (res: (usize, usize))
    ensures
        res.0 <= res.1 <= s@.len(),
        s@.subrange(res.0 as int, res.1 as int) == trim(s@),
        trim_start(s@) == s@.skip(res.0 as int),
{
    let mut a: usize = 0;
    while a < s.len() && is_whitespace(s[a])
        invariant
            a <= s@.len(),
            forall|j: int| 0 <= j < a ==> is_ws(s@[j]),
        decreases s@.len() - a,
    {
        a = a + 1;
    }
    proof {
        lemma_trim_start_at(s@, a as int);
    }
    let mut b: usize = s.len();
    while b > a && is_whitespace(s[b - 1])
        invariant
            a <= b <= s@.len(),
            forall|j: int| b <= j < s@.len() ==> is_ws(s@[j]),
        decreases b,
    {
        b = b - 1;
    }
    proof {
        let t = s@.skip(a as int);
        assert forall|j: int| (b - a) <= j < t.len() implies is_ws(t[j]) by {
            assert(t[j] == s@[j + a]);
        }
        if b > a {
            assert(t[b - a - 1] == s@[b - 1]);
        }
        lemma_trim_end_at(t, b - a);
        assert(t.take(b - a) == s@.subrange(a as int, b as int));
    }
    (a, b)
}

/// `str::trim` on characters.
pub fn trim_chars(s: &[char]) -> (res: Vec<char>)
    ensures
        res@ == trim(s@),
{
    let (a, b) = trim_bounds(s);
    slice_chars(s, a, b)
}

// ---------------------------------------------------------------------------
// Lines and words
// ---------------------------------------------------------------------------

pub open spec fn is_newline(c: char) -> bool {
    c == '\n'
}

/// The position of the first line feed.
pub open spec fn newline_pos(s: Seq<char>) -> Option<int> {
    find_char(s, |c: char| is_newline(c))
}

/// The position of the first whitespace character.
pub open spec fn ws_pos(s: Seq<char>) -> Option<int> {
    find_char(s, |c: char| is_ws(c))
}

pub open spec fn strip_cr(s: Seq<char>) -> Seq<char> {
    if s.len() > 0 && s.last() == '\r' {
        s.drop_last()
    } else {
        s
    }
}

pub proof fn lemma_find_char_min_exists(s: Seq<char>, p: spec_fn(char) -> bool, k: int)
    requires
        0 <= k < s.len(),
        p(s[k]),
    ensures
        exists|i: int| 0 <= i < s.len() && p(s[i]) && forall|j: int| 0 <= j < i ==> !p(s[j]),
    decreases k,
{
    if exists|j: int| 0 <= j < k && p(s[j]) {
        let j = choose|j: int| 0 <= j < k && p(s[j]);
        lemma_find_char_min_exists(s, p, j);
    } else {
        assert(forall|j: int| 0 <= j < k ==> !p(s[j]));
    }
}

pub proof fn lemma_find_char_bounds(s: Seq<char>, p: spec_fn(char) -> bool)
    ensures
        find_char(s, p) matches Some(i) ==> 0 <= i < s.len() && p(s[i]) && forall|j: int|
            0 <= j < i ==> !p(s[j]),
        find_char(s, p) is None ==> forall|j: int| 0 <= j < s.len() ==> !p(s[j]),
{
    reveal(find);
    reveal(find_char);
    if exists|i: int| 0 <= i < s.len() && p(s[i]) {
        let k = choose|i: int| 0 <= i < s.len() && p(s[i]);
        lemma_find_char_min_exists(s, p, k);
    }
}

/// `str::lines`: the pieces between line feeds, each without its line ending
/// (`\n` or `\r\n`); a final line ending does not start an empty line.
#[verifier::opaque]
pub open spec fn lines(s: Seq<char>) -> Seq<Seq<char>>
    decreases s.len(),
{
    if s.len() == 0 {
        seq![]
    } else {
        match newline_pos(s) {
            Some(i) => if 0 <= i < s.len() {
                seq![strip_cr(s.take(i))] + lines(s.skip(i + 1))
            } else {
                seq![]
            },
            None => seq![s],
        }
    }
}

/// `str::split_whitespace`: the maximal runs of non-whitespace characters.
#[verifier::opaque]
pub open spec fn words(s: Seq<char>) -> Seq<Seq<char>>
    decreases s.len(),
{
    proof {
        lemma_trim_start_len(s);
    }
    let t = trim_start(s);
    if t.len() == 0 {
        seq![]
    } else {
        match ws_pos(t) {
            Some(k) => {
                proof {
                    lemma_trim_start_len(s);
                    lemma_find_char_bounds(t, |c: char| is_ws(c));
                }
                seq![t.take(k)] + words(t.skip(k))
            },
            None => seq![t],
        }
    }
}

/// The character sequences held by a vector of character vectors.
pub open spec fn views(v: Seq<Vec<char>>) -> Seq<Seq<char>> {
    v.map_values(|x: Vec<char>| x@)
}

pub proof fn lemma_views_push(v: Seq<Vec<char>>, x: Vec<char>)
    ensures
        views(v.push(x)) == views(v).push(x@),
{
    assert(views(v.push(x)) =~= views(v).push(x@));
}

proof fn lemma_lines_step(s: Seq<char>, pos: int, i: int)
    requires
        0 <= pos <= i < s.len(),
        is_newline(s[i]),
        forall|j: int| pos <= j < i ==> !is_newline(s[j]),
    ensures
        lines(s.skip(pos)) == seq![strip_cr(s.subrange(pos, i))] + lines(s.skip(i + 1)),
{
    reveal(lines);
    let rest = s.skip(pos);
    assert forall|j: int| 0 <= j < i - pos implies !is_newline(rest[j]) by {
        assert(rest[j] == s[pos + j]);
    }
    assert(rest[i - pos] == s[i]);
    lemma_find_char_is(rest, |c: char| is_newline(c), i - pos);
    assert(rest.take(i - pos) == s.subrange(pos, i));
    assert(rest.skip(i - pos + 1) == s.skip(i + 1));
}

proof fn lemma_lines_last(s: Seq<char>, pos: int)
    requires
        0 <= pos < s.len(),
        forall|j: int| pos <= j < s.len() ==> !is_newline(s[j]),
    ensures
        lines(s.skip(pos)) == seq![s.skip(pos)],
{
    reveal(lines);
    let rest = s.skip(pos);
    assert forall|j: int| 0 <= j < rest.len() implies !is_newline(rest[j]) by {
        assert(rest[j] == s[pos + j]);
    }
    lemma_find_char_bounds(rest, |c: char| is_newline(c));
}

/// A text splits at its first line feed.
pub proof fn lemma_lines_at(s: Seq<char>, i: int)
    requires
        0 <= i < s.len(),
        s[i] == '\n',
        forall|j: int| 0 <= j < i ==> s[j] != '\n',
    ensures
        lines(s) == seq![strip_cr(s.take(i))] + lines(s.skip(i + 1)),
{
    assert(s.skip(0) == s);
    assert(s.subrange(0, i) == s.take(i));
    lemma_lines_step(s, 0, i);
}

/// A text that is not empty and holds no line feed is one line.
pub proof fn lemma_lines_one(s: Seq<char>)
    requires
        s.len() > 0,
        forall|j: int| 0 <= j < s.len() ==> s[j] != '\n',
    ensures
        lines(s) == seq![s],
{
    assert(s.skip(0) == s);
    lemma_lines_last(s, 0);
}

/// The first line feed of a text that has one.
pub proof fn lemma_first_newline(s: Seq<char>) -> (i: int)
    requires
        exists|k: int| 0 <= k < s.len() && s[k] == '\n',
    ensures
        0 <= i < s.len(),
        s[i] == '\n',
        forall|j: int| 0 <= j < i ==> s[j] != '\n',
{
    let k = choose|k: int| 0 <= k < s.len() && s[k] == '\n';
    lemma_find_char_min_exists(s, |c: char| is_newline(c), k);
    choose|i: int| 0 <= i < s.len() && is_newline(s[i]) && forall|j: int| 0 <= j < i ==> !is_newline(s[j])
}

/// A text that is not empty has at least one line.
pub proof fn lemma_lines_nonempty(s: Seq<char>)
    requires
        s.len() > 0,
    ensures
        lines(s).len() >= 1,
{
    if exists|k: int| 0 <= k < s.len() && s[k] == '\n' {
        let i = lemma_first_newline(s);
        lemma_lines_at(s, i);
    } else {
        lemma_lines_one(s);
    }
}

/// Lines on both sides of a `\r\n` are those of each side, when the left
/// side is not empty and does not end with a line feed.
pub proof fn lemma_lines_concat_crlf(x: Seq<char>, y: Seq<char>)
    requires
        x.len() > 0,
        x.last() != '\n',
    ensures
        lines(x + seq!['\r', '\n'] + y) == lines(x) + lines(y),
    decreases x.len(),
{
    let s = x + seq!['\r', '\n'] + y;
    if exists|k: int| 0 <= k < x.len() && x[k] == '\n' {
        let i = lemma_first_newline(x);
        assert(i < x.len() - 1);
        assert(s[i] == x[i]);
        assert forall|j: int| 0 <= j < i implies s[j] != '\n' by {
            assert(s[j] == x[j]);
        }
        let x2 = x.skip(i + 1);
        assert(x2.last() == x.last());
        lemma_lines_concat_crlf(x2, y);
        lemma_lines_at(s, i);
        lemma_lines_at(x, i);
        assert(s.take(i) == x.take(i));
        assert(s.skip(i + 1) == x2 + seq!['\r', '\n'] + y);
        assert(lines(s) =~= lines(x) + lines(y));
    } else {
        let n = x.len() as int;
        assert(s[n + 1] == '\n');
        assert forall|j: int| 0 <= j < n + 1 implies s[j] != '\n' by {
            if j < n {
                assert(s[j] == x[j]);
            } else {
                assert(s[j] == '\r');
            }
        }
        lemma_lines_at(s, n + 1);
        lemma_lines_one(x);
        assert(s.take(n + 1) == x.push('\r'));
        assert(x.push('\r').drop_last() == x);
        assert(s.skip(n + 2) == y);
    }
}

/// A text that starts with `\r\n` starts with an empty line.
pub proof fn lemma_lines_after_crlf(y: Seq<char>)
    ensures
        lines(seq!['\r', '\n'] + y) == seq![Seq::<char>::empty()] + lines(y),
{
    let s = seq!['\r', '\n'] + y;
    assert(s[1] == '\n');
    assert(s[0] != '\n');
    lemma_lines_at(s, 1);
    assert(s.take(1) == seq!['\r']);
    assert(strip_cr(seq!['\r']) == seq!['\r'].drop_last());
    assert(seq!['\r'].drop_last() == Seq::<char>::empty());
    assert(s.skip(2) == y);
}

/// The lines of `s`, as `str::lines` yields them.
pub fn split_lines(s: &[char]) -> (res: Vec<Vec<char>>)
    ensures
        views(res@) == lines(s@),
{
    let mut out: Vec<Vec<char>> = Vec::new();
    let mut pos: usize = 0;
    let mut cur: Vec<char> = Vec::new();
    let mut i: usize = 0;
    assert(s@.skip(0) == s@);
    while i < s.len()
        invariant
            pos <= i <= s@.len(),
            cur@ == s@.subrange(pos as int, i as int),
            forall|j: int| pos <= j < i ==> !is_newline(s@[j]),
            views(out@) + lines(s@.skip(pos as int)) == lines(s@),
        decreases s@.len() - i,
    {
        if s[i] == '\n' {
            proof {
                lemma_lines_step(s@, pos as int, i as int);
            }
            let line = if cur.len() > 0 && cur[cur.len() - 1] == '\r' {
                slice_chars(cur.as_slice(), 0, cur.len() - 1)
            } else {
                cur
            };
            assert(line@ == strip_cr(s@.subrange(pos as int, i as int)));
            let ghost before = views(out@);
            proof {
                lemma_views_push(out@, line);
            }
            out.push(line);
            proof {
                assert(views(out@) + lines(s@.skip(i + 1)) =~= before + lines(
                    s@.skip(pos as int),
                ));
            }
            cur = Vec::new();
            pos = i + 1;
        } else {
            cur.push(s[i]);
            assert(s@.subrange(pos as int, i + 1) == s@.subrange(pos as int, i as int).push(
                s@[i as int],
            ));
        }
        i = i + 1;
    }
    if pos < s.len() {
        proof {
            lemma_lines_last(s@, pos as int);
            assert(cur@ =~= s@.skip(pos as int));
        }
        let ghost before = views(out@);
        proof {
            lemma_views_push(out@, cur);
        }
        out.push(cur);
        assert(views(out@) =~= before + lines(s@.skip(pos as int)));
    } else {
        assert(s@.skip(pos as int).len() == 0);
        reveal(lines);
        assert(views(out@) =~= views(out@) + lines(s@.skip(pos as int)));
    }
    out
}

proof fn lemma_words_step(s: Seq<char>, a: int, b: int)
    requires
        0 <= a < b <= s.len(),
        forall|j: int| 0 <= j < a ==> is_ws(s[j]),
        forall|j: int| a <= j < b ==> !is_ws(s[j]),
        b < s.len() ==> is_ws(s[b]),
    ensures
        words(s) == seq![s.subrange(a, b)] + words(s.skip(b)),
{
    reveal(words);
    lemma_trim_start_at(s, a);
    let t = s.skip(a);
    assert forall|j: int| 0 <= j < b - a implies !is_ws(t[j]) by {
        assert(t[j] == s[a + j]);
    }
    if b < s.len() {
        assert(t[b - a] == s[b]);
        lemma_find_char_is(t, |c: char| is_ws(c), b - a);
        assert(t.skip(b - a) == s.skip(b));
    } else {
        lemma_find_char_bounds(t, |c: char| is_ws(c));
        assert(s.skip(b).len() == 0);
        assert(words(s.skip(b)) == Seq::<Seq<char>>::empty()) by {
            lemma_trim_start_len(s.skip(b));
        }
        assert(seq![t] + words(s.skip(b)) =~= seq![t]);
    }
    assert(t.take(b - a) == s.subrange(a, b));
}

proof fn lemma_words_blank(s: Seq<char>)
    requires
        forall|j: int| 0 <= j < s.len() ==> is_ws(s[j]),
    ensures
        words(s) == Seq::<Seq<char>>::empty(),
{
    reveal(words);
    lemma_trim_start_at(s, s.len() as int);
}

/// The words of `s`, as `str::split_whitespace` yields them.
pub fn split_words(s: &[char]) -> (res: Vec<Vec<char>>)
    ensures
        views(res@) == words(s@),
{
    let mut out: Vec<Vec<char>> = Vec::new();
    let mut i: usize = 0;
    assert(s@.skip(0) == s@);
    while i < s.len()
        invariant
            i <= s@.len(),
            views(out@) + words(s@.skip(i as int)) == words(s@),
        decreases s@.len() - i,
    {
        let ghost rest = s@.skip(i as int);
        let mut a: usize = i;
        while a < s.len() && is_whitespace(s[a])
            invariant
                i <= a <= s@.len(),
                forall|j: int| i <= j < a ==> is_ws(s@[j]),
            decreases s@.len() - a,
        {
            a = a + 1;
        }
        if a == s.len() {
            proof {
                assert forall|j: int| 0 <= j < rest.len() implies is_ws(rest[j]) by {
                    assert(rest[j] == s@[i + j]);
                }
                lemma_words_blank(rest);
                assert(views(out@) + words(rest) =~= views(out@));
                assert(s@.skip(a as int).len() == 0);
                lemma_words_blank(s@.skip(a as int));
                assert(views(out@) + words(s@.skip(a as int)) =~= views(out@));
            }
            i = a;
        } else {
            let mut b: usize = a;
            while b < s.len() && !is_whitespace(s[b])
                invariant
                    a <= b <= s@.len(),
                    forall|j: int| a <= j < b ==> !is_ws(s@[j]),
                decreases s@.len() - b,
            {
                b = b + 1;
            }
            proof {
                assert forall|j: int| 0 <= j < a - i implies is_ws(rest[j]) by {
                    assert(rest[j] == s@[i + j]);
                }
                assert forall|j: int| a - i <= j < b - i implies !is_ws(rest[j]) by {
                    assert(rest[j] == s@[i + j]);
                }
                if b < s.len() {
                    assert(rest[b - i] == s@[b as int]);
                }
                lemma_words_step(rest, a - i, b - i);
                assert(rest.subrange(a - i, b - i) == s@.subrange(a as int, b as int));
                assert(rest.skip(b - i) == s@.skip(b as int));
            }
            let word = slice_chars(s, a, b);
            let ghost before = views(out@);
            proof {
                lemma_views_push(out@, word);
            }
            out.push(word);
            assert(views(out@) + words(s@.skip(b as int)) =~= before + words(rest));
            i = b;
        }
    }
    proof {
        assert(s@.skip(i as int).len() == 0);
        lemma_words_blank(s@.skip(i as int));
        assert(views(out@) + words(s@.skip(i as int)) =~= views(out@));
    }
    out
}

// ---------------------------------------------------------------------------
// Decimal numbers
// ---------------------------------------------------------------------------

pub open spec fn digit_char(d: nat) -> char {
    ((d + 48) as u32) as char
}

/// The decimal notation of `n`, as `Display` writes an unsigned integer.
pub open spec fn decimal(n: nat) -> Seq<char>
    decreases n,
{
    if n < 10 {
        seq![digit_char(n)]
    } else {
        decimal(n / 10).push(digit_char(n % 10))
    }
}

/// The decimal notation of `n` is one or more ASCII digits whose value is
/// `n`.
pub proof fn lemma_decimal_digits(n: nat)
    ensures
        decimal(n).len() >= 1,
        all_digits(decimal(n)),
        digits_value(decimal(n)) == n,
    decreases n,
{
    if n < 10 {
        let s = decimal(n);
        assert(s == seq![digit_char(n)]);
        assert(s.drop_last() =~= Seq::<char>::empty());
        assert(s.last() == digit_char(n));
        assert(digit_value(digit_char(n)) == n);
        assert(digits_value(Seq::<char>::empty()) == 0);
        assert(digits_value(s) == digits_value(s.drop_last()) * 10 + digit_value(s.last()));
    } else {
        lemma_decimal_digits(n / 10);
        let s = decimal(n);
        assert(s == decimal(n / 10).push(digit_char(n % 10)));
        assert(s.drop_last() =~= decimal(n / 10));
        assert(s.last() == digit_char(n % 10));
        assert(digit_value(digit_char(n % 10)) == n % 10);
        assert(digits_value(s) == digits_value(s.drop_last()) * 10 + digit_value(s.last()));
        assert forall|i: int| 0 <= i < s.len() implies is_ascii_digit(s[i]) by {
            if i < s.len() - 1 {
                assert(s[i] == decimal(n / 10)[i]);
            }
        }
        assert((n / 10) * 10 + n % 10 == n);
    }
}

/// Appends the decimal notation of `n` to `out`.
pub fn push_decimal(out: &mut Vec<char>, n: u64)
    ensures
        final(out)@ == old(out)@ + decimal(n as nat),
    decreases n,
{
    if n >= 10 {
        push_decimal(out, n / 10);
    }
    let d: u64 = n % 10;
    let c: char = ((d as u8) + 48) as char;
    out.push(c);
    assert(decimal(n as nat) == if n < 10 {
        seq![digit_char(n as nat)]
    } else {
        decimal((n / 10) as nat).push(digit_char((n % 10) as nat))
    });
    if n < 10 {
        assert(old(out)@ + decimal(n as nat) =~= old(out)@.push(c));
    } else {
        assert(old(out)@ + decimal(n as nat) =~= (old(out)@ + decimal((n / 10) as nat)).push(c));
    }
}

pub open spec fn all_digits(s: Seq<char>) -> bool {
    forall|i: int| 0 <= i < s.len() ==> is_ascii_digit(s[i])
}

/// The value of a string of decimal digits.
pub open spec fn digits_value(s: Seq<char>) -> nat
    decreases s.len(),
{
    if s.len() == 0 {
        0
    } else {
        digits_value(s.drop_last()) * 10 + digit_value(s.last())
    }
}

/// The digits of an unsigned number: an optional leading `+` is dropped.
pub open spec fn unsigned_digits(s: Seq<char>) -> Seq<char> {
    if s.len() > 0 && s[0] == '+' {
        s.drop_first()
    } else {
        s
    }
}

/// `FromStr` for an unsigned integer type whose largest value is `max`:
/// an optional `+`, then one or more ASCII digits, of value at most `max`.
pub open spec fn parse_unsigned(s: Seq<char>, max: nat) -> Option<nat> {
    let d = unsigned_digits(s);
    if d.len() > 0 && all_digits(d) && digits_value(d) <= max {
        Some(digits_value(d))
    } else {
        None
    }
}

/// `FromStr` for a signed integer type of range `[-min_magnitude, max]`:
/// an optional sign, then one or more ASCII digits, of value in range.
pub open spec fn parse_signed(s: Seq<char>, min_magnitude: nat, max: nat) -> Option<int> {
    if s.len() > 0 && s[0] == '-' {
        let d = s.drop_first();
        if d.len() > 0 && all_digits(d) && digits_value(d) <= min_magnitude {
            Some(-(digits_value(d) as int))
        } else {
            None
        }
    } else {
        match parse_unsigned(s, max) {
            Some(v) => Some(v as int),
            None => None,
        }
    }
}

proof fn lemma_digits_value_grows(s: Seq<char>, i: int)
    requires
        0 <= i < s.len(),
        all_digits(s),
    ensures
        digits_value(s.take(i)) <= digits_value(s.take(i + 1)),
        digits_value(s.take(i + 1)) == digits_value(s.take(i)) * 10 + digit_value(s[i]),
{
    assert(s.take(i + 1).drop_last() == s.take(i));
}

proof fn lemma_digits_value_mono(s: Seq<char>, i: int, j: int)
    requires
        0 <= i <= j <= s.len(),
        all_digits(s),
    ensures
        digits_value(s.take(i)) <= digits_value(s.take(j)),
    decreases j - i,
{
    if i < j {
        lemma_digits_value_mono(s, i, j - 1);
        lemma_digits_value_grows(s, j - 1);
    }
}

/// The value of the digits `s[start..]`, when they are one or more ASCII
/// digits of value at most `max`.
fn digits_at_most(s: &[char], start: usize, max: u64) -> (res: Option<u64>)
    requires
        start <= s@.len(),
    ensures
        ({
            let d = s@.skip(start as int);
            res == if d.len() > 0 && all_digits(d) && digits_value(d) <= max {
                Some(digits_value(d) as u64)
            } else {
                None::<u64>
            }
        }),
{
    let ghost d = s@.skip(start as int);
    if start == s.len() {
        return None;
    }
    let mut value: u128 = 0;
    let mut i: usize = start;
    assert(d.take(0).len() == 0);
    while i < s.len()
        invariant
            start <= i <= s@.len(),
            d == s@.skip(start as int),
            forall|j: int| 0 <= j < i - start ==> is_ascii_digit(d[j]),
            value == digits_value(d.take(i - start)),
            value <= max,
        decreases s@.len() - i,
    {
        let c = s[i];
        if !('0' <= c && c <= '9') {
            assert(d[i - start] == c);
            return None;
        }
        let digit: u32 = (c as u32) - 48;
        proof {
            assert(d[i - start] == c);
            assert(d.take(i - start + 1).drop_last() == d.take(i - start));
            assert(d.take(i - start + 1).last() == c);
        }
        value = value * 10 + (digit as u128);
        if value > (max as u128) {
            proof {
                assert(all_digits(d.take(i - start + 1)));
                if all_digits(d) {
                    lemma_digits_value_mono(d, i - start + 1, d.len() as int);
                    assert(d.take(d.len() as int) == d);
                }
            }
            return None;
        }
        i = i + 1;
    }
    assert(d.take(d.len() as int) == d);
    Some(value as u64)
}

/// `FromStr` for an unsigned integer type whose largest value is `max`.
pub fn parse_unsigned_chars(s: &[char], max: u64) -> (res: Option<u64>)
    ensures
        res matches Some(v) ==> parse_unsigned(s@, max as nat) == Some(v as nat),
        res is None ==> parse_unsigned(s@, max as nat) is None,
{
    let start: usize = if s.len() > 0 && s[0] == '+' {
        1
    } else {
        0
    };
    assert(s@.skip(start as int) == unsigned_digits(s@));
    digits_at_most(s, start, max)
}

/// `FromStr` for a signed integer type of range `[-min_magnitude, max]`.
pub fn parse_signed_chars(s: &[char], min_magnitude: u64, max: u64) -> (res: Option<i128>)
    ensures
        res matches Some(v) ==> parse_signed(s@, min_magnitude as nat, max as nat) == Some(
            v as int,
        ),
        res is None ==> parse_signed(s@, min_magnitude as nat, max as nat) is None,
{
    if s.len() > 0 && s[0] == '-' {
        assert(s@.skip(1) == s@.drop_first());
        match digits_at_most(s, 1, min_magnitude) {
            Some(v) => Some(-(v as i128)),
            None => None,
        }
    } else {
        match parse_unsigned_chars(s, max) {
            Some(v) => Some(v as i128),
            None => None,
        }
    }
}

} // verus!
