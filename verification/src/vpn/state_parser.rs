//! Reading the VPN state and the connected location out of the text that
//! `adguardvpn-cli status` prints.
use vstd::prelude::*;

use crate::vpn::CoreState;
use crate::text::{
    chars_of, contains, contains_chars, find, find_char, find_in, is_ascii_alpha,
    lemma_find_char_bounds, lemma_find_char_is, lower, lower_chars, slice_chars, string_of, trim,
    trim_chars,
};

verus! {

/// The state that a status text reports; the first of these that the
/// lower-cased text contains decides: `reconnecting`, `disconnected`,
/// `connected`; any other text reads as disconnected.
pub open spec fn status_of(output: Seq<char>) -> CoreState {
    let l = lower(output);
    if contains(l, "reconnecting"@) {
        CoreState::Reconnecting
    } else if contains(l, "disconnected"@) {
        CoreState::Disconnected
    } else if contains(l, "connected"@) {
        CoreState::Connected
    } else {
        CoreState::Disconnected
    }
}

pub fn parse_status(output: &str) -> (res: CoreState)
    ensures
        res == status_of(output@),
{
    let chars = chars_of(output);
    let l = lower_chars(chars.as_slice());
    if contains_chars(l.as_slice(), chars_of("reconnecting").as_slice()) {
        CoreState::Reconnecting
    } else if contains_chars(l.as_slice(), chars_of("disconnected").as_slice()) {
        CoreState::Disconnected
    } else if contains_chars(l.as_slice(), chars_of("connected").as_slice()) {
        CoreState::Connected
    } else {
        CoreState::Disconnected
    }
}

/// The state is read ignoring letter case: a text and its lower-case form
/// report the same state.
pub proof fn law_status_ignores_case(output: Seq<char>)
    ensures
        status_of(lower(output)) == status_of(output),
{
    assert(lower(lower(output)) =~= lower(output));
}

pub open spec fn is_escape(c: char) -> bool {
    c == '\x1b'
}

/// What follows an escape sequence's introducer: everything after the first
/// ASCII letter, or nothing when no letter ends the sequence.
pub open spec fn after_escape(t: Seq<char>) -> Seq<char> {
    match find_char(t, |c: char| is_ascii_alpha(c)) {
        Some(k) => t.skip(k + 1),
        None => Seq::<char>::empty(),
    }
}

/// `s` without its ANSI escape sequences: an escape character and everything
/// up to and including the next ASCII letter are dropped.
#[verifier::opaque]
pub open spec fn strip_ansi(s: Seq<char>) -> Seq<char>
    decreases s.len(),
{
    if s.len() == 0 {
        Seq::<char>::empty()
    } else if is_escape(s[0]) {
        proof {
            lemma_find_char_bounds(s.drop_first(), |c: char| is_ascii_alpha(c));
        }
        strip_ansi(after_escape(s.drop_first()))
    } else {
        seq![s[0]] + strip_ansi(s.drop_first())
    }
}

/// The place where a city name that follows `connected to ` ends: at ` in `
/// if that occurs, else at the first `,`, line break or `.`, else at the end.
pub open spec fn city_end_after_connected(rest: Seq<char>) -> int {
    match find(rest, " in "@) {
        Some(e) => e,
        None => match find_char(rest, |c: char| c == ',' || c == '\n' || c == '\r' || c == '.') {
            Some(e) => e,
            None => rest.len() as int,
        },
    }
}

/// The place where a `location:` field ends: at the first line break or `,`.
pub open spec fn city_end_after_field(rest: Seq<char>) -> int {
    match find_char(rest, |c: char| c == '\n' || c == '\r' || c == ',') {
        Some(e) => e,
        None => rest.len() as int,
    }
}

/// The city named after the first `connected to ` (in any case), if that
/// name is not empty.
pub open spec fn city_after_connected(output: Seq<char>) -> Option<Seq<char>> {
    match find(lower(output), "connected to "@) {
        Some(p) => {
            let rest = output.skip(p + "connected to "@.len());
            let city = strip_ansi(trim(rest.take(city_end_after_connected(rest))));
            if city.len() > 0 {
                Some(city)
            } else {
                None
            }
        },
        None => None,
    }
}

/// The value of the first `location:` field (in any case), if not empty.
pub open spec fn city_in_field(output: Seq<char>) -> Option<Seq<char>> {
    match find(lower(output), "location:"@) {
        Some(p) => {
            let rest = output.skip(p + "location:"@.len());
            let city = strip_ansi(trim(rest.take(city_end_after_field(rest))));
            if city.len() > 0 {
                Some(city)
            } else {
                None
            }
        },
        None => None,
    }
}

pub open spec fn location_of(output: Seq<char>) -> Option<Seq<char>> {
    match city_after_connected(output) {
        Some(c) => Some(c),
        None => city_in_field(output),
    }
}

proof fn lemma_strip_ansi_plain(s: Seq<char>, i: int)
    requires
        0 <= i < s.len(),
        !is_escape(s[i]),
    ensures
        strip_ansi(s.skip(i)) == seq![s[i]] + strip_ansi(s.skip(i + 1)),
{
    reveal(strip_ansi);
    assert(s.skip(i).drop_first() == s.skip(i + 1));
}

proof fn lemma_strip_ansi_escape(s: Seq<char>, i: int, j: int)
    requires
        0 <= i < j <= s.len(),
        is_escape(s[i]),
        forall|k: int| i < k < j ==> !is_ascii_alpha(s[k]),
        j < s.len() ==> is_ascii_alpha(s[j]),
    ensures
        j < s.len() ==> strip_ansi(s.skip(i)) == strip_ansi(s.skip(j + 1)),
        j == s.len() ==> strip_ansi(s.skip(i)) == Seq::<char>::empty(),
{
    reveal(strip_ansi);
    let t = s.skip(i).drop_first();
    assert(t == s.skip(i + 1));
    assert forall|k: int| 0 <= k < j - i - 1 implies !is_ascii_alpha(t[k]) by {
        assert(t[k] == s[i + 1 + k]);
    }
    if j < s.len() {
        assert(t[j - i - 1] == s[j]);
        lemma_find_char_is(t, |c: char| is_ascii_alpha(c), j - i - 1);
        assert(t.skip(j - i) == s.skip(j + 1));
    } else {
        lemma_find_char_bounds(t, |c: char| is_ascii_alpha(c));
        assert(strip_ansi(Seq::<char>::empty()) == Seq::<char>::empty());
    }
}

fn strip_ansi_chars(s: &[char]) -> (res: Vec<char>)
    ensures
        res@ == strip_ansi(s@),
{
    let mut out: Vec<char> = Vec::new();
    let mut i: usize = 0;
    assert(s@.skip(0) == s@);
    while i < s.len()
        invariant
            i <= s@.len(),
            out@ + strip_ansi(s@.skip(i as int)) == strip_ansi(s@),
        decreases s@.len() - i,
    {
        if s[i] == '\x1b' {
            let mut j: usize = i + 1;
            while j < s.len() && !(('A' <= s[j] && s[j] <= 'Z') || ('a' <= s[j] && s[j] <= 'z'))
                invariant
                    i < j <= s@.len(),
                    forall|k: int| i < k < j ==> !is_ascii_alpha(s@[k]),
                decreases s@.len() - j,
            {
                j = j + 1;
            }
            proof {
                lemma_strip_ansi_escape(s@, i as int, j as int);
            }
            if j < s.len() {
                i = j + 1;
            } else {
                assert(s@.skip(j as int).len() == 0);
                reveal(strip_ansi);
                assert(out@ + strip_ansi(s@.skip(j as int)) =~= out@);
                i = j;
            }
        } else {
            proof {
                lemma_strip_ansi_plain(s@, i as int);
            }
            let ghost before = out@;
            out.push(s[i]);
            assert(out@ + strip_ansi(s@.skip(i + 1)) =~= before + strip_ansi(s@.skip(i as int)));
            i = i + 1;
        }
    }
    assert(s@.skip(i as int).len() == 0);
    reveal(strip_ansi);
    assert(out@ + strip_ansi(s@.skip(i as int)) =~= out@);
    out
}

/// The first position in `rest` at which one of the characters of `stops`
/// occurs, or the length of `rest`.
fn first_of_or_end(rest: &[char], stops: &[char]) -> (res: usize)
    ensures
        res <= rest@.len(),
        forall|j: int| 0 <= j < res ==> !stops@.contains(rest@[j]),
        res < rest@.len() ==> stops@.contains(rest@[res as int]),
{
    let mut i: usize = 0;
    while i < rest.len()
        invariant
            i <= rest@.len(),
            forall|j: int| 0 <= j < i ==> !stops@.contains(rest@[j]),
        decreases rest@.len() - i,
    {
        let mut k: usize = 0;
        while k < stops.len()
            invariant
                i < rest@.len(),
                k <= stops@.len(),
                forall|j: int| 0 <= j < i ==> !stops@.contains(rest@[j]),
                forall|m: int| 0 <= m < k ==> stops@[m] != rest@[i as int],
            decreases stops@.len() - k,
        {
            if stops[k] == rest[i] {
                assert(stops@.contains(rest@[i as int]));
                return i;
            }
            k = k + 1;
        }
        i = i + 1;
    }
    i
}

fn end_after_connected(rest: &[char]) -> (res: usize)
    ensures
        res as int == city_end_after_connected(rest@),
        res <= rest@.len(),
{
    match find_in(rest, chars_of(" in ").as_slice()) {
        Some(e) => e,
        None => {
            let stops: Vec<char> = vec![',', '\n', '\r', '.'];
            let e = first_of_or_end(rest, stops.as_slice());
            proof {
                let p = |c: char| c == ',' || c == '\n' || c == '\r' || c == '.';
                assert forall|c: char| stops@.contains(c) <==> p(c) by {
                    if p(c) {
                        if c == ',' {
                            assert(stops@[0] == c);
                        } else if c == '\n' {
                            assert(stops@[1] == c);
                        } else if c == '\r' {
                            assert(stops@[2] == c);
                        } else {
                            assert(stops@[3] == c);
                        }
                    }
                }
                if e < rest@.len() {
                    lemma_find_char_is(rest@, p, e as int);
                } else {
                    lemma_find_char_bounds(rest@, p);
                }
            }
            e
        },
    }
}

fn end_after_field(rest: &[char]) -> (res: usize)
    ensures
        res as int == city_end_after_field(rest@),
        res <= rest@.len(),
{
    let stops: Vec<char> = vec!['\n', '\r', ','];
    let end = first_of_or_end(rest, stops.as_slice());
    proof {
        let p = |c: char| c == '\n' || c == '\r' || c == ',';
        assert forall|c: char| stops@.contains(c) <==> p(c) by {
            if p(c) {
                if c == '\n' {
                    assert(stops@[0] == c);
                } else if c == '\r' {
                    assert(stops@[1] == c);
                } else {
                    assert(stops@[2] == c);
                }
            }
        }
        if end < rest@.len() {
            lemma_find_char_is(rest@, p, end as int);
        } else {
            lemma_find_char_bounds(rest@, p);
        }
    }
    end
}

/// `strip_ansi(trim(rest[..end]))`.
fn clean_city(rest: &[char], end: usize) -> (res: Vec<char>)
    requires
        end <= rest@.len(),
    ensures
        res@ == strip_ansi(trim(rest@.take(end as int))),
{
    let head = slice_chars(rest, 0, end);
    let trimmed = trim_chars(head.as_slice());
    assert(rest@.take(end as int) == head@);
    strip_ansi_chars(trimmed.as_slice())
}

fn city_after_connected_chars(o: &[char], l: &[char]) -> (res: Option<Vec<char>>)
    requires
        l@ == lower(o@),
    ensures
        res matches Some(c) ==> city_after_connected(o@) == Some(c@),
        res is None ==> city_after_connected(o@) is None,
{
    let marker = chars_of("connected to ");
    match find_in(l, marker.as_slice()) {
        Some(p) => {
            assert(l@.len() == o@.len());
            assert(o@.len() == o.len());
            assert(p + marker@.len() <= o@.len());
            let rest = slice_chars(o, p + marker.len(), o.len());
            assert(rest@ == o@.skip(p + marker@.len()));
            let end = end_after_connected(rest.as_slice());
            assert(end as int == city_end_after_connected(rest@));
            let city = clean_city(rest.as_slice(), end);
            if city.len() > 0 {
                Some(city)
            } else {
                None
            }
        },
        None => None,
    }
}

fn city_in_field_chars(o: &[char], l: &[char]) -> (res: Option<Vec<char>>)
    requires
        l@ == lower(o@),
    ensures
        res matches Some(c) ==> city_in_field(o@) == Some(c@),
        res is None ==> city_in_field(o@) is None,
{
    let field = chars_of("location:");
    match find_in(l, field.as_slice()) {
        Some(p) => {
            assert(l@.len() == o@.len());
            assert(o@.len() == o.len());
            assert(p + field@.len() <= o@.len());
            let rest = slice_chars(o, p + field.len(), o.len());
            assert(rest@ == o@.skip(p + field@.len()));
            let end = end_after_field(rest.as_slice());
            assert(end as int == city_end_after_field(rest@));
            let city = clean_city(rest.as_slice(), end);
            if city.len() > 0 {
                Some(city)
            } else {
                None
            }
        },
        None => None,
    }
}

/// The city that a status text names: the text after the first
/// `connected to `, up to ` in ` (or else the first `,`, line break or `.`),
/// trimmed and without ANSI escapes; when that is empty or absent, the value
/// of the first `location:` field, up to a line break or `,`.
pub fn parse_location(output: &str) -> (res: Option<String>)
    ensures
        res matches Some(c) ==> location_of(output@) == Some(c@),
        res is None ==> location_of(output@) is None,
{
    let o = chars_of(output);
    let l = lower_chars(o.as_slice());
    match city_after_connected_chars(o.as_slice(), l.as_slice()) {
        Some(city) => Some(string_of(city.as_slice())),
        None => match city_in_field_chars(o.as_slice(), l.as_slice()) {
            Some(city) => Some(string_of(city.as_slice())),
            None => None,
        },
    }
}

} // verus!
