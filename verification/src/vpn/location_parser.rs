//! Reading the table that `adguardvpn-cli list-locations` prints.
use vstd::prelude::*;

use crate::text::{chars_of, decimal, is_ascii_digit, lemma_decimal_digits, unsigned_digits, is_ascii_upper, is_ascii_ws, is_ws, lines, parse_signed, parse_signed_chars, split_lines, string_of, string_views, trim, trim_chars, views};
use crate::vpn::location::Location;

verus! {

/// A run of two or more whitespace characters starts at `i`.
pub open spec fn wide_gap_at(s: Seq<char>, i: int) -> bool {
    0 <= i && i + 1 < s.len() && is_ws(s[i]) && is_ws(s[i + 1])
}

/// Where the first run of two or more whitespace characters starts.
#[verifier::opaque]
pub open spec fn first_wide_gap(s: Seq<char>) -> Option<int> {
    if exists|i: int| wide_gap_at(s, i) {
        Some(choose|i: int| wide_gap_at(s, i) && forall|j: int| 0 <= j < i ==> !wide_gap_at(s, j))
    } else {
        None
    }
}

/// Where the whitespace run that starts at `i` ends.
#[verifier::opaque]
pub open spec fn ws_run_end(s: Seq<char>, i: int) -> int {
    if exists|j: int| i <= j < s.len() && !is_ws(s[j]) {
        choose|j: int| i <= j < s.len() && !is_ws(s[j]) && forall|k: int| i <= k < j ==> is_ws(s[k])
    } else {
        s.len() as int
    }
}

/// The pieces of `s` between its maximal runs of two or more whitespace
/// characters, as `regex::Regex::new(r"\s{2,}")` splits it: a run that ends
/// `s` leaves an empty last piece.
#[verifier::opaque]
pub open spec fn split_wide_gaps(s: Seq<char>) -> Seq<Seq<char>>
    decreases s.len(),
{
    match first_wide_gap(s) {
        Some(i) => {
            let j = ws_run_end(s, i);
            if 0 <= i && i + 2 <= j <= s.len() {
                seq![s.take(i)] + split_wide_gaps(s.skip(j))
            } else {
                seq![s]
            }
        },
        None => seq![s],
    }
}

/// `Regex::split` with the pattern `\s{2,}` (`\s` is Unicode `White_Space`):
/// the parts of `s` that no match covers, in order.
#[verifier::external_body]
fn split_on_wide_gaps(s: &str) -> (res: Vec<String>)
    ensures
        string_views(res@) == split_wide_gaps(s@),
{
    let re = regex::Regex::new(r"\s{2,}").expect("a valid pattern");
    re.split(s).map(|piece| piece.to_string()).collect()
}

/// A location as the contracts see it: ISO code, country, city and ping.
pub type LocationRow = (Seq<char>, Seq<char>, Seq<char>, int);

/// A table row starts with two ASCII capital letters and an ASCII space.
pub open spec fn is_row_start(line: Seq<char>) -> bool {
    line.len() >= 3 && is_ascii_upper(line[0]) && is_ascii_upper(line[1]) && is_ascii_ws(line[2])
}

/// The ping column as a number, or -1 when it is not an `i32`.
pub open spec fn ping_value(column: Seq<char>) -> int {
    match parse_signed(column, 2147483648, 2147483647) {
        Some(v) => v,
        None => -1,
    }
}

/// The ping column is read as an `i32`: the decimal notation of any ping
/// from 0 to `i32::MAX` reads as that ping, and a `-` before the notation of
/// any magnitude up to 2^31 reads as its negation.
pub proof fn law_ping_column_reads_i32(n: nat)
    ensures
        n <= 2147483647 ==> ping_value(decimal(n)) == n,
        1 <= n <= 2147483648 ==> ping_value(seq!['-'] + decimal(n)) == -(n as int),
{
    lemma_decimal_digits(n);
    let d = decimal(n);
    assert(is_ascii_digit(d[0]));
    assert(unsigned_digits(d) == d);
    let m = seq!['-'] + d;
    assert(m.drop_first() =~= d);
}

/// The location that a line of the table describes: a row whose trimmed text
/// splits at wide gaps into exactly four columns (ISO code, country, city,
/// ping).
pub open spec fn row_of(line: Seq<char>) -> Option<LocationRow> {
    if is_row_start(line) {
        let cols = split_wide_gaps(trim(line));
        if cols.len() == 4 {
            Some((cols[0], cols[1], cols[2], ping_value(cols[3])))
        } else {
            None
        }
    } else {
        None
    }
}

/// The rows among `ls`, in order.
pub open spec fn rows_of(ls: Seq<Seq<char>>) -> Seq<LocationRow>
    decreases ls.len(),
{
    if ls.len() == 0 {
        seq![]
    } else {
        let before = rows_of(ls.drop_last());
        match row_of(ls.last()) {
            Some(r) => before.push(r),
            None => before,
        }
    }
}

pub open spec fn location_view(l: Location) -> LocationRow {
    (l.iso@, l.country@, l.city@, l.ping_ms as int)
}

pub open spec fn location_views(ls: Seq<Location>) -> Seq<LocationRow> {
    ls.map_values(|l: Location| location_view(l))
}

/// The location that one line describes, if it is a table row.
fn parse_row(line: &[char]) -> (res: Option<Location>)
    ensures
        res matches Some(l) ==> row_of(line@) == Some(location_view(l)),
        res is None ==> row_of(line@) is None,
{
    if !(line.len() >= 3 && 'A' <= line[0] && line[0] <= 'Z' && 'A' <= line[1] && line[1] <= 'Z'
        && (line[2] == ' ' || line[2] == '\t' || line[2] == '\n' || line[2] == '\x0C' || line[2]
        == '\r')) {
        return None;
    }
    let trimmed = trim_chars(line);
    let text = string_of(trimmed.as_slice());
    let cols = split_on_wide_gaps(text.as_str());
    if cols.len() != 4 {
        return None;
    }
    let ping_text = chars_of(cols[3].as_str());
    let ping: i32 = match parse_signed_chars(ping_text.as_slice(), 2147483648, 2147483647) {
        Some(v) => v as i32,
        None => -1,
    };
    assert(string_views(cols@)[3] == cols@[3]@);
    let iso = cols[0].clone();
    let country = cols[1].clone();
    let city = cols[2].clone();
    assert(string_views(cols@)[0] == cols@[0]@);
    assert(string_views(cols@)[1] == cols@[1]@);
    assert(string_views(cols@)[2] == cols@[2]@);
    Some(Location { iso, city, country, ping_ms: ping })
}

/// The locations listed in the output of `adguardvpn-cli list-locations`,
/// in the order of their lines.
pub fn parse_locations(output: &str) -> (res: Vec<Location>)
    ensures
        location_views(res@) == rows_of(lines(output@)),
{
    let chars = chars_of(output);
    let ls = split_lines(chars.as_slice());
    let mut out: Vec<Location> = Vec::new();
    let mut i: usize = 0;
    assert(views(ls@).take(0) =~= Seq::<Seq<char>>::empty());
    while i < ls.len()
        invariant
            i <= ls@.len(),
            views(ls@) == lines(chars@),
            location_views(out@) == rows_of(views(ls@).take(i as int)),
        decreases ls@.len() - i,
    {
        let row = parse_row(ls[i].as_slice());
        proof {
            let t = views(ls@).take(i + 1);
            assert(t.drop_last() == views(ls@).take(i as int));
            assert(t.last() == ls@[i as int]@);
        }
        match row {
            Some(l) => {
                let ghost before = location_views(out@);
                out.push(l);
                assert(location_views(out@) =~= before.push(location_view(l)));
            },
            None => {},
        }
        i = i + 1;
    }
    assert(views(ls@).take(ls@.len() as int) == views(ls@));
    out
}

} // verus!
