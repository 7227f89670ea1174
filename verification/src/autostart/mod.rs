//! XDG autostart entries that start the server and connect the VPN at login,
//! and the home directory they go under.
use vstd::prelude::*;

pub mod remove;
pub mod setup;
pub mod terminal;

use crate::text::{
    append_str, chars_of, find, find_in, lines, owned, parse_unsigned, parse_unsigned_chars,
    slice_chars, split_lines, string_of, views,
};

verus! {

/// The home directory that `$HOME` names, when it is set and not empty.
pub fn home_from_env(var: Option<String>) -> (res: Option<String>)
    ensures
        match var {
            Some(h) => if h@.len() > 0 {
                res == Some(h)
            } else {
                res is None
            },
            None => res is None,
        },
{
    match var {
        Some(h) => if h.as_str().is_empty() {
            None
        } else {
            Some(h)
        },
        None => None,
    }
}

/// `str::splitn(n, ':')`: at most `n` fields; the last one keeps the rest
/// of the text, colons included.
pub open spec fn colon_fields(s: Seq<char>, n: nat) -> Seq<Seq<char>>
    decreases n,
{
    if n == 0 {
        seq![]
    } else if n == 1 {
        seq![s]
    } else {
        match find(s, seq![':']) {
            Some(i) => seq![s.take(i)] + colon_fields(s.skip(i + 1), (n - 1) as nat),
            None => seq![s],
        }
    }
}

/// The fields of a `passwd` line, split at its first six colons.
fn passwd_fields(s: &[char]) -> (res: Vec<Vec<char>>)
    ensures
        views(res@) == colon_fields(s@, 7),
{
    let colon: Vec<char> = vec![':'];
    assert(colon@ =~= seq![':']);
    let mut out: Vec<Vec<char>> = Vec::new();
    let mut start: usize = 0;
    let mut k: usize = 0;
    assert(s@.skip(0) =~= s@);
    assert(views(out@) + colon_fields(s@.skip(0), 7) =~= colon_fields(s@, 7));
    while k < 6
        invariant
            k <= 6,
            start <= s@.len(),
            colon@ == seq![':'],
            views(out@) + colon_fields(s@.skip(start as int), (7 - k) as nat) == colon_fields(
                s@,
                7,
            ),
        decreases 6 - k,
    {
        let rest = slice_chars(s, start, s.len());
        assert(rest@ =~= s@.skip(start as int));
        match find_in(rest.as_slice(), colon.as_slice()) {
            Some(i) => {
                let field = slice_chars(rest.as_slice(), 0, i);
                assert(field@ =~= rest@.take(i as int));
                let ghost before = out@;
                out.push(field);
                proof {
                    assert(views(out@) =~= views(before).push(field@));
                    assert(rest@.skip(i + 1) =~= s@.skip(start + i + 1));
                    assert(views(out@) + colon_fields(s@.skip(start + i + 1), (7 - k - 1) as nat)
                        =~= views(before) + colon_fields(s@.skip(start as int), (7 - k) as nat));
                }
                start = start + i + 1;
                k = k + 1;
            },
            None => {
                let ghost before = out@;
                out.push(rest);
                proof {
                    assert(views(out@) =~= views(before).push(s@.skip(start as int)));
                    assert(views(out@) =~= colon_fields(s@, 7));
                }
                return out;
            },
        }
    }
    let rest = slice_chars(s, start, s.len());
    let ghost before = out@;
    out.push(rest);
    proof {
        assert(views(out@) =~= views(before).push(s@.skip(start as int)));
    }
    out
}

/// The home directory of user `uid` in a `passwd` listing: the sixth field
/// of the first line with at least six fields whose third field is `uid`.
pub open spec fn passwd_home(ls: Seq<Seq<char>>, uid: u32) -> Option<Seq<char>>
    decreases ls.len(),
{
    if ls.len() == 0 {
        None
    } else {
        let f = colon_fields(ls[0], 7);
        if f.len() >= 6 && parse_unsigned(f[2], u32::MAX as nat) == Some(uid as nat) {
            Some(f[5])
        } else {
            passwd_home(ls.drop_first(), uid)
        }
    }
}

/// The home directory of user `uid` from the contents of `/etc/passwd`, or
/// the error that reading it gave.
pub fn home_from_passwd(contents: Result<String, String>, uid: u32) -> (res: Result<String, String>)
    ensures
        match contents {
            Err(e) => res matches Err(m) && m@ == "Cannot read /etc/passwd: "@ + e@,
            Ok(c) => match passwd_home(lines(c@), uid) {
                Some(h) => res matches Ok(r) && r@ == h,
                None => res matches Err(m) && m@
                    == "Cannot determine home directory: uid not found in /etc/passwd"@,
            },
        },
{
    let text = match contents {
        Err(e) => {
            let mut out: Vec<char> = chars_of("Cannot read /etc/passwd: ");
            append_str(&mut out, e.as_str());
            return Err(string_of(out.as_slice()));
        },
        Ok(c) => c,
    };
    let ls = split_lines(chars_of(text.as_str()).as_slice());
    let ghost all = views(ls@);
    let mut i: usize = 0;
    assert(all.skip(0) =~= all);
    while i < ls.len()
        invariant
            i <= ls@.len(),
            all == views(ls@),
            all == lines(text@),
            contents matches Ok(c) && c@ == text@,
            passwd_home(all.skip(i as int), uid) == passwd_home(all, uid),
        decreases ls@.len() - i,
    {
        assert(all.skip(i as int)[0] == ls@[i as int]@);
        assert(all.skip(i as int).drop_first() =~= all.skip(i + 1));
        let fields = passwd_fields(ls[i].as_slice());
        if fields.len() >= 6 {
            assert(views(fields@)[2] == fields@[2]@);
            assert(views(fields@)[5] == fields@[5]@);
            match parse_unsigned_chars(fields[2].as_slice(), 0xffff_ffff) {
                Some(v) => {
                    if v == uid as u64 {
                        return Ok(string_of(fields[5].as_slice()));
                    }
                },
                None => {},
            }
        }
        i = i + 1;
    }
    Err(owned("Cannot determine home directory: uid not found in /etc/passwd"))
}

} // verus!
