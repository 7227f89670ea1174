//! Syntactic reading of the bind address and port from a command line; the
//! values are not checked here.
use vstd::prelude::*;

use crate::text::{
    all_digits, chars_of, contains, equals_str, find, find_in, is_ascii_digit, slice_chars,
    starts_with, string_of, string_views, trim, trim_chars,
};

verus! {

/// Raw (unvalidated) CLI arguments parsed from tokens.
#[derive(Debug, Default, Clone, PartialEq, Eq)]
pub struct RawArgs {
    pub address: Option<String>,
    pub port: Option<String>,
}

/// The characters of an optional string.
pub open spec fn opt_view(o: Option<String>) -> Option<Seq<char>> {
    match o {
        Some(s) => Some(s@),
        None => None,
    }
}

impl View for RawArgs {
    type V = (Option<Seq<char>>, Option<Seq<char>>);

    open spec fn view(&self) -> (Option<Seq<char>>, Option<Seq<char>>) {
        (opt_view(self.address), opt_view(self.port))
    }
}

/// An argument that starts with `-` is a flag.
pub open spec fn is_flag(s: Seq<char>) -> bool {
    starts_with(s, seq!['-'])
}

/// `-` followed by one or more ASCII digits.
pub open spec fn is_negative_number(s: Seq<char>) -> bool {
    s.len() > 1 && s[0] == '-' && all_digits(s.drop_first())
}

/// The address and port after reading `args` from `(address, port)`:
/// `--address=v`/`-a=v` and `--port=v`/`-p=v` set a value (trimmed); `-a`
/// takes the next argument unless it is a flag, `-p` unless it is a flag
/// that is not a negative number; anything else is skipped.
pub open spec fn scan_raw(
    address: Option<Seq<char>>,
    port: Option<Seq<char>>,
    args: Seq<Seq<char>>,
) -> (Option<Seq<char>>, Option<Seq<char>>)
    decreases args.len(),
{
    if args.len() == 0 {
        (address, port)
    } else {
        let arg = args[0];
        let rest = args.drop_first();
        match find(arg, seq!['=']) {
            Some(i) => {
                let key = arg.take(i);
                let value = trim(arg.skip(i + 1));
                if key == "--address"@ || key == "-a"@ {
                    scan_raw(Some(value), port, rest)
                } else if key == "--port"@ || key == "-p"@ {
                    scan_raw(address, Some(value), rest)
                } else {
                    scan_raw(address, port, rest)
                }
            },
            None => if arg == "--address"@ || arg == "-a"@ {
                if rest.len() > 0 && !is_flag(rest[0]) {
                    scan_raw(Some(trim(rest[0])), port, rest.drop_first())
                } else {
                    scan_raw(address, port, rest)
                }
            } else if arg == "--port"@ || arg == "-p"@ {
                if rest.len() > 0 && (!is_flag(rest[0]) || is_negative_number(rest[0])) {
                    scan_raw(address, Some(trim(rest[0])), rest.drop_first())
                } else {
                    scan_raw(address, port, rest)
                }
            } else {
                scan_raw(address, port, rest)
            },
        }
    }
}

/// The arguments read: the first one is skipped as the program's name when
/// it is neither a flag nor holds `=`.
pub open spec fn raw_option_args(args: Seq<Seq<char>>) -> Seq<Seq<char>> {
    if args.len() > 0 && !is_flag(args[0]) && !contains(args[0], seq!['=']) {
        args.drop_first()
    } else {
        args
    }
}

/// Whether the text starts with `-`.
fn starts_with_dash(s: &[char]) -> (res: bool)
    ensures
        res == is_flag(s@),
{
    if s.len() > 0 && s[0] == '-' {
        assert(s@.subrange(0, 1) =~= seq!['-']);
        true
    } else {
        proof {
            if s@.len() > 0 {
                assert(s@.subrange(0, 1)[0] != seq!['-'][0]);
            }
        }
        false
    }
}

/// `-` followed by one or more ASCII digits.
pub fn looks_like_negative_number(s: &str) -> (res: bool)
    ensures
        res == is_negative_number(s@),
{
    let cs = chars_of(s);
    if cs.len() < 2 || cs[0] != '-' {
        return false;
    }
    let mut i: usize = 1;
    while i < cs.len()
        invariant
            1 <= i <= cs@.len(),
            cs@ == s@,
            cs@.len() > 1 && cs@[0] == '-',
            forall|j: int| 1 <= j < i ==> is_ascii_digit(cs@[j]),
        decreases cs@.len() - i,
    {
        if !('0' <= cs[i] && cs[i] <= '9') {
            assert(cs@.drop_first()[i - 1] == cs@[i as int]);
            return false;
        }
        i = i + 1;
    }
    assert forall|j: int| 0 <= j < cs@.drop_first().len() implies is_ascii_digit(
        cs@.drop_first()[j],
    ) by {
        assert(cs@.drop_first()[j] == cs@[j + 1]);
    }
    true
}

/// Reads the address and port from a command line. Only the syntax is read:
/// the values are not checked.
pub fn read_args(args: Vec<String>) -> (res: RawArgs)
    ensures
        res@ == scan_raw(None, None, raw_option_args(string_views(args@))),
{
    let ghost all = string_views(args@);
    let eq_sign: Vec<char> = vec!['='];
    assert(eq_sign@ =~= seq!['=']);
    let mut address: Option<String> = None;
    let mut port: Option<String> = None;
    let mut i: usize = 0;
    if args.len() > 0 {
        let first = chars_of(args[0].as_str());
        assert(first@ == all[0]);
        if !starts_with_dash(first.as_slice()) && find_in(first.as_slice(), eq_sign.as_slice()).is_none() {
            assert(all.skip(1) =~= all.drop_first());
            i = 1;
        }
    }
    assert(all.skip(i as int) =~= raw_option_args(all));
    while i < args.len()
        invariant
            i <= args@.len(),
            all == string_views(args@),
            eq_sign@ == seq!['='],
            scan_raw(opt_view(address), opt_view(port), all.skip(i as int)) == scan_raw(
                None,
                None,
                raw_option_args(all),
            ),
        decreases args@.len() - i,
    {
        let arg = chars_of(args[i].as_str());
        let ghost rest = all.skip(i as int);
        assert(rest[0] == arg@);
        assert(rest.drop_first() =~= all.skip(i + 1));
        match find_in(arg.as_slice(), eq_sign.as_slice()) {
            Some(eq) => {
                let n: usize = arg.len();
                assert(eq < n);
                let key = slice_chars(arg.as_slice(), 0, eq);
                let value = trim_chars(slice_chars(arg.as_slice(), eq + 1, n).as_slice());
                assert(arg@.subrange(0, eq as int) =~= arg@.take(eq as int));
                assert(arg@.subrange(eq + 1, n as int) =~= arg@.skip(eq + 1));
                if equals_str(key.as_slice(), "--address") || equals_str(key.as_slice(), "-a") {
                    address = Some(string_of(value.as_slice()));
                } else if equals_str(key.as_slice(), "--port") || equals_str(key.as_slice(), "-p") {
                    port = Some(string_of(value.as_slice()));
                }
                i = i + 1;
            },
            None => {
                let a = arg.as_slice();
                if equals_str(a, "--address") || equals_str(a, "-a") {
                    if i + 1 < args.len() {
                        let next = chars_of(args[i + 1].as_str());
                        assert(rest[1] == next@);
                        assert(rest.drop_first()[0] == next@);
                        if !starts_with_dash(next.as_slice()) {
                            assert(rest.drop_first().drop_first() =~= all.skip(i + 2));
                            address = Some(string_of(trim_chars(next.as_slice()).as_slice()));
                            i = i + 2;
                        } else {
                            i = i + 1;
                        }
                    } else {
                        i = i + 1;
                    }
                } else if equals_str(a, "--port") || equals_str(a, "-p") {
                    if i + 1 < args.len() {
                        let next = chars_of(args[i + 1].as_str());
                        assert(rest[1] == next@);
                        assert(rest.drop_first()[0] == next@);
                        if !starts_with_dash(next.as_slice()) || looks_like_negative_number(
                            args[i + 1].as_str(),
                        ) {
                            assert(rest.drop_first().drop_first() =~= all.skip(i + 2));
                            port = Some(string_of(trim_chars(next.as_slice()).as_slice()));
                            i = i + 2;
                        } else {
                            i = i + 1;
                        }
                    } else {
                        i = i + 1;
                    }
                } else {
                    i = i + 1;
                }
            },
        }
    }
    assert(all.skip(i as int).len() == 0);
    RawArgs { address, port }
}

} // verus!
