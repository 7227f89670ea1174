//! The bind address and port read from a command line, with the address
//! checked as a dotted-quad IPv4 address.
use vstd::prelude::*;

use crate::text::{
    all_digits, chars_of, digits_value, equals_str, is_ascii_digit, owned, parse_unsigned,
    parse_unsigned_chars, slice_chars, string_of, string_views,
};

verus! {

/// One part of a dotted-quad address: one to three ASCII digits, without a
/// leading zero unless the part is `0` itself, of value at most 255.
pub open spec fn is_octet(s: Seq<char>) -> bool {
    &&& 1 <= s.len() <= 3
    &&& all_digits(s)
    &&& !(s.len() > 1 && s[0] == '0')
    &&& digits_value(s) <= 255
}

/// What `str::parse::<Ipv4Addr>` accepts: four octets separated by three dots.
pub open spec fn is_ipv4(s: Seq<char>) -> bool {
    exists|i: int, j: int, k: int|
        0 <= i < j < k < s.len() && s[i] == '.' && s[j] == '.' && s[k] == '.' && is_octet(
            s.subrange(0, i),
        ) && is_octet(s.subrange(i + 1, j)) && is_octet(s.subrange(j + 1, k)) && is_octet(
            s.subrange(k + 1, s.len() as int),
        )
}

/// The first dot at or after `from`.
fn next_dot(s: &[char], from: usize) -> (res: Option<usize>)
    requires
        from <= s@.len(),
    ensures
        match res {
            Some(p) => from <= p < s@.len() && s@[p as int] == '.' && forall|q: int|
                from <= q < p ==> s@[q] != '.',
            None => forall|q: int| from <= q < s@.len() ==> s@[q] != '.',
        },
{
    let mut i: usize = from;
    while i < s.len()
        invariant
            from <= i <= s@.len(),
            forall|q: int| from <= q < i ==> s@[q] != '.',
        decreases s@.len() - i,
    {
        if s[i] == '.' {
            return Some(i);
        }
        i = i + 1;
    }
    None
}

/// Whether `s[start..end]` is an octet.
fn octet_at(s: &[char], start: usize, end: usize) -> (res: bool)
    requires
        start <= end <= s@.len(),
    ensures
        res == is_octet(s@.subrange(start as int, end as int)),
{
    let part = slice_chars(s, start, end);
    let n = part.len();
    if n < 1 || n > 3 {
        return false;
    }
    if !('0' <= part[0] && part[0] <= '9') {
        return false;
    }
    if n > 1 && part[0] == '0' {
        return false;
    }
    match parse_unsigned_chars(part.as_slice(), 255) {
        Some(_) => true,
        None => false,
    }
}

proof fn lemma_octet_has_no_dot(s: Seq<char>, q: int)
    requires
        is_octet(s),
        0 <= q < s.len(),
    ensures
        s[q] != '.',
{
    assert(is_ascii_digit(s[q]));
}

/// The three dots of an address; no other character of it is a dot.
proof fn ipv4_dots(s: Seq<char>) -> (res: (int, int, int))
    requires
        is_ipv4(s),
    ensures
        0 <= res.0 < res.1 < res.2 < s.len(),
        s[res.0] == '.' && s[res.1] == '.' && s[res.2] == '.',
        is_octet(s.subrange(0, res.0)),
        is_octet(s.subrange(res.0 + 1, res.1)),
        is_octet(s.subrange(res.1 + 1, res.2)),
        is_octet(s.subrange(res.2 + 1, s.len() as int)),
        forall|q: int| 0 <= q < s.len() && s[q] == '.' ==> q == res.0 || q == res.1 || q == res.2,
{
    let (i, j, k) = choose|i: int, j: int, k: int|
        0 <= i < j < k < s.len() && s[i] == '.' && s[j] == '.' && s[k] == '.' && is_octet(
            s.subrange(0, i),
        ) && is_octet(s.subrange(i + 1, j)) && is_octet(s.subrange(j + 1, k)) && is_octet(
            s.subrange(k + 1, s.len() as int),
        );
    assert forall|q: int| 0 <= q < s.len() && s[q] == '.' implies q == i || q == j || q == k by {
        if q < i {
            lemma_octet_has_no_dot(s.subrange(0, i), q);
        } else if i < q < j {
            lemma_octet_has_no_dot(s.subrange(i + 1, j), q - i - 1);
        } else if j < q < k {
            lemma_octet_has_no_dot(s.subrange(j + 1, k), q - j - 1);
        } else if k < q {
            lemma_octet_has_no_dot(s.subrange(k + 1, s.len() as int), q - k - 1);
        }
    }
    (i, j, k)
}

/// Whether `s` is a dotted-quad IPv4 address.
pub fn is_valid_ipv4(s: &[char]) -> (res: bool)
    ensures
        res == is_ipv4(s@),
{
    let n: usize = s.len();
    let d1 = match next_dot(s, 0) {
        Some(p) => p,
        None => {
            proof {
                if is_ipv4(s@) {
                    let w = ipv4_dots(s@);
                    assert(s@[w.0] == '.');
                }
            }
            return false;
        },
    };
    let d2 = match next_dot(s, d1 + 1) {
        Some(p) => p,
        None => {
            proof {
                if is_ipv4(s@) {
                    let w = ipv4_dots(s@);
                    assert(s@[w.0] == '.' && s@[w.1] == '.');
                }
            }
            return false;
        },
    };
    let d3 = match next_dot(s, d2 + 1) {
        Some(p) => p,
        None => {
            proof {
                if is_ipv4(s@) {
                    let w = ipv4_dots(s@);
                    assert(s@[w.0] == '.' && s@[w.1] == '.' && s@[w.2] == '.');
                }
            }
            return false;
        },
    };
    if let Some(d4) = next_dot(s, d3 + 1) {
        proof {
            if is_ipv4(s@) {
                let w = ipv4_dots(s@);
                assert(s@[d1 as int] == '.' && s@[d2 as int] == '.' && s@[d3 as int] == '.'
                    && s@[d4 as int] == '.');
            }
        }
        return false;
    }
    let ok = octet_at(s, 0, d1) && octet_at(s, d1 + 1, d2) && octet_at(s, d2 + 1, d3) && octet_at(
        s,
        d3 + 1,
        s.len(),
    );
    proof {
        if is_ipv4(s@) {
            let w = ipv4_dots(s@);
            assert(s@[w.0] == '.' && s@[w.1] == '.' && s@[w.2] == '.');
            assert(d1 == w.0);
            assert(d2 == w.1);
            assert(d3 == w.2);
        }
    }
    ok
}

/// The bind address and port of the web server, as text.
pub struct WebServerConfiguration {
    pub address: String,
    pub port: String,
}

impl WebServerConfiguration {
    pub fn new(address: &str, port: &str) -> (res: Self)
        ensures
            res.address@ == address@,
            res.port@ == port@,
    {
        WebServerConfiguration { address: owned(address), port: owned(port) }
    }
}

/// The arguments after the program name.
pub open spec fn after_program_name(args: Seq<Seq<char>>) -> Seq<Seq<char>> {
    if args.len() > 0 {
        args.drop_first()
    } else {
        args
    }
}

/// The address and port that arguments name: `--address`/`-a` and
/// `--port`/`-p` take the next argument as their value, a later value
/// replaces an earlier one, and any other argument is skipped.
pub open spec fn scan_address_port(address: Seq<char>, port: Seq<char>, args: Seq<Seq<char>>) -> (
    Seq<char>,
    Seq<char>,
)
    decreases args.len(),
{
    if args.len() == 0 {
        (address, port)
    } else if args[0] == "--address"@ || args[0] == "-a"@ {
        if args.len() > 1 {
            scan_address_port(args[1], port, args.skip(2))
        } else {
            (address, port)
        }
    } else if args[0] == "--port"@ || args[0] == "-p"@ {
        if args.len() > 1 {
            scan_address_port(address, args[1], args.skip(2))
        } else {
            (address, port)
        }
    } else {
        scan_address_port(address, port, args.drop_first())
    }
}

/// The address kept: a non-empty IPv4 address, else `127.0.0.1`.
pub open spec fn kept_address(address: Seq<char>) -> Seq<char> {
    if address.len() > 0 && is_ipv4(address) {
        address
    } else {
        "127.0.0.1"@
    }
}

/// The port kept: text that parses as a `u8`, else `9000`.
pub open spec fn kept_port(port: Seq<char>) -> Seq<char> {
    if port.len() > 0 && parse_unsigned(port, 255) is Some {
        port
    } else {
        "9000"@
    }
}

/// The server configuration that a command line (program name first) gives.
pub fn get_server_config(args: &Vec<String>) -> (res: WebServerConfiguration)
    ensures
        ({
            let named = scan_address_port(""@, ""@, after_program_name(string_views(args@)));
            res.address@ == kept_address(named.0) && res.port@ == kept_port(named.1)
        }),
{
    let ghost all = string_views(args@);
    let mut address: Vec<char> = Vec::new();
    let mut port: Vec<char> = Vec::new();
    let mut i: usize = if args.len() > 0 {
        1
    } else {
        0
    };
    proof {
        reveal_strlit("");
        assert(address@ =~= ""@);
        assert(port@ =~= ""@);
        if args.len() > 0 {
            assert(all.skip(1) =~= all.drop_first());
        } else {
            assert(all.skip(0) =~= all);
        }
    }
    while i < args.len()
        invariant
            1 <= i <= args@.len() || (i == 0 && args@.len() == 0),
            all == string_views(args@),
            scan_address_port(address@, port@, all.skip(i as int)) == scan_address_port(
                ""@,
                ""@,
                after_program_name(all),
            ),
        decreases args@.len() - i,
    {
        let arg = chars_of(args[i].as_str());
        let ghost rest = all.skip(i as int);
        assert(rest[0] == arg@);
        assert(rest.drop_first() =~= all.skip(i + 1));
        if equals_str(arg.as_slice(), "--address") || equals_str(arg.as_slice(), "-a") {
            if i + 1 < args.len() {
                address = chars_of(args[i + 1].as_str());
                assert(rest[1] == address@);
                assert(rest.skip(2) =~= all.skip(i + 2));
                i = i + 2;
            } else {
                assert(rest.len() == 1);
                i = args.len();
                assert(all.skip(i as int).len() == 0);
            }
        } else if equals_str(arg.as_slice(), "--port") || equals_str(arg.as_slice(), "-p") {
            if i + 1 < args.len() {
                port = chars_of(args[i + 1].as_str());
                assert(rest[1] == port@);
                assert(rest.skip(2) =~= all.skip(i + 2));
                i = i + 2;
            } else {
                assert(rest.len() == 1);
                i = args.len();
                assert(all.skip(i as int).len() == 0);
            }
        } else {
            i = i + 1;
        }
    }
    assert(all.skip(i as int).len() == 0);
    let address_text = if address.len() > 0 && is_valid_ipv4(address.as_slice()) {
        string_of(address.as_slice())
    } else {
        owned("127.0.0.1")
    };
    let port_text = if port.len() > 0 && parse_unsigned_chars(port.as_slice(), 255).is_some() {
        string_of(port.as_slice())
    } else {
        owned("9000")
    };
    WebServerConfiguration { address: address_text, port: port_text }
}

} // verus!
