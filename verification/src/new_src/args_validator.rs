//! Validation of the raw address and port, with defaults for what is missing
//! or invalid.
use vstd::prelude::*;

use super::args_reader::{raw_option_args, read_args, scan_raw, RawArgs};
use crate::text::{chars_of, owned, parse_unsigned, parse_unsigned_chars, string_views};
use crate::utils::args_reader::{is_ipv4, is_valid_ipv4};

verus! {

/// Validated and finalized server arguments (with defaults applied).
#[derive(Debug, Clone, PartialEq, Eq)]
pub struct ServerArgs {
    pub address: String,
    pub port: String,
}

/// The address kept: a non-empty IPv4 address, else `127.0.0.1`.
pub open spec fn valid_address(address: Option<Seq<char>>) -> Seq<char> {
    match address {
        Some(a) => if a.len() > 0 && is_ipv4(a) {
            a
        } else {
            "127.0.0.1"@
        },
        None => "127.0.0.1"@,
    }
}

/// The port kept: non-empty text that parses as a `u16`, else `9000`.
pub open spec fn valid_port(port: Option<Seq<char>>) -> Seq<char> {
    match port {
        Some(p) => if p.len() > 0 && parse_unsigned(p, 65535) is Some {
            p
        } else {
            "9000"@
        },
        None => "9000"@,
    }
}

/// Validates raw arguments and applies defaults: the address must be an IPv4
/// address and the port a `u16`; what is missing, empty or invalid becomes
/// `127.0.0.1` and `9000`.
pub fn validate(raw: RawArgs) -> (res: ServerArgs)
    ensures
        res.address@ == valid_address(raw@.0),
        res.port@ == valid_port(raw@.1),
{
    let address = match raw.address {
        Some(address_str) => {
            let cs = chars_of(address_str.as_str());
            if cs.len() > 0 && is_valid_ipv4(cs.as_slice()) {
                address_str
            } else {
                owned("127.0.0.1")
            }
        },
        None => owned("127.0.0.1"),
    };
    let port = match raw.port {
        Some(port_str) => {
            let cs = chars_of(port_str.as_str());
            if cs.len() > 0 && parse_unsigned_chars(cs.as_slice(), 65535).is_some() {
                port_str
            } else {
                owned("9000")
            }
        },
        None => owned("9000"),
    };
    ServerArgs { address, port }
}

/// Reads a command line, then validates it.
pub fn parse_and_validate(args: Vec<String>) -> (res: ServerArgs)
    ensures
        ({
            let raw = scan_raw(None, None, raw_option_args(string_views(args@)));
            res.address@ == valid_address(raw.0) && res.port@ == valid_port(raw.1)
        }),
{
    let raw_args = read_args(args);
    validate(raw_args)
}

} // verus!
