//! System figures read from the kernel's text files: the CPU temperature,
//! the uptime and the memory figures.
use vstd::prelude::*;

use crate::text::{
    chars_of, lines, parse_signed, parse_signed_chars, parse_unsigned, parse_unsigned_chars,
    split_lines, split_words, starts_with, starts_with_chars, string_of, trim, trim_chars, views,
    words,
};

verus! {

/// The system figures sent to the page.
#[derive(Debug, Clone, Copy, PartialEq, Eq)]
pub struct SystemInfo {
    /// Thousandths of a degree Celsius, when the thermal zone could be read.
    pub cpu_temp_millidegrees: Option<i32>,
    pub uptime_s: u64,
    pub mem_free_kb: u64,
    pub mem_total_kb: u64,
}

// ---------------------------------------------------------------------------
// CPU temperature
// ---------------------------------------------------------------------------

/// The temperature that the thermal zone file holds: an `i32` of
/// thousandths of a degree, surrounding whitespace ignored.
pub open spec fn cpu_temp_of(content: Seq<char>) -> Option<int> {
    parse_signed(trim(content), 0x8000_0000, 0x7fff_ffff)
}

pub fn parse_cpu_temp(content: &str) -> (res: Option<i32>)
    ensures
        match cpu_temp_of(content@) {
            Some(v) => res == Some(v as i32),
            None => res is None,
        },
{
    let t = trim_chars(chars_of(content).as_slice());
    match parse_signed_chars(t.as_slice(), 0x8000_0000, 0x7fff_ffff) {
        Some(v) => Some(v as i32),
        None => None,
    }
}

// ---------------------------------------------------------------------------
// Uptime
// ---------------------------------------------------------------------------

/// The field of `/proc/uptime` that holds the uptime in seconds: its first
/// whitespace-separated word, if it has one.
pub open spec fn uptime_field_of(content: Seq<char>) -> Option<Seq<char>> {
    let w = words(content);
    if w.len() > 0 {
        Some(w[0])
    } else {
        None
    }
}

/// The uptime field of the content of `/proc/uptime`. The field is a
/// floating-point number of seconds, which the caller reads as an `f64`.
pub fn uptime_field(content: &str) -> (res: Option<String>)
    ensures
        match uptime_field_of(content@) {
            Some(f) => res matches Some(r) && r@ == f,
            None => res is None,
        },
{
    let w = split_words(chars_of(content).as_slice());
    if w.len() == 0 {
        return None;
    }
    assert(views(w@)[0] == w@[0]@);
    Some(string_of(w[0].as_slice()))
}

// ---------------------------------------------------------------------------
// Memory
// ---------------------------------------------------------------------------

/// The first of the lines that starts with `key`.
pub open spec fn first_line_with(ls: Seq<Seq<char>>, key: Seq<char>) -> Option<Seq<char>>
    decreases ls.len(),
{
    if ls.len() == 0 {
        None
    } else if starts_with(ls[0], key) {
        Some(ls[0])
    } else {
        first_line_with(ls.drop_first(), key)
    }
}

/// The kilobytes that `/proc/meminfo` gives for `key`: the second field of
/// the first line that starts with it, as a `u64`; 0 when there is none.
pub open spec fn meminfo_kb(content: Seq<char>, key: Seq<char>) -> nat {
    match first_line_with(lines(content), key) {
        Some(line) => {
            let w = words(line);
            if w.len() > 1 {
                match parse_unsigned(w[1], u64::MAX as nat) {
                    Some(v) => v,
                    None => 0,
                }
            } else {
                0
            }
        },
        None => 0,
    }
}

fn meminfo_value(content: &str, key: &str) -> (res: u64)
    ensures
        res as nat == meminfo_kb(content@, key@),
{
    let ls = split_lines(chars_of(content).as_slice());
    let k = chars_of(key);
    let ghost all = views(ls@);
    let mut i: usize = 0;
    assert(all.skip(0) =~= all);
    while i < ls.len()
        invariant
            i <= ls@.len(),
            all == views(ls@),
            k@ == key@,
            first_line_with(all.skip(i as int), key@) == first_line_with(lines(content@), key@),
        decreases ls@.len() - i,
    {
        assert(all.skip(i as int)[0] == ls@[i as int]@);
        assert(all.skip(i as int).drop_first() =~= all.skip(i + 1));
        if starts_with_chars(ls[i].as_slice(), k.as_slice()) {
            let w = split_words(ls[i].as_slice());
            if w.len() > 1 {
                assert(views(w@)[1] == w@[1]@);
                return match parse_unsigned_chars(w[1].as_slice(), u64::MAX) {
                    Some(v) => v,
                    None => 0,
                };
            }
            return 0;
        }
        i = i + 1;
    }
    0
}

/// The available memory in kilobytes (`MemAvailable:`).
pub fn parse_mem_free(content: &str) -> (res: u64)
    ensures
        res as nat == meminfo_kb(content@, "MemAvailable:"@),
{
    meminfo_value(content, "MemAvailable:")
}

/// The total memory in kilobytes (`MemTotal:`).
pub fn parse_mem_total(content: &str) -> (res: u64)
    ensures
        res as nat == meminfo_kb(content@, "MemTotal:"@),
{
    meminfo_value(content, "MemTotal:")
}

/// The figures from the contents of the thermal zone file and of
/// `/proc/meminfo`, and the uptime in whole seconds; `None` for a file that
/// could not be read, which gives no temperature and zero memory figures.
pub fn system_info(
    thermal: Option<String>,
    uptime_s: u64,
    meminfo: Option<String>,
) -> (res: SystemInfo)
    ensures
        match thermal {
            Some(t) => match cpu_temp_of(t@) {
                Some(v) => res.cpu_temp_millidegrees == Some(v as i32),
                None => res.cpu_temp_millidegrees is None,
            },
            None => res.cpu_temp_millidegrees is None,
        },
        res.uptime_s == uptime_s,
        res.mem_free_kb as nat == match meminfo {
            Some(m) => meminfo_kb(m@, "MemAvailable:"@),
            None => 0,
        },
        res.mem_total_kb as nat == match meminfo {
            Some(m) => meminfo_kb(m@, "MemTotal:"@),
            None => 0,
        },
{
    let cpu_temp_millidegrees = match &thermal {
        Some(t) => parse_cpu_temp(t.as_str()),
        None => None,
    };
    let (mem_free_kb, mem_total_kb) = match &meminfo {
        Some(m) => (parse_mem_free(m.as_str()), parse_mem_total(m.as_str())),
        None => (0, 0),
    };
    SystemInfo { cpu_temp_millidegrees, uptime_s, mem_free_kb, mem_total_kb }
}

} // verus!
