//! The terminal emulator that the autostart entries open.
use vstd::prelude::*;

use crate::text::owned;

verus! {

/// A terminal emulator and the flag that makes it run a command.
#[derive(Debug, Clone)]
pub struct Terminal {
    pub name: String,
    pub exec_flag: String,
}

/// The terminals tried, in order of preference, with their exec flags.
pub open spec fn candidate(k: int) -> (&'static str, &'static str) {
    if k == 0 {
        ("x-terminal-emulator", "-e")
    } else if k == 1 {
        ("lxterminal", "-e")
    } else if k == 2 {
        ("xfce4-terminal", "-e")
    } else if k == 3 {
        ("gnome-terminal", "--")
    } else if k == 4 {
        ("mate-terminal", "-e")
    } else if k == 5 {
        ("konsole", "-e")
    } else {
        ("xterm", "-e")
    }
}

/// The number of terminals tried.
pub open spec fn candidate_count() -> int {
    7
}

fn candidate_at(k: usize) -> (res: (&'static str, &'static str))
    requires
        k < 7,
    ensures
        res == candidate(k as int),
{
    match k {
        0 => ("x-terminal-emulator", "-e"),
        1 => ("lxterminal", "-e"),
        2 => ("xfce4-terminal", "-e"),
        3 => ("gnome-terminal", "--"),
        4 => ("mate-terminal", "-e"),
        5 => ("konsole", "-e"),
        _ => ("xterm", "-e"),
    }
}

/// The first terminal that `is_installed` reports, asking about each in
/// order of preference and stopping at the first one found.
pub fn detect<F: Fn(&str) -> bool>(is_installed: F) -> (res: Option<Terminal>)
    requires
        forall|s: &str| call_requires(is_installed, (s,)),
    ensures
        match res {
            Some(t) => exists|k: int|
                0 <= k < candidate_count() && call_ensures(is_installed, (candidate(k).0,), true)
                    && (forall|j: int|
                    0 <= j < k ==> call_ensures(is_installed, (#[trigger] candidate(j).0,), false))
                    && t.name@ == candidate(k).0@ && t.exec_flag@ == candidate(k).1@,
            None => forall|j: int|
                0 <= j < candidate_count() ==> call_ensures(
                    is_installed,
                    (#[trigger] candidate(j).0,),
                    false,
                ),
        },
{
    let mut k: usize = 0;
    while k < 7
        invariant
            k <= 7,
            forall|s: &str| call_requires(is_installed, (s,)),
            forall|j: int| 0 <= j < k ==> call_ensures(is_installed, (#[trigger] candidate(j).0,), false),
        decreases 7 - k,
    {
        let (name, flag) = candidate_at(k);
        let found = is_installed(name);
        if found {
            return Some(Terminal { name: owned(name), exec_flag: owned(flag) });
        }
        k = k + 1;
    }
    None
}

} // verus!
