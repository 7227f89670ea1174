//! What removing autostart deletes, and how the removal is reported.
use vstd::prelude::*;

use crate::text::{append_str, chars_of, owned, string_of, string_views};

verus! {

/// The files that the setup created under `home`, in the order they are
/// removed.
pub open spec fn removal_targets(home: Seq<char>) -> Seq<Seq<char>> {
    seq![
        home + "/.local/bin/haven-autostart.sh"@,
        home + "/.local/bin/haven-vpn-connect.sh"@,
        home + "/.config/autostart/haven-server.desktop"@,
        home + "/.config/autostart/haven-vpn.desktop"@,
    ]
}

fn joined(a: &str, b: &str) -> (res: String)
    ensures
        res@ == a@ + b@,
{
    let mut out = chars_of(a);
    append_str(&mut out, b);
    string_of(out.as_slice())
}

pub fn removal_paths(home: &str) -> (res: Vec<String>)
    ensures
        string_views(res@) == removal_targets(home@),
{
    let mut out: Vec<String> = Vec::new();
    out.push(joined(home, "/.local/bin/haven-autostart.sh"));
    out.push(joined(home, "/.local/bin/haven-vpn-connect.sh"));
    out.push(joined(home, "/.config/autostart/haven-server.desktop"));
    out.push(joined(home, "/.config/autostart/haven-vpn.desktop"));
    assert(string_views(out@) =~= removal_targets(home@));
    out
}

/// What removing one file did.
#[derive(Debug, Clone)]
pub enum RemoveOutcome {
    /// The file was removed.
    Removed,
    /// There was no such file.
    NotFound,
    /// Removing failed with this error.
    Failed(String),
}

/// After removing `path`: the count of removed files grows by one for a
/// removed file and stays for a missing one; any other failure stops the
/// removal with `Failed to remove <path>: <error>`.
pub fn record_removal(removed: usize, path: &str, outcome: &RemoveOutcome) -> (res: Result<
    usize,
    String,
>)
    requires
        removed < usize::MAX,
    ensures
        match *outcome {
            RemoveOutcome::Removed => res == Ok::<usize, String>((removed + 1) as usize),
            RemoveOutcome::NotFound => res == Ok::<usize, String>(removed),
            RemoveOutcome::Failed(e) => res matches Err(m) && m@ == "Failed to remove "@ + path@
                + ": "@ + e@,
        },
{
    match outcome {
        RemoveOutcome::Removed => Ok(removed + 1),
        RemoveOutcome::NotFound => Ok(removed),
        RemoveOutcome::Failed(e) => {
            let mut out: Vec<char> = chars_of("Failed to remove ");
            append_str(&mut out, path);
            append_str(&mut out, ": ");
            append_str(&mut out, e.as_str());
            Err(string_of(out.as_slice()))
        },
    }
}

/// The line printed for a removed file.
pub fn removed_line(path: &str) -> (res: String)
    ensures
        res@ == "Removed: "@ + path@,
{
    joined("Removed: ", path)
}

/// The line printed when nothing was removed.
pub fn summary_line(removed: usize) -> (res: Option<String>)
    ensures
        removed == 0 ==> (res matches Some(l) && l@ == "Autostart is not configured."@),
        removed != 0 ==> res is None,
{
    if removed == 0 {
        Some(owned("Autostart is not configured."))
    } else {
        None
    }
}

} // verus!
