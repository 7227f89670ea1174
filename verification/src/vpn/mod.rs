//! The VPN core: the state model, the commands that drive `adguardvpn-cli`,
//! and the decisions taken on what those commands print.
use vstd::prelude::*;

pub mod command_builder;
pub mod command_parser;
pub mod commands;
pub mod core_state;
pub mod http_request_get_processor;
pub mod http_request_processor;
pub mod location;
pub mod location_cache;
pub mod location_parser;
pub mod sorting;
pub mod state_parser;
pub mod sysinfo;
pub mod ws_messaging_processor;

pub use location::Location;
pub use location_cache::LocationCache;

use crate::text::{chars_of, lines, owned, string_of, trim, trim_chars};
use crate::vpn::location_parser::{location_views, parse_locations, rows_of};
use crate::vpn::sorting::{sort_by_ping, sorted_by_ping, with_key};
use crate::vpn::state_parser::{location_of, parse_location, parse_status, status_of};

verus! {

/// The state of the VPN connection as the status command reports it.
#[derive(Debug, Clone, Copy, PartialEq, Eq, Structural)]
pub enum CoreState {
    Connected,
    Disconnected,
    Reconnecting,
}

/// Why a core operation failed.
#[derive(Debug)]
pub enum CoreError {
    /// The command ran and reported failure; `stderr` is what it printed.
    CommandFailed { cmd: String, stderr: String },
    /// The command's output could not be used.
    ParseError { context: String, raw: String },
    /// The command could not be run; the text describes the I/O error.
    IoError(String),
}

/// What `<str as Debug>::fmt` writes for a string: the string quoted, with
/// its special characters escaped.
pub uninterp spec fn debug_text(s: Seq<char>) -> Seq<char>;

/// `format!("{:?}", s)` for a string slice; the result is named
/// `debug_text`, and nothing more is claimed of it.
#[verifier::external_body]
pub(crate) fn debug_quoted(s: &str) -> (res: String)
    ensures
        res@ == debug_text(s@),
{
    format!("{:?}", s)
}

impl CoreError {
    pub open spec fn spec_message(&self) -> Seq<char> {
        match self {
            CoreError::CommandFailed { cmd, stderr } => "Command '"@ + cmd@ + "' failed: "@
                + stderr@,
            CoreError::ParseError { context, raw } => "Parse error in "@ + context@ + ": "@
                + debug_text(raw@),
            CoreError::IoError(e) => "I/O error: "@ + e@,
        }
    }

    /// The text that describes the error.
    pub fn message(&self) -> (res: String)
        ensures
            res@ == self.spec_message(),
    {
        let mut out: Vec<char> = Vec::new();
        match self {
            CoreError::CommandFailed { cmd, stderr } => {
                crate::text::append_str(&mut out, "Command '");
                crate::text::append_str(&mut out, cmd.as_str());
                crate::text::append_str(&mut out, "' failed: ");
                crate::text::append_str(&mut out, stderr.as_str());
            },
            CoreError::ParseError { context, raw } => {
                crate::text::append_str(&mut out, "Parse error in ");
                crate::text::append_str(&mut out, context.as_str());
                crate::text::append_str(&mut out, ": ");
                let quoted = debug_quoted(raw.as_str());
                crate::text::append_str(&mut out, quoted.as_str());
            },
            CoreError::IoError(e) => {
                crate::text::append_str(&mut out, "I/O error: ");
                crate::text::append_str(&mut out, e.as_str());
            },
        }
        string_of(out.as_slice())
    }
}

pub type CoreResult<T> = Result<T, CoreError>;

/// What a finished command left behind: whether it exited successfully, and
/// what it printed (decoded as UTF-8, invalid sequences replaced).
#[derive(Debug)]
pub struct CommandOutput {
    pub success: bool,
    pub stdout: String,
    pub stderr: String,
}

/// The outcome of running a command: its output, or the text of the I/O
/// error that kept it from running.
pub type RunResult = Result<CommandOutput, String>;

/// The outcome of a command that only has to succeed, named `cmd` in errors.
pub open spec fn command_finished(run: RunResult, cmd: Seq<char>, res: CoreResult<()>) -> bool {
    match run {
        Err(e) => res matches Err(CoreError::IoError(m)) && m@ == e@,
        Ok(o) => if o.success {
            res is Ok
        } else {
            res matches Err(CoreError::CommandFailed { cmd: c, stderr }) && c@ == cmd && stderr@
                == o.stderr@
        },
    }
}

fn finish(run: RunResult, cmd: &str) -> (res: CoreResult<()>)
    ensures
        command_finished(run, cmd@, res),
{
    match run {
        Err(e) => Err(CoreError::IoError(e)),
        Ok(o) => if o.success {
            Ok(())
        } else {
            Err(CoreError::CommandFailed { cmd: owned(cmd), stderr: o.stderr })
        },
    }
}

/// The result of `adguardvpn-cli connect` (see `commands::vpn_connect`).
pub fn connect(run: RunResult) -> (res: CoreResult<()>)
    ensures
        command_finished(run, "adguardvpn-cli connect"@, res),
{
    finish(run, "adguardvpn-cli connect")
}

/// The result of `adguardvpn-cli disconnect`.
pub fn disconnect(run: RunResult) -> (res: CoreResult<()>)
    ensures
        command_finished(run, "adguardvpn-cli disconnect"@, res),
{
    finish(run, "adguardvpn-cli disconnect")
}

/// The result of `shutdown -r now`.
pub fn restart(run: RunResult) -> (res: CoreResult<()>)
    ensures
        command_finished(run, "shutdown -r now"@, res),
{
    finish(run, "shutdown -r now")
}

/// The state and location that `adguardvpn-cli status` reports; the location
/// is read only when the state is `Connected`. The exit status is not used.
pub fn status(run: RunResult) -> (res: CoreResult<(CoreState, Option<String>)>)
    ensures
        match run {
            Err(e) => res matches Err(CoreError::IoError(m)) && m@ == e@,
            Ok(o) => res matches Ok((state, loc)) && state == status_of(o.stdout@) && (
            if state == CoreState::Connected {
                match location_of(o.stdout@) {
                    Some(c) => loc matches Some(l) && l@ == c,
                    None => loc is None,
                }
            } else {
                loc is None
            }),
        },
{
    match run {
        Err(e) => Err(CoreError::IoError(e)),
        Ok(o) => {
            let state = parse_status(o.stdout.as_str());
            let location = if state == CoreState::Connected {
                parse_location(o.stdout.as_str())
            } else {
                None
            };
            Ok((state, location))
        },
    }
}

/// The locations of `adguardvpn-cli list-locations`, sorted by ping (stable,
/// unmeasured last).
pub fn list_locations(run: RunResult) -> (res: CoreResult<Vec<Location>>)
    ensures
        match run {
            Err(e) => res matches Err(CoreError::IoError(m)) && m@ == e@,
            Ok(o) => if o.success {
                res matches Ok(v) && sorted_by_ping(location_views(v@)) && forall|k: int|
                    with_key(location_views(v@), k) == with_key(rows_of(lines(o.stdout@)), k)
            } else {
                res matches Err(CoreError::CommandFailed { cmd, stderr }) && cmd@
                    == "adguardvpn-cli list-locations"@ && stderr@ == o.stderr@
            },
        },
{
    match run {
        Err(e) => Err(CoreError::IoError(e)),
        Ok(o) => {
            if !o.success {
                return Err(
                    CoreError::CommandFailed {
                        cmd: owned("adguardvpn-cli list-locations"),
                        stderr: o.stderr,
                    },
                );
            }
            let locs = parse_locations(o.stdout.as_str());
            Ok(sort_by_ping(locs))
        },
    }
}

/// The SSID that the SSID pipeline printed, trimmed.
pub fn get_ssid(run: RunResult) -> (res: CoreResult<String>)
    ensures
        match run {
            Err(e) => res matches Err(CoreError::IoError(m)) && m@ == e@,
            Ok(o) => res matches Ok(s) && s@ == trim(o.stdout@),
        },
{
    match run {
        Err(e) => Err(CoreError::IoError(e)),
        Ok(o) => {
            let t = trim_chars(chars_of(o.stdout.as_str()).as_slice());
            Ok(string_of(t.as_slice()))
        },
    }
}

/// The SSID to reconnect to: an empty SSID is a parse error.
pub fn reconnect_target(ssid: CoreResult<String>) -> (res: CoreResult<String>)
    ensures
        match ssid {
            Err(e) => res == Err::<String, CoreError>(e),
            Ok(s) => if s@.len() == 0 {
                res matches Err(CoreError::ParseError { context, raw }) && context@ == "get_ssid"@
                    && raw@ == "(empty)"@
            } else {
                res == Ok::<String, CoreError>(s)
            },
        },
{
    match ssid {
        Err(e) => Err(e),
        Ok(s) => if s.as_str().is_empty() {
            Err(CoreError::ParseError { context: owned("get_ssid"), raw: owned("(empty)") })
        } else {
            Ok(s)
        },
    }
}

/// The result of `nmcli connection up id <ssid> --ask`.
pub fn reconnect_wifi(ssid: &str, run: RunResult) -> (res: CoreResult<()>)
    ensures
        command_finished(run, "nmcli connection up id "@ + ssid@, res),
{
    let mut name: Vec<char> = chars_of("nmcli connection up id ");
    crate::text::append_str(&mut name, ssid);
    let cmd = string_of(name.as_slice());
    finish(run, cmd.as_str())
}

/// Whether a polled SSID confirms the reconnection to `current`.
pub fn ssid_confirmed(polled: &CoreResult<String>, current: &str) -> (res: bool)
    ensures
        res == (polled matches Ok(s) && s@ == current@ && s@.len() > 0),
{
    match polled {
        Ok(s) => crate::text::chars_equal(chars_of(s.as_str()).as_slice(), chars_of(current).as_slice())
            && !s.as_str().is_empty(),
        Err(_) => false,
    }
}

} // verus!
