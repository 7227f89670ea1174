//! A VPN manager that tracks the connection's status as its commands run;
//! each status it records is handed back for its listener.
use vstd::prelude::*;

use crate::text::{chars_of, contains, contains_chars, owned};
use crate::vpn::commands::CommandSpec;
use crate::vpn::{CommandOutput, RunResult};

verus! {

/// The connection status that the manager tracks.
#[derive(Clone, Copy, PartialEq, Eq, Debug, Structural)]
pub enum VpnStatus {
    Disconnected,
    Connected,
    Disconnecting,
    Connecting,
    Reconnecting,
}

/// Tracks the VPN status through connect and disconnect commands. Every
/// status it records is returned to the caller, who tells the listener.
#[derive(Debug)]
pub struct VpnManager {
    status: VpnStatus,
}

/// A command that ran and exited successfully.
pub open spec fn succeeded(run: RunResult) -> bool {
    run matches Ok(o) && o.success
}

/// The status that `ip link show` reports: connected when the command
/// succeeds and lists a `tun` interface.
pub open spec fn link_status(output: CommandOutput) -> VpnStatus {
    if output.success && contains(output.stdout@, "tun"@) {
        VpnStatus::Connected
    } else {
        VpnStatus::Disconnected
    }
}

impl VpnManager {
    pub closed spec fn spec_status(&self) -> VpnStatus {
        self.status
    }

    /// A manager that starts out disconnected.
    pub fn new() -> (res: Self)
        ensures
            res.spec_status() == VpnStatus::Disconnected,
    {
        VpnManager { status: VpnStatus::Disconnected }
    }

    /// Records a status and returns it for the listener.
    pub fn set_status(&mut self, status: VpnStatus) -> (res: VpnStatus)
        ensures
            final(self).spec_status() == status,
            res == status,
    {
        self.status = status;
        status
    }

    pub fn get_status(&self) -> (res: VpnStatus)
        ensures
            res == self.spec_status(),
    {
        self.status
    }

    /// `adguardvpn-cli connect -l DE`, which `start` runs.
    pub fn connect_command() -> (res: CommandSpec)
        ensures
            res.program@ == "adguardvpn-cli"@,
            res.arg_views() == seq!["connect"@, "-l"@, "DE"@],
    {
        let mut args: Vec<String> = Vec::new();
        args.push(owned("connect"));
        args.push(owned("-l"));
        args.push(owned("DE"));
        let cmd = CommandSpec { program: owned("adguardvpn-cli"), args };
        assert(cmd.arg_views() =~= seq!["connect"@, "-l"@, "DE"@]);
        cmd
    }

    /// `adguardvpn-cli disconnect`, which `stop` runs.
    pub fn disconnect_command() -> (res: CommandSpec)
        ensures
            res.program@ == "adguardvpn-cli"@,
            res.arg_views() == seq!["disconnect"@],
    {
        crate::vpn::commands::vpn_disconnect()
    }

    /// `ip link show`, whose output `get_vpn_status` reads.
    pub fn link_command() -> (res: CommandSpec)
        ensures
            res.program@ == "ip"@,
            res.arg_views() == seq!["link"@, "show"@],
    {
        let mut args: Vec<String> = Vec::new();
        args.push(owned("link"));
        args.push(owned("show"));
        let cmd = CommandSpec { program: owned("ip"), args };
        assert(cmd.arg_views() =~= seq!["link"@, "show"@]);
        cmd
    }

    /// Starting a connection: the status becomes `Connecting` before the
    /// connect command runs.
    pub fn start(&mut self) -> (res: VpnStatus)
        ensures
            final(self).spec_status() == VpnStatus::Connecting,
            res == VpnStatus::Connecting,
    {
        self.set_status(VpnStatus::Connecting)
    }

    /// After the connect command: `Connected` when it succeeded, else
    /// `Disconnected`.
    pub fn start_finished(&mut self, run: &RunResult) -> (res: VpnStatus)
        ensures
            res == (if succeeded(*run) {
                VpnStatus::Connected
            } else {
                VpnStatus::Disconnected
            }),
            final(self).spec_status() == res,
    {
        let ok = match run {
            Ok(o) => o.success,
            Err(_) => false,
        };
        if ok {
            self.set_status(VpnStatus::Connected)
        } else {
            self.set_status(VpnStatus::Disconnected)
        }
    }

    /// Stopping the connection: the status becomes `Disconnecting` before
    /// the disconnect command runs.
    pub fn stop(&mut self) -> (res: VpnStatus)
        ensures
            final(self).spec_status() == VpnStatus::Disconnecting,
            res == VpnStatus::Disconnecting,
    {
        self.set_status(VpnStatus::Disconnecting)
    }

    /// After the disconnect command: `Disconnected` when it succeeded or
    /// could not be run; when it ran and failed, the status stays as it was
    /// and nothing is recorded.
    pub fn stop_finished(&mut self, run: &RunResult) -> (res: Option<VpnStatus>)
        ensures
            match *run {
                Ok(o) => if o.success {
                    res == Some(VpnStatus::Disconnected) && final(self).spec_status()
                        == VpnStatus::Disconnected
                } else {
                    res is None && final(self).spec_status() == old(self).spec_status()
                },
                Err(_) => res == Some(VpnStatus::Disconnected) && final(self).spec_status()
                    == VpnStatus::Disconnected,
            },
    {
        match run {
            Ok(o) => {
                if o.success {
                    Some(self.set_status(VpnStatus::Disconnected))
                } else {
                    None
                }
            },
            Err(_) => Some(self.set_status(VpnStatus::Disconnected)),
        }
    }

    /// Records the status that the output of `ip link show` reports.
    pub fn get_vpn_status(&mut self, output: &CommandOutput) -> (res: VpnStatus)
        ensures
            res == link_status(*output),
            final(self).spec_status() == res,
    {
        let actual = if output.success && contains_chars(
            chars_of(output.stdout.as_str()).as_slice(),
            chars_of("tun").as_slice(),
        ) {
            VpnStatus::Connected
        } else {
            VpnStatus::Disconnected
        };
        self.set_status(actual)
    }
}

} // verus!
