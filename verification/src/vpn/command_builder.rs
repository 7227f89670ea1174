//! Building the command lines of the core's operations.
use vstd::prelude::*;

use crate::text::{decimal, owned, push_decimal, string_of};
use crate::vpn::commands::command::CoreCommand;
use crate::vpn::commands::location::Location;
use crate::vpn::commands::restart_time::RestartTime;
use crate::vpn::commands::{wifi_get_ssid, wifi_reconnect, ssid_pipeline, CommandSpec};

verus! {

/// Builds the command line of one core operation.
pub struct CommandBuilder {
    base: String,
    command: Option<CoreCommand>,
}

impl CommandBuilder {
    pub closed spec fn base(&self) -> Seq<char> {
        self.base@
    }

    pub closed spec fn command(&self) -> Option<CoreCommand> {
        self.command
    }

    /// A builder for the VPN client, with no operation chosen yet.
    pub fn new() -> (res: Self)
        ensures
            res.base() == "adguardvpn-cli"@,
            res.command() is None,
    {
        Self { base: owned("adguardvpn-cli"), command: None }
    }

    /// The builder with `command` as its operation.
    pub fn set_command(self, command: CoreCommand) -> (res: Self)
        ensures
            res.base() == self.base(),
            res.command() == Some(command),
    {
        let mut b = self;
        b.command = Some(command);
        b
    }

    /// The program and arguments of the chosen operation.
    pub open spec fn spec_build(&self) -> (Seq<char>, Seq<Seq<char>>) {
        match self.command() {
            None => (self.base(), seq![]),
            Some(CoreCommand::Connect(location)) => (
                self.base(),
                seq!["connect"@, "-l"@, location.spec_name()],
            ),
            Some(CoreCommand::Disconnect) => (self.base(), seq!["disconnect"@]),
            Some(CoreCommand::Restart(RestartTime::Now)) => ("shutdown"@, seq!["-r"@, "now"@]),
            Some(CoreCommand::Restart(RestartTime::AfterSeconds(s))) => (
                "shutdown"@,
                seq!["-r"@, decimal(s as nat)],
            ),
            Some(CoreCommand::Status) => (self.base(), seq!["status"@]),
            Some(CoreCommand::GetSSID) => ("sh"@, seq!["-c"@, ssid_pipeline()]),
            Some(CoreCommand::ReconnectToSSID(ssid)) => (
                "nmcli"@,
                seq!["connection"@, "up"@, "id"@, ssid@, "--ask"@],
            ),
        }
    }

    /// The command line: the base program alone when no operation is chosen;
    /// `connect -l <code>`, `disconnect` or `status` on the base program;
    /// `shutdown -r now` or `shutdown -r <seconds>` for a restart; the SSID
    /// pipeline and `nmcli connection up id <ssid> --ask` for the Wi-Fi
    /// operations.
    pub fn build(&self) -> (cmd: CommandSpec)
        ensures
            cmd.program@ == self.spec_build().0,
            cmd.arg_views() == self.spec_build().1,
    {
        match &self.command {
            None => {
                let cmd = CommandSpec { program: self.base.clone(), args: Vec::new() };
                assert(cmd.arg_views() =~= Seq::<Seq<char>>::empty());
                cmd
            },
            Some(CoreCommand::Connect(location)) => self.build_connect(*location),
            Some(CoreCommand::Disconnect) => self.build_simple("disconnect"),
            Some(CoreCommand::Restart(time)) => self.build_restart(*time),
            Some(CoreCommand::Status) => self.build_simple("status"),
            Some(CoreCommand::GetSSID) => wifi_get_ssid(),
            Some(CoreCommand::ReconnectToSSID(ssid)) => wifi_reconnect(ssid.as_str()),
        }
    }

    fn build_connect(&self, location: Location) -> (cmd: CommandSpec)
        ensures
            cmd.program@ == self.base(),
            cmd.arg_views() == seq!["connect"@, "-l"@, location.spec_name()],
    {
        let mut args: Vec<String> = Vec::new();
        args.push(owned("connect"));
        args.push(owned("-l"));
        args.push(location.get_name());
        let cmd = CommandSpec { program: self.base.clone(), args };
        assert(cmd.arg_views() =~= seq!["connect"@, "-l"@, location.spec_name()]);
        cmd
    }

    fn build_simple(&self, arg: &str) -> (cmd: CommandSpec)
        ensures
            cmd.program@ == self.base(),
            cmd.arg_views() == seq![arg@],
    {
        let mut args: Vec<String> = Vec::new();
        args.push(owned(arg));
        let cmd = CommandSpec { program: self.base.clone(), args };
        assert(cmd.arg_views() =~= seq![arg@]);
        cmd
    }

    fn build_restart(&self, time: RestartTime) -> (cmd: CommandSpec)
        ensures
            cmd.program@ == "shutdown"@,
            cmd.arg_views() == match time {
                RestartTime::Now => seq!["-r"@, "now"@],
                RestartTime::AfterSeconds(s) => seq!["-r"@, decimal(s as nat)],
            },
    {
        let mut args: Vec<String> = Vec::new();
        args.push(owned("-r"));
        match time {
            RestartTime::Now => args.push(owned("now")),
            RestartTime::AfterSeconds(seconds) => {
                let mut digits: Vec<char> = Vec::new();
                push_decimal(&mut digits, seconds as u64);
                assert(digits@ =~= decimal(seconds as nat));
                args.push(string_of(digits.as_slice()));
            },
        }
        let cmd = CommandSpec { program: owned("shutdown"), args };
        assert(cmd.arg_views() =~= match time {
            RestartTime::Now => seq!["-r"@, "now"@],
            RestartTime::AfterSeconds(s) => seq!["-r"@, decimal(s as nat)],
        });
        cmd
    }
}

} // verus!
