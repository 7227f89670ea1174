//! The external commands that the core runs: the AdGuard VPN client,
//! `shutdown` and NetworkManager.
use vstd::prelude::*;

pub mod command;
pub mod location;
pub mod restart_time;

use crate::text::{decimal, owned, push_decimal, string_of, string_views};

verus! {

/// A command line: the program and its arguments.
#[derive(Debug, Clone)]
pub struct CommandSpec {
    pub program: String,
    pub args: Vec<String>,
}

impl CommandSpec {
    pub open spec fn arg_views(&self) -> Seq<Seq<char>> {
        string_views(self.args@)
    }
}

pub open spec fn spec_vpn_connect_args(location: Option<Seq<char>>) -> Seq<Seq<char>> {
    match location {
        Some(city) => seq!["connect"@, "-l"@, city],
        None => seq!["connect"@, "--fastest"@],
    }
}

/// `adguardvpn-cli connect -l <city>`, or `--fastest` when no city is given.
pub fn vpn_connect(location: Option<&str>) -> (cmd: CommandSpec)
    ensures
        cmd.program@ == "adguardvpn-cli"@,
        cmd.arg_views() == spec_vpn_connect_args(
            match location {
                Some(c) => Some(c@),
                None => None,
            },
        ),
{
    let mut args: Vec<String> = Vec::new();
    args.push(owned("connect"));
    match location {
        Some(city) => {
            args.push(owned("-l"));
            args.push(owned(city));
        },
        None => {
            args.push(owned("--fastest"));
        },
    }
    let cmd = CommandSpec { program: owned("adguardvpn-cli"), args };
    assert(cmd.arg_views() =~= spec_vpn_connect_args(
        match location {
            Some(c) => Some(c@),
            None => None,
        },
    ));
    cmd
}

/// `adguardvpn-cli disconnect`.
pub fn vpn_disconnect() -> (cmd: CommandSpec)
    ensures
        cmd.program@ == "adguardvpn-cli"@,
        cmd.arg_views() == seq!["disconnect"@],
{
    let mut args: Vec<String> = Vec::new();
    args.push(owned("disconnect"));
    let cmd = CommandSpec { program: owned("adguardvpn-cli"), args };
    assert(cmd.arg_views() =~= seq!["disconnect"@]);
    cmd
}

/// `adguardvpn-cli status`.
pub fn vpn_status() -> (cmd: CommandSpec)
    ensures
        cmd.program@ == "adguardvpn-cli"@,
        cmd.arg_views() == seq!["status"@],
{
    let mut args: Vec<String> = Vec::new();
    args.push(owned("status"));
    let cmd = CommandSpec { program: owned("adguardvpn-cli"), args };
    assert(cmd.arg_views() =~= seq!["status"@]);
    cmd
}

/// `adguardvpn-cli list-locations <count>`.
pub fn vpn_list_locations(count: u32) -> (cmd: CommandSpec)
    ensures
        cmd.program@ == "adguardvpn-cli"@,
        cmd.arg_views() == seq!["list-locations"@, decimal(count as nat)],
{
    let mut args: Vec<String> = Vec::new();
    args.push(owned("list-locations"));
    let mut digits: Vec<char> = Vec::new();
    push_decimal(&mut digits, count as u64);
    assert(digits@ =~= decimal(count as nat));
    args.push(string_of(digits.as_slice()));
    let cmd = CommandSpec { program: owned("adguardvpn-cli"), args };
    assert(cmd.arg_views() =~= seq!["list-locations"@, decimal(count as nat)]);
    cmd
}

/// `shutdown -r now`.
pub fn system_restart() -> (cmd: CommandSpec)
    ensures
        cmd.program@ == "shutdown"@,
        cmd.arg_views() == seq!["-r"@, "now"@],
{
    let mut args: Vec<String> = Vec::new();
    args.push(owned("-r"));
    args.push(owned("now"));
    let cmd = CommandSpec { program: owned("shutdown"), args };
    assert(cmd.arg_views() =~= seq!["-r"@, "now"@]);
    cmd
}

/// The shell pipeline that prints the SSID of the active Wi-Fi connection.
pub open spec fn ssid_pipeline() -> Seq<char> {
    "nmcli -t -f active,ssid dev wifi | grep '^yes:' | cut -d':' -f2-"@
}

/// `sh -c "<ssid pipeline>"`.
pub fn wifi_get_ssid() -> (cmd: CommandSpec)
    ensures
        cmd.program@ == "sh"@,
        cmd.arg_views() == seq!["-c"@, ssid_pipeline()],
{
    let mut args: Vec<String> = Vec::new();
    args.push(owned("-c"));
    args.push(owned("nmcli -t -f active,ssid dev wifi | grep '^yes:' | cut -d':' -f2-"));
    let cmd = CommandSpec { program: owned("sh"), args };
    assert(cmd.arg_views() =~= seq!["-c"@, ssid_pipeline()]);
    cmd
}

/// `nmcli connection up id <ssid> --ask`.
pub fn wifi_reconnect(ssid: &str) -> (cmd: CommandSpec)
    ensures
        cmd.program@ == "nmcli"@,
        cmd.arg_views() == seq!["connection"@, "up"@, "id"@, ssid@, "--ask"@],
{
    let mut args: Vec<String> = Vec::new();
    args.push(owned("connection"));
    args.push(owned("up"));
    args.push(owned("id"));
    args.push(owned(ssid));
    args.push(owned("--ask"));
    let cmd = CommandSpec { program: owned("nmcli"), args };
    assert(cmd.arg_views() =~= seq!["connection"@, "up"@, "id"@, ssid@, "--ask"@]);
    cmd
}

} // verus!
