use haven::vpn::command_parser::parse_status;
use haven::vpn::core_state::CoreState as LifeCycle;
use haven::vpn::command_builder::CommandBuilder;
use haven::vpn::commands::command::CoreCommand;
use haven::vpn::commands::location::Location as Country;
use haven::vpn::commands::restart_time::RestartTime;
use haven::vpn::commands::{vpn_connect, vpn_list_locations, wifi_get_ssid, wifi_reconnect};
use haven::vpn::{
    connect, get_ssid, list_locations, reconnect_target, reconnect_wifi, ssid_confirmed, status,
    CommandOutput, CoreError, CoreState,
};

fn ran(success: bool, stdout: &str, stderr: &str) -> Result<CommandOutput, String> {
    Ok(CommandOutput { success, stdout: stdout.to_string(), stderr: stderr.to_string() })
}

#[test]
fn command_results_map_to_errors() {
    assert!(connect(ran(true, "", "")).is_ok());
    match connect(ran(false, "", "no auth")) {
        Err(e) => assert_eq!(e.message(), "Command 'adguardvpn-cli connect' failed: no auth"),
        Ok(()) => panic!("expected failure"),
    }
    match connect(Err("not found".to_string())) {
        Err(e) => assert_eq!(e.message(), "I/O error: not found"),
        Ok(()) => panic!("expected failure"),
    }
    match reconnect_wifi("home", ran(false, "", "nope")) {
        Err(e) => assert_eq!(e.message(), "Command 'nmcli connection up id home' failed: nope"),
        Ok(()) => panic!("expected failure"),
    }
}

#[test]
fn status_reads_location_only_when_connected() {
    let (state, loc) = status(ran(true, "Connected to HELSINKI in TUN mode, running on tun0", "")).unwrap();
    assert_eq!(state, CoreState::Connected);
    assert_eq!(loc, Some("HELSINKI".to_string()));
    let (state, loc) = status(ran(false, "VPN is disconnected", "")).unwrap();
    assert_eq!(state, CoreState::Disconnected);
    assert_eq!(loc, None);
}

#[test]
fn locations_are_sorted_by_ping_unmeasured_last() {
    let out = "ISO   COUNTRY              CITY                           PING ESTIMATE\n\
               XX    Nowhere              Void                           n/a\n\
               FI    Finland              Helsinki                       60\n\
               DE    Germany              Frankfurt                      41\n\
               SE    Sweden               Stockholm                      60\n";
    let locs = list_locations(ran(true, out, "")).unwrap();
    let isos: Vec<&str> = locs.iter().map(|l| l.iso.as_str()).collect();
    assert_eq!(isos, vec!["DE", "FI", "SE", "XX"]);
    assert!(list_locations(ran(false, out, "err")).is_err());
}

#[test]
fn ssid_is_trimmed_and_must_not_be_empty() {
    assert_eq!(get_ssid(ran(true, "  home-net \n", "")).unwrap(), "home-net");
    match reconnect_target(get_ssid(ran(true, "\n", ""))) {
        Err(e) => assert_eq!(e.message(), "Parse error in get_ssid: \"(empty)\""),
        Ok(_) => panic!("expected failure"),
    }
    assert_eq!(reconnect_target(Ok("net".to_string())).unwrap(), "net");
    assert!(ssid_confirmed(&Ok("net".to_string()), "net"));
    assert!(!ssid_confirmed(&Ok("other".to_string()), "net"));
    assert!(!ssid_confirmed(&Err(CoreError::IoError("x".to_string())), "net"));
}

#[test]
fn command_lines() {
    let c = vpn_connect(Some("Oslo"));
    assert_eq!(c.program, "adguardvpn-cli");
    assert_eq!(c.args, vec!["connect", "-l", "Oslo"]);
    assert_eq!(vpn_connect(None).args, vec!["connect", "--fastest"]);
    assert_eq!(vpn_list_locations(100).args, vec!["list-locations", "100"]);
    assert_eq!(wifi_get_ssid().program, "sh");
    assert_eq!(wifi_reconnect("home").args, vec!["connection", "up", "id", "home", "--ask"]);
}

#[test]
fn command_builder_builds_each_operation() {
    let b = CommandBuilder::new().set_command(CoreCommand::Connect(Country::FI)).build();
    assert_eq!((b.program.as_str(), b.args.clone()), ("adguardvpn-cli", vec!["connect".to_string(), "-l".to_string(), "FI".to_string()]));
    let b = CommandBuilder::new().set_command(CoreCommand::Restart(RestartTime::AfterSeconds(30))).build();
    assert_eq!((b.program.as_str(), b.args.clone()), ("shutdown", vec!["-r".to_string(), "30".to_string()]));
    let b = CommandBuilder::new().build();
    assert_eq!(b.program, "adguardvpn-cli");
    assert!(b.args.is_empty());
    assert_eq!(Country::DE.get_name(), "DE");
}

#[test]
fn legacy_status_parser_matches() {
    assert_eq!(parse_status("Reconnecting...".to_string()), LifeCycle::Reconnecting);
    assert_eq!(parse_status("is DISCONNECTED".to_string()), LifeCycle::Disconnected);
    assert_eq!(parse_status("connected".to_string()), LifeCycle::Connected);
    assert_eq!(parse_status("??".to_string()), LifeCycle::Disconnected);
}
