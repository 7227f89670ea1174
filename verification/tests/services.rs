use haven::autostart::remove::{record_removal, removal_paths, removed_line, summary_line, RemoveOutcome};
use haven::autostart::setup::{desktop_file_content, server_script_content, setup, step_error, SetupStep};
use haven::autostart::terminal::{detect, Terminal};
use haven::autostart::{home_from_env, home_from_passwd};
use haven::build_resources::{create_resource_paths, prepare_constants_content, prepare_mod_content};
use haven::config::args::parse_args;
use haven::request_parser::{parse_request, Requests};
use haven::utils::unique_id_generator::{id_from_seed, UniqueIdGenerator};
use haven::vpn::{CommandOutput, LocationCache, Location, CoreError};
use haven::vpn_core::{VpnManager, VpnStatus};

#[test]
fn ids_are_ten_charset_characters_and_unique() {
    let id = id_from_seed(0);
    assert_eq!(id.len(), 10);
    assert!(id.starts_with('A'));
    assert_eq!(&id[1..2], "B");
    assert!(id.chars().all(|c| c.is_ascii_alphanumeric()));
    let mut g = UniqueIdGenerator::new();
    let first = g.generate(123).expect("fresh");
    assert_eq!(first, id_from_seed(123));
    assert!(g.generate(123).is_none());
    let second = g.generate(124).expect("fresh");
    assert_ne!(first, second);
}

fn output(success: bool, stdout: &str) -> CommandOutput {
    CommandOutput { success, stdout: stdout.to_string(), stderr: String::new() }
}

#[test]
fn vpn_manager_tracks_commands() {
    let mut m = VpnManager::new();
    assert_eq!(m.get_status(), VpnStatus::Disconnected);
    assert_eq!(m.start(), VpnStatus::Connecting);
    assert_eq!(m.start_finished(&Ok(output(true, ""))), VpnStatus::Connected);
    assert_eq!(m.stop(), VpnStatus::Disconnecting);
    assert_eq!(m.stop_finished(&Ok(output(false, ""))), None);
    assert_eq!(m.get_status(), VpnStatus::Disconnecting);
    assert_eq!(m.stop_finished(&Err("spawn failed".to_string())), Some(VpnStatus::Disconnected));
    assert_eq!(m.start_finished(&Err("spawn failed".to_string())), VpnStatus::Disconnected);
    assert_eq!(m.get_vpn_status(&output(true, "3: tun0: <POINTOPOINT>")), VpnStatus::Connected);
    assert_eq!(m.get_vpn_status(&output(false, "tun0")), VpnStatus::Disconnected);
    assert_eq!(m.get_status(), VpnStatus::Disconnected);
    assert_eq!(VpnManager::connect_command().args, vec!["connect", "-l", "DE"]);
}

#[test]
fn terminal_detection_takes_the_first_installed() {
    let t = detect(|name: &str| name == "xterm" || name == "konsole").expect("found");
    assert_eq!(t.name, "konsole");
    assert_eq!(t.exec_flag, "-e");
    let t = detect(|name: &str| name == "gnome-terminal").unwrap();
    assert_eq!(t.exec_flag, "--");
    assert!(detect(|_: &str| false).is_none());
}

#[test]
fn setup_writes_scripts_then_entries() {
    let cfg = parse_args(vec!["haven".to_string(), "-a".to_string(), "0.0.0.0".to_string(), "-l".to_string(), "warn".to_string()]);
    let term = Terminal { name: "xterm".to_string(), exec_flag: "-e".to_string() };
    let steps = setup("/home/pi", &term, "/opt/haven/haven", "/opt/haven", &cfg);
    assert_eq!(steps.len(), 13);
    assert!(matches!(&steps[0], SetupStep::CreateDir(d) if d == "/home/pi/.local/bin"));
    assert!(matches!(&steps[1], SetupStep::CreateDir(d) if d == "/home/pi/.config/autostart"));
    match &steps[2] {
        SetupStep::WriteFile { path, content } => {
            assert_eq!(path, "/home/pi/.local/bin/haven-autostart.sh");
            assert!(content.starts_with("#!/bin/bash\n\necho \"[haven] Waiting for network (up to 60 s)...\"\n"));
            assert!(content.contains("cd \"/opt/haven\" || {\n    echo \"[haven] ERROR: cannot cd to /opt/haven\"\n    exit 1\n}\n"));
            assert!(content.ends_with("exec \"/opt/haven/haven\" --address 0.0.0.0 --port 9000 --log-level warn\n"));
        }
        other => panic!("unexpected {:?}", other),
    }
    assert!(matches!(&steps[4], SetupStep::MakeExecutable(p) if p == "/home/pi/.local/bin/haven-autostart.sh"));
    match &steps[7] {
        SetupStep::WriteFile { path, content } => {
            assert_eq!(path, "/home/pi/.config/autostart/haven-vpn.desktop");
            assert_eq!(content, "[Desktop Entry]\nType=Application\nName=Haven VPN Connect\nExec=\"xterm\" \"-e\" \"/home/pi/.local/bin/haven-vpn-connect.sh\"\nHidden=false\nX-GNOME-Autostart-enabled=true\n");
        }
        other => panic!("unexpected {:?}", other),
    }
    assert!(matches!(&steps[12], SetupStep::Report(l) if l == "  /home/pi/.config/autostart/haven-vpn.desktop"));
    assert_eq!(step_error(&steps[0], "denied"), "Cannot create /home/pi/.local/bin: denied");
    assert_eq!(step_error(&steps[5], "denied"), "Cannot chmod /home/pi/.local/bin/haven-vpn-connect.sh: denied");
    assert_eq!(
        server_script_content("r", "b", "1.2.3.4", 80, "info").lines().last(),
        Some("exec \"b\" --address 1.2.3.4 --port 80 --log-level info")
    );
    assert!(desktop_file_content("N", "t", "-e", "s").contains("Name=N\n"));
}

#[test]
fn removal_counts_and_stops_on_errors() {
    let paths = removal_paths("/h");
    assert_eq!(paths[0], "/h/.local/bin/haven-autostart.sh");
    assert_eq!(paths[3], "/h/.config/autostart/haven-vpn.desktop");
    assert_eq!(record_removal(0, "/x", &RemoveOutcome::Removed), Ok(1));
    assert_eq!(record_removal(1, "/x", &RemoveOutcome::NotFound), Ok(1));
    assert_eq!(
        record_removal(1, "/x", &RemoveOutcome::Failed("busy".to_string())),
        Err("Failed to remove /x: busy".to_string())
    );
    assert_eq!(removed_line("/x"), "Removed: /x");
    assert_eq!(summary_line(0), Some("Autostart is not configured.".to_string()));
    assert_eq!(summary_line(2), None);
}

#[test]
fn home_directory_comes_from_env_or_passwd() {
    assert_eq!(home_from_env(Some("/home/a".to_string())), Some("/home/a".to_string()));
    assert_eq!(home_from_env(Some(String::new())), None);
    assert_eq!(home_from_env(None), None);
    let passwd = "root:x:0:0:root:/root:/bin/bash\npi:x:1000:1000:,,,:/home/pi:/bin/bash\nodd:x:1001\n";
    assert_eq!(home_from_passwd(Ok(passwd.to_string()), 1000), Ok("/home/pi".to_string()));
    assert_eq!(home_from_passwd(Ok(passwd.to_string()), 0), Ok("/root".to_string()));
    assert_eq!(
        home_from_passwd(Ok(passwd.to_string()), 1001),
        Err("Cannot determine home directory: uid not found in /etc/passwd".to_string())
    );
    assert_eq!(
        home_from_passwd(Err("denied".to_string()), 0),
        Err("Cannot read /etc/passwd: denied".to_string())
    );
    assert_eq!(home_from_passwd(Ok("u:x:5:5::/home/u:/bin/sh:extra:more".to_string()), 5), Ok("/home/u".to_string()));
}

#[test]
fn generated_constants() {
    let pairs = create_resource_paths();
    assert_eq!(pairs.len(), 6);
    assert_eq!(pairs[5], ("WEB_SOCKET_JS_PATH".to_string(), "resources/web_resources/page_scripts/WebSocket.js".to_string()));
    assert_eq!(prepare_mod_content(), "\npub mod constants;\n");
    let text = prepare_constants_content(vec![("A".to_string(), "x".to_string()), ("B".to_string(), "y/z".to_string())]);
    assert_eq!(text, "pub const A: &str = \"x\";\npub const B: &str = \"y/z\";\n");
}

#[test]
fn early_requests_are_recognised() {
    assert_eq!(parse_request(b"GET / HTTP/1.1\r\nHost: x\r\n"), Some(Requests::Get));
    assert_eq!(parse_request(b"GET /ws HTTP/1.1\r\n"), Some(Requests::GetWs));
    assert_eq!(parse_request(b"GET /web_js/update_status.js HTTP/1.1"), Some(Requests::GetJs));
    assert_eq!(parse_request(b"POST /start HTTP/1.1"), Some(Requests::PostStart));
    assert_eq!(parse_request(b"POST /stop HTTP/1.1"), Some(Requests::PostStop));
    assert_eq!(parse_request(b"GET / HTTP/1.0"), None);
    assert_eq!(parse_request(b""), None);
}

#[test]
fn location_cache_keeps_list_on_failed_refresh() {
    let mut cache = LocationCache::new();
    let loc = Location { iso: "FI".to_string(), city: "Helsinki".to_string(), country: "Finland".to_string(), ping_ms: 60 };
    assert!(cache.apply_refresh(Ok(vec![loc])));
    assert!(!cache.apply_refresh(Err(CoreError::IoError("x".to_string()))));
    let got = cache.get();
    assert_eq!(got.len(), 1);
    assert_eq!(got[0].city, "Helsinki");
}
