//! What setting up autostart writes: two scripts and two desktop entries.
use vstd::prelude::*;

use super::terminal::Terminal;
use crate::config::args::ServerConfig;
use crate::text::{append_str, chars_of, decimal, owned, push_decimal, string_of};

verus! {

/// Where the autostart files go, under a home directory.
#[derive(Debug, Clone)]
pub struct AutostartPaths {
    pub bin_dir: String,
    pub autostart_dir: String,
    pub server_script: String,
    pub vpn_script: String,
    pub server_desktop: String,
    pub vpn_desktop: String,
}

pub open spec fn bin_dir_of(home: Seq<char>) -> Seq<char> {
    home + "/.local/bin"@
}

pub open spec fn autostart_dir_of(home: Seq<char>) -> Seq<char> {
    home + "/.config/autostart"@
}

fn joined(a: &str, b: &str) -> (res: String)
    ensures
        res@ == a@ + b@,
{
    let mut out = chars_of(a);
    append_str(&mut out, b);
    string_of(out.as_slice())
}

/// The directories and files of the autostart setup under `home`.
pub fn autostart_paths(home: &str) -> (res: AutostartPaths)
    ensures
        res.bin_dir@ == bin_dir_of(home@),
        res.autostart_dir@ == autostart_dir_of(home@),
        res.server_script@ == bin_dir_of(home@) + "/haven-autostart.sh"@,
        res.vpn_script@ == bin_dir_of(home@) + "/haven-vpn-connect.sh"@,
        res.server_desktop@ == autostart_dir_of(home@) + "/haven-server.desktop"@,
        res.vpn_desktop@ == autostart_dir_of(home@) + "/haven-vpn.desktop"@,
{
    let bin_dir = joined(home, "/.local/bin");
    let autostart_dir = joined(home, "/.config/autostart");
    let server_script = joined(bin_dir.as_str(), "/haven-autostart.sh");
    let vpn_script = joined(bin_dir.as_str(), "/haven-vpn-connect.sh");
    let server_desktop = joined(autostart_dir.as_str(), "/haven-server.desktop");
    let vpn_desktop = joined(autostart_dir.as_str(), "/haven-vpn.desktop");
    AutostartPaths { bin_dir, autostart_dir, server_script, vpn_script, server_desktop, vpn_desktop }
}

/// The script that waits up to a minute for a network route, changes to the
/// project's directory and starts the server with the given settings.
pub open spec fn server_script_text(
    project_root: Seq<char>,
    binary: Seq<char>,
    address: Seq<char>,
    port: u16,
    log_level: Seq<char>,
) -> Seq<char> {
    "#!/bin/bash\n\necho \"[haven] Waiting for network (up to 60 s)...\"\nDEADLINE=$((SECONDS + 60))\nwhile [ $SECONDS -lt $DEADLINE ]; do\n    if ip route get 8.8.8.8 >/dev/null 2>&1; then\n        echo \"[haven] Network available.\"\n        break\n    fi\n    echo \"[haven] No route yet, retrying in 3 s...\"\n    sleep 3\ndone\nif ! ip route get 8.8.8.8 >/dev/null 2>&1; then\n    echo \"[haven] WARNING: network not available after 60 s, starting anyway.\"\nfi\n\ncd \""@
        + project_root + "\" || {\n    echo \"[haven] ERROR: cannot cd to "@ + project_root
        + "\"\n    exit 1\n}\n\nexec \""@ + binary + "\" --address "@ + address + " --port "@
        + decimal(port as nat) + " --log-level "@ + log_level + "\n"@
}

pub fn server_script_content(
    project_root: &str,
    binary: &str,
    address: &str,
    port: u16,
    log_level: &str,
) -> (res: String)
    ensures
        res@ == server_script_text(project_root@, binary@, address@, port, log_level@),
{
    let mut out: Vec<char> = chars_of(
        "#!/bin/bash\n\necho \"[haven] Waiting for network (up to 60 s)...\"\nDEADLINE=$((SECONDS + 60))\nwhile [ $SECONDS -lt $DEADLINE ]; do\n    if ip route get 8.8.8.8 >/dev/null 2>&1; then\n        echo \"[haven] Network available.\"\n        break\n    fi\n    echo \"[haven] No route yet, retrying in 3 s...\"\n    sleep 3\ndone\nif ! ip route get 8.8.8.8 >/dev/null 2>&1; then\n    echo \"[haven] WARNING: network not available after 60 s, starting anyway.\"\nfi\n\ncd \"",
    );
    append_str(&mut out, project_root);
    append_str(&mut out, "\" || {\n    echo \"[haven] ERROR: cannot cd to ");
    append_str(&mut out, project_root);
    append_str(&mut out, "\"\n    exit 1\n}\n\nexec \"");
    append_str(&mut out, binary);
    append_str(&mut out, "\" --address ");
    append_str(&mut out, address);
    append_str(&mut out, " --port ");
    push_decimal(&mut out, port as u64);
    append_str(&mut out, " --log-level ");
    append_str(&mut out, log_level);
    append_str(&mut out, "\n");
    string_of(out.as_slice())
}

/// The script that waits up to 90 seconds for the internet, connects the
/// VPN and waits for Enter.
pub open spec fn vpn_script_text() -> Seq<char> {
    "#!/bin/bash\n\necho \"[haven-vpn] Waiting for internet connectivity (up to 90 s)...\"\nDEADLINE=$((SECONDS + 90))\nwhile [ $SECONDS -lt $DEADLINE ]; do\n    if ping -c1 -W1 8.8.8.8 >/dev/null 2>&1; then\n        echo \"[haven-vpn] Internet available.\"\n        break\n    fi\n    echo \"[haven-vpn] No internet yet, retrying in 3 s...\"\n    sleep 3\ndone\nif ! ping -c1 -W1 8.8.8.8 >/dev/null 2>&1; then\n    echo \"[haven-vpn] WARNING: internet not available after 90 s, attempting connect anyway.\"\nfi\n\necho \"[haven-vpn] Connecting to VPN...\"\nadguardvpn-cli connect\n\necho \"\"\necho \"[haven-vpn] Press Enter to close...\"\nread\n"@
}

pub fn vpn_script_content() -> (res: String)
    ensures
        res@ == vpn_script_text(),
{
    owned(
        "#!/bin/bash\n\necho \"[haven-vpn] Waiting for internet connectivity (up to 90 s)...\"\nDEADLINE=$((SECONDS + 90))\nwhile [ $SECONDS -lt $DEADLINE ]; do\n    if ping -c1 -W1 8.8.8.8 >/dev/null 2>&1; then\n        echo \"[haven-vpn] Internet available.\"\n        break\n    fi\n    echo \"[haven-vpn] No internet yet, retrying in 3 s...\"\n    sleep 3\ndone\nif ! ping -c1 -W1 8.8.8.8 >/dev/null 2>&1; then\n    echo \"[haven-vpn] WARNING: internet not available after 90 s, attempting connect anyway.\"\nfi\n\necho \"[haven-vpn] Connecting to VPN...\"\nadguardvpn-cli connect\n\necho \"\"\necho \"[haven-vpn] Press Enter to close...\"\nread\n",
    )
}

/// A desktop entry that runs `script` in the terminal `term`.
pub open spec fn desktop_text(
    name: Seq<char>,
    term: Seq<char>,
    exec_flag: Seq<char>,
    script: Seq<char>,
) -> Seq<char> {
    "[Desktop Entry]\nType=Application\nName="@ + name + "\nExec=\""@ + term + "\" \""@ + exec_flag
        + "\" \""@ + script + "\"\nHidden=false\nX-GNOME-Autostart-enabled=true\n"@
}

pub fn desktop_file_content(name: &str, term: &str, exec_flag: &str, script: &str) -> (res:
    String)
    ensures
        res@ == desktop_text(name@, term@, exec_flag@, script@),
{
    let mut out: Vec<char> = chars_of("[Desktop Entry]\nType=Application\nName=");
    append_str(&mut out, name);
    append_str(&mut out, "\nExec=\"");
    append_str(&mut out, term);
    append_str(&mut out, "\" \"");
    append_str(&mut out, exec_flag);
    append_str(&mut out, "\" \"");
    append_str(&mut out, script);
    append_str(&mut out, "\"\nHidden=false\nX-GNOME-Autostart-enabled=true\n");
    string_of(out.as_slice())
}

/// One step of the setup.
#[derive(Debug, Clone)]
pub enum SetupStep {
    /// Create the directory and its parents.
    CreateDir(String),
    /// Write the file.
    WriteFile { path: String, content: String },
    /// Make the file executable (mode 755).
    MakeExecutable(String),
    /// Print the line.
    Report(String),
}

/// The steps of the setup, in order: create the two directories, write the
/// two scripts and make them executable, write the two desktop entries, and
/// report the four files.
pub open spec fn setup_plan(
    home: Seq<char>,
    term: Seq<char>,
    exec_flag: Seq<char>,
    binary: Seq<char>,
    project_root: Seq<char>,
    address: Seq<char>,
    port: u16,
    log_level: Seq<char>,
    steps: Seq<SetupStep>,
) -> bool {
    let bin = bin_dir_of(home);
    let auto = autostart_dir_of(home);
    let server_script = bin + "/haven-autostart.sh"@;
    let vpn_script = bin + "/haven-vpn-connect.sh"@;
    let server_desktop = auto + "/haven-server.desktop"@;
    let vpn_desktop = auto + "/haven-vpn.desktop"@;
    &&& steps.len() == 13
    &&& steps[0] matches SetupStep::CreateDir(d) && d@ == bin
    &&& steps[1] matches SetupStep::CreateDir(d) && d@ == auto
    &&& steps[2] matches SetupStep::WriteFile { path, content } && path@ == server_script
        && content@ == server_script_text(project_root, binary, address, port, log_level)
    &&& steps[3] matches SetupStep::WriteFile { path, content } && path@ == vpn_script
        && content@ == vpn_script_text()
    &&& steps[4] matches SetupStep::MakeExecutable(p) && p@ == server_script
    &&& steps[5] matches SetupStep::MakeExecutable(p) && p@ == vpn_script
    &&& steps[6] matches SetupStep::WriteFile { path, content } && path@ == server_desktop
        && content@ == desktop_text("Haven VPN Server"@, term, exec_flag, server_script)
    &&& steps[7] matches SetupStep::WriteFile { path, content } && path@ == vpn_desktop
        && content@ == desktop_text("Haven VPN Connect"@, term, exec_flag, vpn_script)
    &&& steps[8] matches SetupStep::Report(l) && l@ == "Autostart configured:"@
    &&& steps[9] matches SetupStep::Report(l) && l@ == "  "@ + server_script
    &&& steps[10] matches SetupStep::Report(l) && l@ == "  "@ + vpn_script
    &&& steps[11] matches SetupStep::Report(l) && l@ == "  "@ + server_desktop
    &&& steps[12] matches SetupStep::Report(l) && l@ == "  "@ + vpn_desktop
}

/// The steps that set up autostart for a home directory, a terminal, the
/// server's binary and working directory, and the settings to start it with
/// (its log level by lower-case name).
pub fn setup(
    home: &str,
    terminal: &Terminal,
    binary: &str,
    project_root: &str,
    cfg: &ServerConfig,
) -> (res: Vec<SetupStep>)
    ensures
        setup_plan(
            home@,
            terminal.name@,
            terminal.exec_flag@,
            binary@,
            project_root@,
            cfg.address@,
            cfg.port,
            cfg.log_level.spec_lower_name(),
            res@,
        ),
{
    let paths = autostart_paths(home);
    let mut steps: Vec<SetupStep> = Vec::new();
    steps.push(SetupStep::CreateDir(paths.bin_dir.clone()));
    steps.push(SetupStep::CreateDir(paths.autostart_dir.clone()));
    let server = server_script_content(
        project_root,
        binary,
        cfg.address.as_str(),
        cfg.port,
        cfg.log_level.lower_name(),
    );
    steps.push(SetupStep::WriteFile { path: paths.server_script.clone(), content: server });
    steps.push(
        SetupStep::WriteFile { path: paths.vpn_script.clone(), content: vpn_script_content() },
    );
    steps.push(SetupStep::MakeExecutable(paths.server_script.clone()));
    steps.push(SetupStep::MakeExecutable(paths.vpn_script.clone()));
    let server_entry = desktop_file_content(
        "Haven VPN Server",
        terminal.name.as_str(),
        terminal.exec_flag.as_str(),
        paths.server_script.as_str(),
    );
    steps.push(
        SetupStep::WriteFile { path: paths.server_desktop.clone(), content: server_entry },
    );
    let vpn_entry = desktop_file_content(
        "Haven VPN Connect",
        terminal.name.as_str(),
        terminal.exec_flag.as_str(),
        paths.vpn_script.as_str(),
    );
    steps.push(SetupStep::WriteFile { path: paths.vpn_desktop.clone(), content: vpn_entry });
    steps.push(SetupStep::Report(owned("Autostart configured:")));
    steps.push(SetupStep::Report(joined("  ", paths.server_script.as_str())));
    steps.push(SetupStep::Report(joined("  ", paths.vpn_script.as_str())));
    steps.push(SetupStep::Report(joined("  ", paths.server_desktop.as_str())));
    steps.push(SetupStep::Report(joined("  ", paths.vpn_desktop.as_str())));
    steps
}

/// The steps of the setup once a terminal was looked for: without one, the
/// setup fails with a hint to install `xterm`.
pub fn setup_for(
    home: &str,
    terminal: Option<Terminal>,
    binary: &str,
    project_root: &str,
    cfg: &ServerConfig,
) -> (res: Result<Vec<SetupStep>, String>)
    ensures
        match terminal {
            None => res matches Err(e) && e@
                == "No terminal emulator found. Install one with: sudo apt install xterm"@,
            Some(t) => res matches Ok(steps) && setup_plan(
                home@,
                t.name@,
                t.exec_flag@,
                binary@,
                project_root@,
                cfg.address@,
                cfg.port,
                cfg.log_level.spec_lower_name(),
                steps@,
            ),
        },
{
    match terminal {
        None => Err(owned("No terminal emulator found. Install one with: sudo apt install xterm")),
        Some(t) => Ok(setup(home, &t, binary, project_root, cfg)),
    }
}

/// The error text when a step fails with the I/O error `error`.
pub open spec fn step_error_text(step: SetupStep, error: Seq<char>) -> Seq<char> {
    match step {
        SetupStep::CreateDir(d) => "Cannot create "@ + d@ + ": "@ + error,
        SetupStep::WriteFile { path, .. } => "Cannot write "@ + path@ + ": "@ + error,
        SetupStep::MakeExecutable(p) => "Cannot chmod "@ + p@ + ": "@ + error,
        SetupStep::Report(_) => error,
    }
}

pub fn step_error(step: &SetupStep, error: &str) -> (res: String)
    ensures
        res@ == step_error_text(*step, error@),
{
    let mut out: Vec<char> = Vec::new();
    match step {
        SetupStep::CreateDir(d) => {
            append_str(&mut out, "Cannot create ");
            append_str(&mut out, d.as_str());
            append_str(&mut out, ": ");
        },
        SetupStep::WriteFile { path, .. } => {
            append_str(&mut out, "Cannot write ");
            append_str(&mut out, path.as_str());
            append_str(&mut out, ": ");
        },
        SetupStep::MakeExecutable(p) => {
            append_str(&mut out, "Cannot chmod ");
            append_str(&mut out, p.as_str());
            append_str(&mut out, ": ");
        },
        SetupStep::Report(_) => {},
    }
    append_str(&mut out, error);
    string_of(out.as_slice())
}

} // verus!
