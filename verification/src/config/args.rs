//! The server's command line: bind address, port, log level, autostart
//! action, and the help and version requests.
use vstd::prelude::*;

use crate::logger::LogLevel;
use crate::text::{
    chars_of, contains, equals_str, find, find_in, is_ws, lemma_find_is, lemma_trim_end_at,
    lemma_trim_start_at, occurs_at, owned, parse_unsigned, parse_unsigned_chars, slice_chars,
    starts_with, string_of, string_views, trim, trim_chars, trim_end, trim_start,
};
use crate::utils::args_reader::{is_ipv4, is_valid_ipv4};

verus! {

/// What to do with the XDG autostart entries.
#[derive(Debug, Clone, Copy, PartialEq, Eq, Structural)]
pub enum AutostartAction {
    Setup,
    Remove,
}

/// A request to print something and exit instead of serving.
#[derive(Debug, Clone, Copy, PartialEq, Eq, Structural)]
pub enum EarlyExit {
    /// `--help`: print the usage text.
    Help,
    /// `--version`: print the program's name and version.
    Version,
}

/// The server's settings.
#[derive(Debug, Clone)]
pub struct ServerConfig {
    pub address: String,
    pub port: u16,
    pub log_level: LogLevel,
    pub autostart_action: Option<AutostartAction>,
    /// Whether a valid address was given on the command line.
    pub address_specified: bool,
    /// Set when the command line asked for help or the version; the
    /// arguments after that request are not read.
    pub early_exit: Option<EarlyExit>,
}

/// The settings as plain values.
pub struct ConfigView {
    pub address: Seq<char>,
    pub port: u16,
    pub log_level: LogLevel,
    pub autostart_action: Option<AutostartAction>,
    pub address_specified: bool,
    pub early_exit: Option<EarlyExit>,
}

impl View for ServerConfig {
    type V = ConfigView;

    open spec fn view(&self) -> ConfigView {
        ConfigView {
            address: self.address@,
            port: self.port,
            log_level: self.log_level,
            autostart_action: self.autostart_action,
            address_specified: self.address_specified,
            early_exit: self.early_exit,
        }
    }
}

/// The defaults: `127.0.0.1:9000`, level `Info`, no autostart action.
pub open spec fn default_config() -> ConfigView {
    ConfigView {
        address: "127.0.0.1"@,
        port: 9000,
        log_level: LogLevel::Info,
        autostart_action: None,
        address_specified: false,
        early_exit: None,
    }
}

impl Default for ServerConfig {
    fn default() -> (res: Self)
        ensures
            res@ == default_config(),
    {
        ServerConfig {
            address: owned("127.0.0.1"),
            port: 9000,
            log_level: LogLevel::Info,
            autostart_action: None,
            address_specified: false,
            early_exit: None,
        }
    }
}

/// Sets the option that `key` names (long or short form) from `value`; an
/// invalid value leaves the setting as it was.
pub open spec fn apply_option(c: ConfigView, key: Seq<char>, value: Seq<char>) -> ConfigView {
    if key == "--address"@ || key == "-a"@ {
        if is_ipv4(value) {
            ConfigView { address: value, address_specified: true, ..c }
        } else {
            c
        }
    } else if key == "--port"@ || key == "-p"@ {
        match parse_unsigned(value, 65535) {
            Some(p) => if p > 0 {
                ConfigView { port: p as u16, ..c }
            } else {
                c
            },
            None => c,
        }
    } else if key == "--log-level"@ || key == "-l"@ {
        match LogLevel::spec_from_str(value) {
            Some(level) => ConfigView { log_level: level, ..c },
            None => c,
        }
    } else {
        c
    }
}

/// The settings after reading `args` in order, starting from `c`:
/// `key=value` sets an option, `-a`/`-p`/`-l` and their long forms take the
/// next argument as value, `-A`/`-R` choose the autostart action, `-h` and
/// `-V` stop the reading, anything else is skipped.
pub open spec fn read_options(c: ConfigView, args: Seq<Seq<char>>) -> ConfigView
    decreases args.len(),
{
    if args.len() == 0 {
        c
    } else {
        let arg = args[0];
        let rest = args.drop_first();
        match find(arg, seq!['=']) {
            Some(i) => read_options(
                apply_option(c, trim(arg.take(i)), trim(arg.skip(i + 1))),
                rest,
            ),
            None => if arg == "-A"@ || arg == "--setup-autostart"@ {
                read_options(ConfigView { autostart_action: Some(AutostartAction::Setup), ..c }, rest)
            } else if arg == "-R"@ || arg == "--remove-autostart"@ {
                read_options(
                    ConfigView { autostart_action: Some(AutostartAction::Remove), ..c },
                    rest,
                )
            } else if arg == "--address"@ || arg == "-a"@ || arg == "--port"@ || arg == "-p"@
                || arg == "--log-level"@ || arg == "-l"@ {
                if rest.len() > 0 {
                    read_options(apply_option(c, arg, trim(rest[0])), rest.drop_first())
                } else {
                    c
                }
            } else if arg == "--help"@ || arg == "-h"@ {
                ConfigView { early_exit: Some(EarlyExit::Help), ..c }
            } else if arg == "--version"@ || arg == "-V"@ {
                ConfigView { early_exit: Some(EarlyExit::Version), ..c }
            } else {
                read_options(c, rest)
            },
        }
    }
}

/// The arguments that are options: the first one is the program's name
/// unless it starts with `-`.
pub open spec fn option_args(args: Seq<Seq<char>>) -> Seq<Seq<char>> {
    if args.len() > 0 && !starts_with(args[0], "-"@) {
        args.drop_first()
    } else {
        args
    }
}

/// The settings that a command line gives.
pub open spec fn parsed_config(args: Seq<Seq<char>>) -> ConfigView {
    read_options(default_config(), option_args(args))
}

/// The options that take a value, in their long and short forms.
pub open spec fn is_value_option(key: Seq<char>) -> bool {
    key == "--address"@ || key == "-a"@ || key == "--port"@ || key == "-p"@ || key
        == "--log-level"@ || key == "-l"@
}

proof fn lemma_no_equals_sign(s: Seq<char>)
    requires
        forall|j: int| 0 <= j < s.len() ==> s[j] != '=',
    ensures
        find(s, seq!['=']) is None,
{
    reveal(find);
    if contains(s, seq!['=']) {
        let i = choose|i: int| occurs_at(s, seq!['='], i);
        assert(s.subrange(i, i + 1)[0] == s[i]);
    }
}

/// The two spellings of an option read alike: `key=value` as one argument
/// does what `key` followed by `value` does, whatever comes before or after.
pub proof fn law_option_spellings_agree(
    c: ConfigView,
    key: Seq<char>,
    value: Seq<char>,
    rest: Seq<Seq<char>>,
)
    requires
        is_value_option(key),
    ensures
        read_options(c, seq![key + seq!['='] + value] + rest) == read_options(
            c,
            seq![key, value] + rest,
        ),
{
    reveal_strlit("--address");
    reveal_strlit("-a");
    reveal_strlit("--port");
    reveal_strlit("-p");
    reveal_strlit("--log-level");
    reveal_strlit("-l");
    reveal_strlit("-A");
    reveal_strlit("--setup-autostart");
    reveal_strlit("-R");
    reveal_strlit("--remove-autostart");
    reveal_strlit("--help");
    reveal_strlit("-h");
    reveal_strlit("--version");
    reveal_strlit("-V");
    let n = key.len() as int;
    assert(n >= 2 && key[0] == '-' && key[n - 1] != '-');
    assert forall|j: int| 0 <= j < n implies key[j] != '=' && !is_ws(key[j]) by {}
    let a = key + seq!['='] + value;
    assert(a.subrange(n, n + 1) =~= seq!['=']);
    assert forall|j: int| 0 <= j < n implies !occurs_at(a, seq!['='], j) by {
        assert(a.subrange(j, j + 1)[0] == key[j]);
    }
    lemma_find_is(a, seq!['='], n);
    assert(a.take(n) =~= key);
    assert(a.skip(n + 1) =~= value);
    lemma_trim_start_at(key, 0);
    assert(key.skip(0) =~= key);
    lemma_trim_end_at(key, n);
    assert(key.take(n) =~= key);
    assert(trim(key) == key);
    lemma_no_equals_sign(key);
    let left = seq![a] + rest;
    let right = seq![key, value] + rest;
    assert(left[0] == a);
    assert(left.drop_first() =~= rest);
    assert(right[0] == key);
    assert(right.drop_first()[0] == value);
    assert(right.drop_first().drop_first() =~= rest);
    assert(key != "-A"@ && key != "--setup-autostart"@ && key != "-R"@ && key
        != "--remove-autostart"@) by {
        if key == "-a"@ || key == "-p"@ || key == "-l"@ {
            assert(key[1] != "-A"@[1] && key[1] != "-R"@[1]);
        }
    }
}

/// Sets the option that `key` names from `value`, when the value is valid.
fn apply_arg(config: &mut ServerConfig, key: &[char], value: &[char])
    ensures
        final(config)@ == apply_option(old(config)@, key@, value@),
{
    if equals_str(key, "--address") || equals_str(key, "-a") {
        if is_valid_ipv4(value) {
            config.address = string_of(value);
            config.address_specified = true;
        }
    } else if equals_str(key, "--port") || equals_str(key, "-p") {
        match parse_unsigned_chars(value, 65535) {
            Some(p) => {
                if p > 0 {
                    config.port = p as u16;
                }
            },
            None => {},
        }
    } else if equals_str(key, "--log-level") || equals_str(key, "-l") {
        let text = string_of(value);
        match LogLevel::from_str(text.as_str()) {
            Some(level) => {
                config.log_level = level;
            },
            None => {},
        }
    }
}

/// Reads the settings from a command line whose first argument is the
/// program's name (it is kept when it starts with `-`).
pub fn parse_args(args: Vec<String>) -> (res: ServerConfig)
    ensures
        res@ == parsed_config(string_views(args@)),
{
    let ghost all = string_views(args@);
    let mut config = ServerConfig::default();
    let mut i: usize = 0;
    if args.len() > 0 {
        let first = chars_of(args[0].as_str());
        assert(first@ == all[0]);
        if !(first.len() > 0 && first[0] == '-') {
            proof {
                reveal_strlit("-");
                if first@.len() > 0 {
                    assert(first@.subrange(0, 1)[0] != "-"@[0]);
                }
                assert(!starts_with(all[0], "-"@));
                assert(all.skip(1) =~= all.drop_first());
            }
            i = 1;
        } else {
            proof {
                reveal_strlit("-");
                assert(first@.subrange(0, 1) =~= "-"@);
            }
        }
    }
    assert(all.skip(i as int) =~= option_args(all));
    while i < args.len()
        invariant
            i <= args@.len(),
            all == string_views(args@),
            config@.early_exit is None,
            read_options(config@, all.skip(i as int)) == parsed_config(all),
        decreases args@.len() - i,
    {
        let arg = chars_of(args[i].as_str());
        let ghost rest = all.skip(i as int);
        assert(rest[0] == arg@);
        assert(rest.drop_first() =~= all.skip(i + 1));
        let eq_sign: Vec<char> = vec!['='];
        assert(eq_sign@ =~= seq!['=']);
        match find_in(arg.as_slice(), eq_sign.as_slice()) {
            Some(eq) => {
                let n: usize = arg.len();
                assert(eq < n);
                let key = trim_chars(slice_chars(arg.as_slice(), 0, eq).as_slice());
                let value = trim_chars(slice_chars(arg.as_slice(), eq + 1, arg.len()).as_slice());
                assert(arg@.subrange(0, eq as int) =~= arg@.take(eq as int));
                assert(arg@.subrange(eq + 1, arg@.len() as int) =~= arg@.skip(eq + 1));
                apply_arg(&mut config, key.as_slice(), value.as_slice());
                i = i + 1;
            },
            None => {
                let a = arg.as_slice();
                if equals_str(a, "-A") || equals_str(a, "--setup-autostart") {
                    config.autostart_action = Some(AutostartAction::Setup);
                    i = i + 1;
                } else if equals_str(a, "-R") || equals_str(a, "--remove-autostart") {
                    config.autostart_action = Some(AutostartAction::Remove);
                    i = i + 1;
                } else if equals_str(a, "--address") || equals_str(a, "-a") || equals_str(
                    a,
                    "--port",
                ) || equals_str(a, "-p") || equals_str(a, "--log-level") || equals_str(a, "-l") {
                    if i + 1 < args.len() {
                        let next = chars_of(args[i + 1].as_str());
                        assert(rest[1] == next@);
                        assert(rest.drop_first()[0] == next@);
                        assert(rest.drop_first().drop_first() =~= all.skip(i + 2));
                        let value = trim_chars(next.as_slice());
                        apply_arg(&mut config, a, value.as_slice());
                        i = i + 2;
                    } else {
                        assert(rest.drop_first().len() == 0);
                        return config;
                    }
                } else if equals_str(a, "--help") || equals_str(a, "-h") {
                    config.early_exit = Some(EarlyExit::Help);
                    return config;
                } else if equals_str(a, "--version") || equals_str(a, "-V") {
                    config.early_exit = Some(EarlyExit::Version);
                    return config;
                } else {
                    i = i + 1;
                }
            },
        }
    }
    config
}

} // verus!
