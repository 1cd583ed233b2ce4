//! The command line: its definition as a table of plain values, which clap
//! parses with, and the reading of the values clap matched into [`Args`].
use vstd::prelude::*;
use vstd::string::{StringExecFns, StringSliceAdditionalSpecFns};
use vstd::utf8::encode_utf8;
use std::path::PathBuf;
use crate::args::Args;
use crate::clap_calls::{
    matched_contents, matched_flag, matched_path, matched_port, matched_text, matches_from,
    MatchedValue,
};
use crate::decimal::{decimal, lemma_parse_decimal_roundtrip, parse_u64_spec};
use crate::duration::{
    lemma_duration_roundtrip, parse_duration, read_duration, DurationReading, DAYS_UNIT,
    HOURS_UNIT, MINUTES_UNIT, NUMBER_ERROR, SECONDS_UNIT, SUFFIX_ERROR, TOO_LARGE_ERROR,
    ZERO_ERROR,
};

verus! {

/// The name the command goes by in usage and help texts.
pub const PROGRAM_NAME: &'static str = "remote-luks-unlocker";

/// The version that `--version` reports.
pub const PROGRAM_VERSION: &'static str = "0.1.0";

pub const DEFAULT_PORT: u16 = 22;

pub const DEFAULT_FAILURE_INTERVAL: u64 = 1;

pub const DEFAULT_SUCCESS_INTERVAL: u64 = 60;

pub const DEFAULT_ATTEMPT_TIMEOUT: u64 = 30;

pub const DEFAULT_CONNECT_TIMEOUT: u64 = 2;

pub const DEFAULT_COMMAND: &'static str = "unlock-luks unlock";

/// The exit code of a command line that is refused (clap's usage code).
pub const USAGE_EXIT_CODE: i32 = 2;

pub const HOST_OPTION: &'static str = "--host <HOST>";

pub const USER_OPTION: &'static str = "--user <USER>";

pub const LUKS_PASSWORD_OPTION: &'static str = "--luks-password <LUKS_PASSWORD>";

pub const IDENTITY_FILE_OPTION: &'static str = "--identity-file <IDENTITY_FILE>";

pub const FAILURE_INTERVAL_OPTION: &'static str = "--failure-interval <FAILURE_INTERVAL>";

pub const SUCCESS_INTERVAL_OPTION: &'static str = "--success-interval <SUCCESS_INTERVAL>";

pub const MAX_RUNTIME_OPTION: &'static str = "--max-runtime <MAX_RUNTIME>";

pub const ATTEMPT_TIMEOUT_OPTION: &'static str = "--attempt-timeout <ATTEMPT_TIMEOUT>";

pub const CONNECT_TIMEOUT_OPTION: &'static str = "--connect-timeout <CONNECT_TIMEOUT>";

// ---------------------------------------------------------------------------
// The definition
// ---------------------------------------------------------------------------
/// How an option's value is read: as text, as a port number (0 to 65535), as
/// a path (any bytes), as a duration (text that [`check_duration`] accepts),
/// or as a flag that takes no value.
#[derive(Clone, Copy, Debug, PartialEq, Eq, Structural)]
pub enum ValueKind {
    Text,
    Port,
    Path,
    Duration,
    Flag,
}

/// One option of the command line: its id (the key its value is found
/// under), its long name (given as `--long`), its short name, the name of its
/// value in help and error texts, the environment variable that may give its
/// value, its default, whether it must have a value, whether help hides the
/// value found in the environment, its help text and how its value is read.
#[derive(Clone, Copy, Debug)]
pub struct OptionSpec {
    pub id: &'static str,
    pub long: &'static str,
    pub short: Option<char>,
    pub value_name: Option<&'static str>,
    pub env: &'static str,
    pub default: Option<&'static str>,
    pub required: bool,
    pub hide_env_values: bool,
    pub help: &'static str,
    pub kind: ValueKind,
}

/// A whole command line: the program's name, its version, what it does, and
/// its options in the order help lists them.
#[derive(Debug)]
pub struct CliSpec {
    pub name: &'static str,
    pub version: &'static str,
    pub about: &'static str,
    pub options: Vec<OptionSpec>,
}

/// What `--help` says the program does.
pub const PROGRAM_ABOUT: &'static str = "Poll an SSH endpoint and run a LUKS unlock command";

/// The `--host` option.
pub open spec fn host_row() -> OptionSpec {
    OptionSpec {
        id: "host",
        long: "host",
        short: None,
        value_name: Some("HOST"),
        env: "REMOTE_LUKS_HOST",
        default: None,
        required: true,
        hide_env_values: false,
        help: "Hostname or IP address of the machine running Dropbear/OpenSSH",
        kind: ValueKind::Text,
    }
}

/// The `--port` option.
pub open spec fn port_row() -> OptionSpec {
    OptionSpec {
        id: "port",
        long: "port",
        short: Some('p'),
        value_name: Some("PORT"),
        env: "REMOTE_LUKS_PORT",
        default: Some("22"),
        required: false,
        hide_env_values: false,
        help: "SSH port",
        kind: ValueKind::Port,
    }
}

/// The `--user` option.
pub open spec fn user_row() -> OptionSpec {
    OptionSpec {
        id: "user",
        long: "user",
        short: Some('l'),
        value_name: Some("USER"),
        env: "REMOTE_LUKS_USER",
        default: None,
        required: true,
        hide_env_values: false,
        help: "SSH username",
        kind: ValueKind::Text,
    }
}

/// The `--luks-password` option.
pub open spec fn luks_password_row() -> OptionSpec {
    OptionSpec {
        id: "luks_password",
        long: "luks-password",
        short: None,
        value_name: Some("LUKS_PASSWORD"),
        env: "REMOTE_LUKS_LUKS_PASSWORD",
        default: None,
        required: true,
        hide_env_values: true,
        help: "Passphrase sent to the remote unlock command",
        kind: ValueKind::Text,
    }
}

/// The `--identity-file` option.
pub open spec fn identity_file_row() -> OptionSpec {
    OptionSpec {
        id: "identity_file",
        long: "identity-file",
        short: Some('i'),
        value_name: Some("IDENTITY_FILE"),
        env: "REMOTE_LUKS_IDENTITY_FILE",
        default: None,
        required: true,
        hide_env_values: false,
        help: "Required private SSH identity file whose public key is authorized on the server",
        kind: ValueKind::Path,
    }
}

/// The `--known-hosts` option.
pub open spec fn known_hosts_row() -> OptionSpec {
    OptionSpec {
        id: "known_hosts",
        long: "known-hosts",
        short: None,
        value_name: Some("KNOWN_HOSTS"),
        env: "REMOTE_LUKS_KNOWN_HOSTS",
        default: None,
        required: false,
        hide_env_values: false,
        help: "Optional `known_hosts` file used to verify the remote host key. When omitted, OpenSSH uses its normal known-hosts files",
        kind: ValueKind::Path,
    }
}

/// The `--failure-interval` option.
pub open spec fn failure_interval_row() -> OptionSpec {
    OptionSpec {
        id: "failure_interval",
        long: "failure-interval",
        short: None,
        value_name: Some("FAILURE_INTERVAL"),
        env: "REMOTE_LUKS_FAILURE_INTERVAL",
        default: Some("1s"),
        required: false,
        hide_env_values: false,
        help: "Delay after a failed SSH attempt before retrying, such as `1s` or `1m`",
        kind: ValueKind::Duration,
    }
}

/// The `--success-interval` option.
pub open spec fn success_interval_row() -> OptionSpec {
    OptionSpec {
        id: "success_interval",
        long: "success-interval",
        short: None,
        value_name: Some("SUCCESS_INTERVAL"),
        env: "REMOTE_LUKS_SUCCESS_INTERVAL",
        default: Some("1m"),
        required: false,
        hide_env_values: false,
        help: "Delay between successful remote command runs in continuous mode",
        kind: ValueKind::Duration,
    }
}

/// The `--once` option.
pub open spec fn once_row() -> OptionSpec {
    OptionSpec {
        id: "once",
        long: "once",
        short: None,
        value_name: None,
        env: "REMOTE_LUKS_ONCE",
        default: Some("false"),
        required: false,
        hide_env_values: false,
        help: "Retry until the first successful unlock, then exit",
        kind: ValueKind::Flag,
    }
}

/// The `--max-runtime` option.
pub open spec fn max_runtime_row() -> OptionSpec {
    OptionSpec {
        id: "max_runtime",
        long: "max-runtime",
        short: None,
        value_name: Some("MAX_RUNTIME"),
        env: "REMOTE_LUKS_MAX_RUNTIME",
        default: None,
        required: false,
        hide_env_values: false,
        help: "Maximum total runtime before exiting with an error, such as `10m`",
        kind: ValueKind::Duration,
    }
}

/// The `--attempt-timeout` option.
pub open spec fn attempt_timeout_row() -> OptionSpec {
    OptionSpec {
        id: "attempt_timeout",
        long: "attempt-timeout",
        short: None,
        value_name: Some("ATTEMPT_TIMEOUT"),
        env: "REMOTE_LUKS_ATTEMPT_TIMEOUT",
        default: Some("30s"),
        required: false,
        hide_env_values: false,
        help: "Maximum time allowed for one SSH connection and command attempt, such as `30s` or `1m`",
        kind: ValueKind::Duration,
    }
}

/// The `--connect-timeout` option.
pub open spec fn connect_timeout_row() -> OptionSpec {
    OptionSpec {
        id: "connect_timeout",
        long: "connect-timeout",
        short: None,
        value_name: Some("CONNECT_TIMEOUT"),
        env: "REMOTE_LUKS_CONNECT_TIMEOUT",
        default: Some("2s"),
        required: false,
        hide_env_values: false,
        help: "Maximum time OpenSSH may spend establishing one connection, such as `2s` or `10s`",
        kind: ValueKind::Duration,
    }
}

/// The `--command` option.
pub open spec fn command_row() -> OptionSpec {
    OptionSpec {
        id: "command",
        long: "command",
        short: None,
        value_name: Some("COMMAND"),
        env: "REMOTE_LUKS_COMMAND",
        default: Some("unlock-luks unlock"),
        required: false,
        hide_env_values: false,
        help: "Remote command to run after authentication",
        kind: ValueKind::Text,
    }
}

/// The options, in the order help lists them.
pub open spec fn cli_rows() -> Seq<OptionSpec> {
    seq![
        host_row(),
        port_row(),
        user_row(),
        luks_password_row(),
        identity_file_row(),
        known_hosts_row(),
        failure_interval_row(),
        success_interval_row(),
        once_row(),
        max_runtime_row(),
        attempt_timeout_row(),
        connect_timeout_row(),
        command_row(),
    ]
}

/// Names clap gives the `--help` and `--version` options it adds itself.
pub open spec fn reserved_name(name: Seq<char>) -> bool {
    name == "help"@ || name == "version"@
}

/// An option clap can take: a long name that is not empty and does not
/// start with `-`, no id or long name that clap's own options use, and a
/// short name, if any, other than `-`, `h` and `V`.
pub open spec fn option_wf(o: OptionSpec) -> bool {
    &&& o.long@.len() > 0
    &&& o.long@[0] != '-'
    &&& !reserved_name(o.id@)
    &&& !reserved_name(o.long@)
    &&& o.short != Some('-')
    &&& o.short != Some('h')
    &&& o.short != Some('V')
}

/// A definition clap can take: every option can be taken, and no two options
/// share an id, a long name or a short name.
pub open spec fn cli_wf(spec: CliSpec) -> bool {
    let rows = spec.options@;
    &&& forall|i: int| 0 <= i < rows.len() ==> option_wf(#[trigger] rows[i])
    &&& forall|i: int, j: int|
        #![trigger rows[i], rows[j]]
        0 <= i < j < rows.len() ==> {
            &&& rows[i].id@ != rows[j].id@
            &&& rows[i].long@ != rows[j].long@
            &&& (rows[i].short is Some ==> rows[i].short != rows[j].short)
        }
}

/// The definition of this program's command line.
pub fn cli_spec() -> (r: CliSpec)
    ensures
        r.name@ == PROGRAM_NAME@,
        r.version@ == PROGRAM_VERSION@,
        r.about@ == PROGRAM_ABOUT@,
        r.options@ == cli_rows(),
{
    let options = vec![
        OptionSpec {
            id: "host",
            long: "host",
            short: None,
            value_name: Some("HOST"),
            env: "REMOTE_LUKS_HOST",
            default: None,
            required: true,
            hide_env_values: false,
            help: "Hostname or IP address of the machine running Dropbear/OpenSSH",
            kind: ValueKind::Text,
        },
        OptionSpec {
            id: "port",
            long: "port",
            short: Some('p'),
            value_name: Some("PORT"),
            env: "REMOTE_LUKS_PORT",
            default: Some("22"),
            required: false,
            hide_env_values: false,
            help: "SSH port",
            kind: ValueKind::Port,
        },
        OptionSpec {
            id: "user",
            long: "user",
            short: Some('l'),
            value_name: Some("USER"),
            env: "REMOTE_LUKS_USER",
            default: None,
            required: true,
            hide_env_values: false,
            help: "SSH username",
            kind: ValueKind::Text,
        },
        OptionSpec {
            id: "luks_password",
            long: "luks-password",
            short: None,
            value_name: Some("LUKS_PASSWORD"),
            env: "REMOTE_LUKS_LUKS_PASSWORD",
            default: None,
            required: true,
            hide_env_values: true,
            help: "Passphrase sent to the remote unlock command",
            kind: ValueKind::Text,
        },
        OptionSpec {
            id: "identity_file",
            long: "identity-file",
            short: Some('i'),
            value_name: Some("IDENTITY_FILE"),
            env: "REMOTE_LUKS_IDENTITY_FILE",
            default: None,
            required: true,
            hide_env_values: false,
            help: "Required private SSH identity file whose public key is authorized on the server",
            kind: ValueKind::Path,
        },
        OptionSpec {
            id: "known_hosts",
            long: "known-hosts",
            short: None,
            value_name: Some("KNOWN_HOSTS"),
            env: "REMOTE_LUKS_KNOWN_HOSTS",
            default: None,
            required: false,
            hide_env_values: false,
            help: "Optional `known_hosts` file used to verify the remote host key. When omitted, OpenSSH uses its normal known-hosts files",
            kind: ValueKind::Path,
        },
        OptionSpec {
            id: "failure_interval",
            long: "failure-interval",
            short: None,
            value_name: Some("FAILURE_INTERVAL"),
            env: "REMOTE_LUKS_FAILURE_INTERVAL",
            default: Some("1s"),
            required: false,
            hide_env_values: false,
            help: "Delay after a failed SSH attempt before retrying, such as `1s` or `1m`",
            kind: ValueKind::Duration,
        },
        OptionSpec {
            id: "success_interval",
            long: "success-interval",
            short: None,
            value_name: Some("SUCCESS_INTERVAL"),
            env: "REMOTE_LUKS_SUCCESS_INTERVAL",
            default: Some("1m"),
            required: false,
            hide_env_values: false,
            help: "Delay between successful remote command runs in continuous mode",
            kind: ValueKind::Duration,
        },
        OptionSpec {
            id: "once",
            long: "once",
            short: None,
            value_name: None,
            env: "REMOTE_LUKS_ONCE",
            default: Some("false"),
            required: false,
            hide_env_values: false,
            help: "Retry until the first successful unlock, then exit",
            kind: ValueKind::Flag,
        },
        OptionSpec {
            id: "max_runtime",
            long: "max-runtime",
            short: None,
            value_name: Some("MAX_RUNTIME"),
            env: "REMOTE_LUKS_MAX_RUNTIME",
            default: None,
            required: false,
            hide_env_values: false,
            help: "Maximum total runtime before exiting with an error, such as `10m`",
            kind: ValueKind::Duration,
        },
        OptionSpec {
            id: "attempt_timeout",
            long: "attempt-timeout",
            short: None,
            value_name: Some("ATTEMPT_TIMEOUT"),
            env: "REMOTE_LUKS_ATTEMPT_TIMEOUT",
            default: Some("30s"),
            required: false,
            hide_env_values: false,
            help: "Maximum time allowed for one SSH connection and command attempt, such as `30s` or `1m`",
            kind: ValueKind::Duration,
        },
        OptionSpec {
            id: "connect_timeout",
            long: "connect-timeout",
            short: None,
            value_name: Some("CONNECT_TIMEOUT"),
            env: "REMOTE_LUKS_CONNECT_TIMEOUT",
            default: Some("2s"),
            required: false,
            hide_env_values: false,
            help: "Maximum time OpenSSH may spend establishing one connection, such as `2s` or `10s`",
            kind: ValueKind::Duration,
        },
        OptionSpec {
            id: "command",
            long: "command",
            short: None,
            value_name: Some("COMMAND"),
            env: "REMOTE_LUKS_COMMAND",
            default: Some("unlock-luks unlock"),
            required: false,
            hide_env_values: false,
            help: "Remote command to run after authentication",
            kind: ValueKind::Text,
        },
    ];
    CliSpec { name: PROGRAM_NAME, version: PROGRAM_VERSION, about: PROGRAM_ABOUT, options }
}

/// ASCII text is encoded one byte per character, each byte the character's
/// code.
proof fn lemma_ascii_bytes(chars: Seq<char>)
    requires
        forall|i: int| 0 <= i < chars.len() ==> (#[trigger] chars[i] as u32) < 128,
    ensures
        encode_utf8(chars) =~= chars.map_values(|c: char| (c as u32) as u8),
    decreases chars.len(),
{
    if chars.len() > 0 {
        let v = chars[0] as u32;
        assert(v & 0x7F == v) by (bit_vector)
            requires
                v < 128,
        ;
        let rest = chars.drop_first();
        assert forall|i: int| 0 <= i < rest.len() implies (#[trigger] rest[i] as u32) < 128 by {
            assert(rest[i] == chars[i + 1]);
        }
        lemma_ascii_bytes(rest);
        assert(chars.map_values(|c: char| (c as u32) as u8) =~= seq![v as u8] + rest.map_values(
            |c: char| (c as u32) as u8,
        ));
    }
}

/// The default text of each duration option reads as the seconds
/// [`Args::from_values`] takes when that option has no value: `1s`, `1m`,
/// `30s` and `2s`.
pub proof fn lemma_duration_defaults()
    ensures
        read_duration(encode_utf8(failure_interval_row().default->0@)) == DurationReading::Seconds(
            DEFAULT_FAILURE_INTERVAL,
        ),
        read_duration(encode_utf8(success_interval_row().default->0@)) == DurationReading::Seconds(
            DEFAULT_SUCCESS_INTERVAL,
        ),
        read_duration(encode_utf8(attempt_timeout_row().default->0@)) == DurationReading::Seconds(
            DEFAULT_ATTEMPT_TIMEOUT,
        ),
        read_duration(encode_utf8(connect_timeout_row().default->0@)) == DurationReading::Seconds(
            DEFAULT_CONNECT_TIMEOUT,
        ),
{
    reveal_strlit("1s");
    reveal_strlit("1m");
    reveal_strlit("30s");
    reveal_strlit("2s");
    reveal_with_fuel(decimal, 3);
    lemma_ascii_bytes("1s"@);
    lemma_ascii_bytes("1m"@);
    lemma_ascii_bytes("30s"@);
    lemma_ascii_bytes("2s"@);
    assert(encode_utf8("1s"@) =~= decimal(1).push(SECONDS_UNIT));
    assert(encode_utf8("1m"@) =~= decimal(1).push(MINUTES_UNIT));
    assert(encode_utf8("30s"@) =~= decimal(30).push(SECONDS_UNIT));
    assert(encode_utf8("2s"@) =~= decimal(2).push(SECONDS_UNIT));
    lemma_duration_roundtrip(1, SECONDS_UNIT, 1);
    assert(seq![MINUTES_UNIT][0] != seq![SECONDS_UNIT][0]);
    lemma_duration_roundtrip(1, MINUTES_UNIT, 60);
    lemma_duration_roundtrip(30, SECONDS_UNIT, 1);
    lemma_duration_roundtrip(2, SECONDS_UNIT, 1);
}

/// The port defaults to 22, the command to `unlock-luks unlock` and
/// `--once` to off; the host, user, passphrase and identity file have no
/// default and are required, and no other option is.
pub proof fn lemma_other_defaults()
    ensures
        port_row().default matches Some(d) && parse_u64_spec(encode_utf8(d@)) == Some(22u64),
        command_row().default == Some("unlock-luks unlock"),
        once_row().default == Some("false"),
        forall|i: int|
            0 <= i < cli_rows().len() ==> (#[trigger] cli_rows()[i].required <==> (i == 0 || i == 2
                || i == 3 || i == 4)),
        forall|i: int|
            0 <= i < cli_rows().len() && #[trigger] cli_rows()[i].required ==> cli_rows()[i].default
                is None,
        host_row().required && user_row().required && luks_password_row().required
            && identity_file_row().required,
{
    reveal_strlit("22");
    lemma_ascii_bytes("22"@);
    assert(encode_utf8("22"@) =~= seq![50u8, 50u8]);
    lemma_parse_decimal_roundtrip(22);
    reveal_with_fuel(decimal, 3);
    assert(decimal(22) =~= seq![50u8, 50u8]);
}

/// Two names differ when their lengths, or their first or second
/// characters, differ.
proof fn lemma_names_differ(a: Seq<char>, b: Seq<char>)
    requires
        a.len() >= 2,
        b.len() >= 2,
    ensures
        (a.len() != b.len() || a[0] != b[0] || a[1] != b[1]) ==> a != b,
{
}

/// This program's definition is one clap can take.
pub proof fn lemma_cli_spec_wf(spec: CliSpec)
    requires
        spec.options@ == cli_rows(),
    ensures
        cli_wf(spec),
{
    reveal_strlit("host");
    reveal_strlit("port");
    reveal_strlit("user");
    reveal_strlit("luks_password");
    reveal_strlit("identity_file");
    reveal_strlit("known_hosts");
    reveal_strlit("failure_interval");
    reveal_strlit("success_interval");
    reveal_strlit("once");
    reveal_strlit("max_runtime");
    reveal_strlit("attempt_timeout");
    reveal_strlit("connect_timeout");
    reveal_strlit("command");
    reveal_strlit("luks-password");
    reveal_strlit("identity-file");
    reveal_strlit("known-hosts");
    reveal_strlit("failure-interval");
    reveal_strlit("success-interval");
    reveal_strlit("max-runtime");
    reveal_strlit("attempt-timeout");
    reveal_strlit("connect-timeout");
    reveal_strlit("help");
    reveal_strlit("version");
    let rows = spec.options@;
    assert forall|i: int| 0 <= i < rows.len() implies option_wf(#[trigger] rows[i]) by {
        lemma_names_differ(rows[i].id@, "help"@);
        lemma_names_differ(rows[i].id@, "version"@);
        lemma_names_differ(rows[i].long@, "help"@);
        lemma_names_differ(rows[i].long@, "version"@);
    }
    assert forall|i: int, j: int|
        #![trigger rows[i], rows[j]]
        0 <= i < j < rows.len() implies {
            &&& rows[i].id@ != rows[j].id@
            &&& rows[i].long@ != rows[j].long@
            &&& (rows[i].short is Some ==> rows[i].short != rows[j].short)
        } by {
        lemma_names_differ(rows[i].id@, rows[j].id@);
        lemma_names_differ(rows[i].long@, rows[j].long@);
    }
}

/// Why the command line was not accepted, or what `--help` or `--version`
/// asks to print: the text, the process exit code, and whether the text goes
/// to standard error.
#[derive(Debug)]
pub struct CliRefusal {
    pub message: String,
    pub exit_code: i32,
    pub to_stderr: bool,
}

/// The values clap matched for each option, before they are read into
/// [`Args`]; `None` where no value was matched.
#[derive(Debug)]
pub struct ArgValues {
    pub host: Option<String>,
    pub port: Option<u16>,
    pub user: Option<String>,
    pub luks_password: Option<String>,
    pub identity_file: Option<Vec<u8>>,
    pub known_hosts: Option<Vec<u8>>,
    pub failure_interval: Option<String>,
    pub success_interval: Option<String>,
    pub once: Option<bool>,
    pub max_runtime: Option<String>,
    pub attempt_timeout: Option<String>,
    pub connect_timeout: Option<String>,
    pub command: Option<String>,
}

/// The reason `parse_duration` gives for a reading that is not a duration.
pub open spec fn duration_reason(reading: DurationReading) -> Seq<char> {
    match reading {
        DurationReading::BadUnit => SUFFIX_ERROR@,
        DurationReading::BadNumber => NUMBER_ERROR@,
        DurationReading::TooLarge => TOO_LARGE_ERROR@,
        DurationReading::Zero => ZERO_ERROR@,
        DurationReading::Seconds(_) => Seq::empty(),
    }
}

/// The number of seconds a duration option stands for, or the reason it is
/// refused; the default when no value was given.
pub open spec fn duration_option(value: Option<String>, default: u64) -> Result<u64, Seq<char>> {
    match value {
        None => Ok(default),
        Some(text) => match read_duration(encode_utf8(text@)) {
            DurationReading::Seconds(s) => Ok(s),
            reading => Err(duration_reason(reading)),
        },
    }
}

/// Like `duration_option`, for an option that has no default.
pub open spec fn optional_duration_option(value: Option<String>) -> Result<Option<u64>, Seq<char>> {
    match value {
        None => Ok(None),
        Some(text) => match read_duration(encode_utf8(text@)) {
            DurationReading::Seconds(s) => Ok(Some(s)),
            reading => Err(duration_reason(reading)),
        },
    }
}

/// The text clap prints for a value its parser refused.
pub open spec fn invalid_value_message(value: Seq<char>, option: Seq<char>, reason: Seq<char>) -> Seq<
    char,
> {
    "error: invalid value '"@ + value + "' for '"@ + option + "': "@ + reason
        + "\n\nFor more information, try '--help'.\n"@
}

/// The text printed when a required option has no value, as clap words it.
pub open spec fn missing_value_message(option: Seq<char>) -> Seq<char> {
    "error: the following required arguments were not provided:\n  "@ + option
        + "\n\nFor more information, try '--help'.\n"@
}

/// The first thing wrong with the matched values, in the order of the
/// options: a required option without a value, then a duration that is not one.
pub open spec fn first_problem(v: ArgValues) -> Option<Seq<char>> {
    if v.host is None {
        Some(missing_value_message(HOST_OPTION@))
    } else if v.user is None {
        Some(missing_value_message(USER_OPTION@))
    } else if v.luks_password is None {
        Some(missing_value_message(LUKS_PASSWORD_OPTION@))
    } else if v.identity_file is None {
        Some(missing_value_message(IDENTITY_FILE_OPTION@))
    } else if duration_option(v.failure_interval, DEFAULT_FAILURE_INTERVAL) is Err {
        Some(
            invalid_value_message(
                v.failure_interval->0@,
                FAILURE_INTERVAL_OPTION@,
                duration_option(v.failure_interval, DEFAULT_FAILURE_INTERVAL)->Err_0,
            ),
        )
    } else if duration_option(v.success_interval, DEFAULT_SUCCESS_INTERVAL) is Err {
        Some(
            invalid_value_message(
                v.success_interval->0@,
                SUCCESS_INTERVAL_OPTION@,
                duration_option(v.success_interval, DEFAULT_SUCCESS_INTERVAL)->Err_0,
            ),
        )
    } else if optional_duration_option(v.max_runtime) is Err {
        Some(
            invalid_value_message(
                v.max_runtime->0@,
                MAX_RUNTIME_OPTION@,
                optional_duration_option(v.max_runtime)->Err_0,
            ),
        )
    } else if duration_option(v.attempt_timeout, DEFAULT_ATTEMPT_TIMEOUT) is Err {
        Some(
            invalid_value_message(
                v.attempt_timeout->0@,
                ATTEMPT_TIMEOUT_OPTION@,
                duration_option(v.attempt_timeout, DEFAULT_ATTEMPT_TIMEOUT)->Err_0,
            ),
        )
    } else if duration_option(v.connect_timeout, DEFAULT_CONNECT_TIMEOUT) is Err {
        Some(
            invalid_value_message(
                v.connect_timeout->0@,
                CONNECT_TIMEOUT_OPTION@,
                duration_option(v.connect_timeout, DEFAULT_CONNECT_TIMEOUT)->Err_0,
            ),
        )
    } else {
        None
    }
}

/// The settings that accepted values stand for, field by field.
pub open spec fn args_match_values(a: Args, v: ArgValues) -> bool {
    &&& a.host@ == v.host->0@
    &&& a.port == (match v.port {
        Some(p) => p,
        None => DEFAULT_PORT,
    })
    &&& a.user@ == v.user->0@
    &&& a.luks_password@ == v.luks_password->0@
    &&& a.identity_file@ == v.identity_file->0@
    &&& bytes_view(a.known_hosts) == bytes_view(v.known_hosts)
    &&& duration_option(v.failure_interval, DEFAULT_FAILURE_INTERVAL) == Ok::<u64, Seq<char>>(
        a.failure_interval,
    )
    &&& duration_option(v.success_interval, DEFAULT_SUCCESS_INTERVAL) == Ok::<u64, Seq<char>>(
        a.success_interval,
    )
    &&& a.once == (match v.once {
        Some(b) => b,
        None => false,
    })
    &&& optional_duration_option(v.max_runtime) == Ok::<Option<u64>, Seq<char>>(a.max_runtime)
    &&& duration_option(v.attempt_timeout, DEFAULT_ATTEMPT_TIMEOUT) == Ok::<u64, Seq<char>>(
        a.attempt_timeout,
    )
    &&& duration_option(v.connect_timeout, DEFAULT_CONNECT_TIMEOUT) == Ok::<u64, Seq<char>>(
        a.connect_timeout,
    )
    &&& a.command@ == (match v.command {
        Some(c) => c@,
        None => DEFAULT_COMMAND@,
    })
}

/// Settings that a command line can produce: every interval and timeout is
/// a positive number of seconds.
pub open spec fn sensible_args(a: Args) -> bool {
    &&& a.failure_interval > 0
    &&& a.success_interval > 0
    &&& a.attempt_timeout > 0
    &&& a.connect_timeout > 0
    &&& (a.max_runtime matches Some(m) ==> m > 0)
}

fn owned(s: &str) -> (r: String)
    ensures
        r@ == s@,
{
    String::from_str(s)
}

fn missing_value(option: &str) -> (r: CliRefusal)
    ensures
        r.message@ == missing_value_message(option@),
        r.exit_code == USAGE_EXIT_CODE,
        r.to_stderr,
{
    let mut message = owned("error: the following required arguments were not provided:\n  ");
    message.append(option);
    message.append("\n\nFor more information, try '--help'.\n");
    CliRefusal { message, exit_code: USAGE_EXIT_CODE, to_stderr: true }
}

fn invalid_value(value: &str, option: &str, reason: &str) -> (r: CliRefusal)
    ensures
        r.message@ == invalid_value_message(value@, option@, reason@),
        r.exit_code == USAGE_EXIT_CODE,
        r.to_stderr,
{
    let mut message = owned("error: invalid value '");
    message.append(value);
    message.append("' for '");
    message.append(option);
    message.append("': ");
    message.append(reason);
    message.append("\n\nFor more information, try '--help'.\n");
    CliRefusal { message, exit_code: USAGE_EXIT_CODE, to_stderr: true }
}

/// Reads one duration value: the seconds it stands for, or the reason it is
/// refused. Text whose last character is not ASCII has no unit letter at its
/// end and is refused for that.
pub fn read_duration_value(text: &str) -> (r: Result<u64, String>)
    ensures
        match read_duration(text.spec_bytes()) {
            DurationReading::Seconds(s) => r matches Ok(v) && v == s,
            reading => r matches Err(e) && e@ == duration_reason(reading),
        },
{
    let bytes = text.as_bytes();
    if bytes.len() > 0 && bytes[bytes.len() - 1] >= 128 {
        proof {
            let b = text.spec_bytes();
            let k = b.len() - 1;
            let unit = b.subrange(k, b.len() as int);
            assert(unit =~= seq![b.last()]);
            assert(unit[0] == b.last());
            assert(unit != seq![SECONDS_UNIT]) by {
                assert(seq![SECONDS_UNIT][0] == SECONDS_UNIT);
            }
            assert(unit != seq![MINUTES_UNIT]) by {
                assert(seq![MINUTES_UNIT][0] == MINUTES_UNIT);
            }
            assert(unit != seq![HOURS_UNIT]) by {
                assert(seq![HOURS_UNIT][0] == HOURS_UNIT);
            }
            assert(unit != seq![DAYS_UNIT]) by {
                assert(seq![DAYS_UNIT][0] == DAYS_UNIT);
            }
            assert(read_duration(b) == DurationReading::BadUnit);
        }
        return Err(owned(SUFFIX_ERROR));
    }
    parse_duration(text)
}

/// The value parser clap runs on each duration option: the text itself when
/// it reads as a duration, otherwise the reason it is refused, which clap
/// shows in its "invalid value" error.
pub fn check_duration(value: &str) -> (r: Result<String, String>)
    ensures
        match read_duration(value.spec_bytes()) {
            DurationReading::Seconds(_) => r matches Ok(text) && text@ == value@,
            reading => r matches Err(e) && e@ == duration_reason(reading),
        },
{
    match read_duration_value(value) {
        Ok(_) => Ok(owned(value)),
        Err(reason) => Err(reason),
    }
}

fn duration_or(value: &Option<String>, default: u64, option: &str) -> (r: Result<u64, CliRefusal>)
    ensures
        match duration_option(*value, default) {
            Ok(s) => r matches Ok(v) && v == s,
            Err(reason) => r matches Err(e) && e.message@ == invalid_value_message(
                value->0@,
                option@,
                reason,
            ) && e.exit_code == USAGE_EXIT_CODE && e.to_stderr,
        },
{
    match value {
        None => Ok(default),
        Some(text) => match read_duration_value(text.as_str()) {
            Ok(s) => Ok(s),
            Err(reason) => Err(invalid_value(text.as_str(), option, reason.as_str())),
        },
    }
}

fn optional_duration(value: &Option<String>, option: &str) -> (r: Result<Option<u64>, CliRefusal>)
    ensures
        match optional_duration_option(*value) {
            Ok(s) => r matches Ok(v) && v == s,
            Err(reason) => r matches Err(e) && e.message@ == invalid_value_message(
                value->0@,
                option@,
                reason,
            ) && e.exit_code == USAGE_EXIT_CODE && e.to_stderr,
        },
{
    match value {
        None => Ok(None),
        Some(text) => match read_duration_value(text.as_str()) {
            Ok(s) => Ok(Some(s)),
            Err(reason) => Err(invalid_value(text.as_str(), option, reason.as_str())),
        },
    }
}

impl Args {
    /// Reads the values clap matched into settings: required options must
    /// have a value, the durations must read as durations, and options
    /// without a value take their defaults.
    pub fn from_values(values: ArgValues) -> (r: Result<Args, CliRefusal>)
        ensures
            r is Ok <==> first_problem(values) is None,
            r matches Ok(a) ==> args_match_values(a, values) && sensible_args(a),
            r matches Err(e) ==> e.message@ == first_problem(values)->0 && e.exit_code
                == USAGE_EXIT_CODE && e.to_stderr,
    {
        let ghost v = values;
        let ArgValues {
            host,
            port,
            user,
            luks_password,
            identity_file,
            known_hosts,
            failure_interval,
            success_interval,
            once,
            max_runtime,
            attempt_timeout,
            connect_timeout,
            command,
        } = values;
        let host = match host {
            Some(h) => h,
            None => {
                return Err(missing_value(HOST_OPTION));
            },
        };
        let user = match user {
            Some(u) => u,
            None => {
                return Err(missing_value(USER_OPTION));
            },
        };
        let luks_password = match luks_password {
            Some(p) => p,
            None => {
                return Err(missing_value(LUKS_PASSWORD_OPTION));
            },
        };
        let identity_file = match identity_file {
            Some(i) => i,
            None => {
                return Err(missing_value(IDENTITY_FILE_OPTION));
            },
        };
        let failure_interval = match duration_or(
            &failure_interval,
            DEFAULT_FAILURE_INTERVAL,
            FAILURE_INTERVAL_OPTION,
        ) {
            Ok(s) => s,
            Err(e) => {
                return Err(e);
            },
        };
        let success_interval = match duration_or(
            &success_interval,
            DEFAULT_SUCCESS_INTERVAL,
            SUCCESS_INTERVAL_OPTION,
        ) {
            Ok(s) => s,
            Err(e) => {
                return Err(e);
            },
        };
        let max_runtime = match optional_duration(&max_runtime, MAX_RUNTIME_OPTION) {
            Ok(s) => s,
            Err(e) => {
                return Err(e);
            },
        };
        let attempt_timeout = match duration_or(
            &attempt_timeout,
            DEFAULT_ATTEMPT_TIMEOUT,
            ATTEMPT_TIMEOUT_OPTION,
        ) {
            Ok(s) => s,
            Err(e) => {
                return Err(e);
            },
        };
        let connect_timeout = match duration_or(
            &connect_timeout,
            DEFAULT_CONNECT_TIMEOUT,
            CONNECT_TIMEOUT_OPTION,
        ) {
            Ok(s) => s,
            Err(e) => {
                return Err(e);
            },
        };
        let port = match port {
            Some(p) => p,
            None => DEFAULT_PORT,
        };
        let once = match once {
            Some(b) => b,
            None => false,
        };
        let command = match command {
            Some(c) => c,
            None => owned(DEFAULT_COMMAND),
        };
        Ok(
            Args {
                host,
                port,
                user,
                luks_password,
                identity_file,
                known_hosts,
                failure_interval,
                success_interval,
                once,
                max_runtime,
                attempt_timeout,
                connect_timeout,
                command,
            },
        )
    }

    /// Reads what clap matched into settings: with `v` the values the
    /// options matched ([`values_read`]), the settings `v` gives, or the first
    /// problem with `v` ([`Args::from_values`]).
    pub fn from_matches(matches: &clap::ArgMatches) -> (r: Result<Args, CliRefusal>)
        ensures
            matches_outcome(*matches, r),
    {
        let values = ArgValues::from_matches(matches);
        let ghost read = values;
        let r = Args::from_values(values);
        proof {
            assert forall|v: ArgValues| #[trigger]
                values_read(v, matched_contents(*matches)) implies reading_outcome(v, r) by {
                lemma_same_reading(read, v, matched_contents(*matches));
            }
        }
        r
    }

    /// Parses a command line (program name first) against [`cli_spec`],
    /// taking options the command line leaves out from their `REMOTE_LUKS_*`
    /// environment variables, then from their defaults. clap checks the
    /// syntax, the required options, the port and, with [`check_duration`],
    /// the durations, and answers `--help` and `--version`: its refusal is
    /// returned as it is. What it matched is read by [`Args::from_matches`].
    pub fn try_parse_from(argv: Vec<PathBuf>) -> (r: Result<Args, CliRefusal>)
        ensures
            match r {
                Ok(_) => exists|m: clap::ArgMatches| #[trigger] matches_outcome(m, r),
                Err(e) => clap_refusal(e) || exists|m: clap::ArgMatches| #[trigger]
                    matches_outcome(m, r),
            },
    {
        let spec = cli_spec();
        proof {
            lemma_cli_spec_wf(spec);
        }
        match matches_from(&spec, argv) {
            Ok(matches) => {
                let r = Args::from_matches(&matches);
                proof {
                    assert(matches_outcome(matches, r));
                }
                r
            },
            Err(refusal) => Err(refusal),
        }
    }
}

/// Values are accepted exactly when the host, user, passphrase and identity
/// file are present and every duration given reads as a positive duration;
/// the port, the `known_hosts` file, `--once` and the command never make
/// values refused, whatever they hold and whatever else is given.
pub proof fn lemma_accepted_values(
    v: ArgValues,
    port: Option<u16>,
    known_hosts: Option<Vec<u8>>,
    once: Option<bool>,
    command: Option<String>,
)
    ensures
        first_problem(v) is None <==> {
            &&& v.host is Some
            &&& v.user is Some
            &&& v.luks_password is Some
            &&& v.identity_file is Some
            &&& (v.failure_interval matches Some(t) ==> read_duration(encode_utf8(t@)) is Seconds)
            &&& (v.success_interval matches Some(t) ==> read_duration(encode_utf8(t@)) is Seconds)
            &&& (v.max_runtime matches Some(t) ==> read_duration(encode_utf8(t@)) is Seconds)
            &&& (v.attempt_timeout matches Some(t) ==> read_duration(encode_utf8(t@)) is Seconds)
            &&& (v.connect_timeout matches Some(t) ==> read_duration(encode_utf8(t@)) is Seconds)
        },
        first_problem(ArgValues { port, known_hosts, once, command, ..v }) == first_problem(v),
{
}

/// Accepted values give these settings: each required text as given, the
/// port and command given or their defaults (22 and `unlock-luks unlock`),
/// `once` only when the flag is set, no runtime limit unless one is given,
/// and each duration given as the seconds it reads as, or its default (1 s
/// after a failure, 60 s after a success, 30 s per attempt, 2 s to connect).
pub proof fn lemma_settings_of_values(a: Args, v: ArgValues)
    requires
        first_problem(v) is None,
        args_match_values(a, v),
    ensures
        a.host@ == v.host->0@,
        a.user@ == v.user->0@,
        a.luks_password@ == v.luks_password->0@,
        a.identity_file@ == v.identity_file->0@,
        bytes_view(a.known_hosts) == bytes_view(v.known_hosts),
        a.port == (if v.port is Some { v.port->0 } else { 22 }),
        a.once <==> v.once == Some(true),
        a.command@ == (if v.command is Some { v.command->0@ } else { "unlock-luks unlock"@ }),
        v.max_runtime is None ==> a.max_runtime is None,
        v.max_runtime matches Some(t) ==> read_duration(encode_utf8(t@)) == DurationReading::Seconds(
            a.max_runtime->0,
        ),
        v.failure_interval is None ==> a.failure_interval == 1,
        v.failure_interval matches Some(t) ==> read_duration(encode_utf8(t@))
            == DurationReading::Seconds(a.failure_interval),
        v.success_interval is None ==> a.success_interval == 60,
        v.success_interval matches Some(t) ==> read_duration(encode_utf8(t@))
            == DurationReading::Seconds(a.success_interval),
        v.attempt_timeout is None ==> a.attempt_timeout == 30,
        v.attempt_timeout matches Some(t) ==> read_duration(encode_utf8(t@))
            == DurationReading::Seconds(a.attempt_timeout),
        v.connect_timeout is None ==> a.connect_timeout == 2,
        v.connect_timeout matches Some(t) ==> read_duration(encode_utf8(t@))
            == DurationReading::Seconds(a.connect_timeout),
{
}

/// What reading values gives: settings exactly when nothing is wrong with
/// them, the settings they stand for, or the first problem as a usage error.
pub open spec fn reading_outcome(v: ArgValues, r: Result<Args, CliRefusal>) -> bool {
    &&& (r is Ok <==> first_problem(v) is None)
    &&& (r matches Ok(a) ==> args_match_values(a, v) && sensible_args(a))
    &&& (r matches Err(e) ==> e.message@ == first_problem(v)->0 && e.exit_code == USAGE_EXIT_CODE
        && e.to_stderr)
}

/// What reading clap's matches gives: the outcome of reading the values the
/// options matched.
pub open spec fn matches_outcome(matches: clap::ArgMatches, r: Result<Args, CliRefusal>) -> bool {
    forall|v: ArgValues| #[trigger]
        values_read(v, matched_contents(matches)) ==> reading_outcome(v, r)
}

/// A refusal as clap gives it: on standard error with the usage exit code,
/// or (for `--help` and `--version`) on standard output with exit code 0.
pub open spec fn clap_refusal(e: CliRefusal) -> bool {
    if e.to_stderr {
        e.exit_code == USAGE_EXIT_CODE
    } else {
        e.exit_code == 0
    }
}

/// Two readings of the same matches agree on what is wrong with them and
/// on the settings they stand for.
proof fn lemma_same_reading(v: ArgValues, w: ArgValues, c: Map<Seq<char>, MatchedValue>)
    requires
        values_read(v, c),
        values_read(w, c),
    ensures
        first_problem(v) == first_problem(w),
        first_problem(v) is None ==> forall|a: Args|
            args_match_values(a, v) == args_match_values(a, w),
{
    assert(text_view(v.host) == text_view(w.host));
    assert(duration_option(v.failure_interval, DEFAULT_FAILURE_INTERVAL) == duration_option(
        w.failure_interval,
        DEFAULT_FAILURE_INTERVAL,
    ));
    assert(duration_option(v.success_interval, DEFAULT_SUCCESS_INTERVAL) == duration_option(
        w.success_interval,
        DEFAULT_SUCCESS_INTERVAL,
    ));
    assert(optional_duration_option(v.max_runtime) == optional_duration_option(w.max_runtime));
    assert(duration_option(v.attempt_timeout, DEFAULT_ATTEMPT_TIMEOUT) == duration_option(
        w.attempt_timeout,
        DEFAULT_ATTEMPT_TIMEOUT,
    ));
    assert(duration_option(v.connect_timeout, DEFAULT_CONNECT_TIMEOUT) == duration_option(
        w.connect_timeout,
        DEFAULT_CONNECT_TIMEOUT,
    ));
}

// ---------------------------------------------------------------------------
// Reading what clap matched
// ---------------------------------------------------------------------------
/// The text matched for an option, if any.
pub open spec fn text_of(c: Map<Seq<char>, MatchedValue>, row: OptionSpec) -> Option<Seq<char>> {
    if c.contains_key(row.id@) && c[row.id@] is Text {
        Some(c[row.id@]->Text_0)
    } else {
        None
    }
}

/// The port number matched for an option, if any.
pub open spec fn port_of(c: Map<Seq<char>, MatchedValue>, row: OptionSpec) -> Option<u16> {
    if c.contains_key(row.id@) && c[row.id@] is Port {
        Some(c[row.id@]->Port_0)
    } else {
        None
    }
}

/// The path bytes matched for an option, if any.
pub open spec fn path_of(c: Map<Seq<char>, MatchedValue>, row: OptionSpec) -> Option<Seq<u8>> {
    if c.contains_key(row.id@) && c[row.id@] is Path {
        Some(c[row.id@]->Path_0)
    } else {
        None
    }
}

/// The flag matched for an option, if any.
pub open spec fn flag_of(c: Map<Seq<char>, MatchedValue>, row: OptionSpec) -> Option<bool> {
    if c.contains_key(row.id@) && c[row.id@] is Flag {
        Some(c[row.id@]->Flag_0)
    } else {
        None
    }
}

pub open spec fn text_view(v: Option<String>) -> Option<Seq<char>> {
    match v {
        Some(s) => Some(s@),
        None => None,
    }
}

pub open spec fn bytes_view(v: Option<Vec<u8>>) -> Option<Seq<u8>> {
    match v {
        Some(b) => Some(b@),
        None => None,
    }
}

/// `v` holds what `c` matched: each field the value of the option with the
/// field's id, read as that option's kind stores it.
pub open spec fn values_read(v: ArgValues, c: Map<Seq<char>, MatchedValue>) -> bool {
    &&& text_view(v.host) == text_of(c, host_row())
    &&& v.port == port_of(c, port_row())
    &&& text_view(v.user) == text_of(c, user_row())
    &&& text_view(v.luks_password) == text_of(c, luks_password_row())
    &&& bytes_view(v.identity_file) == path_of(c, identity_file_row())
    &&& bytes_view(v.known_hosts) == path_of(c, known_hosts_row())
    &&& text_view(v.failure_interval) == text_of(c, failure_interval_row())
    &&& text_view(v.success_interval) == text_of(c, success_interval_row())
    &&& v.once == flag_of(c, once_row())
    &&& text_view(v.max_runtime) == text_of(c, max_runtime_row())
    &&& text_view(v.attempt_timeout) == text_of(c, attempt_timeout_row())
    &&& text_view(v.connect_timeout) == text_of(c, connect_timeout_row())
    &&& text_view(v.command) == text_of(c, command_row())
}

/// Each field is read from the value matched under the id of the same
/// name (`host`, `port`, ..., `command`), and only when that value has the
/// field's kind: text, a port, a path or a flag.
pub proof fn lemma_fields_read_by_id(v: ArgValues, c: Map<Seq<char>, MatchedValue>)
    requires
        values_read(v, c),
    ensures
        text_view(v.host) == (if c.contains_key("host"@) && c["host"@] is Text {
            Some(c["host"@]->Text_0)
        } else {
            None
        }),
        v.port == (if c.contains_key("port"@) && c["port"@] is Port {
            Some(c["port"@]->Port_0)
        } else {
            None
        }),
        text_view(v.user) == (if c.contains_key("user"@) && c["user"@] is Text {
            Some(c["user"@]->Text_0)
        } else {
            None
        }),
        text_view(v.luks_password) == (if c.contains_key("luks_password"@) && c["luks_password"@] is Text {
            Some(c["luks_password"@]->Text_0)
        } else {
            None
        }),
        bytes_view(v.identity_file) == (if c.contains_key("identity_file"@) && c["identity_file"@] is Path {
            Some(c["identity_file"@]->Path_0)
        } else {
            None
        }),
        bytes_view(v.known_hosts) == (if c.contains_key("known_hosts"@) && c["known_hosts"@] is Path {
            Some(c["known_hosts"@]->Path_0)
        } else {
            None
        }),
        text_view(v.failure_interval) == (if c.contains_key("failure_interval"@) && c["failure_interval"@] is Text {
            Some(c["failure_interval"@]->Text_0)
        } else {
            None
        }),
        text_view(v.success_interval) == (if c.contains_key("success_interval"@) && c["success_interval"@] is Text {
            Some(c["success_interval"@]->Text_0)
        } else {
            None
        }),
        v.once == (if c.contains_key("once"@) && c["once"@] is Flag {
            Some(c["once"@]->Flag_0)
        } else {
            None
        }),
        text_view(v.max_runtime) == (if c.contains_key("max_runtime"@) && c["max_runtime"@] is Text {
            Some(c["max_runtime"@]->Text_0)
        } else {
            None
        }),
        text_view(v.attempt_timeout) == (if c.contains_key("attempt_timeout"@) && c["attempt_timeout"@] is Text {
            Some(c["attempt_timeout"@]->Text_0)
        } else {
            None
        }),
        text_view(v.connect_timeout) == (if c.contains_key("connect_timeout"@) && c["connect_timeout"@] is Text {
            Some(c["connect_timeout"@]->Text_0)
        } else {
            None
        }),
        text_view(v.command) == (if c.contains_key("command"@) && c["command"@] is Text {
            Some(c["command"@]->Text_0)
        } else {
            None
        }),
{
}

impl ArgValues {
    /// Reads what clap matched: each field from the option with the field's
    /// id in [`cli_spec`].
    pub fn from_matches(matches: &clap::ArgMatches) -> (r: ArgValues)
        ensures
            values_read(r, matched_contents(*matches)),
    {
        ArgValues {
            host: matched_text(matches, "host"),
            port: matched_port(matches, "port"),
            user: matched_text(matches, "user"),
            luks_password: matched_text(matches, "luks_password"),
            identity_file: matched_path(matches, "identity_file"),
            known_hosts: matched_path(matches, "known_hosts"),
            failure_interval: matched_text(matches, "failure_interval"),
            success_interval: matched_text(matches, "success_interval"),
            once: matched_flag(matches, "once"),
            max_runtime: matched_text(matches, "max_runtime"),
            attempt_timeout: matched_text(matches, "attempt_timeout"),
            connect_timeout: matched_text(matches, "connect_timeout"),
            command: matched_text(matches, "command"),
        }
    }
}

} // verus!
