use std::path::PathBuf;
use std::time::Duration;

use remote_luks_unlocker::args::Args;
use remote_luks_unlocker::command_line::{
    check_duration, cli_spec, ArgValues, CliRefusal, ValueKind,
};
use remote_luks_unlocker::duration::parse_duration;

fn argv(words: &[&str]) -> Vec<PathBuf> {
    words.iter().map(PathBuf::from).collect()
}

fn parse(words: &[&str]) -> Result<Args, CliRefusal> {
    Args::try_parse_from(argv(words))
}

fn complete_values() -> ArgValues {
    ArgValues {
        host: Some("example.test".to_owned()),
        port: Some(2222),
        user: Some("root".to_owned()),
        luks_password: Some("secret".to_owned()),
        identity_file: Some(b"/tmp/id_ed25519".to_vec()),
        known_hosts: None,
        failure_interval: Some("3s".to_owned()),
        success_interval: Some("1m".to_owned()),
        once: Some(false),
        max_runtime: None,
        attempt_timeout: Some("7s".to_owned()),
        connect_timeout: Some("2s".to_owned()),
        command: Some("unlock-luks unlock".to_owned()),
    }
}

#[test]
fn parses_attempt_timeout_default() {
    let args = parse(&[
        "remote-luks-unlocker",
        "--host",
        "example.test",
        "-l",
        "root",
        "--luks-password",
        "secret",
        "-i",
        "/tmp/id_ed25519",
        "--known-hosts",
        "/tmp/known_hosts",
        "-p",
        "2222",
    ])
    .expect("default CLI arguments should parse");

    assert_eq!(Duration::from_secs(args.attempt_timeout), Duration::from_secs(30));
    assert_eq!(args.port, 2222);
    assert_eq!(args.user, "root");
    assert_eq!(args.known_hosts, Some(b"/tmp/known_hosts".to_vec()));
    assert!(!args.once);
    assert_eq!(Duration::from_secs(args.failure_interval), Duration::from_secs(1));
    assert_eq!(Duration::from_secs(args.success_interval), Duration::from_secs(60));
    assert_eq!(args.max_runtime, None);
    assert_eq!(Duration::from_secs(args.connect_timeout), Duration::from_secs(2));
    assert_eq!(args.command, "unlock-luks unlock");
}

#[test]
fn rejects_zero_duration() {
    assert!(parse_duration("0s").is_err());
    assert!(parse_duration("0m").is_err());
}

#[test]
fn parses_once_option() {
    let args = parse(&[
        "remote-luks-unlocker",
        "--host",
        "example.test",
        "-l",
        "root",
        "--luks-password",
        "secret",
        "-i",
        "/tmp/id_ed25519",
        "--known-hosts",
        "/tmp/known_hosts",
        "--once",
        "--max-runtime",
        "10m",
        "--success-interval",
        "2m",
    ])
    .expect("--once should parse");

    assert!(args.once);
    assert_eq!(args.max_runtime.map(Duration::from_secs), Some(Duration::from_secs(600)));
    assert_eq!(Duration::from_secs(args.success_interval), Duration::from_secs(120));
}

#[test]
fn parses_every_unit() {
    assert_eq!(parse_duration("45s"), Ok(45));
    assert_eq!(parse_duration("10m"), Ok(600));
    assert_eq!(parse_duration("2h"), Ok(7200));
    assert_eq!(parse_duration("1d"), Ok(86400));
    assert_eq!(parse_duration("+5s"), Ok(5));
    assert_eq!(parse_duration("007m"), Ok(420));
}

#[test]
fn reports_each_duration_error() {
    assert_eq!(parse_duration(""), Err("duration must end in s, m, h, or d".to_owned()));
    assert_eq!(parse_duration("10"), Err("duration must end in s, m, h, or d".to_owned()));
    assert_eq!(parse_duration("10S"), Err("duration must end in s, m, h, or d".to_owned()));
    assert_eq!(parse_duration("s"), Err("duration must start with a positive integer".to_owned()));
    assert_eq!(parse_duration("+s"), Err("duration must start with a positive integer".to_owned()));
    assert_eq!(parse_duration("-1s"), Err("duration must start with a positive integer".to_owned()));
    assert_eq!(parse_duration(" 1s"), Err("duration must start with a positive integer".to_owned()));
    assert_eq!(
        parse_duration("18446744073709551616s"),
        Err("duration must start with a positive integer".to_owned())
    );
    assert_eq!(parse_duration("18446744073709551615s"), Ok(18446744073709551615));
    assert_eq!(parse_duration("18446744073709551615m"), Err("duration is too large".to_owned()));
    assert_eq!(parse_duration("0d"), Err("duration must be greater than zero".to_owned()));
}

#[test]
fn reads_back_what_is_written() {
    for seconds in [1u64, 9, 10, 59, 3600, 86399, u64::MAX] {
        assert_eq!(parse_duration(&format!("{seconds}s")), Ok(seconds));
    }
    for minutes in [1u64, 10, 307445734561825860] {
        assert_eq!(parse_duration(&format!("{minutes}m")), Ok(minutes * 60));
    }
}

#[test]
fn requires_host_user_password_and_identity() {
    let refusal = parse(&["remote-luks-unlocker", "--host", "example.test"])
        .expect_err("missing required options must be refused");
    assert_eq!(refusal.exit_code, 2);
    assert!(refusal.to_stderr);
    assert!(refusal.message.contains("--user <USER>"));
    assert!(refusal.message.contains("--luks-password <LUKS_PASSWORD>"));
    assert!(refusal.message.contains("--identity-file <IDENTITY_FILE>"));
}

#[test]
fn refuses_an_invalid_duration_as_clap_would() {
    let refusal = parse(&[
        "remote-luks-unlocker",
        "--host",
        "example.test",
        "-l",
        "root",
        "--luks-password",
        "secret",
        "-i",
        "/tmp/id_ed25519",
        "--failure-interval",
        "0s",
    ])
    .expect_err("a zero interval must be refused");
    assert_eq!(
        refusal.message,
        "error: invalid value '0s' for '--failure-interval <FAILURE_INTERVAL>': duration must be greater than zero\n\nFor more information, try '--help'.\n"
    );
    assert_eq!(refusal.exit_code, 2);
}

#[test]
fn refuses_an_out_of_range_port() {
    let refusal = parse(&[
        "remote-luks-unlocker",
        "--host",
        "example.test",
        "-l",
        "root",
        "--luks-password",
        "secret",
        "-i",
        "/tmp/id_ed25519",
        "-p",
        "65536",
    ])
    .expect_err("a port above 65535 must be refused");
    assert!(refusal.message.contains("65536"));
    assert_eq!(refusal.exit_code, 2);
}

#[test]
fn help_is_printed_on_standard_output() {
    let refusal = parse(&["remote-luks-unlocker", "--help"]).expect_err("help is not a run");
    assert_eq!(refusal.exit_code, 0);
    assert!(!refusal.to_stderr);
    assert!(refusal.message.contains("Poll an SSH endpoint and run a LUKS unlock command"));
    assert!(refusal.message.contains("REMOTE_LUKS_HOST"));
}

#[test]
fn values_take_their_defaults() {
    let mut values = complete_values();
    values.port = None;
    values.failure_interval = None;
    values.success_interval = None;
    values.once = None;
    values.attempt_timeout = None;
    values.connect_timeout = None;
    values.command = None;
    let args = Args::from_values(values).expect("defaults make complete settings");
    assert_eq!(args.port, 22);
    assert_eq!(args.failure_interval, 1);
    assert_eq!(args.success_interval, 60);
    assert!(!args.once);
    assert_eq!(args.attempt_timeout, 30);
    assert_eq!(args.connect_timeout, 2);
    assert_eq!(args.command, "unlock-luks unlock");
}

#[test]
fn values_report_the_first_problem() {
    let mut values = complete_values();
    values.user = None;
    values.attempt_timeout = Some("7x".to_owned());
    let refusal = Args::from_values(values).expect_err("a missing user is refused");
    assert_eq!(
        refusal.message,
        "error: the following required arguments were not provided:\n  --user <USER>\n\nFor more information, try '--help'.\n"
    );

    let mut values = complete_values();
    values.max_runtime = Some("5".to_owned());
    values.attempt_timeout = Some("0s".to_owned());
    let refusal = Args::from_values(values).expect_err("a bad runtime is refused");
    assert_eq!(
        refusal.message,
        "error: invalid value '5' for '--max-runtime <MAX_RUNTIME>': duration must end in s, m, h, or d\n\nFor more information, try '--help'.\n"
    );
}

#[test]
fn values_refuse_a_non_ascii_unit() {
    let mut values = complete_values();
    values.connect_timeout = Some("5é".to_owned());
    let refusal = Args::from_values(values).expect_err("a non-ASCII unit is refused");
    assert_eq!(
        refusal.message,
        "error: invalid value '5é' for '--connect-timeout <CONNECT_TIMEOUT>': duration must end in s, m, h, or d\n\nFor more information, try '--help'.\n"
    );
}

#[test]
fn version_is_printed_on_standard_output() {
    let refusal = parse(&["remote-luks-unlocker", "--version"]).expect_err("version is not a run");
    assert_eq!(refusal.exit_code, 0);
    assert!(!refusal.to_stderr);
    assert_eq!(refusal.message, "remote-luks-unlocker 0.1.0\n");
}

#[test]
fn a_bad_duration_is_reported_before_a_missing_option() {
    let refusal = parse(&["remote-luks-unlocker", "--attempt-timeout", "5x"])
        .expect_err("a bad duration must be refused");
    assert_eq!(
        refusal.message,
        "error: invalid value '5x' for '--attempt-timeout <ATTEMPT_TIMEOUT>': duration must end in s, m, h, or d\n\nFor more information, try '--help'.\n"
    );
    assert_eq!(refusal.exit_code, 2);
}

#[test]
fn every_option_reaches_its_field() {
    let args = parse(&[
        "remote-luks-unlocker",
        "--host=example.test",
        "--port",
        "2200",
        "--user",
        "admin",
        "--luks-password",
        "pw",
        "--identity-file",
        "/keys/id",
        "--known-hosts",
        "/keys/known",
        "--failure-interval",
        "3s",
        "--success-interval",
        "4m",
        "--once",
        "--max-runtime",
        "5h",
        "--attempt-timeout",
        "6s",
        "--connect-timeout",
        "7s",
        "--command",
        "cryptroot-unlock",
    ])
    .expect("every option should parse");
    assert_eq!(args.host, "example.test");
    assert_eq!(args.port, 2200);
    assert_eq!(args.user, "admin");
    assert_eq!(args.luks_password, "pw");
    assert_eq!(args.identity_file, b"/keys/id".to_vec());
    assert_eq!(args.known_hosts, Some(b"/keys/known".to_vec()));
    assert_eq!(args.failure_interval, 3);
    assert_eq!(args.success_interval, 240);
    assert!(args.once);
    assert_eq!(args.max_runtime, Some(18000));
    assert_eq!(args.attempt_timeout, 6);
    assert_eq!(args.connect_timeout, 7);
    assert_eq!(args.command, "cryptroot-unlock");
}

#[test]
fn the_definition_lists_each_option() {
    let spec = cli_spec();
    assert_eq!(spec.name, "remote-luks-unlocker");
    assert_eq!(spec.version, "0.1.0");
    let ids: Vec<&str> = spec.options.iter().map(|o| o.id).collect();
    assert_eq!(
        ids,
        vec![
            "host",
            "port",
            "user",
            "luks_password",
            "identity_file",
            "known_hosts",
            "failure_interval",
            "success_interval",
            "once",
            "max_runtime",
            "attempt_timeout",
            "connect_timeout",
            "command",
        ]
    );
    for option in &spec.options {
        let expected_env = format!("REMOTE_LUKS_{}", option.id.to_uppercase());
        assert_eq!(option.env, expected_env);
        assert_eq!(option.long, option.id.replace('_', "-"));
    }
    let defaults: Vec<Option<&str>> = spec.options.iter().map(|o| o.default).collect();
    assert_eq!(
        defaults,
        vec![
            None,
            Some("22"),
            None,
            None,
            None,
            None,
            Some("1s"),
            Some("1m"),
            Some("false"),
            None,
            Some("30s"),
            Some("2s"),
            Some("unlock-luks unlock"),
        ]
    );
    let shorts: Vec<Option<char>> = spec.options.iter().map(|o| o.short).collect();
    assert_eq!(shorts[1], Some('p'));
    assert_eq!(shorts[2], Some('l'));
    assert_eq!(shorts[4], Some('i'));
    assert_eq!(shorts.iter().filter(|s| s.is_some()).count(), 3);
    let required: Vec<&str> = spec.options.iter().filter(|o| o.required).map(|o| o.id).collect();
    assert_eq!(required, vec!["host", "user", "luks_password", "identity_file"]);
    assert_eq!(spec.options[1].kind, ValueKind::Port);
    assert_eq!(spec.options[4].kind, ValueKind::Path);
    assert_eq!(spec.options[5].kind, ValueKind::Path);
    assert_eq!(spec.options[8].kind, ValueKind::Flag);
    assert!(spec.options[3].hide_env_values);
}

#[test]
fn duration_values_are_checked_as_text() {
    assert_eq!(check_duration("90s"), Ok("90s".to_owned()));
    assert_eq!(check_duration("0m"), Err("duration must be greater than zero".to_owned()));
    assert_eq!(check_duration("5é"), Err("duration must end in s, m, h, or d".to_owned()));
}

#[test]
fn settings_are_read_from_clap_matches_by_id() {
    let command = clap::Command::new("reader")
        .arg(clap::Arg::new("host").long("host"))
        .arg(clap::Arg::new("user").long("user"))
        .arg(clap::Arg::new("luks_password").long("password"))
        .arg(
            clap::Arg::new("identity_file")
                .long("identity")
                .value_parser(clap::builder::ValueParser::path_buf()),
        );
    let matches = command
        .clone()
        .try_get_matches_from(["reader", "--host", "h", "--user", "u", "--password", "p", "--identity", "/k"])
        .expect("the test command parses");
    let args = Args::from_matches(&matches).expect("complete values");
    assert_eq!(args.host, "h");
    assert_eq!(args.user, "u");
    assert_eq!(args.luks_password, "p");
    assert_eq!(args.identity_file, b"/k".to_vec());
    assert_eq!(args.port, 22);
    assert_eq!(args.failure_interval, 1);
    assert_eq!(args.command, "unlock-luks unlock");

    let matches = command
        .try_get_matches_from(["reader", "--host", "h"])
        .expect("the test command parses");
    let refusal = Args::from_matches(&matches).expect_err("the user is missing");
    assert_eq!(
        refusal.message,
        "error: the following required arguments were not provided:\n  --user <USER>\n\nFor more information, try '--help'.\n"
    );
    assert_eq!(refusal.exit_code, 2);
}

#[test]
fn help_texts_carry_no_final_period() {
    for option in &cli_spec().options {
        assert!(!option.help.ends_with('.'), "{}", option.id);
    }
}
