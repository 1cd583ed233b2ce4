//! The calls into clap: building a `clap::Command` from the plain-value
//! definition in [`crate::command_line`], parsing a command line with it, and
//! reading the matched values back. What clap matches depends on the process
//! environment (each option can come from a `REMOTE_LUKS_*` variable), so
//! nothing is promised of what the parse returns; the verified code that uses
//! it states what holds whatever came back.
use vstd::prelude::*;
use clap::builder::ValueParserFactory;
use std::path::PathBuf;
use crate::command_line::{
    check_duration, cli_rows, cli_wf, clap_refusal, CliRefusal, CliSpec, OptionSpec, ValueKind,
    PROGRAM_ABOUT, PROGRAM_NAME, PROGRAM_VERSION,
};

verus! {

#[verifier::external_type_specification]
#[verifier::external_body]
pub struct ExArg(clap::Arg);

#[verifier::external_type_specification]
#[verifier::external_body]
pub struct ExArgMatches(clap::ArgMatches);

#[verifier::external_type_specification]
#[verifier::external_body]
pub struct ExValueParser(clap::builder::ValueParser);

#[verifier::external_type_specification]
#[verifier::external_body]
pub struct ExPathBuf(std::path::PathBuf);

/// One value clap matched, by the type its value parser stored: text, a port
/// number, a path's bytes, or a flag.
pub enum MatchedValue {
    Text(Seq<char>),
    Port(u16),
    Path(Seq<u8>),
    Flag(bool),
}

/// What a `clap::ArgMatches` holds: for each argument id that has a value,
/// its first value.
pub uninterp spec fn matched_contents(matches: clap::ArgMatches) -> Map<Seq<char>, MatchedValue>;

/// The argument definition for one option, without its value parser:
/// `clap::Arg::new` with the option's id, then `long`, `short`, `value_name`,
/// `env`, `default_value`, `required`, `hide_env_values` and `help` with the
/// option's fields (`None` leaves the setting unset). `Arg::short` panics on
/// `-`, which the `requires` leaves out.
#[verifier::external_body]
fn base_arg(option: &OptionSpec) -> clap::Arg
    requires
        option.short != Some('-'),
{
    clap::Arg::new(option.id)
        .long(option.long)
        .short(option.short)
        .value_name(option.value_name)
        .env(option.env)
        .default_value(option.default)
        .required(option.required)
        .hide_env_values(option.hide_env_values)
        .help(option.help)
}

/// `clap::Arg::value_parser`: how the argument's value is checked and converted.
#[verifier::external_body]
fn arg_value_parser(arg: clap::Arg, parser: clap::builder::ValueParser) -> clap::Arg {
    arg.value_parser(parser)
}

/// `clap::Arg::action` with `ArgAction::SetTrue`: a flag that takes no value
/// and reads as `true` when given.
#[verifier::external_body]
fn arg_flag(arg: clap::Arg) -> clap::Arg {
    arg.action(clap::ArgAction::SetTrue)
}

/// `clap::builder::ValueParser::path_buf`: values are kept as paths, bytes
/// and all.
#[verifier::external_body]
fn path_value_parser() -> clap::builder::ValueParser {
    clap::builder::ValueParser::path_buf()
}

/// `<u16 as ValueParserFactory>::value_parser`: values are integers from 0 to
/// 65535, as clap reads a `u16` field.
#[verifier::external_body]
fn port_value_parser() -> clap::builder::ValueParser {
    clap::builder::ValueParser::from(<u16 as ValueParserFactory>::value_parser())
}

/// `clap::builder::ValueParser::new` on [`check_duration`]: a value is kept,
/// as text, when it reads as a duration; otherwise clap refuses it with the
/// reason `check_duration` gives.
#[verifier::external_body]
fn duration_value_parser() -> clap::builder::ValueParser {
    clap::builder::ValueParser::new(check_duration)
}

/// The clap argument for one option of the definition: its names, value name,
/// environment variable, default, whether it is required, and the value
/// parser of its kind (clap's own text parser for text).
fn clap_arg(option: &OptionSpec) -> clap::Arg
    requires
        option.short != Some('-'),
{
    let arg = base_arg(option);
    match option.kind {
        ValueKind::Text => arg,
        ValueKind::Port => arg_value_parser(arg, port_value_parser()),
        ValueKind::Path => arg_value_parser(arg, path_value_parser()),
        ValueKind::Duration => arg_value_parser(arg, duration_value_parser()),
        ValueKind::Flag => arg_flag(arg),
    }
}

/// `clap::Command::try_get_matches_from` on the command that `spec` defines:
/// `Command::new` with its name, `version`, `about`, and one argument per
/// option, built by [`clap_arg`]. `argv` (program name first) is parsed
/// against it, consulting the environment for missing values. A refusal, and
/// a request for `--help` or `--version`, comes back as the text clap renders
/// for it, the exit code clap gives it and whether clap prints it on standard
/// error: on standard error with exit code 2, except `--help` and
/// `--version`, which go to standard output with exit code 0. In debug
/// builds clap checks the definition first and panics on one it cannot use
/// (two options with one id, long or short name; a long name that starts
/// with `-`; a name taken by the generated `--help` and `--version`):
/// `cli_wf` leaves those out. Only this program's own definition
/// ([`crate::command_line::cli_spec`]) is ever handed over.
#[verifier::external_body]
pub(crate) fn matches_from(spec: &CliSpec, argv: Vec<PathBuf>) -> (r: Result<
    clap::ArgMatches,
    CliRefusal,
>)
    requires
        cli_wf(*spec),
        spec.name@ == PROGRAM_NAME@,
        spec.version@ == PROGRAM_VERSION@,
        spec.about@ == PROGRAM_ABOUT@,
        spec.options@ == cli_rows(),
    ensures
        r matches Err(e) ==> clap_refusal(e),
{
    let command = clap::Command::new(spec.name)
        .version(spec.version)
        .about(spec.about)
        .args(spec.options.iter().map(clap_arg));
    match command.try_get_matches_from(argv) {
        Ok(matches) => Ok(matches),
        Err(error) => Err(CliRefusal {
            message: error.to_string(),
            exit_code: error.exit_code(),
            to_stderr: error.use_stderr(),
        }),
    }
}

/// `clap::ArgMatches::try_get_one::<String>`: the text matched for `id`.
/// `None` when `id` has no value, or a value that is not text (clap then
/// returns an error, which is dropped).
#[verifier::external_body]
pub(crate) fn matched_text(matches: &clap::ArgMatches, id: &str) -> (r: Option<String>)
    ensures
        match r {
            Some(s) => matched_contents(*matches).contains_key(id@) && matched_contents(
                *matches,
            )[id@] == MatchedValue::Text(s@),
            None => !(matched_contents(*matches).contains_key(id@) && matched_contents(
                *matches,
            )[id@] is Text),
        },
{
    match matches.try_get_one::<String>(id) {
        Ok(value) => value.cloned(),
        Err(_) => None,
    }
}

/// `clap::ArgMatches::try_get_one::<u16>`: the port number matched for `id`.
#[verifier::external_body]
pub(crate) fn matched_port(matches: &clap::ArgMatches, id: &str) -> (r: Option<u16>)
    ensures
        match r {
            Some(p) => matched_contents(*matches).contains_key(id@) && matched_contents(
                *matches,
            )[id@] == MatchedValue::Port(p),
            None => !(matched_contents(*matches).contains_key(id@) && matched_contents(
                *matches,
            )[id@] is Port),
        },
{
    match matches.try_get_one::<u16>(id) {
        Ok(value) => value.copied(),
        Err(_) => None,
    }
}

/// `clap::ArgMatches::try_get_one::<PathBuf>`: the path matched for `id`, as
/// the bytes `OsString::into_encoded_bytes` gives (on Unix, the path itself).
#[verifier::external_body]
pub(crate) fn matched_path(matches: &clap::ArgMatches, id: &str) -> (r: Option<Vec<u8>>)
    ensures
        match r {
            Some(b) => matched_contents(*matches).contains_key(id@) && matched_contents(
                *matches,
            )[id@] == MatchedValue::Path(b@),
            None => !(matched_contents(*matches).contains_key(id@) && matched_contents(
                *matches,
            )[id@] is Path),
        },
{
    match matches.try_get_one::<PathBuf>(id) {
        Ok(value) => value.map(|path| path.clone().into_os_string().into_encoded_bytes()),
        Err(_) => None,
    }
}

/// `clap::ArgMatches::try_get_one::<bool>`: the flag matched for `id`.
#[verifier::external_body]
pub(crate) fn matched_flag(matches: &clap::ArgMatches, id: &str) -> (r: Option<bool>)
    ensures
        match r {
            Some(f) => matched_contents(*matches).contains_key(id@) && matched_contents(
                *matches,
            )[id@] == MatchedValue::Flag(f),
            None => !(matched_contents(*matches).contains_key(id@) && matched_contents(
                *matches,
            )[id@] is Flag),
        },
{
    match matches.try_get_one::<bool>(id) {
        Ok(value) => value.copied(),
        Err(_) => None,
    }
}

} // verus!
