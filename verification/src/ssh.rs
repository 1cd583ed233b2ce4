//! The OpenSSH command line for one unlock attempt: public-key
//! authentication only, strict host-key checking, no multiplexing or proxy.
use vstd::prelude::*;
use vstd::slice::slice_to_vec;
use vstd::string::StringSliceAdditionalSpecFns;
use vstd::utf8::encode_utf8;
use crate::args::Args;
use crate::decimal::{decimal, decimal_bytes};

verus! {

/// The UTF-8 bytes of a text.
pub open spec fn utf8(s: &str) -> Seq<u8> {
    s.spec_bytes()
}

/// An `ssh_config` option whose value is a path: `name=path`.
pub open spec fn path_option_spec(name: &str, path: Seq<u8>) -> Seq<u8> {
    utf8(name) + utf8("=") + path
}

/// The options before the host-key files: port, batch mode, no keyboard
/// prompts, the connect timeout, and strict host-key checking.
pub open spec fn leading_arguments(args: Args) -> Seq<Seq<u8>> {
    seq![
        utf8("-p"),
        decimal(args.port as nat),
        utf8("-o"),
        utf8("BatchMode=yes"),
        utf8("-o"),
        utf8("NumberOfPasswordPrompts=1"),
        utf8("-o"),
        utf8("KbdInteractiveAuthentication=no"),
        utf8("-o"),
        utf8("ConnectTimeout=") + decimal(args.connect_timeout as nat),
        utf8("-o"),
        utf8("StrictHostKeyChecking=yes"),
    ]
}

/// The host-key files to use: the given `known_hosts` file and no global
/// file, or nothing (OpenSSH's defaults) when none is given.
pub open spec fn known_hosts_arguments(known_hosts: Option<Vec<u8>>) -> Seq<Seq<u8>> {
    match known_hosts {
        Some(path) => seq![
            utf8("-o"),
            path_option_spec("UserKnownHostsFile", path@),
            utf8("-o"),
            utf8("GlobalKnownHostsFile=/dev/null"),
        ],
        None => seq![],
    }
}

/// The identity file and the public-key-only, direct-connection options.
pub open spec fn identity_arguments(args: Args) -> Seq<Seq<u8>> {
    seq![
        utf8("-i"),
        args.identity_file@,
        utf8("-o"),
        utf8("PreferredAuthentications=publickey"),
        utf8("-o"),
        utf8("PubkeyAuthentication=yes"),
        utf8("-o"),
        utf8("PasswordAuthentication=no"),
        utf8("-o"),
        utf8("ControlMaster=no"),
        utf8("-o"),
        utf8("ControlPath=none"),
        utf8("-o"),
        utf8("ProxyCommand=none"),
        utf8("-o"),
        utf8("ProxyJump=none"),
    ]
}

/// `user@host`.
pub open spec fn target_spec(args: Args) -> Seq<u8> {
    encode_utf8(args.user@) + utf8("@") + encode_utf8(args.host@)
}

/// The complete argument vector handed to `ssh`.
pub open spec fn ssh_arguments(args: Args) -> Seq<Seq<u8>> {
    leading_arguments(args) + known_hosts_arguments(args.known_hosts) + identity_arguments(args)
        + seq![target_spec(args), encode_utf8(args.command@)]
}

fn text(s: &str) -> (r: Vec<u8>)
    ensures
        r@ == utf8(s),
{
    slice_to_vec(s.as_bytes())
}

fn joined(front: Vec<u8>, back: &[u8]) -> (r: Vec<u8>)
    ensures
        r@ == front@ + back@,
{
    let mut r = front;
    let mut tail = slice_to_vec(back);
    r.append(&mut tail);
    r
}

/// `name=path`, keeping the path's bytes as they are.
pub fn path_option(name: &str, path: &[u8]) -> (r: Vec<u8>)
    ensures
        r@ == path_option_spec(name, path@),
{
    let r = joined(text(name), "=".as_bytes());
    joined(r, path)
}

/// The arguments of `ssh` for one attempt: everything but the program name.
pub fn build_ssh_arguments(args: &Args) -> (r: Vec<Vec<u8>>)
    ensures
        r@.map_values(|a: Vec<u8>| a@) == ssh_arguments(*args),
{
    let mut target = joined(text(args.user.as_str()), "@".as_bytes());
    target = joined(target, args.host.as_str().as_bytes());
    let mut arguments: Vec<Vec<u8>> = Vec::new();
    arguments.push(text("-p"));
    arguments.push(decimal_bytes(args.port as u64));
    arguments.push(text("-o"));
    arguments.push(text("BatchMode=yes"));
    arguments.push(text("-o"));
    arguments.push(text("NumberOfPasswordPrompts=1"));
    arguments.push(text("-o"));
    arguments.push(text("KbdInteractiveAuthentication=no"));
    arguments.push(text("-o"));
    arguments.push(joined(text("ConnectTimeout="), decimal_bytes(args.connect_timeout).as_slice()));
    arguments.push(text("-o"));
    arguments.push(text("StrictHostKeyChecking=yes"));
    let ghost leading = arguments@.map_values(|a: Vec<u8>| a@);
    assert(leading =~= leading_arguments(*args));
    if let Some(known_hosts) = &args.known_hosts {
        arguments.push(text("-o"));
        arguments.push(path_option("UserKnownHostsFile", known_hosts.as_slice()));
        arguments.push(text("-o"));
        arguments.push(text("GlobalKnownHostsFile=/dev/null"));
    }
    let ghost hosts = arguments@.map_values(|a: Vec<u8>| a@);
    assert(hosts =~= leading_arguments(*args) + known_hosts_arguments(args.known_hosts));
    arguments.push(text("-i"));
    arguments.push(slice_to_vec(args.identity_file.as_slice()));
    arguments.push(text("-o"));
    arguments.push(text("PreferredAuthentications=publickey"));
    arguments.push(text("-o"));
    arguments.push(text("PubkeyAuthentication=yes"));
    arguments.push(text("-o"));
    arguments.push(text("PasswordAuthentication=no"));
    arguments.push(text("-o"));
    arguments.push(text("ControlMaster=no"));
    arguments.push(text("-o"));
    arguments.push(text("ControlPath=none"));
    arguments.push(text("-o"));
    arguments.push(text("ProxyCommand=none"));
    arguments.push(text("-o"));
    arguments.push(text("ProxyJump=none"));
    arguments.push(target);
    arguments.push(text(args.command.as_str()));
    assert(arguments@.map_values(|a: Vec<u8>| a@) =~= ssh_arguments(*args));
    arguments
}

/// Host keys are always checked strictly and passwords are never offered:
/// `StrictHostKeyChecking=yes` is the twelfth argument and
/// `PasswordAuthentication=no` comes eight arguments after the identity
/// file, each given as an `-o` option.
pub proof fn lemma_no_password_and_strict_host_keys(args: Args)
    ensures
        ssh_arguments(args)[10] == utf8("-o"),
        ssh_arguments(args)[11] == utf8("StrictHostKeyChecking=yes"),
        ({
            let i: int = 12 + known_hosts_arguments(args.known_hosts).len() as int;
            &&& ssh_arguments(args)[i] == utf8("-i")
            &&& ssh_arguments(args)[i + 1] == args.identity_file@
            &&& ssh_arguments(args)[i + 6] == utf8("-o")
            &&& ssh_arguments(args)[i + 7] == utf8("PasswordAuthentication=no")
        }),
{
}

/// The identity file is handed to `ssh` byte for byte, right after `-i`,
/// whatever bytes its path holds.
pub proof fn lemma_identity_file_preserved(args: Args)
    ensures
        exists|i: int|
            0 <= i && i + 1 < ssh_arguments(args).len() && ssh_arguments(args)[i] == utf8("-i")
                && #[trigger] ssh_arguments(args)[i + 1] == args.identity_file@,
{
    lemma_no_password_and_strict_host_keys(args);
    let i: int = 12 + known_hosts_arguments(args.known_hosts).len() as int;
    assert(ssh_arguments(args)[i + 1] == args.identity_file@);
}

/// The remote target `user@host` and the remote command are always the last
/// two arguments, so no option can follow them.
pub proof fn lemma_target_and_command_last(args: Args)
    ensures
        ({
            let a = ssh_arguments(args);
            &&& a.len() >= 2
            &&& a[a.len() - 2] == target_spec(args)
            &&& a[a.len() - 1] == encode_utf8(args.command@)
        }),
{
}

/// A given `known_hosts` file replaces OpenSSH's files: it is named in a
/// `UserKnownHostsFile` option and the global file is set to `/dev/null`.
/// Without one, the arguments are the same but for those four, so OpenSSH
/// uses its defaults.
pub proof fn lemma_known_hosts_arguments(args: Args, path: Vec<u8>)
    ensures
        ({
            let with = Args { known_hosts: Some(path), ..args };
            let without = Args { known_hosts: None, ..args };
            let a = ssh_arguments(with);
            &&& a[12] == utf8("-o")
            &&& a[13] == path_option_spec("UserKnownHostsFile", path@)
            &&& a[14] == utf8("-o")
            &&& a[15] == utf8("GlobalKnownHostsFile=/dev/null")
            &&& ssh_arguments(without) == a.subrange(0, 12) + a.subrange(16, a.len() as int)
        }),
{
    let with = Args { known_hosts: Some(path), ..args };
    let without = Args { known_hosts: None, ..args };
    let a = ssh_arguments(with);
    assert(ssh_arguments(without) =~= a.subrange(0, 12) + a.subrange(16, a.len() as int));
}

/// The port and the connect timeout are written in decimal.
pub proof fn lemma_port_and_connect_timeout(args: Args)
    ensures
        ssh_arguments(args)[0] == utf8("-p"),
        ssh_arguments(args)[1] == decimal(args.port as nat),
        ssh_arguments(args)[9] == utf8("ConnectTimeout=") + decimal(args.connect_timeout as nat),
{
}

/// Whatever the settings, the identity file is followed by exactly the
/// options that allow public-key authentication only and forbid connection
/// sharing and proxies, `ProxyJump=none` last; then come the target and the
/// command. Without a `known_hosts` file there are 30 arguments, with one 34.
pub proof fn lemma_public_key_only_and_no_proxies(args: Args)
    ensures
        ({
            let a = ssh_arguments(args);
            let n = a.len() as int;
            &&& n == if args.known_hosts is Some {
                34int
            } else {
                30int
            }
            &&& a.subrange(n - 18, n - 2) == seq![
                utf8("-i"),
                args.identity_file@,
                utf8("-o"),
                utf8("PreferredAuthentications=publickey"),
                utf8("-o"),
                utf8("PubkeyAuthentication=yes"),
                utf8("-o"),
                utf8("PasswordAuthentication=no"),
                utf8("-o"),
                utf8("ControlMaster=no"),
                utf8("-o"),
                utf8("ControlPath=none"),
                utf8("-o"),
                utf8("ProxyCommand=none"),
                utf8("-o"),
                utf8("ProxyJump=none"),
            ]
            &&& a[n - 4] == utf8("-o")
            &&& a[n - 3] == utf8("ProxyJump=none")
        }),
{
    let a = ssh_arguments(args);
    let n = a.len() as int;
    assert(a.subrange(n - 18, n - 2) =~= identity_arguments(args));
}

/// The port is only ever written as the second argument: settings that
/// differ in the port alone give arguments that differ there alone.
pub proof fn lemma_port_changes_only_its_argument(args: Args, port: u16)
    ensures
        ssh_arguments(Args { port, ..args }) == ssh_arguments(args).update(
            1,
            decimal(port as nat),
        ),
{
    assert(ssh_arguments(Args { port, ..args }) =~= ssh_arguments(args).update(
        1,
        decimal(port as nat),
    ));
}

} // verus!
