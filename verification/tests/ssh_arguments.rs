use remote_luks_unlocker::args::Args;
use remote_luks_unlocker::ssh::{build_ssh_arguments, path_option};

fn test_args() -> Args {
    Args {
        host: "example.test".to_owned(),
        port: 2222,
        user: "root".to_owned(),
        luks_password: "secret".to_owned(),
        identity_file: b"/tmp/id_ed25519".to_vec(),
        known_hosts: Some(b"/tmp/known_hosts".to_vec()),
        failure_interval: 3,
        success_interval: 60,
        once: false,
        max_runtime: None,
        attempt_timeout: 7,
        connect_timeout: 2,
        command: "unlock-luks unlock".to_owned(),
    }
}

fn bytes(words: &[&str]) -> Vec<Vec<u8>> {
    words.iter().map(|word| word.as_bytes().to_vec()).collect()
}

#[test]
fn builds_public_key_ssh_arguments_with_host_key_verification() {
    let arguments = build_ssh_arguments(&test_args());

    assert_eq!(
        arguments,
        bytes(&[
            "-p",
            "2222",
            "-o",
            "BatchMode=yes",
            "-o",
            "NumberOfPasswordPrompts=1",
            "-o",
            "KbdInteractiveAuthentication=no",
            "-o",
            "ConnectTimeout=2",
            "-o",
            "StrictHostKeyChecking=yes",
            "-o",
            "UserKnownHostsFile=/tmp/known_hosts",
            "-o",
            "GlobalKnownHostsFile=/dev/null",
            "-i",
            "/tmp/id_ed25519",
            "-o",
            "PreferredAuthentications=publickey",
            "-o",
            "PubkeyAuthentication=yes",
            "-o",
            "PasswordAuthentication=no",
            "-o",
            "ControlMaster=no",
            "-o",
            "ControlPath=none",
            "-o",
            "ProxyCommand=none",
            "-o",
            "ProxyJump=none",
            "root@example.test",
            "unlock-luks unlock",
        ])
    );
}

#[test]
fn uses_openssh_known_hosts_defaults_when_not_configured() {
    let mut args = test_args();
    args.known_hosts = None;

    let arguments = build_ssh_arguments(&args);

    assert!(arguments
        .iter()
        .all(|argument| !argument.starts_with(b"UserKnownHostsFile=")));
    assert!(arguments
        .iter()
        .all(|argument| argument.as_slice() != b"GlobalKnownHostsFile=/dev/null"));
}

#[test]
fn builds_public_key_and_known_hosts_arguments() {
    let mut args = test_args();
    args.identity_file = b"/tmp/id_ed25519".to_vec();
    args.known_hosts = Some(b"/tmp/known_hosts".to_vec());

    let arguments = build_ssh_arguments(&args);

    assert!(arguments
        .windows(2)
        .any(|pair| pair[0].as_slice() == b"-i" && pair[1].as_slice() == b"/tmp/id_ed25519"));
    let known_hosts_index = arguments
        .iter()
        .position(|argument| argument.as_slice() == b"UserKnownHostsFile=/tmp/known_hosts")
        .expect("known_hosts argument is missing");
    assert_eq!(arguments[known_hosts_index - 1].as_slice(), b"-o");
    assert!(arguments
        .iter()
        .any(|argument| argument.as_slice() == b"PreferredAuthentications=publickey"));
    assert!(arguments
        .iter()
        .any(|argument| argument.as_slice() == b"PasswordAuthentication=no"));
    assert!(!arguments
        .iter()
        .any(|argument| argument.as_slice() == b"StrictHostKeyChecking=no"));
}

#[test]
fn preserves_non_utf8_identity_paths() {
    let mut args = test_args();
    let identity_file = vec![b'/', b't', b'm', b'p', b'/', 0x80];
    args.identity_file = identity_file.clone();

    let arguments = build_ssh_arguments(&args);
    let identity_index = arguments
        .iter()
        .position(|argument| argument.as_slice() == b"-i")
        .expect("identity argument is missing");
    assert_eq!(arguments[identity_index + 1], identity_file);
}

#[test]
fn configures_connect_timeout() {
    let mut args = test_args();
    args.connect_timeout = 11;

    let arguments = build_ssh_arguments(&args);

    assert!(arguments
        .iter()
        .any(|argument| argument.as_slice() == b"ConnectTimeout=11"));
}

#[test]
fn drops_exactly_the_known_hosts_options_without_a_file() {
    let with = build_ssh_arguments(&test_args());
    let mut args = test_args();
    args.known_hosts = None;
    let without = build_ssh_arguments(&args);

    let mut expected = with[..12].to_vec();
    expected.extend_from_slice(&with[16..]);
    assert_eq!(without, expected);
}

#[test]
fn renders_large_ports_and_timeouts_in_decimal() {
    let mut args = test_args();
    args.port = 65535;
    args.connect_timeout = 1_000_000_007;

    let arguments = build_ssh_arguments(&args);

    assert_eq!(arguments[1].as_slice(), b"65535");
    assert_eq!(arguments[9].as_slice(), b"ConnectTimeout=1000000007");
}

#[test]
fn puts_target_and_command_last() {
    let mut args = test_args();
    args.user = "admin".to_owned();
    args.host = "10.0.0.7".to_owned();
    args.command = "cryptroot-unlock".to_owned();

    let arguments = build_ssh_arguments(&args);
    let n = arguments.len();

    assert_eq!(arguments[n - 2].as_slice(), b"admin@10.0.0.7");
    assert_eq!(arguments[n - 1].as_slice(), b"cryptroot-unlock");
}

#[test]
fn joins_path_options_with_an_equals_sign() {
    assert_eq!(path_option("UserKnownHostsFile", b"/k"), b"UserKnownHostsFile=/k".to_vec());
    assert_eq!(path_option("X", &[0xff]), vec![b'X', b'=', 0xff]);
}
