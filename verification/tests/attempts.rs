use remote_luks_unlocker::args::Args;
use remote_luks_unlocker::attempt::{
    exit_outcome, stop_attempt, AttemptBreak, AttemptError, StderrCapture, MAX_STDERR_BYTES,
};
use remote_luks_unlocker::decimal::{decimal_bytes, parse_u64};
use remote_luks_unlocker::polling::{
    first_executable, is_executable_file, next_poll_step, PollStep,
};

fn test_args() -> Args {
    Args {
        host: "example.test".to_owned(),
        port: 2222,
        user: "root".to_owned(),
        luks_password: "secret".to_owned(),
        identity_file: b"/tmp/id_ed25519".to_vec(),
        known_hosts: None,
        failure_interval: 3,
        success_interval: 60,
        once: false,
        max_runtime: None,
        attempt_timeout: 7,
        connect_timeout: 2,
        command: "unlock-luks unlock".to_owned(),
    }
}

#[test]
fn success_ends_the_attempt() {
    assert!(exit_outcome(true, Some(0), "exit status: 0", b"noise", false).is_ok());
}

#[test]
fn reports_stderr_and_retries_transport_failures() {
    let error = exit_outcome(false, Some(255), "exit status: 255", b"connection refused\n", false)
        .expect_err("exit code 255 is a failure");
    assert!(matches!(error, AttemptError::Retry(_)));
    assert_eq!(error.to_string(), "ssh exited with status exit status: 255: connection refused");
    assert!(error.report().cause.is_none());
}

#[test]
fn remote_command_failures_are_fatal() {
    let error = exit_outcome(false, Some(1), "exit status: 1", b"", false)
        .expect_err("exit code 1 is a failure");
    assert!(matches!(error, AttemptError::Fatal(_)));
    assert_eq!(error.to_string(), "ssh exited with status exit status: 1");

    let error = exit_outcome(false, None, "signal: 9 (SIGKILL)", b"  \n", false)
        .expect_err("a signal is a failure");
    assert!(matches!(error, AttemptError::Fatal(_)));
    assert_eq!(error.to_string(), "ssh exited with status signal: 9 (SIGKILL)");
}

#[test]
fn escapes_and_replaces_unreadable_stderr() {
    let error = exit_outcome(false, Some(2), "exit status: 2", b"tab\there \"q\"", false)
        .expect_err("failure");
    assert_eq!(error.to_string(), "ssh exited with status exit status: 2: tab\\there \\\"q\\\"");

    let error = exit_outcome(false, Some(2), "exit status: 2", &[0xff, 0xfe], false)
        .expect_err("failure");
    assert_eq!(
        error.to_string(),
        "ssh exited with status exit status: 2: SSH produced invalid UTF-8 on stderr"
    );
}

#[test]
fn bounds_long_stderr_in_the_message() {
    let stderr = vec![b'x'; 32768];
    let mut capture = StderrCapture::new();
    for chunk in stderr.chunks(8192) {
        capture.push(chunk);
    }
    let (kept, truncated) = capture.into_parts();
    assert_eq!(kept.len(), MAX_STDERR_BYTES);
    assert!(truncated);

    let error = exit_outcome(false, Some(1), "exit status: 1", &kept, truncated).expect_err("failure");
    let message = error.to_string();
    assert!(message.contains("stderr truncated"));
    assert!(message.len() < 20_000);
}

#[test]
fn marks_stderr_whose_escaped_form_is_too_long() {
    let stderr = vec![0x01u8; 9000];
    let error = exit_outcome(false, Some(1), "exit status: 1", &stderr, false).expect_err("failure");
    let message = error.to_string();
    assert!(message.ends_with(" [stderr truncated]"));
    let shown = message
        .strip_prefix("ssh exited with status exit status: 1: ")
        .and_then(|rest| rest.strip_suffix(" [stderr truncated]"))
        .expect("message layout");
    assert_eq!(shown.chars().count(), MAX_STDERR_BYTES);
}

#[test]
fn capture_keeps_a_prefix() {
    let mut capture = StderrCapture::new();
    capture.push(b"hello ");
    capture.push(b"");
    capture.push(b"world");
    let (kept, truncated) = capture.into_parts();
    assert_eq!(kept, b"hello world".to_vec());
    assert!(!truncated);

    let mut capture = StderrCapture::new();
    capture.push(&vec![b'a'; MAX_STDERR_BYTES - 1]);
    capture.push(b"bc");
    capture.push(b"d");
    let (kept, truncated) = capture.into_parts();
    assert_eq!(kept.len(), MAX_STDERR_BYTES);
    assert_eq!(kept[MAX_STDERR_BYTES - 1], b'b');
    assert!(truncated);
}

#[test]
fn early_stops_are_fatal_except_a_failed_start() {
    let stop = stop_attempt(AttemptBreak::Spawn, "/usr/bin/ssh", "7s", Some("No such file".to_owned()));
    assert!(matches!(stop.error, AttemptError::Retry(_)));
    assert!(!stop.terminate_child);
    assert_eq!(stop.error.to_string(), "failed to execute /usr/bin/ssh");
    assert_eq!(stop.error.report().cause.as_deref(), Some("No such file"));

    let stop = stop_attempt(AttemptBreak::TimedOut, "/usr/bin/ssh", "50ms", None);
    assert!(matches!(stop.error, AttemptError::Fatal(_)));
    assert!(stop.terminate_child);
    assert!(stop.error.to_string().contains("SSH attempt exceeded"));
    assert_eq!(stop.error.to_string(), "SSH attempt exceeded 50ms");

    for how in [AttemptBreak::PassphraseWrite, AttemptBreak::PassphraseEnd] {
        let stop = stop_attempt(how, "ssh", "1s", Some("broken pipe".to_owned()));
        assert!(matches!(stop.error, AttemptError::Fatal(_)));
        assert!(stop.terminate_child);
    }
    let stop = stop_attempt(AttemptBreak::PassphraseWrite, "ssh", "1s", None);
    assert_eq!(
        stop.error.to_string(),
        "failed to send the LUKS passphrase to the remote command"
    );
    let stop = stop_attempt(AttemptBreak::StderrPipe, "ssh", "1s", None);
    assert!(matches!(stop.error, AttemptError::Fatal(_)));
    assert!(!stop.terminate_child);
    let stop = stop_attempt(AttemptBreak::Wait, "/bin/ssh", "1s", Some("io".to_owned()));
    assert_eq!(stop.error.to_string(), "failed waiting for /bin/ssh");
    assert!(matches!(stop.error, AttemptError::Fatal(_)));
    assert!(!stop.terminate_child);
}

#[test]
fn polling_follows_each_outcome() {
    let mut args = test_args();
    assert!(matches!(next_poll_step(&args, &Ok(())), PollStep::Sleep(60)));
    let retry = exit_outcome(false, Some(255), "exit status: 255", b"", false);
    assert!(matches!(next_poll_step(&args, &retry), PollStep::Sleep(3)));
    let fatal = exit_outcome(false, Some(1), "exit status: 1", b"", false);
    assert!(matches!(next_poll_step(&args, &fatal), PollStep::Fail));
    args.once = true;
    assert!(matches!(next_poll_step(&args, &Ok(())), PollStep::Finish));
    assert!(matches!(next_poll_step(&args, &retry), PollStep::Sleep(3)));
}

#[test]
fn recognizes_executable_candidates() {
    assert!(is_executable_file(true, 0o755));
    assert!(is_executable_file(true, 0o100));
    assert!(is_executable_file(true, 0o001));
    assert!(!is_executable_file(true, 0o644));
    assert!(!is_executable_file(false, 0o755));
}

#[test]
fn decimal_digits_round_trip() {
    for n in [0u64, 7, 10, 99, 100, 65535, u64::MAX] {
        let written = decimal_bytes(n);
        assert_eq!(written, n.to_string().into_bytes());
        assert_eq!(parse_u64(&written), Some(n));
    }
    assert_eq!(parse_u64(b"+42"), Some(42));
    assert_eq!(parse_u64(b"+"), None);
    assert_eq!(parse_u64(b""), None);
    assert_eq!(parse_u64(b"4 2"), None);
    assert_eq!(parse_u64(b"18446744073709551616"), None);
}

#[test]
fn unicode_white_space_is_trimmed() {
    let stderr = "\u{a0}\u{3000}\tdenied\u{2028} \r\n".as_bytes();
    let error = exit_outcome(false, Some(1), "exit status: 1", stderr, false).expect_err("failure");
    assert_eq!(error.to_string(), "ssh exited with status exit status: 1: denied");

    let stderr = "\u{b7}kept\u{b7}".as_bytes();
    let error = exit_outcome(false, Some(1), "exit status: 1", stderr, false).expect_err("failure");
    assert_eq!(error.to_string(), "ssh exited with status exit status: 1: \u{b7}kept\u{b7}");
}

#[test]
fn the_first_runnable_candidate_is_chosen() {
    let candidates = vec![None, Some((true, 0o644)), Some((false, 0o755)), Some((true, 0o750)), Some((true, 0o755))];
    assert_eq!(first_executable(&candidates), Some(3));
    assert_eq!(first_executable(&vec![None, Some((true, 0o600))]), None);
    assert_eq!(first_executable(&Vec::new()), None);
}
