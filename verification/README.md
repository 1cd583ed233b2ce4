# remote-luks-unlocker

Polls an SSH server (typically Dropbear in an initramfs) and runs a remote
LUKS unlock command, sending the passphrase on its standard input, until the
command succeeds.

- `src/` is the verified library:
  - `duration.rs` reads durations such as `30s`, `10m`, `2h`, `1d`;
    `decimal.rs` holds the decimal syntax it builds on;
  - `command_line.rs` defines the command line as a table of plain values
    (names, environment variables, defaults, value kinds), which
    `clap_calls.rs` turns into a `clap::Command` to parse with, and reads
    the matched values into `Args` (`args.rs`);
  - `ssh.rs` builds the OpenSSH argument vector: public-key authentication
    only, strict host-key checking, no multiplexing or proxies;
  - `attempt.rs` captures SSH's standard error and decides what SSH's exit
    (or an attempt that stopped early) means;
  - `polling.rs` decides what follows an attempt, and which `ssh` on the
    search path to run.
- `app/main.rs` is the program: it runs the processes, timers and signals
  with tokio and logs with tracing, asking the library at every decision.
- `tests/` exercises the library.
