//! The settings of one run of the polling client.
use vstd::prelude::*;

verus! {

/// What the command line (or its `REMOTE_LUKS_*` environment variables)
/// configures. Durations are whole seconds; paths are the bytes of the
/// operating-system path.
#[derive(Debug)]
pub struct Args {
    /// Hostname or IP address of the machine running Dropbear/OpenSSH.
    pub host: String,
    /// SSH port.
    pub port: u16,
    /// SSH username.
    pub user: String,
    /// Passphrase sent to the remote unlock command.
    pub luks_password: String,
    /// Private SSH identity file whose public key is authorized on the server.
    pub identity_file: Vec<u8>,
    /// `known_hosts` file used to verify the remote host key; OpenSSH's own
    /// known-hosts files when absent.
    pub known_hosts: Option<Vec<u8>>,
    /// Seconds to wait after a failed SSH attempt before retrying.
    pub failure_interval: u64,
    /// Seconds to wait between successful remote command runs in continuous mode.
    pub success_interval: u64,
    /// Retry until the first successful unlock, then stop.
    pub once: bool,
    /// Seconds after which polling stops with an error.
    pub max_runtime: Option<u64>,
    /// Seconds allowed for one SSH connection and command attempt.
    pub attempt_timeout: u64,
    /// Seconds OpenSSH may spend establishing one connection.
    pub connect_timeout: u64,
    /// Remote command to run after authentication.
    pub command: String,
}

} // verus!
