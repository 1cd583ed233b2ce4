//! Polls an SSH server until a remote LUKS unlock command succeeds: the
//! command-line model, the OpenSSH argument vector, the reading of SSH's
//! exit, and the polling decisions.
pub mod args;
pub mod attempt;
pub mod clap_calls;
pub mod command_line;
pub mod decimal;
pub mod duration;
pub mod polling;
pub mod ssh;

pub use duration::parse_duration;

use vstd::prelude::*;

verus! {

} // verus!
