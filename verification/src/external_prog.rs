//! Running embedded external programs: the start/stop collaborator contract
//! the measurement core consumes. A runner starts an executable payload (or
//! a plain command) and hands back a handle; stopping waits out a bounded
//! timeout before forcing termination. The polling loop here observes
//! cancellation once per bounded wait, so it never blocks indefinitely.

use vstd::prelude::*;

verus! {

use crate::collector::CancelToken;

#[derive(Clone, Copy, Debug, PartialEq, Eq, Structural)]
pub enum ExternalProgError {
    /// The program could not be started.
    StartFailed,
    /// The program exited with a non-zero status, or had to be killed.
    NonZeroExit,
}

/// A started external program.
pub trait ProcessHandle {
    /// Has the program exited? Non-blocking.
    fn poll_finished(&mut self) -> bool;

    /// Stop the program: let it exit on its own or ask it to, wait up to
    /// `timeout_ns`, then force termination. `Ok` exactly when it exited
    /// successfully.
    fn stop_with_timeout(&mut self, timeout_ns: u64) -> Result<(), ExternalProgError>;
}

/// Starts external programs: an executable payload handed over in memory, or
/// a plain command line.
pub trait ProcessRunner {
    type Handle: ProcessHandle;

    fn start(&mut self, payload: &Vec<u8>, args: &Vec<String>) -> Result<
        Self::Handle,
        ExternalProgError,
    >;

    fn start_command(&mut self, argv: &Vec<String>) -> Result<Self::Handle, ExternalProgError>;
}

/// How long a stopped program is given to exit before it is killed.
pub const STOP_TIMEOUT_NS: u64 = 2_000_000_000;

/// How long one wait for program exit lasts, so that cancellation is
/// observed promptly.
pub const POLL_INTERVAL_NS: u64 = 200_000_000;

/// Run an embedded external program to completion: start it, wait for it in
/// bounded steps — breaking off early on cancellation or after `max_polls`
/// waits — then stop it and report whether it exited successfully.
pub fn run_external_program_script<R: ProcessRunner, C: CancelToken>(
    runner: &mut R,
    token: &mut C,
    payload: &Vec<u8>,
    args: &Vec<String>,
    max_polls: u64,
) -> Result<(), ExternalProgError> {
    let mut handle = match runner.start(payload, args) {
        Ok(h) => h,
        Err(e) => {
            return Err(e);
        },
    };
    let mut polls: u64 = 0;
    while polls < max_polls
        invariant
            polls <= max_polls,
        decreases max_polls - polls,
    {
        if handle.poll_finished() {
            break ;
        }
        if token.wait_cancelled_ns(POLL_INTERVAL_NS) {
            break ;
        }
        polls += 1;
    }
    handle.stop_with_timeout(STOP_TIMEOUT_NS)
}

} // verus!
