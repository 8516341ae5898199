//! Reload the virtual-switch control plane by running an embedded helper
//! program: a debugging aid when kernel tracing misbehaves.

use vstd::prelude::*;

verus! {

use crate::collector::CancelToken;
use crate::external_prog::{run_external_program_script, ExternalProgError, ProcessRunner};

pub struct ReloadOvnArgs {}

/// Run the embedded reload payload to completion (or cancellation).
pub fn run_experiment<R: ProcessRunner, C: CancelToken>(
    _args: ReloadOvnArgs,
    runner: &mut R,
    token: &mut C,
    payload: &Vec<u8>,
) -> Result<(), ExternalProgError> {
    let script_args: Vec<String> = Vec::new();
    run_external_program_script(runner, token, payload, &script_args, u64::MAX)
}

} // verus!
