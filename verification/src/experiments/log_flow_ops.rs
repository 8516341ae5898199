//! Trace kernel flow-table operations: run the embedded tracing program and
//! hand its output file to the result handler.

use vstd::prelude::*;

verus! {

use crate::collector::CancelToken;
use crate::external_prog::{run_external_program_script, ExternalProgError, ProcessRunner};
use crate::results_uploader::ResultHandler;

pub struct LogFlowOpArgs {}

/// Run the embedded tracing payload with the given arguments, then hand the
/// trace file to the result handler whether or not the trace succeeded.
pub fn run_experiment<R: ProcessRunner, C: CancelToken, H: ResultHandler + ?Sized>(
    _args: LogFlowOpArgs,
    runner: &mut R,
    token: &mut C,
    handler: &H,
    payload: &Vec<u8>,
    script_args: &Vec<String>,
    trace_file: &str,
) -> Result<(), ExternalProgError> {
    let outcome = run_external_program_script(runner, token, payload, script_args, u64::MAX);
    handler.handle_result(trace_file);
    outcome
}

} // verus!
