//! Packet fuzzing: capture traffic while an embedded fuzzing program
//! generates packets, then hand both the capture and the fuzzer's tag file
//! to the result handler.

use vstd::prelude::*;

verus! {

use crate::collector::CancelToken;
use crate::external_prog::{
    run_external_program_script,
    ExternalProgError,
    ProcessHandle,
    ProcessRunner,
    STOP_TIMEOUT_NS,
};
use crate::results_uploader::ResultHandler;

pub struct PacketFuzzingArgs {}

/// Start a capture of all traffic into `dump_file`, run the embedded fuzzing
/// payload (which writes `tag_file`) to completion or cancellation, stop the
/// capture, and hand both files to the result handler.
pub fn run_experiment<R: ProcessRunner, C: CancelToken, H: ResultHandler + ?Sized>(
    _args: PacketFuzzingArgs,
    runner: &mut R,
    token: &mut C,
    handler: &H,
    payload: &Vec<u8>,
    capture_argv: &Vec<String>,
    dump_file: &str,
    tag_file: &str,
) -> Result<(), ExternalProgError> {
    let mut capture = match runner.start_command(capture_argv) {
        Ok(h) => h,
        Err(e) => {
            return Err(e);
        },
    };
    let script_args: Vec<String> = Vec::new();
    let outcome = run_external_program_script(runner, token, payload, &script_args, u64::MAX);
    let _ = capture.stop_with_timeout(STOP_TIMEOUT_NS);
    handler.handle_result(dump_file);
    handler.handle_result(tag_file);
    outcome
}

} // verus!
