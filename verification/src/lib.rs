//! Launcher shim logic: joins command-line arguments into the string handed
//! to the shell-open call, classifies the call's result code, and builds the
//! diagnostic line and log-file path used when the launch fails.

use vstd::prelude::*;

pub mod args;
pub mod diag;
pub mod numeral;

verus! {

/// Shell-open result codes below this value report a failed dispatch; values
/// at or above it stand for a valid handle and mean the launch was dispatched.
pub const SUCCESS_THRESHOLD: isize = 33;

/// Decides whether a shell-open result code reports a failed dispatch.
pub fn launch_failed(result_code: isize) -> (failed: bool)
    ensures
        failed == (result_code < SUCCESS_THRESHOLD),
{
    result_code < SUCCESS_THRESHOLD
}

/// What the shim does once the shell-open call has returned, given the result
/// code and the OS's last-error code and message: nothing when the result is
/// at or above the success threshold; otherwise exactly one diagnostic line,
/// to be appended to the log file and mirrored to the standard error stream.
pub fn failure_response(result_code: isize, error_code: u32, msg: &str) -> (response: Option<
    String,
>)
    ensures
        result_code >= SUCCESS_THRESHOLD ==> response is None,
        result_code < SUCCESS_THRESHOLD ==> (response matches Some(line) && line@
            == diag::diagnostic_line_spec(msg@, result_code as int, error_code as nat)),
{
    if launch_failed(result_code) {
        Some(diag::diagnostic_line(msg, result_code, error_code))
    } else {
        None
    }
}

/// The process exit status, which is zero on every path: a failed launch is
/// reported through the log file and the console, and a failed diagnostic
/// recording through the console alone — neither ever turns into a non-zero
/// exit.
pub fn exit_status(launch_failed: bool, diagnostics_failed: bool) -> (status: i32)
    ensures
        status == 0,
{
    let _ = launch_failed;
    let _ = diagnostics_failed;
    0
}

} // verus!
