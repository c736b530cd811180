//! Diagnostic recording: the single line appended to the log file (and
//! mirrored to the standard error stream) when the launch fails, the log
//! file's location under the per-user data directory, and the description
//! printed when the log itself cannot be written.

use crate::numeral::{dec_numeral, isize_dec_string, signed_dec_numeral, u32_dec_string};
use vstd::prelude::*;
use vstd::string::StringExecFns;

verus! {

/// The line recorded when a launch fails: a fixed prefix naming the target
/// executable, the OS error message, then the raw shell-open result code and
/// the raw OS error code.
pub open spec fn diagnostic_line_spec(msg: Seq<char>, result_code: int, error_code: nat) -> Seq<
    char,
> {
    "Bootstrapper Error MinEdLauncher.exe: "@ + msg + " result: "@ + signed_dec_numeral(result_code)
        + " error: "@ + dec_numeral(error_code)
}

/// Builds the diagnostic line for a failed launch from the OS error message,
/// the shell-open result code, and the OS error code.
pub fn diagnostic_line(msg: &str, result_code: isize, error_code: u32) -> (line: String)
    ensures
        line@ == diagnostic_line_spec(msg@, result_code as int, error_code as nat),
{
    let mut line = "Bootstrapper Error MinEdLauncher.exe: ".to_owned();
    line.append(msg);
    line.append(" result: ");
    let rendered_result = isize_dec_string(result_code);
    line.append(rendered_result.as_str());
    line.append(" error: ");
    let rendered_error = u32_dec_string(error_code);
    line.append(rendered_error.as_str());
    proof {
        assert(line@ =~= diagnostic_line_spec(msg@, result_code as int, error_code as nat));
    }
    line
}

/// The directory holding the log file, under the per-user local
/// application-data directory.
pub open spec fn log_dir_path_spec(base: Seq<char>) -> Seq<char> {
    base + "/min-ed-launcher"@
}

/// The log file's full path under the per-user local application-data
/// directory.
pub open spec fn log_file_path_spec(base: Seq<char>) -> Seq<char> {
    base + "/min-ed-launcher/min-ed-launcher.log"@
}

/// Builds the path of the directory that diagnostic recording ensures exists
/// before the log file is opened.
pub fn log_dir_path(base_dir: &str) -> (path: String)
    ensures
        path@ == log_dir_path_spec(base_dir@),
{
    let mut path = base_dir.to_owned();
    path.append("/min-ed-launcher");
    proof {
        assert(path@ =~= log_dir_path_spec(base_dir@));
    }
    path
}

/// Builds the log file's path.
pub fn log_file_path(base_dir: &str) -> (path: String)
    ensures
        path@ == log_file_path_spec(base_dir@),
{
    let mut path = base_dir.to_owned();
    path.append("/min-ed-launcher/min-ed-launcher.log");
    proof {
        assert(path@ =~= log_file_path_spec(base_dir@));
    }
    path
}

/// The log file lies directly inside the directory that diagnostic recording
/// creates: its path is that directory's path extended by one final path
/// component, so creating the directory (with any missing parents) is exactly
/// what must happen before the file's first open.
pub proof fn lemma_log_file_inside_log_dir(base: Seq<char>)
    ensures
        log_file_path_spec(base) == log_dir_path_spec(base) + "/min-ed-launcher.log"@,
{
    reveal_strlit("/min-ed-launcher");
    reveal_strlit("/min-ed-launcher.log");
    reveal_strlit("/min-ed-launcher/min-ed-launcher.log");
    assert(log_file_path_spec(base) =~= log_dir_path_spec(base) + "/min-ed-launcher.log"@);
}

/// The description printed to the standard error stream when the log file
/// cannot be written: it names the attempted path and the reason.
pub open spec fn logging_failure_message_spec(path: Seq<char>, reason: Seq<char>) -> Seq<char> {
    "Couldn't write to "@ + path + ": "@ + reason
}

/// Builds the description of a diagnostics-infrastructure failure from the
/// attempted log-file path and the reason the write failed.
pub fn logging_failure_message(attempted_path: &str, reason: &str) -> (text: String)
    ensures
        text@ == logging_failure_message_spec(attempted_path@, reason@),
{
    let mut text = "Couldn't write to ".to_owned();
    text.append(attempted_path);
    text.append(": ");
    text.append(reason);
    proof {
        assert(text@ =~= logging_failure_message_spec(attempted_path@, reason@));
    }
    text
}

/// The logging-failure description names the attempted path: the path appears
/// verbatim, right after the fixed prefix.
pub proof fn lemma_failure_message_names_path(path: Seq<char>, reason: Seq<char>)
    ensures
        logging_failure_message_spec(path, reason).subrange(18, 18 + path.len() as int) == path,
{
    reveal_strlit("Couldn't write to ");
    assert(logging_failure_message_spec(path, reason).subrange(18, 18 + path.len() as int)
        =~= path);
}

/// A log file modelled as the sequence of lines it holds, oldest first;
/// recording a diagnostic appends one line at the end.
pub open spec fn log_with_appended_line(log: Seq<Seq<char>>, line: Seq<char>) -> Seq<Seq<char>> {
    log.push(line)
}

/// Appending a diagnostic line never truncates or reorders what the log
/// already holds: every prior line keeps its place and its content, and
/// exactly one line is added, at the end.
pub proof fn lemma_append_keeps_prior_lines(log: Seq<Seq<char>>, line: Seq<char>)
    ensures
        log_with_appended_line(log, line).len() == log.len() + 1,
        forall|i: int|
            0 <= i < log.len() ==> log_with_appended_line(log, line)[i] == log[i],
        log_with_appended_line(log, line)[log.len() as int] == line,
{
}

} // verus!
