use bootstrapper::args::join_args;
use bootstrapper::diag::{diagnostic_line, log_dir_path, log_file_path, logging_failure_message};
use bootstrapper::numeral::{isize_dec_string, u32_dec_string, u64_dec_string};
use bootstrapper::{exit_status, failure_response, launch_failed, SUCCESS_THRESHOLD};

#[test]
fn join_empty_argument_list() {
    let args: Vec<String> = vec![];
    assert_eq!(join_args(&args), "");
}

#[test]
fn join_single_argument() {
    let args = vec!["/autoquit".to_string()];
    assert_eq!(join_args(&args), "/autoquit");
}

#[test]
fn join_two_arguments_single_space() {
    let args = vec!["/autoquit".to_string(), "/nosound".to_string()];
    assert_eq!(join_args(&args), "/autoquit /nosound");
}

#[test]
fn join_keeps_order_and_content() {
    let args = vec!["b".to_string(), "a".to_string(), "c c".to_string(), "".to_string()];
    assert_eq!(join_args(&args), "b a c c ");
}

#[test]
fn threshold_is_thirty_three() {
    assert_eq!(SUCCESS_THRESHOLD, 33);
    assert!(launch_failed(32));
    assert!(!launch_failed(33));
    assert!(!launch_failed(42));
    assert!(launch_failed(0));
    assert!(launch_failed(-1));
}

#[test]
fn numerals_render_exactly() {
    assert_eq!(u64_dec_string(0), "0");
    assert_eq!(u64_dec_string(9), "9");
    assert_eq!(u64_dec_string(10), "10");
    assert_eq!(u64_dec_string(42), "42");
    assert_eq!(u64_dec_string(18446744073709551615), "18446744073709551615");
    assert_eq!(u32_dec_string(4294967295), "4294967295");
    assert_eq!(u32_dec_string(2), "2");
    assert_eq!(isize_dec_string(0), "0");
    assert_eq!(isize_dec_string(33), "33");
    assert_eq!(isize_dec_string(-5), "-5");
    assert_eq!(isize_dec_string(isize::MIN), isize::MIN.to_string());
    assert_eq!(isize_dec_string(isize::MAX), isize::MAX.to_string());
}

#[test]
fn diagnostic_line_carries_message_and_codes() {
    let line = diagnostic_line("The system cannot find the file specified.", 2, 2);
    assert_eq!(
        line,
        "Bootstrapper Error MinEdLauncher.exe: The system cannot find the file specified. result: 2 error: 2"
    );
}

#[test]
fn diagnostic_line_with_negative_result_code() {
    let line = diagnostic_line("Access is denied.", -7, 5);
    assert_eq!(line, "Bootstrapper Error MinEdLauncher.exe: Access is denied. result: -7 error: 5");
}

#[test]
fn success_code_forty_two_writes_nothing() {
    let args = vec!["/autoquit".to_string(), "/nosound".to_string()];
    assert_eq!(join_args(&args), "/autoquit /nosound");
    assert_eq!(failure_response(42, 0, ""), None);
    assert_eq!(exit_status(false, false), 0);
}

#[test]
fn failure_code_two_yields_one_diagnostic_line() {
    let args: Vec<String> = vec![];
    assert_eq!(join_args(&args), "");
    let response = failure_response(2, 2, "The system cannot find the file specified.");
    assert_eq!(
        response,
        Some(
            "Bootstrapper Error MinEdLauncher.exe: The system cannot find the file specified. result: 2 error: 2"
                .to_string()
        )
    );
    assert_eq!(exit_status(true, false), 0);
}

#[test]
fn boundary_code_thirty_three_is_success() {
    assert_eq!(failure_response(33, 0, "unused"), None);
    assert_eq!(failure_response(32, 8, "Not enough memory resources are available.").is_some(), true);
}

#[test]
fn log_paths_under_user_data_directory() {
    let base = "C:\\Users\\cmdr\\AppData\\Local";
    assert_eq!(log_dir_path(base), "C:\\Users\\cmdr\\AppData\\Local/min-ed-launcher");
    assert_eq!(
        log_file_path(base),
        "C:\\Users\\cmdr\\AppData\\Local/min-ed-launcher/min-ed-launcher.log"
    );
}

#[test]
fn log_file_sits_inside_log_dir() {
    let base = "base";
    let dir = log_dir_path(base);
    let file = log_file_path(base);
    assert_eq!(file, format!("{}/min-ed-launcher.log", dir));
}

#[test]
fn logging_failure_names_attempted_path() {
    let path = "C:\\Users\\cmdr\\AppData\\Local/min-ed-launcher/min-ed-launcher.log";
    let text = logging_failure_message(path, "Access is denied. (os error 5)");
    assert_eq!(
        text,
        "Couldn't write to C:\\Users\\cmdr\\AppData\\Local/min-ed-launcher/min-ed-launcher.log: Access is denied. (os error 5)"
    );
    assert!(text.contains(path));
}

#[test]
fn directory_creation_failure_still_exits_zero() {
    let path = "/read-only/min-ed-launcher/min-ed-launcher.log";
    let text = logging_failure_message(path, "Read-only file system (os error 30)");
    assert!(text.contains(path));
    assert_eq!(exit_status(true, true), 0);
}

#[test]
fn exit_status_is_zero_on_every_path() {
    assert_eq!(exit_status(false, false), 0);
    assert_eq!(exit_status(false, true), 0);
    assert_eq!(exit_status(true, false), 0);
    assert_eq!(exit_status(true, true), 0);
}
