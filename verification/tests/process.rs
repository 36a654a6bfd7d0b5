use gifer::process::{exit_verdict, interpret_outcome, ProcessError, ProcessOutcome};

fn exited(code: Option<i32>, stderr: &[u8]) -> ProcessOutcome {
    ProcessOutcome::Exited { code, stderr: stderr.to_vec() }
}

#[test]
fn exit_code_zero_is_success() {
    assert_eq!(exit_verdict(Some(0), String::new()), Ok(()));
    assert_eq!(exit_verdict(Some(0), "warnings only".to_string()), Ok(()));
}

#[test]
fn no_exit_code_is_a_failure() {
    assert_eq!(exit_verdict(None, String::new()), Err(ProcessError::StatusUnavailable));
    assert_eq!(exit_verdict(None, "killed".to_string()), Err(ProcessError::StatusUnavailable));
}

#[test]
fn a_non_zero_exit_code_fails_with_code_and_text() {
    assert_eq!(
        exit_verdict(Some(1), "no such file".to_string()),
        Err(ProcessError::SubprocessFailed { code: 1, stderr: "no such file".to_string() })
    );
    assert_eq!(
        exit_verdict(Some(-9), String::new()),
        Err(ProcessError::SubprocessFailed { code: -9, stderr: String::new() })
    );
    assert_eq!(
        exit_verdict(Some(255), "x".to_string()),
        Err(ProcessError::SubprocessFailed { code: 255, stderr: "x".to_string() })
    );
}

#[test]
fn a_successful_process_is_interpreted_as_success() {
    assert_eq!(interpret_outcome(exited(Some(0), b"")), Ok(()));
    assert_eq!(interpret_outcome(exited(Some(0), b"frame=  10 fps=0.0")), Ok(()));
    assert_eq!(interpret_outcome(exited(Some(0), &[0xff, 0xfe])), Ok(()));
}

#[test]
fn a_failed_process_keeps_its_standard_error() {
    assert_eq!(
        interpret_outcome(exited(Some(2), b"Invalid data found\nwhen processing input\n")),
        Err(ProcessError::SubprocessFailed {
            code: 2,
            stderr: "Invalid data found\nwhen processing input\n".to_string(),
        })
    );
}

#[test]
fn standard_error_beyond_ascii_is_decoded() {
    assert_eq!(
        interpret_outcome(exited(Some(1), "файл не найден ✗".as_bytes())),
        Err(ProcessError::SubprocessFailed { code: 1, stderr: "файл не найден ✗".to_string() })
    );
}

#[test]
fn ill_formed_standard_error_is_decoded_lossily() {
    assert_eq!(
        interpret_outcome(exited(Some(1), &[b'f', 0xff, b'o'])),
        Err(ProcessError::SubprocessFailed { code: 1, stderr: "f\u{FFFD}o".to_string() })
    );
    assert_eq!(
        interpret_outcome(exited(Some(1), &[0xe2, 0x82])),
        Err(ProcessError::SubprocessFailed { code: 1, stderr: "\u{FFFD}".to_string() })
    );
}

#[test]
fn a_signalled_process_has_no_status() {
    assert_eq!(interpret_outcome(exited(None, b"")), Err(ProcessError::StatusUnavailable));
    assert_eq!(
        interpret_outcome(exited(None, b"terminated")),
        Err(ProcessError::StatusUnavailable)
    );
}

#[test]
fn a_process_that_could_not_run_is_a_failure() {
    assert_eq!(
        interpret_outcome(ProcessOutcome::Unavailable {
            reason: "No such file or directory (os error 2)".to_string(),
        }),
        Err(ProcessError::Unavailable {
            reason: "No such file or directory (os error 2)".to_string(),
        })
    );
}

#[test]
fn the_message_of_a_failed_process_holds_code_and_text() {
    let error = ProcessError::SubprocessFailed { code: 1, stderr: "boom".to_string() };
    assert_eq!(error.message(), "Bad status code of 1\nboom");
    let error = ProcessError::SubprocessFailed { code: -11, stderr: "a\nb\n".to_string() };
    assert_eq!(error.message(), "Bad status code of -11\na\nb\n");
    let error = ProcessError::SubprocessFailed { code: 254, stderr: String::new() };
    assert_eq!(error.message(), "Bad status code of 254\n");
}

#[test]
fn the_other_process_messages() {
    assert_eq!(ProcessError::StatusUnavailable.message(), "Unable to interpret status code");
    assert_eq!(
        ProcessError::Unavailable { reason: "permission denied".to_string() }.message(),
        "permission denied"
    );
}
