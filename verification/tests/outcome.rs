use move_fmt::{
    classify, interpret, Completion, ConfigOverrides, EmitMode, Fmt, FmtCommand, FormatError,
    Invocation, ProcessOutput,
};

fn command() -> FmtCommand {
    let mut config = ConfigOverrides::new();
    config.insert("max_width".to_string(), "100".to_string());
    FmtCommand::new(EmitMode::Diff, Some("a.move".to_string()), None, None, config, false, false)
        .unwrap()
}

fn output(status: Option<i32>, stdout: &[u8], stderr: &[u8]) -> ProcessOutput {
    ProcessOutput { status, stdout: stdout.to_vec(), stderr: stderr.to_vec() }
}

fn failure(error: FormatError) -> Completion {
    Completion { result: Err(error), diagnostic: None }
}

#[test]
fn success_reports_ok_and_passes_the_output_on() {
    let completion = interpret(output(Some(0), b"reformatted 2 files", b""));
    assert_eq!(completion.result, Ok("ok".to_string()));
    assert_eq!(completion.diagnostic, Some("reformatted 2 files".to_string()));
}

#[test]
fn a_failing_formatter_is_reported_with_status_and_stderr() {
    let completion = interpret(output(Some(1), b"", b"parse error at line 4"));
    assert_eq!(
        completion,
        failure(FormatError::ToolExecutionError {
            status: Some(1),
            stderr: "parse error at line 4".to_string(),
        })
    );
}

#[test]
fn an_unresolved_executable_ends_the_invocation() {
    assert_eq!(command().prepare(None), Err(FormatError::ToolNotFound));
}

#[test]
fn a_resolved_executable_is_started_with_the_arguments() {
    let step = command().prepare(Some("/usr/local/bin/movefmt".to_string()));
    assert_eq!(
        step,
        Ok(Invocation {
            program: "/usr/local/bin/movefmt".to_string(),
            arguments: vec![
                "--emit=diff".to_string(),
                "--config=max_width=100".to_string(),
                "--file-path=a.move".to_string(),
            ],
        })
    );
}

#[test]
fn a_child_that_did_not_start_is_a_spawn_error() {
    let invocation = command().prepare(Some("/opt/movefmt".to_string())).unwrap();
    let completion = invocation.conclude(Err("No such file or directory (os error 2)".to_string()));
    assert_eq!(
        completion,
        failure(FormatError::ProcessSpawnError {
            path: "/opt/movefmt".to_string(),
            os_error: "No such file or directory (os error 2)".to_string(),
        })
    );
}

#[test]
fn conclude_interprets_the_output_of_a_child_that_ran() {
    let invocation = command().prepare(Some("movefmt".to_string())).unwrap();
    let completion = invocation.conclude(Ok(output(Some(0), b"done\n", b"warning")));
    assert_eq!(
        completion,
        Completion { result: Ok("ok".to_string()), diagnostic: Some("done\n".to_string()) }
    );
    let completion = invocation.conclude(Ok(output(Some(2), b"done\n", b"warning")));
    assert_eq!(
        completion,
        failure(FormatError::ToolExecutionError { status: Some(2), stderr: "warning".to_string() })
    );
}

#[test]
fn output_that_is_not_utf8_is_a_decode_error() {
    let bytes = vec![b'o', b'k', 0xff, b'!'];
    let cause = String::from_utf8(bytes.clone()).unwrap_err().to_string();
    let completion = interpret(output(Some(0), &bytes, b"ignored"));
    assert_eq!(completion, failure(FormatError::OutputDecodeError { cause }));
}

#[test]
fn truncated_output_is_a_decode_error() {
    let bytes = vec![b'a', 0xe2, 0x82];
    let cause = String::from_utf8(bytes.clone()).unwrap_err().to_string();
    let completion = interpret(output(Some(0), &bytes, b""));
    assert_eq!(completion, failure(FormatError::OutputDecodeError { cause }));
}

#[test]
fn stderr_that_is_not_utf8_is_replaced_by_the_empty_text() {
    let completion = interpret(output(Some(3), b"fine", &[0xc3, 0x28]));
    assert_eq!(
        completion,
        failure(FormatError::ToolExecutionError { status: Some(3), stderr: String::new() })
    );
}

#[test]
fn multibyte_output_is_decoded() {
    let completion = interpret(output(Some(0), "r\u{e9}sum\u{e9} \u{2713} \u{10348}".as_bytes(), b""));
    assert_eq!(completion.result, Ok("ok".to_string()));
    assert_eq!(completion.diagnostic, Some("r\u{e9}sum\u{e9} \u{2713} \u{10348}".to_string()));
    let completion = interpret(output(Some(1), b"", "\u{2717} erreur".as_bytes()));
    assert_eq!(
        completion,
        failure(FormatError::ToolExecutionError {
            status: Some(1),
            stderr: "\u{2717} erreur".to_string(),
        })
    );
}

#[test]
fn empty_output_of_a_success_is_passed_on_as_empty() {
    let completion = interpret(output(Some(0), b"", b"noise"));
    assert_eq!(completion, Completion { result: Ok("ok".to_string()), diagnostic: Some(String::new()) });
}

#[test]
fn a_child_ended_by_a_signal_has_failed() {
    let completion = interpret(output(None, b"partial", b"killed"));
    assert_eq!(
        completion,
        failure(FormatError::ToolExecutionError { status: None, stderr: "killed".to_string() })
    );
}

#[test]
fn a_negative_exit_code_is_a_failure() {
    let completion = interpret(output(Some(-1), b"", b""));
    assert_eq!(
        completion,
        failure(FormatError::ToolExecutionError { status: Some(-1), stderr: String::new() })
    );
}

#[test]
fn classify_after_a_success() {
    assert_eq!(
        classify(Some(0), Ok("report".to_string())),
        Completion { result: Ok("ok".to_string()), diagnostic: Some("report".to_string()) }
    );
    assert_eq!(
        classify(Some(0), Err("invalid utf-8".to_string())),
        failure(FormatError::OutputDecodeError { cause: "invalid utf-8".to_string() })
    );
}

#[test]
fn classify_after_a_failure() {
    assert_eq!(
        classify(Some(101), Ok("panicked".to_string())),
        failure(FormatError::ToolExecutionError { status: Some(101), stderr: "panicked".to_string() })
    );
    assert_eq!(
        classify(Some(101), Err("invalid utf-8".to_string())),
        failure(FormatError::ToolExecutionError { status: Some(101), stderr: String::new() })
    );
    assert_eq!(
        classify(None, Ok("terminated".to_string())),
        failure(FormatError::ToolExecutionError { status: None, stderr: "terminated".to_string() })
    );
}

#[test]
fn the_command_is_named_fmt() {
    let fmt = Fmt { command: command() };
    assert_eq!(fmt.command_name(), "Fmt");
}
