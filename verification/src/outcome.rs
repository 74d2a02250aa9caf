//! From a request to the child process and back: what is started, and what the
//! caller is told once the child process has ended or could not be started.
//!
//! Nothing here starts a process. The caller resolves the formatter's path,
//! hands it to [`FmtCommand::prepare`], runs what comes back, and hands the
//! child's exit status and captured output to [`Invocation::conclude`].

use vstd::prelude::*;
use vstd::utf8::{decode_utf8, valid_utf8};
use crate::request::FmtCommand;

verus! {

/// The ways in which an invocation fails.
#[derive(Debug, PartialEq, Eq)]
pub enum FormatError {
    /// The formatter's executable could not be located.
    ToolNotFound,
    /// The operating system did not start the child process.
    ProcessSpawnError { path: String, os_error: String },
    /// The formatter ran and ended with a status other than success.
    ToolExecutionError { status: Option<i32>, stderr: String },
    /// The formatter succeeded, but what it printed is not UTF-8.
    OutputDecodeError { cause: String },
}

/// A failure as the contracts see it.
pub enum FormatErrorView {
    ToolNotFound,
    ProcessSpawnError { path: Seq<char>, os_error: Seq<char> },
    ToolExecutionError { status: Option<i32>, stderr: Seq<char> },
    OutputDecodeError { cause: Seq<char> },
}

impl View for FormatError {
    type V = FormatErrorView;

    open spec fn view(&self) -> FormatErrorView {
        match self {
            FormatError::ToolNotFound => FormatErrorView::ToolNotFound,
            FormatError::ProcessSpawnError { path, os_error } => FormatErrorView::ProcessSpawnError {
                path: path@,
                os_error: os_error@,
            },
            FormatError::ToolExecutionError { status, stderr } => {
                FormatErrorView::ToolExecutionError { status: *status, stderr: stderr@ }
            },
            FormatError::OutputDecodeError { cause } => FormatErrorView::OutputDecodeError {
                cause: cause@,
            },
        }
    }
}

/// The child process to start: the executable and its arguments.
#[derive(Debug, PartialEq, Eq)]
pub struct Invocation {
    pub program: String,
    pub arguments: Vec<String>,
}

/// An invocation as the contracts see it.
pub struct InvocationView {
    pub program: Seq<char>,
    pub arguments: Seq<Seq<char>>,
}

impl View for Invocation {
    type V = InvocationView;

    open spec fn view(&self) -> InvocationView {
        InvocationView { program: self.program@, arguments: self.arguments.deep_view() }
    }
}

/// What is known of a child process that has ended: its exit code, which is
/// missing where a signal ended it, and all that it wrote to its two streams.
#[derive(Debug, PartialEq, Eq)]
pub struct ProcessOutput {
    pub status: Option<i32>,
    pub stdout: Vec<u8>,
    pub stderr: Vec<u8>,
}

/// The output of a child process as the contracts see it.
pub struct ProcessOutputView {
    pub status: Option<i32>,
    pub stdout: Seq<u8>,
    pub stderr: Seq<u8>,
}

impl View for ProcessOutput {
    type V = ProcessOutputView;

    open spec fn view(&self) -> ProcessOutputView {
        ProcessOutputView { status: self.status, stdout: self.stdout@, stderr: self.stderr@ }
    }
}

/// How an invocation ended: the result for the caller, and the text that goes
/// to the diagnostic stream, where there is any.
#[derive(Debug, PartialEq, Eq)]
pub struct Completion {
    pub result: Result<String, FormatError>,
    pub diagnostic: Option<String>,
}

/// A completion as the contracts see it.
pub struct CompletionView {
    pub result: Result<Seq<char>, FormatErrorView>,
    pub diagnostic: Option<Seq<char>>,
}

impl View for Completion {
    type V = CompletionView;

    open spec fn view(&self) -> CompletionView {
        CompletionView {
            result: match self.result {
                Ok(report) => Ok(report@),
                Err(error) => Err(error@),
            },
            diagnostic: self.diagnostic.deep_view(),
        }
    }
}

/// What the standard library says of bytes that are not UTF-8, when it refuses
/// to make a string of them.
pub uninterp spec fn utf8_error_text(bytes: Seq<u8>) -> Seq<char>;

/// What decoding bytes as UTF-8 gives: the text, or the reason for which there
/// is none.
pub open spec fn decoded(bytes: Seq<u8>) -> Result<Seq<char>, Seq<char>> {
    if valid_utf8(bytes) {
        Ok(decode_utf8(bytes))
    } else {
        Err(utf8_error_text(bytes))
    }
}

/// The view of a decoding.
pub open spec fn decoding_view(decoding: Result<String, String>) -> Result<Seq<char>, Seq<char>> {
    match decoding {
        Ok(text) => Ok(text@),
        Err(cause) => Err(cause@),
    }
}

/// A child process succeeded when it ended by itself with the exit code 0.
pub open spec fn succeeded(status: Option<i32>) -> bool {
    status == Some(0i32)
}

/// The failure without diagnostic text.
pub open spec fn failed(error: FormatErrorView) -> CompletionView {
    CompletionView { result: Err(error), diagnostic: None }
}

/// How an invocation ends, given the exit status and the decoding of the
/// stream that counts for it: standard output after a success, standard error
/// otherwise.
///
/// After a success the decoded output goes to the diagnostic stream and the
/// caller is told `ok`; output that cannot be decoded is a failure. After a
/// failure the caller gets the status and what standard error held, or the
/// empty text where that cannot be decoded.
pub open spec fn classified(
    status: Option<i32>,
    decoding: Result<Seq<char>, Seq<char>>,
) -> CompletionView {
    if succeeded(status) {
        match decoding {
            Ok(text) => CompletionView { result: Ok("ok"@), diagnostic: Some(text) },
            Err(cause) => failed(FormatErrorView::OutputDecodeError { cause }),
        }
    } else {
        failed(
            FormatErrorView::ToolExecutionError {
                status,
                stderr: match decoding {
                    Ok(text) => text,
                    Err(_) => Seq::empty(),
                },
            },
        )
    }
}

/// How an invocation ends whose child process has ended with `output`.
pub open spec fn interpretation(output: ProcessOutputView) -> CompletionView {
    if succeeded(output.status) {
        classified(output.status, decoded(output.stdout))
    } else {
        classified(output.status, decoded(output.stderr))
    }
}

/// The view of what the caller found when it tried to run the child process:
/// its output, or the operating system's words where it was not started.
pub open spec fn report_view(report: Result<ProcessOutput, String>) -> Result<
    ProcessOutputView,
    Seq<char>,
> {
    match report {
        Ok(output) => Ok(output@),
        Err(os_error) => Err(os_error@),
    }
}

/// How the invocation of `program` ends, given what came of running it.
pub open spec fn conclusion(
    program: Seq<char>,
    report: Result<ProcessOutputView, Seq<char>>,
) -> CompletionView {
    match report {
        Ok(output) => interpretation(output),
        Err(os_error) => failed(FormatErrorView::ProcessSpawnError { path: program, os_error }),
    }
}

/// Decodes bytes as UTF-8 with `String::from_utf8`.
///
/// Trusted: the standard library accepts exactly the byte strings that are
/// valid UTF-8 and then gives the string that they encode; for any other byte
/// string it gives an error, and the error's text, taken here in place of the
/// error, depends on the bytes alone.
#[verifier::external_body]
fn decode(bytes: Vec<u8>) -> (decoding: Result<String, String>)
    ensures
        valid_utf8(bytes@) ==> decoding is Ok && decoding->Ok_0@ == decode_utf8(bytes@),
        !valid_utf8(bytes@) ==> decoding is Err && decoding->Err_0@ == utf8_error_text(bytes@),
{
    match String::from_utf8(bytes) {
        Ok(text) => Ok(text),
        Err(error) => Err(error.to_string()),
    }
}

/// Settles how an invocation ends from the exit status of the child process
/// and the decoding of the stream that counts for it: standard output where
/// the status is a success, standard error where it is not.
pub fn classify(status: Option<i32>, decoding: Result<String, String>) -> (completion: Completion)
    ensures
        completion@ == classified(status, decoding_view(decoding)),
{
    let success = match status {
        Some(code) => code == 0,
        None => false,
    };
    if success {
        match decoding {
            Ok(text) => Completion { result: Ok("ok".to_owned()), diagnostic: Some(text) },
            Err(cause) => Completion {
                result: Err(FormatError::OutputDecodeError { cause }),
                diagnostic: None,
            },
        }
    } else {
        let stderr = match decoding {
            Ok(text) => text,
            Err(_) => String::new(),
        };
        Completion {
            result: Err(FormatError::ToolExecutionError { status, stderr }),
            diagnostic: None,
        }
    }
}

/// Settles how an invocation ends whose child process has ended with `output`.
pub fn interpret(output: ProcessOutput) -> (completion: Completion)
    ensures
        completion@ == interpretation(output@),
{
    let success = match output.status {
        Some(code) => code == 0,
        None => false,
    };
    if success {
        classify(output.status, decode(output.stdout))
    } else {
        classify(output.status, decode(output.stderr))
    }
}

impl Invocation {
    /// Settles how this invocation ends, given what came of running it: the
    /// output of the child process, or the operating system's words where it
    /// did not start one.
    pub fn conclude(&self, report: Result<ProcessOutput, String>) -> (completion: Completion)
        ensures
            completion@ == conclusion(self@.program, report_view(report)),
    {
        match report {
            Ok(output) => interpret(output),
            Err(os_error) => Completion {
                result: Err(
                    FormatError::ProcessSpawnError { path: self.program.clone(), os_error },
                ),
                diagnostic: None,
            },
        }
    }
}

impl FmtCommand {
    /// The child process to start for a request once the formatter's
    /// executable is resolved to `program`.
    pub open spec fn invocation(self, program: Seq<char>) -> InvocationView {
        InvocationView { program, arguments: self@.arguments() }
    }

    /// Takes the first step of an invocation: given the path that the
    /// formatter's executable was resolved to, says which child process to
    /// start. Where the executable was not found the invocation ends here, and
    /// there is nothing to start.
    pub fn prepare(&self, resolved: Option<String>) -> (step: Result<Invocation, FormatError>)
        ensures
            match resolved {
                Some(program) => step is Ok && step->Ok_0@ == self.invocation(program@),
                None => step is Err && step->Err_0@ == FormatErrorView::ToolNotFound,
            },
    {
        match resolved {
            Some(program) => Ok(Invocation { program, arguments: self.build_arguments() }),
            None => Err(FormatError::ToolNotFound),
        }
    }
}

} // verus!
