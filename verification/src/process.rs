//! What became of one subprocess, and whether that counts as success.

use crate::text::{decimal, render_decimal};
use std::borrow::Cow;
use vstd::prelude::*;
use vstd::string::*;
use vstd::utf8::*;

verus! {

/// What the driver saw of one subprocess, started with its standard input
/// closed, its standard output discarded and its standard error captured.
#[derive(Debug, PartialEq, Eq)]
pub enum ProcessOutcome {
    /// The operating system refused to start the process or to wait for it.
    Unavailable { reason: String },
    /// The process ended. `code` is its exit code, absent when it was ended
    /// by a signal; `stderr` is everything it wrote to standard error.
    Exited { code: Option<i32>, stderr: Vec<u8> },
}

/// Why a subprocess did not count as a success.
#[derive(Debug, PartialEq, Eq)]
pub enum ProcessError {
    /// The process could not be started or waited for.
    Unavailable { reason: String },
    /// The process ended without an exit code.
    StatusUnavailable,
    /// The process ended with an exit code other than zero.
    SubprocessFailed { code: i32, stderr: String },
}

/// What a [`ProcessError`] holds, as text.
pub enum ProcessErrorView {
    Unavailable { reason: Seq<char> },
    StatusUnavailable,
    SubprocessFailed { code: i32, stderr: Seq<char> },
}

impl View for ProcessError {
    type V = ProcessErrorView;

    open spec fn view(&self) -> ProcessErrorView {
        match self {
            ProcessError::Unavailable { reason } => ProcessErrorView::Unavailable {
                reason: reason@,
            },
            ProcessError::StatusUnavailable => ProcessErrorView::StatusUnavailable,
            ProcessError::SubprocessFailed { code, stderr } => ProcessErrorView::SubprocessFailed {
                code: *code,
                stderr: stderr@,
            },
        }
    }
}

impl ProcessErrorView {
    /// The text of [`ProcessError::message`]. A failed subprocess is
    /// reported with its exit code in decimal and, from the next line on,
    /// all it wrote to standard error.
    pub open spec fn message_text(self) -> Seq<char> {
        match self {
            ProcessErrorView::Unavailable { reason } => reason,
            ProcessErrorView::StatusUnavailable => "Unable to interpret status code"@,
            ProcessErrorView::SubprocessFailed { code, stderr } => "Bad status code of "@ + decimal(
                code as int,
            ) + "\n"@ + stderr,
        }
    }
}

impl ProcessError {
    /// The error as text for the user.
    pub fn message(&self) -> (text: String)
        ensures
            text@ == self@.message_text(),
    {
        match self {
            ProcessError::Unavailable { reason } => reason.clone(),
            ProcessError::StatusUnavailable => "Unable to interpret status code".to_owned(),
            ProcessError::SubprocessFailed { code, stderr } => {
                let mut text = "Bad status code of ".to_owned();
                let number = render_decimal(*code);
                text.append(number.as_str());
                text.append("\n");
                text.append(stderr.as_str());
                text
            },
        }
    }
}

/// The text that a lossy UTF-8 decoding makes of `bytes`: the text they
/// encode, with U+FFFD in place of each ill-formed part.
pub uninterp spec fn lossy_text(bytes: Seq<u8>) -> Seq<char>;

/// Calls `String::from_utf8_lossy`.
///
/// Trusted: the text that comes back is a function of the bytes alone,
/// named [`lossy_text`], and bytes that are well-formed UTF-8 come back as
/// the text they encode.
#[verifier::external_body]
fn decode_lossy<'a>(bytes: &'a Vec<u8>) -> (text: Cow<'a, str>)
    ensures
        text@ == lossy_text(bytes@),
        valid_utf8(bytes@) ==> text@ == decode_utf8(bytes@),
{
    String::from_utf8_lossy(bytes)
}

/// The decision of [`exit_verdict`]: only exit code zero is a success.
pub open spec fn exit_judgement(code: Option<i32>, stderr: Seq<char>) -> Result<
    (),
    ProcessErrorView,
> {
    match code {
        None => Err(ProcessErrorView::StatusUnavailable),
        Some(code) => if code == 0 {
            Ok(())
        } else {
            Err(ProcessErrorView::SubprocessFailed { code, stderr })
        },
    }
}

/// Judges a process that ended, from its exit code and the text it wrote to
/// standard error. The text is kept only in the error of a non-zero code.
pub fn exit_verdict(code: Option<i32>, stderr: String) -> (r: Result<(), ProcessError>)
    ensures
        r is Ok <==> code == Some(0i32),
        match exit_judgement(code, stderr@) {
            Ok(_) => r is Ok,
            Err(error) => r is Err && r->Err_0@ == error,
        },
{
    match code {
        None => Err(ProcessError::StatusUnavailable),
        Some(code) => {
            if code == 0 {
                Ok(())
            } else {
                Err(ProcessError::SubprocessFailed { code, stderr })
            }
        },
    }
}

/// The process ended with exit code zero.
pub open spec fn succeeded(outcome: ProcessOutcome) -> bool {
    outcome matches ProcessOutcome::Exited { code, .. } && code == Some(0i32)
}

/// The decision of [`interpret_outcome`].
pub open spec fn outcome_judgement(outcome: ProcessOutcome) -> Result<(), ProcessErrorView> {
    match outcome {
        ProcessOutcome::Unavailable { reason } => Err(
            ProcessErrorView::Unavailable { reason: reason@ },
        ),
        ProcessOutcome::Exited { code, stderr } => exit_judgement(code, lossy_text(stderr@)),
    }
}

/// Judges what the driver saw of a subprocess. Standard error is decoded
/// lossily and then judged with the exit code by [`exit_verdict`].
///
/// Succeeds exactly when the process ended with exit code zero.
pub fn interpret_outcome(outcome: ProcessOutcome) -> (r: Result<(), ProcessError>)
    ensures
        r is Ok <==> succeeded(outcome),
        match outcome_judgement(outcome) {
            Ok(_) => r is Ok,
            Err(error) => r is Err && r->Err_0@ == error,
        },
        outcome matches ProcessOutcome::Exited { stderr, .. } ==> (valid_utf8(stderr@)
            ==> lossy_text(stderr@) == decode_utf8(stderr@)),
{
    match outcome {
        ProcessOutcome::Unavailable { reason } => Err(ProcessError::Unavailable { reason }),
        ProcessOutcome::Exited { code, stderr } => {
            let text = match decode_lossy(&stderr) {
                Cow::Borrowed(text) => text.to_owned(),
                Cow::Owned(text) => text,
            };
            exit_verdict(code, text)
        },
    }
}

} // verus!
