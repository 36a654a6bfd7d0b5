//! Why a run failed, and how that is told to the user.

use crate::command::Stage;
use crate::options::OptionsError;
use crate::process::{ProcessError, ProcessErrorView};
use vstd::prelude::*;

verus! {

/// Why a run failed. Every failure ends the run: nothing is retried.
#[derive(Debug, PartialEq, Eq)]
pub enum RunError {
    /// The arguments did not make a valid pair of paths.
    Options { error: OptionsError },
    /// The scratch directory could not be created.
    Workspace { reason: String },
    /// The encoder failed in the given pass.
    Encoder { stage: Stage, cause: ProcessError },
}

/// What a [`RunError`] holds, as text.
pub enum RunErrorView {
    Options { error: OptionsError },
    Workspace { reason: Seq<char> },
    Encoder { stage: Stage, cause: ProcessErrorView },
}

impl View for RunError {
    type V = RunErrorView;

    open spec fn view(&self) -> RunErrorView {
        match self {
            RunError::Options { error } => RunErrorView::Options { error: *error },
            RunError::Workspace { reason } => RunErrorView::Workspace { reason: reason@ },
            RunError::Encoder { stage, cause } => RunErrorView::Encoder {
                stage: *stage,
                cause: cause@,
            },
        }
    }
}

/// The outcome of a run, as text.
pub open spec fn result_view(result: Result<(), RunError>) -> Result<(), RunErrorView> {
    match result {
        Ok(_) => Ok(()),
        Err(error) => Err(error@),
    }
}

impl RunErrorView {
    /// What the run was doing when it failed.
    pub open spec fn context_text(self) -> Seq<char> {
        match self {
            RunErrorView::Options { .. } => "Failed to interpret options"@,
            RunErrorView::Workspace { .. } =>
                "Failed to create temporary directory for palette output"@,
            RunErrorView::Encoder { stage: Stage::Palette, .. } =>
                "Error using FFmpeg (palette stage)"@,
            RunErrorView::Encoder { stage: Stage::Encode, .. } =>
                "Error using FFmpeg (encode stage)"@,
        }
    }

    /// What went wrong.
    pub open spec fn cause_text(self) -> Seq<char> {
        match self {
            RunErrorView::Options { error } => error.message_text(),
            RunErrorView::Workspace { reason } => reason,
            RunErrorView::Encoder { cause, .. } => cause.message_text(),
        }
    }

    /// The messages of [`RunError::messages`]: the context, then its cause.
    pub open spec fn chain(self) -> Seq<Seq<char>> {
        seq![self.context_text(), self.cause_text()]
    }
}

impl RunError {
    /// The error as a chain of messages, each one caused by the next: first
    /// what the run was doing, then what went wrong.
    pub fn messages(&self) -> (chain: Vec<String>)
        ensures
            chain.deep_view() == self@.chain(),
    {
        let mut chain: Vec<String> = Vec::new();
        match self {
            RunError::Options { error } => {
                chain.push("Failed to interpret options".to_owned());
                chain.push(error.message());
            },
            RunError::Workspace { reason } => {
                chain.push("Failed to create temporary directory for palette output".to_owned());
                chain.push(reason.clone());
            },
            RunError::Encoder { stage, cause } => {
                match stage {
                    Stage::Palette => chain.push("Error using FFmpeg (palette stage)".to_owned()),
                    Stage::Encode => chain.push("Error using FFmpeg (encode stage)".to_owned()),
                }
                chain.push(cause.message());
            },
        }
        assert(chain.deep_view() =~= self@.chain());
        chain
    }
}

/// The report of an encoder that exited with a non-zero code ends with all
/// that the encoder wrote to standard error, whatever the pass and the code.
pub proof fn lemma_report_ends_with_stderr(stage: Stage, code: i32, stderr: Seq<char>)
    ensures
        ({
            let error = RunErrorView::Encoder {
                stage,
                cause: ProcessErrorView::SubprocessFailed { code, stderr },
            };
            let report = error.chain().last();
            &&& report.len() >= stderr.len()
            &&& report.subrange(report.len() - stderr.len(), report.len() as int) == stderr
        }),
{
    let error = RunErrorView::Encoder {
        stage,
        cause: ProcessErrorView::SubprocessFailed { code, stderr },
    };
    let report = error.chain().last();
    assert(report.subrange(report.len() - stderr.len(), report.len() as int) =~= stderr);
}

} // verus!
