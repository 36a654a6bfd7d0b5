//! The run as a state machine. A state says what the driver must do next;
//! the driver does it and reports what happened; the report decides the next
//! state. The order is fixed: check the input, make the scratch directory,
//! build the palette, encode the GIF. The first failure ends the run.

use crate::command::{invocation, stage_command, Command, CommandView, Stage, PALETTE_DIR};
use crate::error::{result_view, RunError, RunErrorView};
use crate::options::{get_options, options_verdict, OptionsError, RunOptions, RunOptionsView};
use crate::process::{interpret_outcome, outcome_judgement, ProcessOutcome};
use vstd::prelude::*;

verus! {

/// What the driver reports after it has done what was asked.
#[derive(Debug, PartialEq, Eq)]
pub enum Event {
    /// The input path was looked up; `is_file` says whether it names a
    /// regular file that exists.
    InputChecked { is_file: bool },
    /// The scratch directory exists now, with all its parents.
    WorkspaceReady,
    /// The scratch directory could not be created.
    WorkspaceFailed { reason: String },
    /// The subprocess was run to its end, or could not be.
    ProcessEnded { outcome: ProcessOutcome },
}

/// What the driver is asked to do.
#[derive(Debug, PartialEq, Eq)]
pub enum Action {
    /// Find out whether `path` names a regular file, and report
    /// [`Event::InputChecked`].
    CheckInput { path: String },
    /// Create the directory `path` and any missing parent, and report
    /// [`Event::WorkspaceReady`] or [`Event::WorkspaceFailed`].
    CreateWorkspace { path: String },
    /// Run `command` to its end and report [`Event::ProcessEnded`].
    Spawn { stage: Stage, command: Command },
    /// Nothing more: the run is over.
    Finish,
}

/// What an [`Action`] holds, as text.
pub enum ActionView {
    CheckInput { path: Seq<char> },
    CreateWorkspace { path: Seq<char> },
    Spawn { stage: Stage, command: CommandView },
    Finish,
}

impl View for Action {
    type V = ActionView;

    open spec fn view(&self) -> ActionView {
        match self {
            Action::CheckInput { path } => ActionView::CheckInput { path: path@ },
            Action::CreateWorkspace { path } => ActionView::CreateWorkspace { path: path@ },
            Action::Spawn { stage, command } => ActionView::Spawn {
                stage: *stage,
                command: command@,
            },
            Action::Finish => ActionView::Finish,
        }
    }
}

/// Where a run stands.
#[derive(Debug, PartialEq, Eq)]
pub enum State {
    /// The input path is being looked up.
    CheckingInput { input: String, output: Option<String> },
    /// The paths are valid; the scratch directory is being made.
    PreparingWorkspace { opts: RunOptions },
    /// The encoder is running the given pass.
    Running { stage: Stage, opts: RunOptions },
    /// The run is over.
    Finished { result: Result<(), RunError> },
}

/// What a [`State`] holds, as text.
pub enum StateView {
    CheckingInput { input: Seq<char>, output: Option<Seq<char>> },
    PreparingWorkspace { opts: RunOptionsView },
    Running { stage: Stage, opts: RunOptionsView },
    Finished { result: Result<(), RunErrorView> },
}

impl View for State {
    type V = StateView;

    open spec fn view(&self) -> StateView {
        match self {
            State::CheckingInput { input, output } => StateView::CheckingInput {
                input: input@,
                output: output.deep_view(),
            },
            State::PreparingWorkspace { opts } => StateView::PreparingWorkspace { opts: opts@ },
            State::Running { stage, opts } => StateView::Running { stage: *stage, opts: opts@ },
            State::Finished { result } => StateView::Finished { result: result_view(*result) },
        }
    }
}

/// The state in which a run with the given arguments begins. Without an
/// input path it is over before anything is asked of the driver.
pub open spec fn initial(input: Option<Seq<char>>, output: Option<Seq<char>>) -> StateView {
    match input {
        Some(input) => StateView::CheckingInput { input, output },
        None => StateView::Finished {
            result: Err(RunErrorView::Options { error: OptionsError::MissingInput }),
        },
    }
}

/// What the driver must do in state `s`.
pub open spec fn pending_action(s: StateView) -> ActionView {
    match s {
        StateView::CheckingInput { input, .. } => ActionView::CheckInput { path: input },
        StateView::PreparingWorkspace { .. } => ActionView::CreateWorkspace {
            path: PALETTE_DIR@,
        },
        StateView::Running { stage, opts } => ActionView::Spawn {
            stage,
            command: invocation(stage, opts.input, opts.output),
        },
        StateView::Finished { .. } => ActionView::Finish,
    }
}

/// The state that follows `s` when the driver reports `event`. A report that
/// does not answer what `s` asked for changes nothing.
pub open spec fn next_state(s: StateView, event: Event) -> StateView {
    match (s, event) {
        (StateView::CheckingInput { input, output }, Event::InputChecked { is_file }) => {
            match options_verdict(Some(input), is_file, output) {
                Ok(opts) => StateView::PreparingWorkspace { opts },
                Err(error) => StateView::Finished {
                    result: Err(RunErrorView::Options { error }),
                },
            }
        },
        (StateView::PreparingWorkspace { opts }, Event::WorkspaceReady) => StateView::Running {
            stage: Stage::Palette,
            opts,
        },
        (StateView::PreparingWorkspace { .. }, Event::WorkspaceFailed { reason }) => {
            StateView::Finished { result: Err(RunErrorView::Workspace { reason: reason@ }) }
        },
        (StateView::Running { stage, opts }, Event::ProcessEnded { outcome }) => {
            match outcome_judgement(outcome) {
                Err(cause) => StateView::Finished {
                    result: Err(RunErrorView::Encoder { stage, cause }),
                },
                Ok(_) => match stage.following() {
                    Some(stage) => StateView::Running { stage, opts },
                    None => StateView::Finished { result: Ok(()) },
                },
            }
        },
        _ => s,
    }
}

impl State {
    /// Begins a run with the two arguments as parsed.
    pub fn start(input: Option<String>, output: Option<String>) -> (s: State)
        ensures
            s@ == initial(input.deep_view(), output.deep_view()),
    {
        match input {
            Some(input) => State::CheckingInput { input, output },
            None => State::Finished {
                result: Err(RunError::Options { error: OptionsError::MissingInput }),
            },
        }
    }

    /// What the driver must do now.
    pub fn pending(&self) -> (action: Action)
        ensures
            action@ == pending_action(self@),
    {
        match self {
            State::CheckingInput { input, .. } => Action::CheckInput { path: input.clone() },
            State::PreparingWorkspace { .. } => Action::CreateWorkspace {
                path: PALETTE_DIR.to_owned(),
            },
            State::Running { stage, opts } => Action::Spawn {
                stage: *stage,
                command: stage_command(*stage, opts),
            },
            State::Finished { .. } => Action::Finish,
        }
    }

    /// Takes the driver's report and moves on.
    pub fn advance(self, event: Event) -> (s: State)
        ensures
            s@ == next_state(self@, event),
    {
        match (self, event) {
            (State::CheckingInput { input, output }, Event::InputChecked { is_file }) => {
                match get_options(Some(input), is_file, output) {
                    Ok(opts) => State::PreparingWorkspace { opts },
                    Err(error) => State::Finished { result: Err(RunError::Options { error }) },
                }
            },
            (State::PreparingWorkspace { opts }, Event::WorkspaceReady) => State::Running {
                stage: Stage::Palette,
                opts,
            },
            (State::PreparingWorkspace { .. }, Event::WorkspaceFailed { reason }) => {
                State::Finished { result: Err(RunError::Workspace { reason }) }
            },
            (State::Running { stage, opts }, Event::ProcessEnded { outcome }) => {
                match interpret_outcome(outcome) {
                    Err(cause) => State::Finished {
                        result: Err(RunError::Encoder { stage, cause }),
                    },
                    Ok(_) => match stage.next() {
                        Some(stage) => State::Running { stage, opts },
                        None => State::Finished { result: Ok(()) },
                    },
                }
            },
            (state, _) => state,
        }
    }

    /// The outcome of the run, once it is over.
    pub fn into_result(self) -> (outcome: Option<Result<(), RunError>>)
        ensures
            match self@ {
                StateView::Finished { result } => outcome is Some && result_view(outcome->0)
                    == result,
                _ => outcome is None,
            },
    {
        match self {
            State::Finished { result } => Some(result),
            _ => None,
        }
    }
}

} // verus!
