//! Whole runs: the states that a sequence of reports leads through, and what
//! holds of every such sequence.

use crate::command::{encode_invocation, palette_invocation, Stage, PALETTE_DIR};
use crate::error::{lemma_report_ends_with_stderr, RunErrorView};
use crate::options::{options_verdict, OptionsError, RunOptionsView};
use crate::pipeline::{initial, next_state, pending_action, ActionView, Event, StateView};
use crate::process::{
    lossy_text, outcome_judgement, succeeded, ProcessErrorView, ProcessOutcome,
};
use vstd::prelude::*;

verus! {

/// The state reached from `s` when the driver reports `events` in order.
pub open spec fn state_after(s: StateView, events: Seq<Event>) -> StateView
    decreases events.len(),
{
    if events.len() == 0 {
        s
    } else {
        next_state(state_after(s, events.drop_last()), events.last())
    }
}

/// The state of a run with the given arguments after the first `j` of
/// `events`.
pub open spec fn state_at(
    input: Option<Seq<char>>,
    output: Option<Seq<char>>,
    events: Seq<Event>,
    j: int,
) -> StateView {
    state_after(initial(input, output), events.take(j))
}

/// One more report moves the run by one step.
pub proof fn lemma_state_after_step(s: StateView, events: Seq<Event>, j: int)
    requires
        0 <= j < events.len(),
    ensures
        state_after(s, events.take(j + 1)) == next_state(
            state_after(s, events.take(j)),
            events[j],
        ),
{
    assert(events.take(j + 1).drop_last() =~= events.take(j));
}

/// Reports can be taken in two parts: the second part goes on from where
/// the first part ends.
pub proof fn lemma_state_after_concat(s: StateView, first: Seq<Event>, rest: Seq<Event>)
    ensures
        state_after(s, first + rest) == state_after(state_after(s, first), rest),
    decreases rest.len(),
{
    if rest.len() == 0 {
        assert(first + rest =~= first);
    } else {
        lemma_state_after_concat(s, first, rest.drop_last());
        assert((first + rest).drop_last() =~= first + rest.drop_last());
    }
}

/// A run that is over stays over, whatever is reported.
pub proof fn lemma_finished_is_final(s: StateView, events: Seq<Event>)
    requires
        s is Finished,
    ensures
        state_after(s, events) == s,
    decreases events.len(),
{
    if events.len() > 0 {
        lemma_finished_is_final(s, events.drop_last());
    }
}

/// Two subprocesses of which the driver saw the same.
pub open spec fn same_outcome(first: ProcessOutcome, second: ProcessOutcome) -> bool {
    match (first, second) {
        (
            ProcessOutcome::Unavailable { reason: first },
            ProcessOutcome::Unavailable { reason: second },
        ) => first@ == second@,
        (
            ProcessOutcome::Exited { code: first_code, stderr: first_bytes },
            ProcessOutcome::Exited { code: second_code, stderr: second_bytes },
        ) => first_code == second_code && first_bytes@ == second_bytes@,
        _ => false,
    }
}

/// Two reports that say the same.
pub open spec fn same_report(first: Event, second: Event) -> bool {
    match (first, second) {
        (Event::InputChecked { is_file: first }, Event::InputChecked { is_file: second }) => first
            == second,
        (Event::WorkspaceReady, Event::WorkspaceReady) => true,
        (Event::WorkspaceFailed { reason: first }, Event::WorkspaceFailed { reason: second }) =>
            first@ == second@,
        (Event::ProcessEnded { outcome: first }, Event::ProcessEnded { outcome: second }) =>
            same_outcome(first, second),
        _ => false,
    }
}

/// Report for report, `first` and `second` say the same.
pub open spec fn same_reports(first: Seq<Event>, second: Seq<Event>) -> bool {
    &&& first.len() == second.len()
    &&& forall|j: int| 0 <= j < first.len() ==> same_report(first[j], second[j])
}

/// A run keeps nothing from one time to the next: started again in the same
/// state and given reports that say the same, it reaches the same state, and
/// so asks for the same actions and ends with the same outcome.
pub proof fn lemma_same_reports_same_state(s: StateView, first: Seq<Event>, second: Seq<Event>)
    requires
        same_reports(first, second),
    ensures
        state_after(s, first) == state_after(s, second),
    decreases first.len(),
{
    if first.len() > 0 {
        assert(same_reports(first.drop_last(), second.drop_last()));
        lemma_same_reports_same_state(s, first.drop_last(), second.drop_last());
        assert(same_report(first.last(), second.last()));
    }
}

/// `action` asks the driver to run the given pass.
pub open spec fn spawns(action: ActionView, stage: Stage) -> bool {
    action matches ActionView::Spawn { stage: asked, .. } && asked == stage
}

/// Report `j` answers the check of the input path, and says that it is a
/// regular file.
pub open spec fn input_accepted_at(
    input: Option<Seq<char>>,
    output: Option<Seq<char>>,
    events: Seq<Event>,
    j: int,
) -> bool {
    &&& 0 <= j < events.len()
    &&& input is Some
    &&& pending_action(state_at(input, output, events, j)) == ActionView::CheckInput {
        path: input->0,
    }
    &&& events[j] == Event::InputChecked { is_file: true }
}

/// Report `j` answers the request for the scratch directory, and says that
/// the directory is there.
pub open spec fn workspace_made_at(
    input: Option<Seq<char>>,
    output: Option<Seq<char>>,
    events: Seq<Event>,
    j: int,
) -> bool {
    &&& 0 <= j < events.len()
    &&& pending_action(state_at(input, output, events, j)) == ActionView::CreateWorkspace {
        path: PALETTE_DIR@,
    }
    &&& events[j] is WorkspaceReady
}

/// Report `j` answers the palette pass on the input path, and says that the
/// encoder exited with code zero.
pub open spec fn palette_built_at(
    input: Option<Seq<char>>,
    output: Option<Seq<char>>,
    events: Seq<Event>,
    j: int,
) -> bool {
    &&& 0 <= j < events.len()
    &&& input is Some
    &&& pending_action(state_at(input, output, events, j)) == ActionView::Spawn {
        stage: Stage::Palette,
        command: palette_invocation(input->0),
    }
    &&& events[j] matches Event::ProcessEnded { outcome } && succeeded(outcome)
}

/// Report `j` answers the palette pass, and says anything but that the
/// encoder exited with code zero.
pub open spec fn palette_failed_at(
    input: Option<Seq<char>>,
    output: Option<Seq<char>>,
    events: Seq<Event>,
    j: int,
) -> bool {
    &&& 0 <= j < events.len()
    &&& spawns(pending_action(state_at(input, output, events, j)), Stage::Palette)
    &&& events[j] matches Event::ProcessEnded { outcome } && !succeeded(outcome)
}

/// No report in `events` says that the input path is a regular file.
pub open spec fn input_never_accepted(events: Seq<Event>) -> bool {
    forall|j: int| 0 <= j < events.len() ==> events[j] != Event::InputChecked { is_file: true }
}

/// The failure of a run whose input path was never accepted: for want of an
/// input path, or because the path names no regular file.
pub open spec fn input_failure(input: Option<Seq<char>>) -> Result<(), RunErrorView> {
    Err(
        RunErrorView::Options {
            error: if input is None {
                OptionsError::MissingInput
            } else {
                OptionsError::InvalidInput
            },
        },
    )
}

/// What is known of a run from the state it has reached: the paths are the
/// arguments, and each step that the state lies behind was answered well.
spec fn history(input: Option<Seq<char>>, output: Option<Seq<char>>, events: Seq<Event>) -> bool {
    match state_after(initial(input, output), events) {
        StateView::CheckingInput { input: path, output: destination } => {
            &&& input == Some(path)
            &&& output == destination
        },
        StateView::PreparingWorkspace { opts } => {
            &&& input == Some(opts.input)
            &&& output == Some(opts.output)
            &&& exists|j: int| input_accepted_at(input, output, events, j)
        },
        StateView::Running { stage, opts } => {
            &&& input == Some(opts.input)
            &&& output == Some(opts.output)
            &&& exists|j: int| input_accepted_at(input, output, events, j)
            &&& exists|j: int| workspace_made_at(input, output, events, j)
            &&& stage == Stage::Encode ==> exists|j: int|
                palette_built_at(input, output, events, j)
        },
        StateView::Finished { .. } => true,
    }
}

proof fn lemma_history(input: Option<Seq<char>>, output: Option<Seq<char>>, events: Seq<Event>)
    ensures
        history(input, output, events),
    decreases events.len(),
{
    if events.len() > 0 {
        let earlier = events.drop_last();
        let last: int = events.len() - 1;
        lemma_history(input, output, earlier);
        // What an earlier report answered stays answered.
        assert forall|j: int| input_accepted_at(input, output, earlier, j) implies input_accepted_at(
            input,
            output,
            events,
            j,
        ) by {
            assert(earlier.take(j) =~= events.take(j));
        }
        assert forall|j: int| workspace_made_at(input, output, earlier, j) implies workspace_made_at(
            input,
            output,
            events,
            j,
        ) by {
            assert(earlier.take(j) =~= events.take(j));
        }
        assert forall|j: int| palette_built_at(input, output, earlier, j) implies palette_built_at(
            input,
            output,
            events,
            j,
        ) by {
            assert(earlier.take(j) =~= events.take(j));
        }
        // The last report is the answer behind a state that is newly reached.
        let before = state_after(initial(input, output), earlier);
        let after = state_after(initial(input, output), events);
        assert(events.take(last) =~= earlier);
        if before is CheckingInput && after is PreparingWorkspace {
            assert(input_accepted_at(input, output, events, last));
        }
        if before is PreparingWorkspace && after is Running {
            assert(workspace_made_at(input, output, events, last));
        }
        if before is Running && after is Running && before != after {
            assert(palette_built_at(input, output, events, last));
        }
    }
}

/// As long as no report says that the input path is a regular file, the
/// driver is asked for nothing but that check: no directory is made and no
/// process is started. When such a run is over, it has failed on its
/// options: for want of an input path, or because the path is no file.
pub proof fn lemma_invalid_input_stops_run(
    input: Option<Seq<char>>,
    output: Option<Seq<char>>,
    events: Seq<Event>,
)
    requires
        input_never_accepted(events),
    ensures
        !(pending_action(state_after(initial(input, output), events)) is CreateWorkspace),
        !(pending_action(state_after(initial(input, output), events)) is Spawn),
        state_after(initial(input, output), events) is Finished ==> state_after(
            initial(input, output),
            events,
        )->result == input_failure(input),
    decreases events.len(),
{
    if events.len() > 0 {
        assert(input_never_accepted(events.drop_last()));
        lemma_invalid_input_stops_run(input, output, events.drop_last());
        lemma_history(input, output, events.drop_last());
    }
}

/// A run without an input path is over before it begins: whatever is
/// reported, the driver is asked for nothing, not even to look at a path.
pub proof fn lemma_no_input_no_action(output: Option<Seq<char>>, events: Seq<Event>)
    ensures
        state_after(initial(None, output), events) == (StateView::Finished {
            result: input_failure(None),
        }),
        pending_action(state_after(initial(None, output), events)) is Finish,
{
    lemma_finished_is_final(initial(None, output), events);
}

/// Whenever the driver is asked to start a process, an earlier report has
/// accepted the input path as a regular file, and an earlier report has said
/// that the scratch directory is there.
pub proof fn lemma_workspace_before_spawn(
    input: Option<Seq<char>>,
    output: Option<Seq<char>>,
    events: Seq<Event>,
)
    requires
        pending_action(state_after(initial(input, output), events)) is Spawn,
    ensures
        exists|j: int| input_accepted_at(input, output, events, j),
        exists|j: int| workspace_made_at(input, output, events, j),
{
    lemma_history(input, output, events);
}

/// Whenever the driver is asked to run the encode pass, an earlier report
/// has said that the palette pass, run on the same input, exited with code
/// zero; and the pass asked for is the encode pass on the two arguments.
pub proof fn lemma_palette_before_encode(
    input: Option<Seq<char>>,
    output: Option<Seq<char>>,
    events: Seq<Event>,
)
    requires
        spawns(pending_action(state_after(initial(input, output), events)), Stage::Encode),
    ensures
        exists|j: int| palette_built_at(input, output, events, j),
        input is Some && output is Some,
        pending_action(state_after(initial(input, output), events)) == (ActionView::Spawn {
            stage: Stage::Encode,
            command: encode_invocation(input->0, output->0),
        }),
{
    lemma_history(input, output, events);
}

/// Once the palette pass has failed, the run is over, whatever is reported
/// afterwards: the encode pass is never asked for, and the run ends with the
/// error of the palette pass.
pub proof fn lemma_failed_palette_ends_run(
    input: Option<Seq<char>>,
    output: Option<Seq<char>>,
    events: Seq<Event>,
    j: int,
)
    requires
        palette_failed_at(input, output, events, j),
    ensures
        pending_action(state_after(initial(input, output), events)) is Finish,
        state_after(initial(input, output), events) == (StateView::Finished {
            result: Err(
                RunErrorView::Encoder {
                    stage: Stage::Palette,
                    cause: outcome_judgement(events[j]->outcome)->Err_0,
                },
            ),
        }),
{
    let s0 = initial(input, output);
    let upto = events.take(j + 1);
    let rest = events.skip(j + 1);
    assert(upto + rest =~= events);
    lemma_state_after_step(s0, events, j);
    lemma_state_after_concat(s0, upto, rest);
    lemma_finished_is_final(state_after(s0, upto), rest);
}

/// The reports of a run in which the driver answers each request once, in
/// the order in which they are made. A run that fails early leaves the later
/// reports unread.
pub open spec fn full_run(
    input_is_file: bool,
    workspace: Event,
    palette: ProcessOutcome,
    encode: ProcessOutcome,
) -> Seq<Event> {
    seq![
        Event::InputChecked { is_file: input_is_file },
        workspace,
        Event::ProcessEnded { outcome: palette },
        Event::ProcessEnded { outcome: encode },
    ]
}

/// How a run ends, from its arguments and from what the driver meets: the
/// first step that fails gives the error, and later steps do not count.
pub open spec fn run_outcome(
    input: Option<Seq<char>>,
    input_is_file: bool,
    output: Option<Seq<char>>,
    workspace: Event,
    palette: ProcessOutcome,
    encode: ProcessOutcome,
) -> Result<(), RunErrorView> {
    match options_verdict(input, input_is_file, output) {
        Err(error) => Err(RunErrorView::Options { error }),
        Ok(_) => match workspace {
            Event::WorkspaceFailed { reason } => Err(RunErrorView::Workspace { reason: reason@ }),
            _ => match outcome_judgement(palette) {
                Err(cause) => Err(RunErrorView::Encoder { stage: Stage::Palette, cause }),
                Ok(_) => match outcome_judgement(encode) {
                    Err(cause) => Err(RunErrorView::Encoder { stage: Stage::Encode, cause }),
                    Ok(_) => Ok(()),
                },
            },
        },
    }
}

/// A run whose requests are each answered once is over after the last
/// report and ends as [`run_outcome`] says. It ends well exactly when both
/// paths are given, the input is a regular file, the scratch directory is
/// there and both passes exit with code zero.
pub proof fn lemma_full_run_outcome(
    input: Option<Seq<char>>,
    input_is_file: bool,
    output: Option<Seq<char>>,
    workspace: Event,
    palette: ProcessOutcome,
    encode: ProcessOutcome,
)
    requires
        workspace is WorkspaceReady || workspace is WorkspaceFailed,
    ensures
        state_after(initial(input, output), full_run(input_is_file, workspace, palette, encode))
            == (StateView::Finished {
            result: run_outcome(input, input_is_file, output, workspace, palette, encode),
        }),
        run_outcome(input, input_is_file, output, workspace, palette, encode) is Ok <==> {
            &&& input is Some
            &&& input_is_file
            &&& output is Some
            &&& workspace is WorkspaceReady
            &&& succeeded(palette)
            &&& succeeded(encode)
        },
{
    let events = full_run(input_is_file, workspace, palette, encode);
    let s0 = initial(input, output);
    assert(events.take(0) =~= Seq::<Event>::empty());
    assert(events.take(4) =~= events);
    lemma_state_after_step(s0, events, 0);
    lemma_state_after_step(s0, events, 1);
    lemma_state_after_step(s0, events, 2);
    lemma_state_after_step(s0, events, 3);
}

/// A run that meets no failure asks, in this order and once each, for the
/// check of the input path, for the scratch directory, for the palette pass
/// on the input and for the encode pass on both paths, and then ends well.
pub proof fn lemma_successful_run(
    input: Seq<char>,
    output: Seq<char>,
    palette: ProcessOutcome,
    encode: ProcessOutcome,
)
    requires
        succeeded(palette),
        succeeded(encode),
    ensures
        ({
            let events = full_run(true, Event::WorkspaceReady, palette, encode);
            let asked = |j: int| pending_action(state_at(Some(input), Some(output), events, j));
            &&& asked(0) == ActionView::CheckInput { path: input }
            &&& asked(1) == ActionView::CreateWorkspace { path: PALETTE_DIR@ }
            &&& asked(2) == ActionView::Spawn {
                stage: Stage::Palette,
                command: palette_invocation(input),
            }
            &&& asked(3) == ActionView::Spawn {
                stage: Stage::Encode,
                command: encode_invocation(input, output),
            }
            &&& asked(4) == ActionView::Finish
            &&& state_at(Some(input), Some(output), events, 4) == StateView::Finished {
                result: Ok(()),
            }
        }),
{
    let events = full_run(true, Event::WorkspaceReady, palette, encode);
    let s0 = initial(Some(input), Some(output));
    assert(events.take(0) =~= Seq::<Event>::empty());
    lemma_state_after_step(s0, events, 0);
    lemma_state_after_step(s0, events, 1);
    lemma_state_after_step(s0, events, 2);
    lemma_state_after_step(s0, events, 3);
}

/// A pass that exits with a non-zero code ends the run with an error that
/// names the pass and holds the code and the lossy decoding of all that the
/// pass wrote to standard error; the last message of the error's chain ends
/// with that text.
pub proof fn lemma_failing_encoder_is_reported(
    stage: Stage,
    opts: RunOptionsView,
    code: i32,
    stderr: Vec<u8>,
)
    requires
        code != 0,
    ensures
        ({
            let outcome = ProcessOutcome::Exited { code: Some(code), stderr };
            let text = lossy_text(stderr@);
            let error = RunErrorView::Encoder {
                stage,
                cause: ProcessErrorView::SubprocessFailed { code, stderr: text },
            };
            let report = error.chain().last();
            &&& next_state(StateView::Running { stage, opts }, Event::ProcessEnded { outcome })
                == StateView::Finished { result: Err(error) }
            &&& report.len() >= text.len()
            &&& report.subrange(report.len() - text.len(), report.len() as int) == text
        }),
{
    lemma_report_ends_with_stderr(stage, code, lossy_text(stderr@));
}

} // verus!
