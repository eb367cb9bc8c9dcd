//! What holds of every import, whatever the application reports.

use crate::bundle::import::{
    directory_exists_events, extraction_progress, is_terminal, stage_of, start_events, started,
    EventView, ImportErrorType, ImportPhase, ImportStage, InputView, TaskView,
};
use vstd::prelude::*;

verus! {

/// The event is a result event.
pub open spec fn is_result(e: EventView) -> bool {
    e is Result
}

/// The event is a progress event that reports the end of the import.
pub open spec fn is_terminal_progress(e: EventView) -> bool {
    e matches EventView::Progress { stage, .. } && (stage == ImportStage::Complete || stage
        == ImportStage::Error)
}

/// The number of result events in `events`.
pub open spec fn results_in(events: Seq<EventView>) -> nat
    decreases events.len(),
{
    if events.len() == 0 {
        0
    } else {
        results_in(events.drop_last()) + if is_result(events.last()) {
            1nat
        } else {
            0nat
        }
    }
}

/// The number of progress events in `events` that report the end.
pub open spec fn terminal_progress_in(events: Seq<EventView>) -> nat
    decreases events.len(),
{
    if events.len() == 0 {
        0
    } else {
        terminal_progress_in(events.drop_last()) + if is_terminal_progress(events.last()) {
            1nat
        } else {
            0nat
        }
    }
}

/// Counting over two lists, one after the other, adds up.
pub proof fn lemma_counts_add(a: Seq<EventView>, b: Seq<EventView>)
    ensures
        results_in(a + b) == results_in(a) + results_in(b),
        terminal_progress_in(a + b) == terminal_progress_in(a) + terminal_progress_in(b),
    decreases b.len(),
{
    if b.len() == 0 {
        assert(a + b =~= a);
    } else {
        lemma_counts_add(a, b.drop_last());
        assert((a + b).drop_last() =~= a + b.drop_last());
    }
}

/// The counts of a list of at most three events.
proof fn lemma_counts_short(events: Seq<EventView>)
    requires
        events.len() <= 3,
    ensures
        results_in(events) == (if events.len() > 0 && is_result(events[0]) {
            1nat
        } else {
            0nat
        }) + (if events.len() > 1 && is_result(events[1]) {
            1nat
        } else {
            0nat
        }) + (if events.len() > 2 && is_result(events[2]) {
            1nat
        } else {
            0nat
        }),
        terminal_progress_in(events) == (if events.len() > 0 && is_terminal_progress(events[0]) {
            1nat
        } else {
            0nat
        }) + (if events.len() > 1 && is_terminal_progress(events[1]) {
            1nat
        } else {
            0nat
        }) + (if events.len() > 2 && is_terminal_progress(events[2]) {
            1nat
        } else {
            0nat
        }),
    decreases events.len(),
{
    if events.len() > 0 {
        lemma_counts_short(events.drop_last());
    }
}

/// The place of a stage in the course of an import.
pub open spec fn stage_rank(stage: ImportStage) -> nat {
    match stage {
        ImportStage::Start => 0,
        ImportStage::Extracting => 1,
        ImportStage::Complete => 2,
        ImportStage::Error => 2,
    }
}

/// The task after it was told `inputs`, one after the other.
pub open spec fn run(t: TaskView, inputs: Seq<InputView>) -> TaskView
    decreases inputs.len(),
{
    if inputs.len() == 0 {
        t
    } else {
        run(t, inputs.drop_last()).after(inputs.last())
    }
}

/// All the events that the task emits while it is told `inputs`.
pub open spec fn run_events(t: TaskView, inputs: Seq<InputView>) -> Seq<EventView>
    decreases inputs.len(),
{
    if inputs.len() == 0 {
        Seq::empty()
    } else {
        run_events(t, inputs.drop_last()) + run(t, inputs.drop_last()).emits(inputs.last())
    }
}

/// One step of a task: its counts stay sound; a task that has ended
/// stays as it is and emits nothing; the step that ends a task emits
/// the last progress event and then the result, and nothing else; any
/// other step emits no result and no last progress event.
pub proof fn lemma_step(t: TaskView, input: InputView)
    requires
        t.wf(),
    ensures
        t.after(input).wf(),
        t.after(input).name == t.name,
        is_terminal(t.phase) ==> t.after(input) == t && t.emits(input).len() == 0,
        !is_terminal(t.phase) && is_terminal(t.after(input).phase) ==> {
            &&& t.emits(input).len() == 2
            &&& t.emits(input)[0] matches EventView::Progress { stage, .. } && stage == stage_of(
                t.after(input).phase,
            )
            &&& t.emits(input)[1] matches EventView::Result { success, .. } && success == (
            t.after(input).phase == ImportPhase::Completed)
        },
        !is_terminal(t.after(input).phase) ==> forall|i: int|
            0 <= i < t.emits(input).len() ==> !is_result(#[trigger] t.emits(input)[i])
                && !is_terminal_progress(t.emits(input)[i]),
        stage_rank(stage_of(t.phase)) <= stage_rank(stage_of(t.after(input).phase)),
{
}

/// The counts of result events and of last progress events that one step emits.
pub proof fn lemma_step_counts(t: TaskView, input: InputView)
    requires
        t.wf(),
    ensures
        results_in(t.emits(input)) == if !is_terminal(t.phase) && is_terminal(
            t.after(input).phase,
        ) {
            1nat
        } else {
            0nat
        },
        terminal_progress_in(t.emits(input)) == results_in(t.emits(input)),
{
    lemma_step(t, input);
    lemma_counts_short(t.emits(input));
}

/// Every import, from its start, whatever the application reports and in
/// whatever order: the task emits exactly one result event and exactly one
/// last progress event if it has ended, and none of either while it has not.
pub proof fn lemma_one_terminal_event(t: TaskView, inputs: Seq<InputView>)
    requires
        t.wf(),
    ensures
        run(t, inputs).wf(),
        is_terminal(t.phase) ==> run(t, inputs) == t && run_events(t, inputs).len() == 0,
        results_in(run_events(t, inputs)) == if !is_terminal(t.phase) && is_terminal(
            run(t, inputs).phase,
        ) {
            1nat
        } else {
            0nat
        },
        terminal_progress_in(run_events(t, inputs)) == results_in(run_events(t, inputs)),
    decreases inputs.len(),
{
    if inputs.len() > 0 {
        let before = run(t, inputs.drop_last());
        lemma_one_terminal_event(t, inputs.drop_last());
        lemma_step(before, inputs.last());
        lemma_step_counts(before, inputs.last());
        lemma_counts_add(run_events(t, inputs.drop_last()), before.emits(inputs.last()));
    }
}

/// Once a task has ended, nothing that it is told makes it emit anything:
/// no event follows the result.
pub proof fn lemma_nothing_after_the_end(t: TaskView, inputs: Seq<InputView>, more: Seq<InputView>)
    requires
        t.wf(),
        is_terminal(run(t, inputs).phase),
    ensures
        run_events(run(t, inputs), more).len() == 0,
        run(run(t, inputs), more) == run(t, inputs),
{
    lemma_one_terminal_event(t, inputs);
    lemma_one_terminal_event(run(t, inputs), more);
}

/// The events with which an import begins hold a result event only where
/// the import ends at once.
pub proof fn lemma_start(file_stem: Option<Seq<char>>)
    ensures
        started(file_stem).wf(),
        results_in(start_events(file_stem)) == if file_stem is None {
            1nat
        } else {
            0nat
        },
        terminal_progress_in(start_events(file_stem)) == results_in(start_events(file_stem)),
        is_terminal(started(file_stem).phase) <==> file_stem is None,
{
    lemma_counts_short(start_events(file_stem));
}

/// An import whose target directory is already there fails with
/// `DirectoryExists` and asks for nothing more: the catalog is never
/// offered the pack. This holds where the directory is found before the
/// archive is opened, and where creating it finds it.
pub proof fn lemma_existing_target_fails(t: TaskView, message: Seq<char>)
    requires
        t.wf(),
    ensures
        t.phase == ImportPhase::CheckingTarget ==> {
            let input = InputView::TargetChecked { exists: true };
            &&& t.after(input).phase == ImportPhase::Failed
            &&& t.after(input).pending() is None
            &&& t.emits(input) == directory_exists_events(t.name)
        },
        t.phase == ImportPhase::CreatingDirectory ==> {
            let input = InputView::Failed { error: ImportErrorType::DirectoryExists, message };
            &&& t.after(input).phase == ImportPhase::Failed
            &&& t.after(input).pending() is None
            &&& t.emits(input) == directory_exists_events(t.name)
        },
        directory_exists_events(t.name)[1] matches EventView::Result {
            success,
            error_type,
            ..
        } && !success && error_type == Some(ImportErrorType::DirectoryExists),
{
}

/// An import succeeds only by the catalog's acceptance: the step that
/// completes a task is the registration, and the catalog said yes.
pub proof fn lemma_completion_needs_registration(t: TaskView, input: InputView)
    requires
        t.wf(),
        t.phase != ImportPhase::Completed,
        t.after(input).phase == ImportPhase::Completed,
    ensures
        t.phase == ImportPhase::Registering,
        input matches InputView::Registration { answer } && answer is Ok,
        t.done == t.total,
{
}

/// Unpacking moves the progress from 30 towards 80 and never back.
pub proof fn lemma_extraction_progress(i: u64, j: u64, total: u64)
    requires
        i <= j < total,
    ensures
        30 <= extraction_progress(i, total) <= extraction_progress(j, total) < 80,
{
    assert((i as int * 50) / (total as int) <= (j as int * 50) / (total as int)) by (nonlinear_arith)
        requires
            0 <= i as int <= j as int,
            total as int > 0,
    ;
    assert((j as int * 50) / (total as int) < 50) by (nonlinear_arith)
        requires
            0 <= j as int,
            (j as int) < total as int,
    ;
    assert((i as int * 50) / (total as int) >= 0) by (nonlinear_arith)
        requires
            0 <= i as int,
            total as int > 0,
    ;
}

} // verus!
