//! Whole runs: what holds of the actions that a run has handed out, whatever
//! the caller reported along the way.

use vstd::prelude::*;
use crate::baseline::EvalBaseline;
use crate::laws::lemma_next_wf;
use crate::machine::{Action, Event, Phase, State};
use crate::recorder::{data_file, lemma_data_file_lines, line_count};
use crate::timing::ExecutionResult;
use crate::workflow::AvailableWorkflow;

verus! {

/// Where a run that begins in `s` stands after the reports `events`, and the
/// actions it has handed out for them, in order.
pub open spec fn run(s: State, events: Seq<Event>) -> (State, Seq<Action>)
    decreases events.len(),
{
    if events.len() == 0 {
        (s, Seq::empty())
    } else {
        let before = run(s, events.drop_last());
        let step = before.0.next(events.last());
        (step.0, before.1.push(step.1))
    }
}

/// The results that `actions` put into the data file of `baseline` and
/// `workflow`: those handed out for it since it was last created.
pub open spec fn written(actions: Seq<Action>, baseline: EvalBaseline, workflow: AvailableWorkflow)
    -> Seq<ExecutionResult>
    decreases actions.len(),
{
    if actions.len() == 0 {
        Seq::empty()
    } else {
        let earlier = written(actions.drop_last(), baseline, workflow);
        match actions.last() {
            Action::InitDataFile { baseline: b, workflow: w } => if b == baseline && w
                == workflow {
                Seq::empty()
            } else {
                earlier
            },
            Action::AppendResult { baseline: b, workflow: w, result } => if b == baseline && w
                == workflow {
                earlier.push(result)
            } else {
                earlier
            },
            _ => earlier,
        }
    }
}

/// Whether `actions` leave a workflow on the cluster: one was submitted and
/// its deletion has not been asked for since.
pub open spec fn left_deployed(actions: Seq<Action>) -> bool
    decreases actions.len(),
{
    if actions.len() == 0 {
        false
    } else {
        match actions.last() {
            Action::ApplyWorkflow { .. } => true,
            Action::DeleteWorkflow { .. } => false,
            _ => left_deployed(actions.drop_last()),
        }
    }
}

/// Whether `actions` leave the remains of an execution in the object store:
/// one was triggered and no cleanup has been asked for since.
pub open spec fn left_behind(actions: Seq<Action>) -> bool
    decreases actions.len(),
{
    if actions.len() == 0 {
        false
    } else {
        match actions.last() {
            Action::Trigger { .. } => true,
            Action::Cleanup { .. } => false,
            _ => left_behind(actions.drop_last()),
        }
    }
}

/// Whether the numbers of the repeats of `results` go up from each to the
/// next.
pub open spec fn ascending(results: Seq<ExecutionResult>) -> bool {
    forall|i: int, j: int|
        0 <= i < j < results.len() ==> (#[trigger] results[i]).iter_spec() < (
        #[trigger] results[j]).iter_spec()
}

/// Whether a data file is open: from its creation to the end of the deletion
/// of its workflow.
pub open spec fn file_open(phase: Phase) -> bool {
    phase == Phase::FileInit || phase == Phase::ManifestRead || phase.deployed()
}

/// The number that the repeats recorded so far lie below.
pub open spec fn recorded_below(t: State) -> int {
    if t.measured && (t.phase == Phase::Trigger || t.phase == Phase::Detect) {
        t.repeat
    } else if t.measured && (t.phase == Phase::Record || t.phase == Phase::Cleanup) {
        t.repeat + 1
    } else {
        t.num_repeats as int
    }
}

/// What ties the state of a run to the actions it has handed out.
pub open spec fn consistent(t: State, actions: Seq<Action>) -> bool {
    &&& t.wf()
    &&& file_open(t.phase) ==> {
        let results = written(actions, t.baseline_now(), t.workflow_now());
        &&& results.len() == t.recorded
        &&& ascending(results)
        &&& forall|k: int|
            0 <= k < results.len() ==> (#[trigger] results[k]).iter_spec() < t.num_repeats
                && results[k].iter_spec() < recorded_below(t) && results[k].duration_ms_spec()
                >= 0
    }
    &&& left_deployed(actions) ==> t.phase.deployed() && t.phase != Phase::WorkflowDelete
    &&& left_behind(actions) ==> t.phase == Phase::Trigger || t.phase == Phase::Detect || t.phase
        == Phase::Record || t.failure is Some
}

/// One transition keeps state and actions consistent.
pub proof fn lemma_step_consistent(t: State, actions: Seq<Action>, event: Event)
    requires
        consistent(t, actions),
    ensures
        consistent(t.next(event).0, actions.push(t.next(event).1)),
{
    let (u, action) = t.next(event);
    let after = actions.push(action);
    lemma_next_wf(t, event);
    assert(after.drop_last() == actions);
    assert(after.last() == action);
    if file_open(u.phase) {
        let b = u.baseline_now();
        let w = u.workflow_now();
        let results = written(after, b, w);
        if action is InitDataFile {
            assert(results.len() == 0);
        } else {
            assert(file_open(t.phase));
            assert(t.baseline_now() == b && t.workflow_now() == w);
            let earlier = written(actions, b, w);
            if action is AppendResult {
                let result = action->AppendResult_result;
                ExecutionResult::lemma_of(
                    t.started->0,
                    (event->Detection_0)->0,
                    t.repeat as u32,
                );
                assert(results == earlier.push(result));
                assert(result.iter_spec() == t.repeat);
                assert forall|i: int, j: int| 0 <= i < j < results.len() implies (
                #[trigger] results[i]).iter_spec() < (#[trigger] results[j]).iter_spec() by {
                    if j < earlier.len() {
                        assert(results[i] == earlier[i] && results[j] == earlier[j]);
                    } else {
                        assert(results[i] == earlier[i]);
                    }
                }
                assert(result.duration_ms_spec() >= 0);
                assert forall|k: int| 0 <= k < results.len() implies (
                #[trigger] results[k]).iter_spec() < u.num_repeats && results[k].iter_spec()
                    < recorded_below(u) && results[k].duration_ms_spec() >= 0 by {
                    if k < earlier.len() {
                        assert(results[k] == earlier[k]);
                    }
                }
            } else {
                assert(results == earlier);
            }
        }
    }
}

/// State and actions of a run are consistent from its beginning to its end.
pub proof fn lemma_run_consistent(s: State, events: Seq<Event>)
    requires
        s.wf(),
        s.phase == Phase::Idle,
    ensures
        consistent(run(s, events).0, run(s, events).1),
        run(s, events).0.experiment == s.experiment,
        run(s, events).0.baselines == s.baselines,
        run(s, events).0.num_repeats == s.num_repeats,
        run(s, events).0.num_warmup_repeats == s.num_warmup_repeats,
    decreases events.len(),
{
    if events.len() > 0 {
        lemma_run_consistent(s, events.drop_last());
        let before = run(s, events.drop_last());
        lemma_step_consistent(before.0, before.1, events.last());
    }
}

/// Results whose numbers go up and lie below their count are numbered from
/// zero, one by one.
pub proof fn lemma_ascending_and_full(results: Seq<ExecutionResult>, k: int)
    requires
        ascending(results),
        forall|i: int| 0 <= i < results.len() ==> (#[trigger] results[i]).iter_spec() < results.len(),
        0 <= k < results.len(),
    ensures
        results[k].iter_spec() == k,
{
    lemma_ascending_gap(results, 0, k);
    lemma_ascending_gap(results, k, results.len() - 1);
}

/// Between two results whose numbers go up lie at least as many numbers as
/// results.
proof fn lemma_ascending_gap(results: Seq<ExecutionResult>, i: int, j: int)
    requires
        ascending(results),
        0 <= i <= j < results.len(),
    ensures
        results[j].iter_spec() - results[i].iter_spec() >= j - i,
    decreases j - i,
{
    if i < j {
        lemma_ascending_gap(results, i, j - 1);
        assert(results[j - 1].iter_spec() < results[j].iter_spec());
    }
}

/// The data file of a run. When a run that began at the beginning has
/// reached the deletion of a workflow without an error, the data file of the
/// current baseline and workflow holds its header and one line for each
/// measured execution that was not excluded: as many lines as repeats were
/// asked for, less the exclusions. The repeats are in order, each below the
/// number asked for; where none was excluded they are numbered from zero, one
/// by one.
pub proof fn lemma_data_file_of_run(s: State, events: Seq<Event>)
    requires
        s.wf(),
        s.phase == Phase::Idle,
        run(s, events).0.phase == Phase::WorkflowDelete,
        run(s, events).0.failure is None,
    ensures
        ({
            let (t, actions) = run(s, events);
            let results = written(actions, t.baseline_now(), t.workflow_now());
            &&& t.baseline_now().is_cluster()
            &&& results.len() + t.excluded == s.num_repeats
            &&& line_count(data_file(s.experiment, results)) == 1 + s.num_repeats - t.excluded
            &&& ascending(results)
            &&& forall|k: int|
                0 <= k < results.len() ==> 0 <= (#[trigger] results[k]).iter_spec()
                    < s.num_repeats && results[k].duration_ms_spec() >= 0
            &&& t.excluded == 0 ==> forall|k: int|
                0 <= k < results.len() ==> (#[trigger] results[k]).iter_spec() == k
        }),
{
    lemma_run_consistent(s, events);
    let (t, actions) = run(s, events);
    let results = written(actions, t.baseline_now(), t.workflow_now());
    lemma_data_file_lines(s.experiment, results);
    lemma_written_are_results(actions, t.baseline_now(), t.workflow_now());
    if t.excluded == 0 {
        assert forall|k: int| 0 <= k < results.len() implies (#[trigger] results[k]).iter_spec()
            == k by {
            lemma_ascending_and_full(results, k);
        }
    }
}

/// Every result in a data file was handed out for it.
pub proof fn lemma_written_are_results(
    actions: Seq<Action>,
    baseline: EvalBaseline,
    workflow: AvailableWorkflow,
)
    ensures
        forall|k: int|
            0 <= k < written(actions, baseline, workflow).len() ==> actions.contains(
                Action::AppendResult {
                    baseline,
                    workflow,
                    result: #[trigger] written(actions, baseline, workflow)[k],
                },
            ),
    decreases actions.len(),
{
    if actions.len() > 0 {
        let earlier_actions = actions.drop_last();
        lemma_written_are_results(earlier_actions, baseline, workflow);
        let earlier = written(earlier_actions, baseline, workflow);
        let results = written(actions, baseline, workflow);
        assert forall|k: int| 0 <= k < results.len() implies actions.contains(
            Action::AppendResult { baseline, workflow, result: #[trigger] results[k] },
        ) by {
            let wanted = Action::AppendResult { baseline, workflow, result: results[k] };
            if k < earlier.len() && results[k] == earlier[k] {
                let at = choose|at: int|
                    0 <= at < earlier_actions.len() && earlier_actions[at] == wanted;
                assert(actions[at] == wanted);
            } else {
                assert(actions[actions.len() - 1] == wanted);
            }
        }
    }
}

/// No workflow is left on the cluster. When a run that began at the
/// beginning is over, finished or given up, the deletion of every workflow
/// that was submitted has been asked for.
pub proof fn lemma_no_workflow_left_deployed(s: State, events: Seq<Event>)
    requires
        s.wf(),
        s.phase == Phase::Idle,
    ensures
        !run(s, events).0.phase.deployed() ==> !left_deployed(run(s, events).1),
        run(s, events).0.phase == Phase::Finished || run(s, events).0.phase == Phase::Failed
            ==> !left_deployed(run(s, events).1),
{
    lemma_run_consistent(s, events);
}

/// Nothing of an execution is left in the object store when something new
/// begins. In a run that began at the beginning and has met no error, outside
/// an execution under way every execution that was triggered has been cleaned
/// up after: so it is when a workflow is deployed, when an execution is to be
/// triggered, and when the run turns to the next baseline.
pub proof fn lemma_nothing_left_behind(s: State, events: Seq<Event>)
    requires
        s.wf(),
        s.phase == Phase::Idle,
    ensures
        ({
            let (t, actions) = run(s, events);
            t.failure is None && t.phase != Phase::Trigger && t.phase != Phase::Detect && t.phase
                != Phase::Record ==> !left_behind(actions)
        }),
{
    lemma_run_consistent(s, events);
}

} // verus!
