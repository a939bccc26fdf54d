//! What holds of every run of the orchestrator, proved of its transitions.

use vstd::prelude::*;
use crate::baseline::{EvalBaseline, EvalExperiment};
use crate::cluster::{pods_ready, ready_signal};
use crate::eval::EvalError;
use crate::machine::{Action, Event, Phase, PodSet, State, measurement};
use crate::text::words;
use crate::timing::{ExecutionResult, Timestamp};

verus! {

/// A run begins in a state that is well formed.
pub proof fn lemma_init_wf(
    experiment: EvalExperiment,
    baselines: Seq<EvalBaseline>,
    num_repeats: u32,
    num_warmup_repeats: u32,
)
    ensures
        State::init(experiment, baselines, num_repeats, num_warmup_repeats).wf(),
{
}

/// Whatever the caller reports, a well-formed state turns into a well-formed
/// state: `wf` holds of every state that a run reaches.
pub proof fn lemma_next_wf(s: State, event: Event)
    requires
        s.wf(),
    ensures
        s.next(event).0.wf(),
{
}

/// What is fixed when a run begins stays fixed.
pub proof fn lemma_next_keeps_request(s: State, event: Event)
    ensures
        s.next(event).0.experiment == s.experiment,
        s.next(event).0.baselines == s.baselines,
        s.next(event).0.num_repeats == s.num_repeats,
        s.next(event).0.num_warmup_repeats == s.num_warmup_repeats,
{
}

/// Baselines are run one after the other, in the order given: the index of
/// the current baseline never goes back, and it moves on only when what the
/// baseline shared has been taken down.
pub proof fn lemma_baselines_in_sequence(s: State, event: Event)
    requires
        s.wf(),
    ensures
        s.next(event).0.baseline == s.baseline || (s.next(event).0.baseline == s.baseline + 1
            && s.phase == Phase::CommonDelete) || (s.phase == Phase::Idle && s.next(
            event,
        ).0.baseline == 0),
{
}

/// A wait for pods ends only on an observation that shows exactly the one
/// expected pod, ready. On any other observation the state stays as it is and
/// the same pods are observed again.
pub proof fn lemma_wait_until_ready(s: State, text: String)
    requires
        s.wf(),
        s.phase == Phase::StoreWait || s.phase == Phase::WorkflowWait,
    ensures
        !pods_ready(text@, 1) ==> s.next(Event::Output(text)).0 == s,
        !pods_ready(text@, 1) ==> s.next(Event::Output(text)).1 == (Action::PollPods {
            pods: if s.phase == Phase::StoreWait {
                PodSet::Store
            } else {
                PodSet::Workflow { workflow: s.workflow_now(), label: s.label as usize }
            },
        }),
        s.next(Event::Output(text)).0.phase != s.phase ==> pods_ready(text@, 1),
        s.next(Event::Output(text)).0.phase == s.phase && s.next(Event::Output(text)).0.label
            != s.label ==> pods_ready(text@, 1),
{
}

/// An observation with too few or too many signals, or with a signal other
/// than the ready signal, does not show the pods ready.
pub proof fn lemma_partial_readiness(output: Seq<char>, expected: nat)
    ensures
        words(output).len() != expected ==> !pods_ready(output, expected),
        (exists|k: int|
            0 <= k < words(output).len() && #[trigger] words(output)[k]
                != ready_signal()) ==> !pods_ready(output, expected),
{
}

/// The results handed out are counted: a transition that hands out a result
/// adds one to `recorded`, one that creates a data file sets it to zero, and
/// no other changes it.
pub proof fn lemma_recorded_counts_results(s: State, event: Event)
    requires
        s.wf(),
    ensures
        ({
            let (t, action) = s.next(event);
            t.recorded == if action is InitDataFile {
                0
            } else if action is AppendResult {
                s.recorded + 1
            } else {
                s.recorded
            }
        }),
{
}

/// A measured execution is excluded exactly when it is concluded without a
/// result: the key did not appear in time, or is said to have appeared before
/// the trigger. Nothing is handed out for it.
pub proof fn lemma_excluded_counts_failed_detections(s: State, event: Event)
    requires
        s.wf(),
    ensures
        ({
            let (t, action) = s.next(event);
            let failed_detection = s.phase == Phase::Detect && s.measured && (event matches Event::Detection(
                found,
            ) && measurement(s.started, found, s.repeat as u32) is None);
            &&& failed_detection ==> t.excluded == s.excluded + 1 && t.recorded == s.recorded
                && action == (Action::Cleanup { workflow: s.workflow_now() })
            &&& !failed_detection && !(action is InitDataFile) ==> t.excluded == s.excluded
            &&& action is InitDataFile ==> t.excluded == 0
        }),
{
}

/// A key that never appears leaves no line: on the report of a wait that
/// ended without the key, no result is handed out.
pub proof fn lemma_timeout_is_not_recorded(s: State)
    requires
        s.wf(),
    ensures
        !(s.next(Event::Detection(None)).1 is AppendResult),
        s.next(Event::Detection(None)).0.recorded == s.recorded,
{
}

/// A result that is handed out belongs to the current baseline and workflow,
/// carries the number of the measured execution under way, which is below
/// the number of repeats asked for, and ends no earlier than it starts.
pub proof fn lemma_result_handed_out(s: State, event: Event)
    requires
        s.wf(),
    ensures
        s.next(event).1 matches Action::AppendResult { baseline, workflow, result } ==> {
            &&& s.phase == Phase::Detect
            &&& s.measured
            &&& baseline == s.baseline_now()
            &&& workflow == s.workflow_now()
            &&& result.iter_spec() == s.repeat
            &&& 0 <= s.repeat < s.num_repeats
            &&& Some(result.start_spec()) == s.started
            &&& event matches Event::Detection(found) && found == Some(result.end_spec())
            &&& result.duration_ms_spec() >= 0
        },
{
    if s.next(event).1 is AppendResult {
        let found = event->Detection_0;
        let start = s.started->0;
        let end = found->0;
        ExecutionResult::lemma_of(start, end, s.repeat as u32);
    }
}

/// When the deletion of a workflow is reached without an error, every
/// measured execution asked for has been accounted for: the results handed
/// out and the executions excluded add up to the number of repeats.
pub proof fn lemma_all_repeats_accounted(s: State)
    requires
        s.wf(),
        s.phase == Phase::WorkflowDelete,
        s.failure is None,
    ensures
        s.recorded + s.excluded == s.num_repeats,
        s.excluded == 0 ==> s.recorded == s.num_repeats,
{
}

/// A workflow that is, or may be, on the cluster is never left there: the
/// only way out of the phases in which it is deployed is the end of its
/// deletion, and whenever the deletion phase is entered the caller is told to
/// delete that workflow. This holds whatever is reported, failures included.
pub proof fn lemma_teardown_is_unconditional(s: State, event: Event)
    requires
        s.wf(),
        s.phase.deployed(),
    ensures
        ({
            let (t, action) = s.next(event);
            &&& !t.phase.deployed() ==> s.phase == Phase::WorkflowDelete
            &&& t.phase.deployed() ==> t.workflow == s.workflow && t.baseline == s.baseline
            &&& t.phase == Phase::WorkflowDelete && s.phase != Phase::WorkflowDelete ==> action == (
            Action::DeleteWorkflow { workflow: s.workflow_now() })
        }),
{
}

/// An execution that yields no result does not end the run: whatever the
/// wait for the completion key reports, the run goes on within the same
/// workflow, towards its deletion.
pub proof fn lemma_failed_measurement_goes_on(s: State, found: Option<Timestamp>)
    requires
        s.wf(),
        s.phase == Phase::Detect,
    ensures
        ({
            let (t, action) = s.next(Event::Detection(found));
            &&& t.failure is None
            &&& t.phase == Phase::Record || t.phase == Phase::Cleanup
            &&& t.repeat == s.repeat
        }),
{
}

/// What an execution leaves in the object store is removed before anything
/// else is begun: after a trigger, no further trigger, no deletion free of
/// errors and no other workflow or baseline comes before the cleanup of that
/// execution has ended.
pub proof fn lemma_cleanup_follows_every_execution(s: State, event: Event)
    requires
        s.wf(),
    ensures
        ({
            let (t, action) = s.next(event);
            &&& action is Trigger ==> s.phase == Phase::Cleanup || s.phase == Phase::WorkflowWait
                || s.phase == Phase::WorkflowApply
            &&& action is DeleteWorkflow && t.failure is None ==> s.phase == Phase::Cleanup
                || s.phase == Phase::WorkflowWait || s.phase == Phase::WorkflowApply
            &&& (s.phase == Phase::Detect || s.phase == Phase::Record) && t.failure is None
                ==> t.phase == Phase::Cleanup || t.phase == Phase::Record
            &&& t.phase == Phase::Cleanup && s.phase != Phase::Cleanup ==> action == (
            Action::Cleanup { workflow: s.workflow_now() })
        }),
{
}

/// A run that is over stays over.
pub proof fn lemma_end_is_final(s: State, event: Event)
    requires
        s.wf(),
        s.phase == Phase::Finished || s.phase == Phase::Failed,
    ensures
        s.next(event).0 == s,
        s.phase == Phase::Finished ==> s.next(event).1 == Action::Finish,
        s.phase == Phase::Failed ==> s.next(event).1 == (Action::Abort { error: s.failure->0 }),
{
}

/// A baseline that does not run on the cluster is never set up. The
/// baselines are taken up at the beginning and after each has been taken
/// down; when the turn of such a baseline comes, the run is given up with the
/// error that names it, and what is shared is submitted for no other.
pub proof fn lemma_unsupported_baseline_aborts(s: State, event: Event, i: int)
    requires
        s.wf(),
    ensures
        s.phase == Phase::Idle ==> s.next(Event::Start) == s.enter_baseline(0),
        s.phase == Phase::CommonDelete ==> s.next(Event::Done) == s.enter_baseline(
            s.baseline + 1,
        ),
        0 <= i < s.baselines.len() && !s.baselines[i].is_cluster() ==> s.enter_baseline(i).1 == (
        Action::Abort { error: EvalError::UnsupportedBaseline(s.baselines[i]) }),
        s.next(event).1 is ApplyCommon ==> s.next(event).0.baseline_now().is_cluster(),
{
}

} // verus!
