//! The orchestrator as a transition system: from a state and what the caller
//! reports of the action it was given, to the next state and the next action.
//! The executable orchestrator computes exactly this; what is proved of the
//! transitions here therefore holds of every run.

use vstd::prelude::*;
use crate::baseline::{EvalBaseline, EvalExperiment};
use crate::cluster::pods_ready;
use crate::eval::EvalError;
use crate::templater::{manifest_variables_spec, render};
use crate::timing::{ExecutionResult, Timestamp};
use crate::workflow::AvailableWorkflow;

verus! {

/// The pods that one observation looks at.
#[derive(Clone, Copy, Debug, PartialEq, Eq, Structural)]
pub enum PodSet {
    /// The one pod of the object store.
    Store,
    /// The one pod that carries readiness label number `label` of `workflow`.
    Workflow { workflow: AvailableWorkflow, label: usize },
}

/// What the caller is to do next. Each action is one call to the outside; the
/// caller reports how it ended with the next event.
#[derive(Clone, Copy, Debug, PartialEq, Eq, Structural)]
pub enum Action {
    /// Submit the shared manifest.
    ApplyCommon,
    /// Wait for the poll interval, run the readiness query for `pods`, and
    /// report what it printed.
    PollPods { pods: PodSet },
    /// Ask the cluster for the address of the object store and report it.
    QueryStoreAddress,
    /// Make the address that the orchestrator holds known to all later calls.
    PublishStoreAddress,
    /// Upload the input of all workflows, overwriting what is there.
    UploadState,
    /// Create the data file, emptied, with its header line.
    InitDataFile { baseline: EvalBaseline, workflow: AvailableWorkflow },
    /// Read the manifest of the workflow and report its text.
    ReadManifest { workflow: AvailableWorkflow },
    /// Submit the rendered manifest that the orchestrator holds.
    ApplyWorkflow { workflow: AvailableWorkflow },
    /// Note the time, run the trigger, and report the time noted.
    Trigger { workflow: AvailableWorkflow },
    /// Wait for the completion key and report when it was seen, if it was.
    AwaitCompletion { workflow: AvailableWorkflow },
    /// Append the line of `result` to the data file.
    AppendResult { baseline: EvalBaseline, workflow: AvailableWorkflow, result: ExecutionResult },
    /// Remove from the object store what a run of the workflow left there.
    Cleanup { workflow: AvailableWorkflow },
    /// Delete what the rendered manifest describes, and wait until it is gone.
    DeleteWorkflow { workflow: AvailableWorkflow },
    /// Delete what the shared manifest describes.
    DeleteCommon,
    /// Nothing is left to do.
    Finish,
    /// The run is given up.
    Abort { error: EvalError },
}

/// What the caller reports.
#[derive(Debug)]
pub enum Event {
    /// The run is to begin.
    Start,
    /// The action was carried out and has nothing to report.
    Done,
    /// The action was carried out and printed or read this text.
    Output(String),
    /// The trigger was run; it was started at this instant.
    Triggered(Timestamp),
    /// The wait for the completion key ended: with the instant at which the
    /// key was seen, or without one where it did not appear in time.
    Detection(Option<Timestamp>),
    /// The action could not be carried out.
    Failed,
}

/// The action whose outcome the orchestrator waits for.
#[derive(Clone, Copy, Debug, PartialEq, Eq, Structural)]
pub enum Phase {
    Idle,
    CommonApply,
    StoreWait,
    StoreQuery,
    StorePublish,
    StateUpload,
    FileInit,
    ManifestRead,
    WorkflowApply,
    WorkflowWait,
    Trigger,
    Detect,
    Record,
    Cleanup,
    WorkflowDelete,
    CommonDelete,
    Finished,
    Failed,
}

/// Where a run stands, in broad terms.
#[derive(Clone, Copy, Debug, PartialEq, Eq, Structural)]
pub enum Stage {
    NotStarted,
    InfraUp,
    WorkflowDeployed,
    Warmup,
    Measuring,
    WorkflowTorndown,
    InfraDown,
    Finished,
    Aborted,
}

impl Phase {
    /// Whether a workflow is, or may be, on the cluster: from the moment its
    /// manifest is submitted until its deletion has ended.
    pub open spec fn deployed(self) -> bool {
        self == Phase::WorkflowApply || self == Phase::WorkflowWait || self == Phase::Trigger
            || self == Phase::Detect || self == Phase::Record || self == Phase::Cleanup || self
            == Phase::WorkflowDelete
    }

    /// The error that a failure of the pending action stands for.
    pub open spec fn error(self) -> EvalError {
        match self {
            Phase::CommonApply | Phase::WorkflowApply => EvalError::ClusterApply,
            Phase::StoreWait | Phase::StoreQuery | Phase::WorkflowWait => EvalError::ClusterQuery,
            Phase::StorePublish | Phase::StateUpload | Phase::Detect | Phase::Cleanup =>
                EvalError::ObjectStore,
            Phase::FileInit | Phase::Record => EvalError::DataFile,
            Phase::ManifestRead => EvalError::Template,
            Phase::Trigger => EvalError::Trigger,
            Phase::WorkflowDelete | Phase::CommonDelete => EvalError::ClusterDelete,
            Phase::Idle | Phase::Finished | Phase::Failed => EvalError::UnexpectedEvent,
        }
    }
}

/// The result of an execution that was triggered at `started` and whose
/// completion was reported as `found`, as repeat `iter`: none where the key
/// did not appear, and none where it is said to have appeared before the
/// trigger.
pub open spec fn measurement(started: Option<Timestamp>, found: Option<Timestamp>, iter: u32)
    -> Option<ExecutionResult> {
    match (started, found) {
        (Some(start), Some(end)) => if start.since_epoch() <= end.since_epoch() {
            Some(ExecutionResult::of(start, end, iter))
        } else {
            None
        },
        _ => None,
    }
}

/// The state of a run.
#[verifier::ext_equal]
pub struct State {
    pub experiment: EvalExperiment,
    /// The baselines to run, in order.
    pub baselines: Seq<EvalBaseline>,
    pub num_repeats: u32,
    pub num_warmup_repeats: u32,
    pub phase: Phase,
    /// Index of the baseline that is being run.
    pub baseline: int,
    /// Index in the catalog of the workflow that is being run.
    pub workflow: int,
    /// Index of the readiness label that is being waited for.
    pub label: int,
    /// Whether the executions under way are measured ones (or warm-up).
    pub measured: bool,
    /// How many executions of the current kind have been completed.
    pub repeat: int,
    /// How many results have been handed out for the current data file.
    pub recorded: int,
    /// How many measured executions have been left out of the current data
    /// file because no valid completion was seen.
    pub excluded: int,
    /// When the execution under way was triggered.
    pub started: Option<Timestamp>,
    /// The rendered manifest of the workflow that is being run.
    pub manifest: Seq<char>,
    /// The address of the object store, as the cluster gave it.
    pub store_address: Seq<char>,
    /// The first error met.
    pub failure: Option<EvalError>,
}

impl State {
    /// The state before a run of `baselines`.
    pub open spec fn init(
        experiment: EvalExperiment,
        baselines: Seq<EvalBaseline>,
        num_repeats: u32,
        num_warmup_repeats: u32,
    ) -> State {
        State {
            experiment,
            baselines,
            num_repeats,
            num_warmup_repeats,
            phase: Phase::Idle,
            baseline: 0,
            workflow: 0,
            label: 0,
            measured: false,
            repeat: 0,
            recorded: 0,
            excluded: 0,
            started: None,
            manifest: Seq::empty(),
            store_address: Seq::empty(),
            failure: None,
        }
    }

    pub open spec fn baseline_now(self) -> EvalBaseline {
        self.baselines[self.baseline]
    }

    pub open spec fn workflow_now(self) -> AvailableWorkflow {
        AvailableWorkflow::catalog()[self.workflow]
    }

    pub open spec fn stage(self) -> Stage {
        match self.phase {
            Phase::Idle => Stage::NotStarted,
            Phase::CommonApply | Phase::StoreWait | Phase::StoreQuery | Phase::StorePublish
            | Phase::StateUpload => Stage::InfraUp,
            Phase::FileInit | Phase::ManifestRead | Phase::WorkflowApply | Phase::WorkflowWait =>
                Stage::WorkflowDeployed,
            Phase::Trigger | Phase::Detect | Phase::Record | Phase::Cleanup => if self.measured {
                Stage::Measuring
            } else {
                Stage::Warmup
            },
            Phase::WorkflowDelete => Stage::WorkflowTorndown,
            Phase::CommonDelete => Stage::InfraDown,
            Phase::Finished => Stage::Finished,
            Phase::Failed => Stage::Aborted,
        }
    }

    /// The current baseline exists and runs on the cluster.
    pub open spec fn in_baseline(self) -> bool {
        0 <= self.baseline < self.baselines.len() && self.baseline_now().is_cluster()
    }

    /// The current baseline and workflow exist.
    pub open spec fn in_workflow(self) -> bool {
        self.in_baseline() && 0 <= self.workflow < AvailableWorkflow::catalog().len()
    }

    /// Nothing has been written to the current data file but its header.
    pub open spec fn nothing_recorded(self) -> bool {
        self.recorded == 0 && self.excluded == 0
    }

    /// The executions accounted for, where `done` measured executions have
    /// been concluded: each was either recorded or excluded.
    pub open spec fn accounted(self, done: int) -> bool {
        if self.measured {
            0 <= self.repeat < self.num_repeats && self.recorded + self.excluded == done
        } else {
            0 <= self.repeat < self.num_warmup_repeats && self.nothing_recorded()
        }
    }

    /// What holds of every state that a run can reach.
    pub open spec fn wf(self) -> bool {
        &&& 0 <= self.recorded
        &&& 0 <= self.excluded
        &&& self.phase != Phase::WorkflowDelete && self.phase != Phase::Failed
            ==> self.failure is None
        &&& match self.phase {
            Phase::Idle | Phase::Finished => true,
            Phase::CommonApply | Phase::StoreWait | Phase::StoreQuery | Phase::StorePublish
            | Phase::StateUpload | Phase::CommonDelete => self.in_baseline(),
            Phase::FileInit | Phase::ManifestRead | Phase::WorkflowApply => self.in_workflow()
                && self.nothing_recorded(),
            Phase::WorkflowWait => self.in_workflow() && self.nothing_recorded() && 0 <= self.label
                < self.workflow_now().readiness_labels_spec().len(),
            Phase::Trigger => self.in_workflow() && self.accounted(self.repeat),
            Phase::Detect => self.in_workflow() && self.accounted(self.repeat) && self.started
                is Some,
            Phase::Record => self.in_workflow() && self.measured && self.accounted(self.repeat + 1),
            Phase::Cleanup => self.in_workflow() && self.accounted(self.repeat + 1),
            Phase::WorkflowDelete => self.in_workflow() && (self.failure is None ==> self.recorded
                + self.excluded == self.num_repeats),
            Phase::Failed => self.failure is Some,
        }
    }

    /// Turns to baseline number `i`: the run is over where there is none, and
    /// given up where that baseline does not run on the cluster.
    pub open spec fn enter_baseline(self, i: int) -> (State, Action) {
        if i >= self.baselines.len() {
            (State { phase: Phase::Finished, ..self }, Action::Finish)
        } else if !self.baselines[i].is_cluster() {
            let error = EvalError::UnsupportedBaseline(self.baselines[i]);
            (
                State { phase: Phase::Failed, baseline: i, failure: Some(error), ..self },
                Action::Abort { error },
            )
        } else {
            (State { phase: Phase::CommonApply, baseline: i, ..self }, Action::ApplyCommon)
        }
    }

    /// Turns to workflow number `j` of the catalog, beginning with its data
    /// file; where there is none, what the workflows share is taken down.
    pub open spec fn enter_workflow(self, j: int) -> (State, Action) {
        if j < AvailableWorkflow::catalog().len() {
            (
                State {
                    phase: Phase::FileInit,
                    workflow: j,
                    label: 0,
                    measured: false,
                    repeat: 0,
                    recorded: 0,
                    excluded: 0,
                    started: None,
                    ..self
                },
                Action::InitDataFile {
                    baseline: self.baseline_now(),
                    workflow: AvailableWorkflow::catalog()[j],
                },
            )
        } else {
            (State { phase: Phase::CommonDelete, ..self }, Action::DeleteCommon)
        }
    }

    /// Begins the next execution: a warm-up one while those are not used up,
    /// then a measured one while those are not used up; after the last, the
    /// workflow is deleted.
    pub open spec fn begin_repeat(self) -> (State, Action) {
        let workflow = self.workflow_now();
        if !self.measured && self.repeat < self.num_warmup_repeats {
            (State { phase: Phase::Trigger, ..self }, Action::Trigger { workflow })
        } else {
            let done = if self.measured {
                self.repeat
            } else {
                0
            };
            if done < self.num_repeats {
                (
                    State { phase: Phase::Trigger, measured: true, repeat: done, ..self },
                    Action::Trigger { workflow },
                )
            } else {
                (
                    State { phase: Phase::WorkflowDelete, measured: true, repeat: done, ..self },
                    Action::DeleteWorkflow { workflow },
                )
            }
        }
    }

    /// Waits for readiness label number `k` of the workflow; where there is
    /// none, the executions begin.
    pub open spec fn enter_wait(self, k: int) -> (State, Action) {
        let workflow = self.workflow_now();
        if k < workflow.readiness_labels_spec().len() {
            (
                State { phase: Phase::WorkflowWait, label: k, ..self },
                Action::PollPods { pods: PodSet::Workflow { workflow, label: k as usize } },
            )
        } else {
            State { measured: false, repeat: 0, ..self }.begin_repeat()
        }
    }

    /// Concludes the execution under way on the report `found`. A warm-up
    /// execution leaves no result. A measured one is recorded where it has a
    /// result, and excluded where it has none. Either way what it left in the
    /// object store is removed before anything else happens.
    pub open spec fn conclude(self, found: Option<Timestamp>) -> (State, Action) {
        let workflow = self.workflow_now();
        if !self.measured {
            (State { phase: Phase::Cleanup, ..self }, Action::Cleanup { workflow })
        } else {
            match measurement(self.started, found, self.repeat as u32) {
                Some(result) => (
                    State { phase: Phase::Record, recorded: self.recorded + 1, ..self },
                    Action::AppendResult { baseline: self.baseline_now(), workflow, result },
                ),
                None => (
                    State { phase: Phase::Cleanup, excluded: self.excluded + 1, ..self },
                    Action::Cleanup { workflow },
                ),
            }
        }
    }

    /// Gives the run up with `error`. While a workflow is deployed its
    /// deletion comes first; the run ends with the first error met.
    pub open spec fn fail(self, error: EvalError) -> (State, Action) {
        if self.phase.deployed() && self.phase != Phase::WorkflowDelete {
            (
                State { phase: Phase::WorkflowDelete, failure: Some(error), ..self },
                Action::DeleteWorkflow { workflow: self.workflow_now() },
            )
        } else {
            let first = match self.failure {
                Some(earlier) => earlier,
                None => error,
            };
            (
                State { phase: Phase::Failed, failure: Some(first), ..self },
                Action::Abort { error: first },
            )
        }
    }

    /// The transition on an event that reports success.
    pub open spec fn proceed(self, event: Event) -> (State, Action) {
        match (self.phase, event) {
            (Phase::Idle, Event::Start) => self.enter_baseline(0),
            (Phase::CommonApply, Event::Done) => (
                State { phase: Phase::StoreWait, ..self },
                Action::PollPods { pods: PodSet::Store },
            ),
            (Phase::StoreWait, Event::Output(text)) => if pods_ready(text@, 1) {
                (State { phase: Phase::StoreQuery, ..self }, Action::QueryStoreAddress)
            } else {
                (self, Action::PollPods { pods: PodSet::Store })
            },
            (Phase::StoreQuery, Event::Output(text)) => (
                State { phase: Phase::StorePublish, store_address: text@, ..self },
                Action::PublishStoreAddress,
            ),
            (Phase::StorePublish, Event::Done) => (
                State { phase: Phase::StateUpload, ..self },
                Action::UploadState,
            ),
            (Phase::StateUpload, Event::Done) => self.enter_workflow(0),
            (Phase::FileInit, Event::Done) => (
                State { phase: Phase::ManifestRead, ..self },
                Action::ReadManifest { workflow: self.workflow_now() },
            ),
            (Phase::ManifestRead, Event::Output(text)) => (
                State {
                    phase: Phase::WorkflowApply,
                    manifest: render(text@, manifest_variables_spec(self.baseline_now())),
                    ..self
                },
                Action::ApplyWorkflow { workflow: self.workflow_now() },
            ),
            (Phase::WorkflowApply, Event::Done) => self.enter_wait(0),
            (Phase::WorkflowWait, Event::Output(text)) => if pods_ready(text@, 1) {
                self.enter_wait(self.label + 1)
            } else {
                (
                    self,
                    Action::PollPods {
                        pods: PodSet::Workflow {
                            workflow: self.workflow_now(),
                            label: self.label as usize,
                        },
                    },
                )
            },
            (Phase::Trigger, Event::Triggered(at)) => (
                State { phase: Phase::Detect, started: Some(at), ..self },
                Action::AwaitCompletion { workflow: self.workflow_now() },
            ),
            (Phase::Detect, Event::Detection(found)) => self.conclude(found),
            (Phase::Record, Event::Done) => (
                State { phase: Phase::Cleanup, ..self },
                Action::Cleanup { workflow: self.workflow_now() },
            ),
            (Phase::Cleanup, Event::Done) => State {
                repeat: self.repeat + 1,
                ..self
            }.begin_repeat(),
            (Phase::WorkflowDelete, Event::Done) => match self.failure {
                Some(error) => (State { phase: Phase::Failed, ..self }, Action::Abort { error }),
                None => self.enter_workflow(self.workflow + 1),
            },
            (Phase::CommonDelete, Event::Done) => self.enter_baseline(self.baseline + 1),
            _ => self.fail(EvalError::UnexpectedEvent),
        }
    }

    /// The transition: what the run turns to on `event`, and what the caller
    /// is to do next. A run that is over stays as it is.
    pub open spec fn next(self, event: Event) -> (State, Action) {
        match self.phase {
            Phase::Finished => (self, Action::Finish),
            Phase::Failed => (
                self,
                Action::Abort {
                    error: match self.failure {
                        Some(error) => error,
                        None => EvalError::UnexpectedEvent,
                    },
                },
            ),
            _ => match event {
                Event::Failed => self.fail(self.phase.error()),
                _ => self.proceed(event),
            },
        }
    }
}

} // verus!
