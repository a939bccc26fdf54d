//! The orchestrator of an experiment: it decides, step by step, what is done
//! to the cluster, the object store and the data files, and leaves the doing
//! to its caller.
//!
//! The caller begins with `Event::Start`, carries out each action it is
//! given, and reports how the action ended; it stops at `Action::Finish` or
//! `Action::Abort`.

use vstd::prelude::*;
use crate::baseline::{EvalBaseline, EvalExperiment, EvalRunArgs};
use crate::eval::{Eval, EvalError};
use crate::laws::{lemma_init_wf, lemma_next_wf};
use crate::machine::{Action, Event, Phase, PodSet, Stage, State};
use crate::timing::{ExecutionResult, Timestamp};
use crate::workflow::AvailableWorkflow;

verus! {

/// A run of one experiment over a list of baselines.
#[derive(Debug)]
pub struct Orchestrator {
    experiment: EvalExperiment,
    baselines: Vec<EvalBaseline>,
    num_repeats: u32,
    num_warmup_repeats: u32,
    phase: Phase,
    baseline: usize,
    workflow: usize,
    label: usize,
    measured: bool,
    repeat: u32,
    recorded: u32,
    excluded: u32,
    started: Option<Timestamp>,
    manifest: String,
    store_address: String,
    failure: Option<EvalError>,
}

impl View for Orchestrator {
    type V = State;

    closed spec fn view(&self) -> State {
        State {
            experiment: self.experiment,
            baselines: self.baselines@,
            num_repeats: self.num_repeats,
            num_warmup_repeats: self.num_warmup_repeats,
            phase: self.phase,
            baseline: self.baseline as int,
            workflow: self.workflow as int,
            label: self.label as int,
            measured: self.measured,
            repeat: self.repeat as int,
            recorded: self.recorded as int,
            excluded: self.excluded as int,
            started: self.started,
            manifest: self.manifest@,
            store_address: self.store_address@,
            failure: self.failure,
        }
    }
}

impl Orchestrator {
    #[verifier::type_invariant]
    closed spec fn inv(self) -> bool {
        self@.wf()
    }

    /// A run of `experiment` as `args` ask for it, not yet begun.
    pub fn new(experiment: EvalExperiment, args: EvalRunArgs) -> (run: Orchestrator)
        ensures
            run@ == State::init(
                experiment,
                args.baseline@,
                args.num_repeats,
                args.num_warmup_repeats,
            ),
            run@.wf(),
    {
        proof {
            lemma_init_wf(experiment, args.baseline@, args.num_repeats, args.num_warmup_repeats);
        }
        Orchestrator {
            experiment,
            baselines: args.baseline,
            num_repeats: args.num_repeats,
            num_warmup_repeats: args.num_warmup_repeats,
            phase: Phase::Idle,
            baseline: 0,
            workflow: 0,
            label: 0,
            measured: false,
            repeat: 0,
            recorded: 0,
            excluded: 0,
            started: None,
            manifest: String::new(),
            store_address: String::new(),
            failure: None,
        }
    }

    /// The rendered manifest of the workflow that is being run: what
    /// `Action::ApplyWorkflow` submits and `Action::DeleteWorkflow` deletes.
    pub fn manifest(&self) -> (text: &String)
        ensures
            text@ == self@.manifest,
    {
        &self.manifest
    }

    /// The address of the object store, as the cluster gave it: what
    /// `Action::PublishStoreAddress` makes known.
    pub fn store_address(&self) -> (address: &String)
        ensures
            address@ == self@.store_address,
    {
        &self.store_address
    }

    pub fn experiment(&self) -> (exp: EvalExperiment)
        ensures
            exp == self@.experiment,
    {
        self.experiment
    }

    pub fn phase(&self) -> (phase: Phase)
        ensures
            phase == self@.phase,
    {
        self.phase
    }

    pub fn stage(&self) -> (stage: Stage)
        ensures
            stage == self@.stage(),
    {
        match self.phase {
            Phase::Idle => Stage::NotStarted,
            Phase::CommonApply
            | Phase::StoreWait
            | Phase::StoreQuery
            | Phase::StorePublish
            | Phase::StateUpload => Stage::InfraUp,
            Phase::FileInit | Phase::ManifestRead | Phase::WorkflowApply | Phase::WorkflowWait =>
                Stage::WorkflowDeployed,
            Phase::Trigger | Phase::Detect | Phase::Record | Phase::Cleanup => if self.measured {
                Stage::Measuring
            } else {
                Stage::Warmup
            },
            Phase::WorkflowDelete => Stage::WorkflowTorndown,
            Phase::CommonDelete => Stage::InfraDown,
            Phase::Finished => Stage::Finished,
            Phase::Failed => Stage::Aborted,
        }
    }

    /// How many executions of the current kind have been completed.
    pub fn repeat(&self) -> (n: u32)
        ensures
            n == self@.repeat,
    {
        self.repeat
    }

    /// How many results have been handed out for the current data file.
    pub fn recorded(&self) -> (n: u32)
        ensures
            n == self@.recorded,
    {
        self.recorded
    }

    /// How many measured executions have been left out of the current data
    /// file.
    pub fn excluded(&self) -> (n: u32)
        ensures
            n == self@.excluded,
    {
        self.excluded
    }

    /// The first error met, if any.
    pub fn failure(&self) -> (error: Option<EvalError>)
        ensures
            error == self@.failure,
    {
        self.failure
    }

    fn baseline_now(&self) -> (b: EvalBaseline)
        requires
            self@.in_baseline(),
        ensures
            b == self@.baseline_now(),
    {
        self.baselines[self.baseline]
    }

    fn workflow_now(&self) -> (w: AvailableWorkflow)
        requires
            self@.in_workflow(),
        ensures
            w == self@.workflow_now(),
    {
        AvailableWorkflow::at(self.workflow).unwrap()
    }

    fn enter_baseline(self, i: usize) -> (r: (Orchestrator, Action))
        requires
            self@.enter_baseline(i as int).0.wf(),
        ensures
            (r.0@, r.1) == self@.enter_baseline(i as int),
    {
        if i >= self.baselines.len() {
            (Orchestrator { phase: Phase::Finished, ..self }, Action::Finish)
        } else if !self.baselines[i].supports_cluster() {
            let error = EvalError::UnsupportedBaseline(self.baselines[i]);
            (
                Orchestrator { phase: Phase::Failed, baseline: i, failure: Some(error), ..self },
                Action::Abort { error },
            )
        } else {
            (Orchestrator { phase: Phase::CommonApply, baseline: i, ..self }, Action::ApplyCommon)
        }
    }

    fn enter_workflow(self, j: usize) -> (r: (Orchestrator, Action))
        requires
            self@.in_baseline(),
            self@.enter_workflow(j as int).0.wf(),
        ensures
            (r.0@, r.1) == self@.enter_workflow(j as int),
    {
        match AvailableWorkflow::at(j) {
            Some(workflow) => {
                let baseline = self.baseline_now();
                (
                    Orchestrator {
                        phase: Phase::FileInit,
                        workflow: j,
                        label: 0,
                        measured: false,
                        repeat: 0,
                        recorded: 0,
                        excluded: 0,
                        started: None,
                        ..self
                    },
                    Action::InitDataFile { baseline, workflow },
                )
            },
            None => (Orchestrator { phase: Phase::CommonDelete, ..self }, Action::DeleteCommon),
        }
    }

    /// Begins the next execution, `repeat` executions of the kind that
    /// `measured` tells having been completed.
    fn begin_repeat(self, measured: bool, repeat: u32) -> (r: (Orchestrator, Action))
        requires
            self@.in_workflow(),
            (State { measured, repeat: repeat as int, ..self@ }).begin_repeat().0.wf(),
        ensures
            (r.0@, r.1) == (State { measured, repeat: repeat as int, ..self@ }).begin_repeat(),
    {
        let workflow = self.workflow_now();
        if !measured && repeat < self.num_warmup_repeats {
            (
                Orchestrator { phase: Phase::Trigger, measured, repeat, ..self },
                Action::Trigger { workflow },
            )
        } else {
            let done: u32 = if measured {
                repeat
            } else {
                0
            };
            if done < self.num_repeats {
                (
                    Orchestrator { phase: Phase::Trigger, measured: true, repeat: done, ..self },
                    Action::Trigger { workflow },
                )
            } else {
                (
                    Orchestrator {
                        phase: Phase::WorkflowDelete,
                        measured: true,
                        repeat: done,
                        ..self
                    },
                    Action::DeleteWorkflow { workflow },
                )
            }
        }
    }

    fn enter_wait(self, k: usize) -> (r: (Orchestrator, Action))
        requires
            self@.in_workflow(),
            self@.enter_wait(k as int).0.wf(),
        ensures
            (r.0@, r.1) == self@.enter_wait(k as int),
    {
        let workflow = self.workflow_now();
        if k < workflow.num_readiness_labels() {
            (
                Orchestrator { phase: Phase::WorkflowWait, label: k, ..self },
                Action::PollPods { pods: PodSet::Workflow { workflow, label: k } },
            )
        } else {
            self.begin_repeat(false, 0)
        }
    }

    fn conclude(self, found: Option<Timestamp>) -> (r: (Orchestrator, Action))
        requires
            self@.wf(),
            self@.phase == Phase::Detect,
            self@.conclude(found).0.wf(),
        ensures
            (r.0@, r.1) == self@.conclude(found),
    {
        let workflow = self.workflow_now();
        if !self.measured {
            return (Orchestrator { phase: Phase::Cleanup, ..self }, Action::Cleanup { workflow });
        }
        let baseline = self.baseline_now();
        let result = match (self.started, found) {
            (Some(start), Some(end)) => ExecutionResult::new(start, end, self.repeat),
            _ => None,
        };
        match result {
            Some(result) => (
                Orchestrator { phase: Phase::Record, recorded: self.recorded + 1, ..self },
                Action::AppendResult { baseline, workflow, result },
            ),
            None => (
                Orchestrator { phase: Phase::Cleanup, excluded: self.excluded + 1, ..self },
                Action::Cleanup { workflow },
            ),
        }
    }

    fn fail(self, error: EvalError) -> (r: (Orchestrator, Action))
        requires
            self@.wf(),
            self@.fail(error).0.wf(),
        ensures
            (r.0@, r.1) == self@.fail(error),
    {
        if is_deployed(self.phase) && self.phase != Phase::WorkflowDelete {
            let workflow = self.workflow_now();
            (
                Orchestrator { phase: Phase::WorkflowDelete, failure: Some(error), ..self },
                Action::DeleteWorkflow { workflow },
            )
        } else {
            let first = match self.failure {
                Some(earlier) => earlier,
                None => error,
            };
            (
                Orchestrator { phase: Phase::Failed, failure: Some(first), ..self },
                Action::Abort { error: first },
            )
        }
    }

    fn proceed(self, event: Event) -> (r: (Orchestrator, Action))
        requires
            self@.wf(),
            self@.proceed(event).0.wf(),
            !(event is Failed),
        ensures
            (r.0@, r.1) == self@.proceed(event),
    {
        match (self.phase, event) {
            (Phase::Idle, Event::Start) => self.enter_baseline(0),
            (Phase::CommonApply, Event::Done) => (
                Orchestrator { phase: Phase::StoreWait, ..self },
                Action::PollPods { pods: PodSet::Store },
            ),
            (Phase::StoreWait, Event::Output(text)) => {
                if Eval::pods_ready(text.as_str(), 1) {
                    (Orchestrator { phase: Phase::StoreQuery, ..self }, Action::QueryStoreAddress)
                } else {
                    (self, Action::PollPods { pods: PodSet::Store })
                }
            },
            (Phase::StoreQuery, Event::Output(text)) => (
                Orchestrator { phase: Phase::StorePublish, store_address: text, ..self },
                Action::PublishStoreAddress,
            ),
            (Phase::StorePublish, Event::Done) => (
                Orchestrator { phase: Phase::StateUpload, ..self },
                Action::UploadState,
            ),
            (Phase::StateUpload, Event::Done) => self.enter_workflow(0),
            (Phase::FileInit, Event::Done) => {
                let workflow = self.workflow_now();
                (
                    Orchestrator { phase: Phase::ManifestRead, ..self },
                    Action::ReadManifest { workflow },
                )
            },
            (Phase::ManifestRead, Event::Output(text)) => {
                let workflow = self.workflow_now();
                let variables = Eval::manifest_variables(&self.baseline_now());
                let manifest = Eval::template_yaml(text.as_str(), &variables);
                (
                    Orchestrator { phase: Phase::WorkflowApply, manifest, ..self },
                    Action::ApplyWorkflow { workflow },
                )
            },
            (Phase::WorkflowApply, Event::Done) => self.enter_wait(0),
            (Phase::WorkflowWait, Event::Output(text)) => {
                if Eval::pods_ready(text.as_str(), 1) {
                    let k = self.label + 1;
                    self.enter_wait(k)
                } else {
                    let workflow = self.workflow_now();
                    let label = self.label;
                    (self, Action::PollPods { pods: PodSet::Workflow { workflow, label } })
                }
            },
            (Phase::Trigger, Event::Triggered(at)) => {
                let workflow = self.workflow_now();
                (
                    Orchestrator { phase: Phase::Detect, started: Some(at), ..self },
                    Action::AwaitCompletion { workflow },
                )
            },
            (Phase::Detect, Event::Detection(found)) => self.conclude(found),
            (Phase::Record, Event::Done) => {
                let workflow = self.workflow_now();
                (Orchestrator { phase: Phase::Cleanup, ..self }, Action::Cleanup { workflow })
            },
            (Phase::Cleanup, Event::Done) => {
                let measured = self.measured;
                let repeat = self.repeat + 1;
                self.begin_repeat(measured, repeat)
            },
            (Phase::WorkflowDelete, Event::Done) => {
                match self.failure {
                    Some(error) => (
                        Orchestrator { phase: Phase::Failed, ..self },
                        Action::Abort { error },
                    ),
                    None => {
                        let j = self.workflow + 1;
                        self.enter_workflow(j)
                    },
                }
            },
            (Phase::CommonDelete, Event::Done) => {
                let count = self.baselines.len();
                assert(self.baseline < count);
                let i = self.baseline + 1;
                self.enter_baseline(i)
            },
            _ => self.fail(EvalError::UnexpectedEvent),
        }
    }

    /// Takes what the caller reports of the action it was given last, and
    /// tells it what to do next.
    pub fn step(self, event: Event) -> (r: (Orchestrator, Action))
        ensures
            (r.0@, r.1) == self@.next(event),
            r.0@.wf(),
    {
        proof {
            use_type_invariant(&self);
            lemma_next_wf(self@, event);
        }
        match self.phase {
            Phase::Finished => (self, Action::Finish),
            Phase::Failed => {
                let error = match self.failure {
                    Some(error) => error,
                    None => EvalError::UnexpectedEvent,
                };
                (self, Action::Abort { error })
            },
            _ => match event {
                Event::Failed => {
                    let error = error_of(self.phase);
                    self.fail(error)
                },
                _ => self.proceed(event),
            },
        }
    }
}

impl Eval {
    /// Begins a run of `exp` as `args` ask for it: the run and the first
    /// thing to do. The caller carries out each action and hands what came of
    /// it to `Orchestrator::step`, until the action is to finish or to abort.
    pub fn run(exp: &EvalExperiment, args: EvalRunArgs) -> (r: (Orchestrator, Action))
        ensures
            (r.0@, r.1) == State::init(
                *exp,
                args.baseline@,
                args.num_repeats,
                args.num_warmup_repeats,
            ).next(Event::Start),
            r.0@.wf(),
    {
        Orchestrator::new(*exp, args).step(Event::Start)
    }
}

fn is_deployed(phase: Phase) -> (b: bool)
    ensures
        b == phase.deployed(),
{
    match phase {
        Phase::WorkflowApply
        | Phase::WorkflowWait
        | Phase::Trigger
        | Phase::Detect
        | Phase::Record
        | Phase::Cleanup
        | Phase::WorkflowDelete => true,
        _ => false,
    }
}

fn error_of(phase: Phase) -> (error: EvalError)
    ensures
        error == phase.error(),
{
    match phase {
        Phase::CommonApply | Phase::WorkflowApply => EvalError::ClusterApply,
        Phase::StoreWait | Phase::StoreQuery | Phase::WorkflowWait => EvalError::ClusterQuery,
        Phase::StorePublish | Phase::StateUpload | Phase::Detect | Phase::Cleanup =>
            EvalError::ObjectStore,
        Phase::FileInit | Phase::Record => EvalError::DataFile,
        Phase::ManifestRead => EvalError::Template,
        Phase::Trigger => EvalError::Trigger,
        Phase::WorkflowDelete | Phase::CommonDelete => EvalError::ClusterDelete,
        Phase::Idle | Phase::Finished | Phase::Failed => EvalError::UnexpectedEvent,
    }
}

} // verus!
