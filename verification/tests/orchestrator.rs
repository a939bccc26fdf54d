use invrs::baseline::{EvalBaseline, EvalExperiment, EvalRunArgs};
use invrs::eval::{Eval, EvalError};
use invrs::machine::{Action, Event, Phase, PodSet, Stage};
use invrs::orchestrator::Orchestrator;
use invrs::timing::Timestamp;
use invrs::workflow::AvailableWorkflow;

const WC: AvailableWorkflow = AvailableWorkflow::WordCount;

const MANIFEST: &str = "kind: Service\nspec:\n  runtimeClassName: ${RUNTIME_CLASS_NAME}\n";

/// A stand-in for everything outside the library: it answers each action as
/// the cluster, the object store and the file system would.
struct World {
    /// Milliseconds that execution number k takes; `None`: the key never appears.
    durations: Vec<Option<i64>>,
    /// How many observations of a set of pods come before the one that shows it ready.
    polls_before_ready: usize,
    /// The action, by its number in the run, that fails.
    fail_at: Option<usize>,
    clock: i64,
    executions: usize,
    polls: usize,
    started: i64,
    /// Keys in the object store.
    keys: Vec<String>,
    files: Vec<(String, String)>,
    applied: Vec<String>,
    deleted: Vec<String>,
    published: Vec<String>,
    actions: Vec<Action>,
    stages: Vec<Stage>,
}

impl World {
    fn new(durations: Vec<Option<i64>>) -> World {
        World {
            durations,
            polls_before_ready: 0,
            fail_at: None,
            clock: 1_700_000_000_000,
            executions: 0,
            polls: 0,
            started: 0,
            keys: Vec::new(),
            files: Vec::new(),
            applied: Vec::new(),
            deleted: Vec::new(),
            published: Vec::new(),
            actions: Vec::new(),
            stages: Vec::new(),
        }
    }

    fn now(&self) -> Timestamp {
        Timestamp::new(self.clock / 1000, ((self.clock % 1000) * 1_000_000) as u32).unwrap()
    }

    fn file_mut(&mut self, name: &str) -> &mut String {
        let i = self.files.iter().position(|(n, _)| n == name).unwrap();
        &mut self.files[i].1
    }

    fn file(&self, name: &str) -> &str {
        let i = self.files.iter().position(|(n, _)| n == name).unwrap();
        &self.files[i].1
    }

    fn perform(&mut self, run: &Orchestrator, action: Action) -> Event {
        let number = self.actions.len();
        self.actions.push(action);
        if self.fail_at == Some(number) {
            return Event::Failed;
        }
        match action {
            Action::ApplyCommon | Action::UploadState | Action::DeleteCommon => Event::Done,
            Action::PollPods { pods } => {
                assert!(pods.wait().is_some());
                self.polls += 1;
                if self.polls > self.polls_before_ready {
                    self.polls = 0;
                    Event::Output("'True'".to_string())
                } else if self.polls % 2 == 1 {
                    Event::Output(String::new())
                } else {
                    Event::Output("'False'".to_string())
                }
            }
            Action::QueryStoreAddress => Event::Output("10.0.0.7".to_string()),
            Action::PublishStoreAddress => {
                self.published.push(run.store_address().clone());
                Event::Done
            }
            Action::InitDataFile { baseline, workflow } => {
                let name =
                    Eval::get_data_file_name("/eval", &workflow, &run.experiment(), &baseline);
                self.files.retain(|(n, _)| *n != name);
                self.files.push((name, Eval::init_data_file(&run.experiment())));
                Event::Done
            }
            Action::ReadManifest { workflow } => {
                assert_eq!(workflow, WC);
                Event::Output(MANIFEST.to_string())
            }
            Action::ApplyWorkflow { workflow } => {
                // nothing of an earlier run may be left when a workflow is deployed
                assert!(!self.keys.iter().any(|k| k.starts_with(&workflow.cleanup_prefix())));
                self.applied.push(run.manifest().clone());
                Event::Done
            }
            Action::Trigger { workflow } => {
                assert!(!self.keys.contains(&workflow.completion_key()));
                self.started = self.clock;
                let at = self.now();
                self.keys.push(format!("{}part-0", workflow.cleanup_prefix()));
                Event::Triggered(at)
            }
            Action::AwaitCompletion { workflow } => {
                let k = self.executions;
                self.executions += 1;
                match self.durations[k] {
                    Some(ms) => {
                        self.clock = self.started + ms;
                        self.keys.push(workflow.completion_key());
                        let found = self.now();
                        self.clock += 3;
                        Event::Detection(Some(found))
                    }
                    None => {
                        self.clock += 60_000;
                        Event::Detection(None)
                    }
                }
            }
            Action::AppendResult { baseline, workflow, result } => {
                let name =
                    Eval::get_data_file_name("/eval", &workflow, &run.experiment(), &baseline);
                let line = Eval::write_result_to_file(&run.experiment(), &result);
                self.file_mut(&name).push_str(&line);
                Event::Done
            }
            Action::Cleanup { workflow } => {
                let prefix = workflow.cleanup_prefix();
                self.keys.retain(|k| !k.starts_with(&prefix));
                Event::Done
            }
            Action::DeleteWorkflow { workflow } => {
                assert_eq!(workflow, WC);
                self.deleted.push(run.manifest().clone());
                Event::Done
            }
            Action::Finish | Action::Abort { .. } => unreachable!(),
        }
    }

    /// Runs to the end and hands back the run and its last action.
    fn drive(&mut self, baselines: Vec<EvalBaseline>, repeats: u32, warmups: u32) -> (Orchestrator, Action) {
        let args = EvalRunArgs { baseline: baselines, num_repeats: repeats, num_warmup_repeats: warmups };
        let (mut run, mut action) = Eval::run(&EvalExperiment::E2eLatency, args);
        loop {
            self.stages.push(run.stage());
            if matches!(action, Action::Finish | Action::Abort { .. }) {
                return (run, action);
            }
            let event = self.perform(&run, action);
            let (next, then) = run.step(event);
            run = next;
            action = then;
        }
    }
}

fn knative_file() -> &'static str {
    "/eval/e2e-latency/data/knative_word-count.csv"
}

#[test]
fn three_repeats_give_header_and_three_rows() {
    let mut world = World::new(vec![Some(120), Some(95), Some(101)]);
    let (run, last) = world.drive(vec![EvalBaseline::Knative], 3, 0);
    assert_eq!(last, Action::Finish);
    assert_eq!(run.phase(), Phase::Finished);
    assert_eq!(world.files.len(), 1);
    assert_eq!(world.file(knative_file()), "Run,TimeMs\n0,120\n1,95\n2,101\n");
    let lines: Vec<&str> = world.file(knative_file()).lines().collect();
    assert_eq!(lines[0], "Run,TimeMs");
    assert_eq!(lines.len(), 4);
    for (i, line) in lines[1..].iter().enumerate() {
        let (run_index, time) = line.split_once(',').unwrap();
        assert_eq!(run_index.parse::<usize>().unwrap(), i);
        assert!(time.parse::<u64>().is_ok());
    }
}

#[test]
fn full_run_of_one_baseline_action_by_action() {
    let mut world = World::new(vec![Some(10), Some(20)]);
    let (_, last) = world.drive(vec![EvalBaseline::CcKnative], 1, 1);
    assert_eq!(last, Action::Finish);
    let b = EvalBaseline::CcKnative;
    let kinds: Vec<String> = world.actions.iter().map(|a| format!("{:?}", a)).collect();
    let expected = vec![
        format!("{:?}", Action::ApplyCommon),
        format!("{:?}", Action::PollPods { pods: PodSet::Store }),
        format!("{:?}", Action::QueryStoreAddress),
        format!("{:?}", Action::PublishStoreAddress),
        format!("{:?}", Action::UploadState),
        format!("{:?}", Action::InitDataFile { baseline: b, workflow: WC }),
        format!("{:?}", Action::ReadManifest { workflow: WC }),
        format!("{:?}", Action::ApplyWorkflow { workflow: WC }),
        format!("{:?}", Action::PollPods { pods: PodSet::Workflow { workflow: WC, label: 0 } }),
        format!("{:?}", Action::PollPods { pods: PodSet::Workflow { workflow: WC, label: 1 } }),
        format!("{:?}", Action::Trigger { workflow: WC }),
        format!("{:?}", Action::AwaitCompletion { workflow: WC }),
        format!("{:?}", Action::Cleanup { workflow: WC }),
        format!("{:?}", Action::Trigger { workflow: WC }),
        format!("{:?}", Action::AwaitCompletion { workflow: WC }),
    ];
    assert_eq!(kinds[..expected.len()], expected[..]);
    assert!(matches!(world.actions[15], Action::AppendResult { baseline, workflow, result }
        if baseline == b && workflow == WC && result.iter() == 0 && result.duration_ms() == 20));
    assert_eq!(world.actions[16], Action::Cleanup { workflow: WC });
    assert_eq!(world.actions[17], Action::DeleteWorkflow { workflow: WC });
    assert_eq!(world.actions[18], Action::DeleteCommon);
    assert_eq!(world.actions.len(), 19);
    assert_eq!(world.file("/eval/e2e-latency/data/cc-knative_word-count.csv"), "Run,TimeMs\n0,20\n");
}

#[test]
fn stages_follow_one_another() {
    let mut world = World::new(vec![Some(10), Some(20)]);
    world.drive(vec![EvalBaseline::Knative], 1, 1);
    let mut seen: Vec<Stage> = Vec::new();
    for s in &world.stages {
        if seen.last() != Some(s) {
            seen.push(*s);
        }
    }
    assert_eq!(
        seen,
        vec![
            Stage::InfraUp,
            Stage::WorkflowDeployed,
            Stage::Warmup,
            Stage::Measuring,
            Stage::WorkflowTorndown,
            Stage::InfraDown,
            Stage::Finished,
        ]
    );
}

#[test]
fn run_not_begun_is_idle() {
    let run = Orchestrator::new(EvalExperiment::E2eLatency, EvalRunArgs::new(vec![EvalBaseline::Knative]));
    assert_eq!(run.phase(), Phase::Idle);
    assert_eq!(run.stage(), Stage::NotStarted);
    assert_eq!(run.failure(), None);
    assert_eq!(run.recorded(), 0);
    assert_eq!(run.excluded(), 0);
    assert_eq!(run.repeat(), 0);
    assert_eq!(run.manifest(), "");
    assert_eq!(run.store_address(), "");
    let (run, action) = run.step(Event::Start);
    assert_eq!(action, Action::ApplyCommon);
    assert_eq!(run.phase(), Phase::CommonApply);
}

#[test]
fn manifest_is_rendered_with_the_runtime_class_of_the_baseline() {
    let mut world = World::new(vec![]);
    world.drive(vec![EvalBaseline::Knative, EvalBaseline::TlessKnative], 0, 0);
    assert_eq!(
        world.applied,
        vec![
            "kind: Service\nspec:\n  runtimeClassName: kata-qemu\n",
            "kind: Service\nspec:\n  runtimeClassName: kata-qemu-sev\n",
        ]
    );
    // what is deleted is what was applied
    assert_eq!(world.deleted, world.applied);
}

#[test]
fn store_address_is_published_as_the_cluster_gave_it() {
    let mut world = World::new(vec![]);
    let (run, _) = world.drive(vec![EvalBaseline::Knative], 0, 0);
    assert_eq!(world.published, vec!["10.0.0.7"]);
    assert_eq!(run.store_address(), "10.0.0.7");
}

#[test]
fn timed_out_repeat_is_left_out_of_the_data_file() {
    let mut world = World::new(vec![Some(120), None, Some(101)]);
    let (_, last) = world.drive(vec![EvalBaseline::Knative], 3, 0);
    assert_eq!(last, Action::Finish);
    assert_eq!(world.file(knative_file()), "Run,TimeMs\n0,120\n2,101\n");
    assert!(!world.file(knative_file()).contains(",0\n"));
    let appended =
        world.actions.iter().filter(|a| matches!(a, Action::AppendResult { .. })).count();
    assert_eq!(appended, 2);
}

#[test]
fn all_repeats_timed_out_leave_only_the_header() {
    let mut world = World::new(vec![None, None]);
    let (_, last) = world.drive(vec![EvalBaseline::Knative], 2, 0);
    assert_eq!(last, Action::Finish);
    assert_eq!(world.file(knative_file()), "Run,TimeMs\n");
    assert_eq!(world.deleted.len(), 1);
}

#[test]
fn rows_and_exclusions_add_up_to_the_repeats() {
    let mut world = World::new(vec![Some(1), Some(5), None, Some(7), None, Some(9), Some(2)]);
    let args = EvalRunArgs {
        baseline: vec![EvalBaseline::Knative],
        num_repeats: 5,
        num_warmup_repeats: 2,
    };
    let (mut run, mut action) = Eval::run(&EvalExperiment::E2eLatency, args);
    while action != (Action::DeleteWorkflow { workflow: WC }) {
        let event = world.perform(&run, action);
        let (next, then) = run.step(event);
        run = next;
        action = then;
    }
    assert_eq!(run.stage(), Stage::WorkflowTorndown);
    assert_eq!(run.recorded(), 3);
    assert_eq!(run.excluded(), 2);
    assert_eq!(run.recorded() + run.excluded(), 5);
    assert_eq!(world.file(knative_file()), "Run,TimeMs\n1,7\n3,9\n4,2\n");
}

#[test]
fn warmup_results_are_discarded_but_cleaned_up() {
    let mut world = World::new(vec![Some(500), Some(400), Some(30)]);
    world.drive(vec![EvalBaseline::Knative], 1, 2);
    assert_eq!(world.file(knative_file()), "Run,TimeMs\n0,30\n");
    let cleanups = world.actions.iter().filter(|a| matches!(a, Action::Cleanup { .. })).count();
    assert_eq!(cleanups, 3);
    assert!(world.keys.is_empty());
}

#[test]
fn detection_before_trigger_is_excluded() {
    let args = EvalRunArgs { baseline: vec![EvalBaseline::Knative], num_repeats: 1, num_warmup_repeats: 0 };
    let mut world = World::new(vec![]);
    let (mut run, mut action) = Eval::run(&EvalExperiment::E2eLatency, args);
    while action != (Action::Trigger { workflow: WC }) {
        let event = world.perform(&run, action);
        let (next, then) = run.step(event);
        run = next;
        action = then;
    }
    let (run, action) = run.step(Event::Triggered(Timestamp::new(100, 0).unwrap()));
    assert_eq!(action, Action::AwaitCompletion { workflow: WC });
    let (run, action) = run.step(Event::Detection(Some(Timestamp::new(99, 999_999_999).unwrap())));
    assert_eq!(action, Action::Cleanup { workflow: WC });
    assert_eq!(run.recorded(), 0);
    assert_eq!(run.excluded(), 1);
    let (run, action) = run.step(Event::Done);
    assert_eq!(action, Action::DeleteWorkflow { workflow: WC });
    assert_eq!(run.failure(), None);
}

#[test]
fn consecutive_baselines_do_not_see_each_others_keys() {
    let mut world = World::new(vec![Some(5), Some(6), None, Some(8), Some(9), Some(10)]);
    let (_, last) =
        world.drive(vec![EvalBaseline::Knative, EvalBaseline::CcKnative], 2, 1);
    assert_eq!(last, Action::Finish);
    // `perform` has checked at every deployment and at every trigger that no
    // key was left under the cleanup prefix
    assert_eq!(world.applied.len(), 2);
    assert!(world.keys.is_empty());
    // after each deletion and before the next deployment the prefix was clean
    let mut last_store_action_before_delete: Option<Action> = None;
    for a in &world.actions {
        match a {
            Action::Trigger { .. } | Action::AwaitCompletion { .. } | Action::Cleanup { .. } => {
                last_store_action_before_delete = Some(*a)
            }
            Action::DeleteWorkflow { workflow } => {
                assert_eq!(last_store_action_before_delete, Some(Action::Cleanup { workflow: *workflow }));
            }
            _ => {}
        }
    }
    assert_eq!(world.file(knative_file()), "Run,TimeMs\n0,6\n");
    assert_eq!(
        world.file("/eval/e2e-latency/data/cc-knative_word-count.csv"),
        "Run,TimeMs\n0,9\n1,10\n"
    );
}

#[test]
fn baselines_run_one_after_the_other() {
    let mut world = World::new(vec![Some(1), Some(2), Some(3)]);
    world.drive(
        vec![EvalBaseline::Knative, EvalBaseline::CcKnative, EvalBaseline::TlessKnative],
        1,
        0,
    );
    let order: Vec<EvalBaseline> = world
        .actions
        .iter()
        .filter_map(|a| match a {
            Action::InitDataFile { baseline, .. } => Some(*baseline),
            _ => None,
        })
        .collect();
    assert_eq!(
        order,
        vec![EvalBaseline::Knative, EvalBaseline::CcKnative, EvalBaseline::TlessKnative]
    );
    let commons: Vec<&Action> = world
        .actions
        .iter()
        .filter(|a| matches!(a, Action::ApplyCommon | Action::DeleteCommon))
        .collect();
    assert_eq!(
        commons,
        vec![
            &Action::ApplyCommon,
            &Action::DeleteCommon,
            &Action::ApplyCommon,
            &Action::DeleteCommon,
            &Action::ApplyCommon,
            &Action::DeleteCommon
        ]
    );
}

#[test]
fn same_baseline_twice_truncates_its_file() {
    let mut world = World::new(vec![Some(1), Some(2), Some(3)]);
    world.drive(vec![EvalBaseline::Knative, EvalBaseline::Knative], 1, 0);
    assert_eq!(world.files.len(), 1);
    assert_eq!(world.file(knative_file()), "Run,TimeMs\n0,2\n");
}

#[test]
fn waits_poll_until_pods_are_ready() {
    let mut world = World::new(vec![]);
    world.polls_before_ready = 3;
    let (_, last) = world.drive(vec![EvalBaseline::Knative], 0, 0);
    assert_eq!(last, Action::Finish);
    let store = world
        .actions
        .iter()
        .filter(|a| **a == Action::PollPods { pods: PodSet::Store })
        .count();
    let first = world
        .actions
        .iter()
        .filter(|a| **a == Action::PollPods { pods: PodSet::Workflow { workflow: WC, label: 0 } })
        .count();
    let second = world
        .actions
        .iter()
        .filter(|a| **a == Action::PollPods { pods: PodSet::Workflow { workflow: WC, label: 1 } })
        .count();
    assert_eq!((store, first, second), (4, 4, 4));
}

#[test]
fn partial_readiness_never_ends_a_wait() {
    let args = EvalRunArgs::new(vec![EvalBaseline::Knative]);
    let (run, action) = Eval::run(&EvalExperiment::E2eLatency, args);
    assert_eq!(action, Action::ApplyCommon);
    let (mut run, mut action) = run.step(Event::Done);
    for output in ["", "'False'", "'True' 'True'", "'True' 'False'", "True", "'Unknown'"] {
        assert_eq!(action, Action::PollPods { pods: PodSet::Store });
        assert_eq!(run.phase(), Phase::StoreWait);
        let (next, then) = run.step(Event::Output(output.to_string()));
        run = next;
        action = then;
    }
    assert_eq!(action, Action::PollPods { pods: PodSet::Store });
    let (run, action) = run.step(Event::Output("'True'\n".to_string()));
    assert_eq!(action, Action::QueryStoreAddress);
    assert_eq!(run.phase(), Phase::StoreQuery);
}

#[test]
fn no_baseline_finishes_at_once() {
    let (run, action) = Eval::run(&EvalExperiment::E2eLatency, EvalRunArgs::new(vec![]));
    assert_eq!(action, Action::Finish);
    assert_eq!(run.phase(), Phase::Finished);
    assert_eq!(run.stage(), Stage::Finished);
}

#[test]
fn unsupported_baseline_aborts_the_run() {
    for b in [EvalBaseline::Faasm, EvalBaseline::SgxFaasm, EvalBaseline::TlessFaasm] {
        let (run, action) = Eval::run(&EvalExperiment::E2eLatency, EvalRunArgs::new(vec![b]));
        assert_eq!(action, Action::Abort { error: EvalError::UnsupportedBaseline(b) });
        assert_eq!(run.phase(), Phase::Failed);
        assert_eq!(run.stage(), Stage::Aborted);
        assert_eq!(run.failure(), Some(EvalError::UnsupportedBaseline(b)));
    }
}

#[test]
fn unsupported_baseline_aborts_when_its_turn_comes() {
    let mut world = World::new(vec![Some(4)]);
    let (_, last) = world.drive(vec![EvalBaseline::Knative, EvalBaseline::Faasm, EvalBaseline::CcKnative], 1, 0);
    assert_eq!(last, Action::Abort { error: EvalError::UnsupportedBaseline(EvalBaseline::Faasm) });
    assert_eq!(world.file(knative_file()), "Run,TimeMs\n0,4\n");
    assert_eq!(world.files.len(), 1);
    assert_eq!(*world.actions.last().unwrap(), Action::DeleteCommon);
}

#[test]
fn finished_run_stays_finished() {
    let mut world = World::new(vec![]);
    let (run, _) = world.drive(vec![EvalBaseline::Knative], 0, 0);
    let (run, action) = run.step(Event::Done);
    assert_eq!(action, Action::Finish);
    let (run, action) = run.step(Event::Failed);
    assert_eq!(action, Action::Finish);
    let (run, action) = run.step(Event::Start);
    assert_eq!(action, Action::Finish);
    assert_eq!(run.phase(), Phase::Finished);
}

#[test]
fn aborted_run_stays_aborted() {
    let (run, _) = Eval::run(&EvalExperiment::E2eLatency, EvalRunArgs::new(vec![EvalBaseline::Faasm]));
    let (run, action) = run.step(Event::Start);
    assert_eq!(action, Action::Abort { error: EvalError::UnsupportedBaseline(EvalBaseline::Faasm) });
    let (run, action) = run.step(Event::Done);
    assert_eq!(action, Action::Abort { error: EvalError::UnsupportedBaseline(EvalBaseline::Faasm) });
    assert_eq!(run.phase(), Phase::Failed);
}

/// Runs one baseline with one warm-up and two repeats, with action number
/// `fail_at` failing, and hands back the actions and the last one.
fn run_with_failure(fail_at: usize) -> (Vec<Action>, Action, Orchestrator) {
    let mut world = World::new(vec![Some(1), Some(2), Some(3)]);
    world.fail_at = Some(fail_at);
    let (run, last) = world.drive(vec![EvalBaseline::Knative], 2, 1);
    (world.actions, last, run)
}

#[test]
fn failure_before_deployment_aborts_at_once() {
    let expected = [
        (0, EvalError::ClusterApply),
        (1, EvalError::ClusterQuery),
        (2, EvalError::ClusterQuery),
        (3, EvalError::ObjectStore),
        (4, EvalError::ObjectStore),
        (5, EvalError::DataFile),
        (6, EvalError::Template),
    ];
    for (at, error) in expected {
        let (actions, last, run) = run_with_failure(at);
        assert_eq!(last, Action::Abort { error });
        assert_eq!(actions.len(), at + 1);
        assert_eq!(run.failure(), Some(error));
        assert!(!actions.iter().any(|a| matches!(a, Action::DeleteWorkflow { .. })));
    }
}

#[test]
fn failure_while_deployed_deletes_the_workflow_first() {
    let expected = [
        (7, EvalError::ClusterApply),
        (8, EvalError::ClusterQuery),
        (9, EvalError::ClusterQuery),
        (10, EvalError::Trigger),
        (11, EvalError::ObjectStore),
        (12, EvalError::ObjectStore),
        (13, EvalError::Trigger),
        (14, EvalError::ObjectStore),
        (15, EvalError::DataFile),
        (16, EvalError::ObjectStore),
        (20, EvalError::ObjectStore),
    ];
    for (at, error) in expected {
        let (actions, last, run) = run_with_failure(at);
        assert_eq!(last, Action::Abort { error }, "action {}", at);
        assert_eq!(actions.len(), at + 2);
        assert_eq!(actions[at + 1], Action::DeleteWorkflow { workflow: WC });
        assert_eq!(run.failure(), Some(error));
        assert_eq!(run.phase(), Phase::Failed);
    }
}

#[test]
fn failed_deletion_aborts() {
    // action 21 is the deletion of the workflow, 22 that of what is shared
    let (actions, last, _) = run_with_failure(21);
    assert_eq!(actions[21], Action::DeleteWorkflow { workflow: WC });
    assert_eq!(last, Action::Abort { error: EvalError::ClusterDelete });
    assert_eq!(actions.len(), 22);
    let (actions, last, _) = run_with_failure(22);
    assert_eq!(actions[22], Action::DeleteCommon);
    assert_eq!(last, Action::Abort { error: EvalError::ClusterDelete });
}

#[test]
fn first_error_is_the_one_reported() {
    let mut world = World::new(vec![Some(1)]);
    let args = EvalRunArgs { baseline: vec![EvalBaseline::Knative], num_repeats: 1, num_warmup_repeats: 0 };
    let (mut run, mut action) = Eval::run(&EvalExperiment::E2eLatency, args);
    while action != (Action::Trigger { workflow: WC }) {
        let event = world.perform(&run, action);
        let (next, then) = run.step(event);
        run = next;
        action = then;
    }
    let (run, action) = run.step(Event::Failed);
    assert_eq!(action, Action::DeleteWorkflow { workflow: WC });
    assert_eq!(run.stage(), Stage::WorkflowTorndown);
    // the deletion fails too
    let (run, action) = run.step(Event::Failed);
    assert_eq!(action, Action::Abort { error: EvalError::Trigger });
    assert_eq!(run.failure(), Some(EvalError::Trigger));
}

#[test]
fn unexpected_event_aborts() {
    let (run, action) = Eval::run(&EvalExperiment::E2eLatency, EvalRunArgs::new(vec![EvalBaseline::Knative]));
    assert_eq!(action, Action::ApplyCommon);
    let (run, action) = run.step(Event::Output("text".to_string()));
    assert_eq!(action, Action::Abort { error: EvalError::UnexpectedEvent });
    assert_eq!(run.failure(), Some(EvalError::UnexpectedEvent));

    let run = Orchestrator::new(EvalExperiment::E2eLatency, EvalRunArgs::new(vec![EvalBaseline::Knative]));
    let (_, action) = run.step(Event::Done);
    assert_eq!(action, Action::Abort { error: EvalError::UnexpectedEvent });
}

#[test]
fn unexpected_event_while_deployed_deletes_the_workflow_first() {
    let mut world = World::new(vec![Some(1)]);
    let args = EvalRunArgs { baseline: vec![EvalBaseline::Knative], num_repeats: 1, num_warmup_repeats: 0 };
    let (mut run, mut action) = Eval::run(&EvalExperiment::E2eLatency, args);
    while action != (Action::AwaitCompletion { workflow: WC }) {
        let event = world.perform(&run, action);
        let (next, then) = run.step(event);
        run = next;
        action = then;
    }
    let (run, action) = run.step(Event::Start);
    assert_eq!(action, Action::DeleteWorkflow { workflow: WC });
    let (_, action) = run.step(Event::Done);
    assert_eq!(action, Action::Abort { error: EvalError::UnexpectedEvent });
}

#[test]
fn no_repeats_at_all_deploys_and_deletes() {
    let mut world = World::new(vec![]);
    let (_, last) = world.drive(vec![EvalBaseline::Knative], 0, 0);
    assert_eq!(last, Action::Finish);
    assert_eq!(world.file(knative_file()), "Run,TimeMs\n");
    assert!(!world.actions.iter().any(|a| matches!(a, Action::Trigger { .. })));
    assert_eq!(world.deleted.len(), 1);
}
