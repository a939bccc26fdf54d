use invrs::baseline::{EvalBaseline, EvalExperiment, EvalRunArgs};
use invrs::eval::{ErrorKind, Eval, EvalError};
use invrs::workflow::AvailableWorkflow;

#[test]
fn baseline_names() {
    assert_eq!(EvalBaseline::Faasm.name(), "faasm");
    assert_eq!(EvalBaseline::SgxFaasm.name(), "sgx-faasm");
    assert_eq!(EvalBaseline::TlessFaasm.name(), "tless-faasm");
    assert_eq!(EvalBaseline::Knative.name(), "knative");
    assert_eq!(EvalBaseline::CcKnative.name(), "cc-knative");
    assert_eq!(EvalBaseline::TlessKnative.name(), "tless-knative");
}

#[test]
fn baseline_names_differ() {
    let all = [
        EvalBaseline::Faasm,
        EvalBaseline::SgxFaasm,
        EvalBaseline::TlessFaasm,
        EvalBaseline::Knative,
        EvalBaseline::CcKnative,
        EvalBaseline::TlessKnative,
    ];
    for a in all {
        for b in all {
            assert_eq!(a == b, a.name() == b.name());
        }
    }
}

#[test]
fn cluster_baselines() {
    assert!(EvalBaseline::Knative.supports_cluster());
    assert!(EvalBaseline::CcKnative.supports_cluster());
    assert!(EvalBaseline::TlessKnative.supports_cluster());
    assert!(!EvalBaseline::Faasm.supports_cluster());
    assert!(!EvalBaseline::SgxFaasm.supports_cluster());
    assert!(!EvalBaseline::TlessFaasm.supports_cluster());
}

#[test]
fn runtime_classes() {
    assert_eq!(EvalBaseline::Knative.runtime_class(), Some("kata-qemu".to_string()));
    assert_eq!(EvalBaseline::CcKnative.runtime_class(), Some("kata-qemu-sev".to_string()));
    assert_eq!(EvalBaseline::TlessKnative.runtime_class(), Some("kata-qemu-sev".to_string()));
    assert_eq!(EvalBaseline::Faasm.runtime_class(), None);
    assert_eq!(EvalBaseline::SgxFaasm.runtime_class(), None);
    assert_eq!(EvalBaseline::TlessFaasm.runtime_class(), None);
}

#[test]
fn experiment_name_and_header() {
    assert_eq!(EvalExperiment::E2eLatency.name(), "e2e-latency");
    assert_eq!(EvalExperiment::E2eLatency.header(), "Run,TimeMs");
}

#[test]
fn run_args_defaults() {
    let args = EvalRunArgs::new(vec![EvalBaseline::Knative]);
    assert_eq!(args.baseline, vec![EvalBaseline::Knative]);
    assert_eq!(args.num_repeats, 3);
    assert_eq!(args.num_warmup_repeats, 0);
}

#[test]
fn catalog_holds_word_count() {
    assert_eq!(AvailableWorkflow::iter_variants(), vec![AvailableWorkflow::WordCount]);
    assert_eq!(AvailableWorkflow::count(), 1);
    assert_eq!(AvailableWorkflow::at(0), Some(AvailableWorkflow::WordCount));
    assert_eq!(AvailableWorkflow::at(1), None);
    assert_eq!(AvailableWorkflow::WordCount.name(), "word-count");
}

#[test]
fn word_count_paths() {
    let w = AvailableWorkflow::WordCount;
    assert_eq!(w.manifest_path("/proj/workflows"), "/proj/workflows/word-count/knative/workflow.yaml");
    assert_eq!(w.trigger_path("/proj/workflows"), "/proj/workflows/word-count/knative/curl_cmd.sh");
}

#[test]
fn word_count_keys() {
    let w = AvailableWorkflow::WordCount;
    assert_eq!(w.cleanup_prefix(), "word-count/few-files/mapper-results/");
    assert_eq!(w.completion_key(), "word-count/few-files/mapper-results/aggregated-results.txt");
}

#[test]
fn completion_key_lies_under_cleanup_prefix() {
    for w in AvailableWorkflow::iter_variants() {
        assert!(w.completion_key().starts_with(&w.cleanup_prefix()));
    }
}

#[test]
fn word_count_readiness_labels() {
    let w = AvailableWorkflow::WordCount;
    assert_eq!(
        w.readiness_labels(),
        vec!["tless.workflows/name=word-count-splitter", "tless.workflows/name=word-count-reducer"]
    );
    assert_eq!(w.num_readiness_labels(), 2);
}

#[test]
fn plot_does_nothing() {
    Eval::plot(EvalExperiment::E2eLatency);
}

#[test]
fn error_kinds() {
    assert_eq!(
        EvalError::UnsupportedBaseline(EvalBaseline::Faasm).kind(),
        ErrorKind::Configuration
    );
    assert_eq!(EvalError::MissingToolRoot.kind(), ErrorKind::Configuration);
    assert_eq!(EvalError::UnexpectedEvent.kind(), ErrorKind::Protocol);
    for e in [
        EvalError::Template,
        EvalError::ClusterApply,
        EvalError::ClusterDelete,
        EvalError::ClusterQuery,
        EvalError::Trigger,
        EvalError::ObjectStore,
        EvalError::DataFile,
    ] {
        assert_eq!(e.kind(), ErrorKind::ExternalTool);
    }
}
