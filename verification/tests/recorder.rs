use invrs::baseline::{EvalBaseline, EvalExperiment};
use invrs::eval::Eval;
use invrs::timing::{ExecutionResult, Timestamp, MAX_SECONDS, MIN_SECONDS};
use invrs::workflow::AvailableWorkflow;

fn at(secs: i64, nanos: u32) -> Timestamp {
    Timestamp::new(secs, nanos).unwrap()
}

#[test]
fn results_root_below_current_directory() {
    assert_eq!(Eval::get_root("/home/u/proj"), "/home/u/proj/eval");
}

#[test]
fn data_file_name_of_knative_word_count() {
    let name = Eval::get_data_file_name(
        "/home/u/proj/eval",
        &AvailableWorkflow::WordCount,
        &EvalExperiment::E2eLatency,
        &EvalBaseline::Knative,
    );
    assert_eq!(name, "/home/u/proj/eval/e2e-latency/data/knative_word-count.csv");
}

#[test]
fn data_file_names_differ_by_baseline() {
    let root = Eval::get_root("/x");
    let w = AvailableWorkflow::WordCount;
    let e = EvalExperiment::E2eLatency;
    let a = Eval::get_data_file_name(&root, &w, &e, &EvalBaseline::CcKnative);
    let b = Eval::get_data_file_name(&root, &w, &e, &EvalBaseline::TlessKnative);
    assert_eq!(a, "/x/eval/e2e-latency/data/cc-knative_word-count.csv");
    assert_eq!(b, "/x/eval/e2e-latency/data/tless-knative_word-count.csv");
    assert_ne!(a, b);
}

#[test]
fn new_data_file_holds_the_header_line() {
    assert_eq!(Eval::init_data_file(&EvalExperiment::E2eLatency), "Run,TimeMs\n");
}

#[test]
fn result_line_holds_run_and_whole_milliseconds() {
    let r = ExecutionResult::new(at(1_700_000_000, 250_000_000), at(1_700_000_001, 750_999_999), 2)
        .unwrap();
    assert_eq!(r.duration_ms(), 1500);
    assert_eq!(Eval::write_result_to_file(&EvalExperiment::E2eLatency, &r), "2,1500\n");
}

#[test]
fn result_line_of_an_instant_execution() {
    let t = at(10, 5);
    let r = ExecutionResult::new(t, t, 0).unwrap();
    assert_eq!(Eval::write_result_to_file(&EvalExperiment::E2eLatency, &r), "0,0\n");
}

#[test]
fn result_line_rounds_down_to_whole_milliseconds() {
    let r = ExecutionResult::new(at(0, 999_999_999), at(1, 999_999), 7).unwrap();
    // 1_000_000 ns and not one more
    assert_eq!(Eval::write_result_to_file(&EvalExperiment::E2eLatency, &r), "7,1\n");
    let r = ExecutionResult::new(at(0, 999_999_999), at(1, 999_998), 7).unwrap();
    assert_eq!(Eval::write_result_to_file(&EvalExperiment::E2eLatency, &r), "7,0\n");
}

#[test]
fn result_line_of_the_longest_execution() {
    let r = ExecutionResult::new(at(MIN_SECONDS, 0), at(MAX_SECONDS, 999_999_999), u32::MAX)
        .unwrap();
    assert_eq!(r.duration_ms(), 16_544_868_105_599_999);
    assert_eq!(
        Eval::write_result_to_file(&EvalExperiment::E2eLatency, &r),
        "4294967295,16544868105599999\n"
    );
}

#[test]
fn data_file_is_header_and_one_line_per_result() {
    let exp = EvalExperiment::E2eLatency;
    let mut file = Eval::init_data_file(&exp);
    for i in 0..4u32 {
        let r = ExecutionResult::new(at(100, 0), at(100 + i as i64, 1_000_000 * i), i).unwrap();
        file.push_str(&Eval::write_result_to_file(&exp, &r));
    }
    assert_eq!(file, "Run,TimeMs\n0,0\n1,1001\n2,2002\n3,3003\n");
    assert_eq!(file.lines().count(), 5);
}
