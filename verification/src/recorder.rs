//! The data files: one per experiment, baseline and workflow, made of a
//! header line and one line per execution that was seen to finish.

use vstd::prelude::*;
use crate::baseline::{EvalBaseline, EvalExperiment};
use crate::eval::Eval;
use crate::text::{decimal, lemma_decimal_digits, push_decimal, push_signed_decimal, signed_decimal};
use crate::timing::ExecutionResult;
use crate::workflow::AvailableWorkflow;

verus! {

/// `<current directory>/eval`: where the results of all experiments lie.
pub open spec fn root_spec(current_dir: Seq<char>) -> Seq<char> {
    current_dir + "/eval"@
}

/// `<root>/<experiment>/data/<baseline>_<workflow>.csv`
pub open spec fn data_file_name_spec(
    root: Seq<char>,
    workflow: AvailableWorkflow,
    exp: EvalExperiment,
    baseline: EvalBaseline,
) -> Seq<char> {
    root + "/"@ + exp.name_spec() + "/data/"@ + baseline.name_spec() + "_"@ + workflow.name_spec()
        + ".csv"@
}

/// The first line of a data file: the column names.
pub open spec fn header_line(exp: EvalExperiment) -> Seq<char> {
    exp.header_spec().push('\n')
}

/// The line that stands for one execution: for latency, the number of the
/// repeat and the duration in whole milliseconds.
pub open spec fn row_line(exp: EvalExperiment, result: ExecutionResult) -> Seq<char> {
    match exp {
        EvalExperiment::E2eLatency => (decimal(result.iter_spec() as nat).push(',')
            + signed_decimal(result.duration_ms_spec())).push('\n'),
    }
}

/// The lines of `results`, one after the other.
pub open spec fn row_lines(exp: EvalExperiment, results: Seq<ExecutionResult>) -> Seq<char>
    decreases results.len(),
{
    if results.len() == 0 {
        Seq::empty()
    } else {
        row_lines(exp, results.drop_last()) + row_line(exp, results.last())
    }
}

/// What a data file holds once `results` have been written to it.
pub open spec fn data_file(exp: EvalExperiment, results: Seq<ExecutionResult>) -> Seq<char> {
    header_line(exp) + row_lines(exp, results)
}

/// How many line ends `s` holds.
pub open spec fn line_count(s: Seq<char>) -> nat
    decreases s.len(),
{
    if s.len() == 0 {
        0
    } else {
        line_count(s.drop_last()) + if s.last() == '\n' {
            1nat
        } else {
            0nat
        }
    }
}

pub proof fn lemma_line_count_concat(a: Seq<char>, b: Seq<char>)
    ensures
        line_count(a + b) == line_count(a) + line_count(b),
    decreases b.len(),
{
    if b.len() == 0 {
        assert(a + b == a);
    } else {
        lemma_line_count_concat(a, b.drop_last());
        assert((a + b).drop_last() == a + b.drop_last());
    }
}

/// Text without a line end counts no line.
pub proof fn lemma_line_count_none(s: Seq<char>)
    requires
        forall|i: int| 0 <= i < s.len() ==> #[trigger] s[i] != '\n',
    ensures
        line_count(s) == 0,
    decreases s.len(),
{
    if s.len() > 0 {
        lemma_line_count_none(s.drop_last());
    }
}

/// The line of a result is one line.
pub proof fn lemma_row_is_one_line(exp: EvalExperiment, result: ExecutionResult)
    ensures
        line_count(row_line(exp, result)) == 1,
{
    let run = decimal(result.iter_spec() as nat);
    let ms = result.duration_ms_spec();
    let time = signed_decimal(ms);
    lemma_decimal_digits(result.iter_spec() as nat);
    if ms < 0 {
        lemma_decimal_digits((-ms) as nat);
    } else {
        lemma_decimal_digits(ms as nat);
    }
    let body = run.push(',') + time;
    assert forall|i: int| 0 <= i < body.len() implies #[trigger] body[i] != '\n' by {
        if i < run.len() {
            assert(body[i] == run[i]);
        } else if i > run.len() {
            assert(body[i] == time[i - run.len() - 1]);
        }
    }
    lemma_line_count_none(body);
    assert(row_line(exp, result).drop_last() == body);
}

/// A data file holds one line for its header and one for each result
/// written to it.
pub proof fn lemma_data_file_lines(exp: EvalExperiment, results: Seq<ExecutionResult>)
    ensures
        line_count(data_file(exp, results)) == 1 + results.len(),
        line_count(row_lines(exp, results)) == results.len(),
    decreases results.len(),
{
    reveal_strlit("Run,TimeMs");
    let header = exp.header_spec();
    lemma_line_count_none(header);
    assert(header_line(exp).drop_last() == header);
    if results.len() > 0 {
        lemma_data_file_lines(exp, results.drop_last());
        lemma_row_is_one_line(exp, results.last());
        lemma_line_count_concat(
            row_lines(exp, results.drop_last()),
            row_line(exp, results.last()),
        );
    }
    lemma_line_count_concat(header_line(exp), row_lines(exp, results));
}

/// Writing one more result appends its line and nothing else.
pub proof fn lemma_data_file_append(
    exp: EvalExperiment,
    results: Seq<ExecutionResult>,
    result: ExecutionResult,
)
    ensures
        data_file(exp, results.push(result)) == data_file(exp, results) + row_line(exp, result),
{
    assert(results.push(result).drop_last() == results);
    assert(header_line(exp) + (row_lines(exp, results) + row_line(exp, result)) == (header_line(
        exp,
    ) + row_lines(exp, results)) + row_line(exp, result));
}

impl Eval {
    /// Where the results lie below the directory that the harness runs in.
    pub fn get_root(current_dir: &str) -> (root: String)
        ensures
            root@ == root_spec(current_dir@),
    {
        let mut root = String::from_str(current_dir);
        root.append("/eval");
        root
    }

    /// The name of the data file of one experiment, baseline and workflow
    /// below `root`.
    pub fn get_data_file_name(
        root: &str,
        workflow: &AvailableWorkflow,
        exp: &EvalExperiment,
        baseline: &EvalBaseline,
    ) -> (name: String)
        ensures
            name@ == data_file_name_spec(root@, *workflow, *exp, *baseline),
    {
        let mut name = String::from_str(root);
        name.append("/");
        name.append(exp.name().as_str());
        name.append("/data/");
        name.append(baseline.name().as_str());
        name.append("_");
        name.append(workflow.name().as_str());
        name.append(".csv");
        name
    }

    /// What a data file of `exp` holds when it is created: its header line.
    pub fn init_data_file(exp: &EvalExperiment) -> (content: String)
        ensures
            content@ == header_line(*exp),
            content@ == data_file(*exp, Seq::empty()),
    {
        let mut content = exp.header();
        content.push('\n');
        assert(header_line(*exp) + row_lines(*exp, Seq::empty()) == header_line(*exp));
        content
    }

    /// What is appended to a data file of `exp` for `result`: its line.
    pub fn write_result_to_file(exp: &EvalExperiment, result: &ExecutionResult) -> (line: String)
        ensures
            line@ == row_line(*exp, *result),
    {
        match exp {
            EvalExperiment::E2eLatency => {
                let mut line = String::new();
                push_decimal(&mut line, result.iter() as u128);
                line.push(',');
                push_signed_decimal(&mut line, result.duration_ms());
                line.push('\n');
                assert(line@ == (decimal(result.iter_spec() as nat).push(',') + signed_decimal(
                    result.duration_ms_spec(),
                )).push('\n'));
                line
            },
        }
    }
}

} // verus!
