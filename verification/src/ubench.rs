//! The micro-benchmarks: which executions make up a run, how their timings
//! are written down, and how the timings of a data file are averaged for
//! drawing.

use vstd::prelude::*;
use crate::text::{chars_of, decimal, push_decimal, same_chars, string_of_range};

verus! {

/// The largest parameter that a micro-benchmark is run with.
pub const MAX_NUM_CHAINS: u32 = 3;

/// How many averages a data file yields: one for each parameter from zero to
/// the largest.
pub const NUM_AVERAGES: usize = 4;

pub enum MicroBenchmarks {
    VerifyEDag,
}

impl MicroBenchmarks {
    pub open spec fn name_spec(self) -> Seq<char> {
        match self {
            MicroBenchmarks::VerifyEDag => "verify-edag"@,
        }
    }

    pub fn name(&self) -> (s: String)
        ensures
            s@ == self.name_spec(),
    {
        match self {
            MicroBenchmarks::VerifyEDag => String::from_str("verify-edag"),
        }
    }
}

/// How often each execution of a micro-benchmark is repeated.
#[derive(Debug)]
pub struct UbenchRunArgs {
    pub num_repeats: u32,
    pub num_warmup_repeats: u32,
}

impl UbenchRunArgs {
    /// One repeat and no warm-up, unless changed.
    pub fn new() -> (args: UbenchRunArgs)
        ensures
            args.num_repeats == 1,
            args.num_warmup_repeats == 0,
    {
        UbenchRunArgs { num_repeats: 1, num_warmup_repeats: 0 }
    }
}

/// The builds of the binary that is timed.
#[derive(Clone, Copy, Debug, PartialEq, Eq, Structural)]
pub enum UbenchBaseline {
    /// Built with acceleration of cryptography.
    CryptoAcc,
    /// Built without.
    Vanilla,
}

impl UbenchBaseline {
    pub open spec fn name_spec(self) -> Seq<char> {
        match self {
            UbenchBaseline::CryptoAcc => "crypto-acc"@,
            UbenchBaseline::Vanilla => "vanilla"@,
        }
    }

    /// Where the binary lies below the directory it is built in.
    pub open spec fn binary_spec(self) -> Seq<char> {
        match self {
            UbenchBaseline::CryptoAcc => "target/release/host"@,
            UbenchBaseline::Vanilla => "target-nocrypto-acc/release/host"@,
        }
    }

    pub open spec fn from_name_spec(name: Seq<char>) -> Option<UbenchBaseline> {
        if name == "crypto-acc"@ {
            Some(UbenchBaseline::CryptoAcc)
        } else if name == "vanilla"@ {
            Some(UbenchBaseline::Vanilla)
        } else {
            None
        }
    }

    pub fn name(&self) -> (s: String)
        ensures
            s@ == self.name_spec(),
    {
        match self {
            UbenchBaseline::CryptoAcc => String::from_str("crypto-acc"),
            UbenchBaseline::Vanilla => String::from_str("vanilla"),
        }
    }

    pub fn binary(&self) -> (s: String)
        ensures
            s@ == self.binary_spec(),
    {
        match self {
            UbenchBaseline::CryptoAcc => String::from_str("target/release/host"),
            UbenchBaseline::Vanilla => String::from_str("target-nocrypto-acc/release/host"),
        }
    }

    /// The baseline of that name, if there is one.
    pub fn from_name(name: &str) -> (b: Option<UbenchBaseline>)
        ensures
            b == Self::from_name_spec(name@),
    {
        let name = chars_of(name);
        if same_chars(&name, &chars_of("crypto-acc")) {
            Some(UbenchBaseline::CryptoAcc)
        } else if same_chars(&name, &chars_of("vanilla")) {
            Some(UbenchBaseline::Vanilla)
        } else {
            None
        }
    }
}

/// Whether the binary that is timed aggregates signatures.
#[derive(Clone, Copy, Debug, PartialEq, Eq, Structural)]
pub enum UbenchMode {
    NoAgg,
    Agg,
}

impl UbenchMode {
    pub open spec fn name_spec(self) -> Seq<char> {
        match self {
            UbenchMode::NoAgg => "noagg"@,
            UbenchMode::Agg => "agg"@,
        }
    }

    /// The number by which the binary is told the mode.
    pub open spec fn number_spec(self) -> u32 {
        match self {
            UbenchMode::NoAgg => 0,
            UbenchMode::Agg => 1,
        }
    }

    pub open spec fn from_name_spec(name: Seq<char>) -> Option<UbenchMode> {
        if name == "noagg"@ {
            Some(UbenchMode::NoAgg)
        } else if name == "agg"@ {
            Some(UbenchMode::Agg)
        } else {
            None
        }
    }

    pub fn name(&self) -> (s: String)
        ensures
            s@ == self.name_spec(),
    {
        match self {
            UbenchMode::NoAgg => String::from_str("noagg"),
            UbenchMode::Agg => String::from_str("agg"),
        }
    }

    pub fn number(&self) -> (n: u32)
        ensures
            n == self.number_spec(),
    {
        match self {
            UbenchMode::NoAgg => 0,
            UbenchMode::Agg => 1,
        }
    }

    /// The mode of that name, if there is one.
    pub fn from_name(name: &str) -> (m: Option<UbenchMode>)
        ensures
            m == Self::from_name_spec(name@),
    {
        let name = chars_of(name);
        if same_chars(&name, &chars_of("noagg")) {
            Some(UbenchMode::NoAgg)
        } else if same_chars(&name, &chars_of("agg")) {
            Some(UbenchMode::Agg)
        } else {
            None
        }
    }
}

/// One thing to do in a run of a micro-benchmark.
#[derive(Clone, Copy, Debug, PartialEq, Eq, Structural)]
pub enum UbenchStep {
    /// Create the data file of `baseline` and `mode`, with its header line.
    CreateDataFile { baseline: UbenchBaseline, mode: UbenchMode },
    /// Run the binary of `baseline` with the number of `mode` and with
    /// `parameter`, time it, and where it succeeds append the line of repeat
    /// `run` to the data file.
    Execute { baseline: UbenchBaseline, mode: UbenchMode, parameter: u32, run: u32 },
}

/// One line of a data file.
#[derive(Clone, Copy, Debug, PartialEq, Eq, Structural)]
pub struct Record {
    pub run: u32,
    pub parameter: u32,
    pub exec_time_ms: u128,
}

/// What is drawn for one data file: for each parameter the average time of
/// an execution, in milliseconds.
#[derive(Debug)]
pub struct Series {
    pub baseline: UbenchBaseline,
    pub mode: UbenchMode,
    pub averages: Vec<u128>,
}

/// The steps for one baseline and mode: the data file, then for each
/// parameter from one to the largest each repeat from one to `num_repeats`.
pub open spec fn unit_steps(baseline: UbenchBaseline, mode: UbenchMode, num_repeats: u32) -> Seq<
    UbenchStep,
> {
    seq![UbenchStep::CreateDataFile { baseline, mode }] + Seq::new(
        (MAX_NUM_CHAINS * num_repeats) as nat,
        |i: int|
            UbenchStep::Execute {
                baseline,
                mode,
                parameter: (i / (num_repeats as int) + 1) as u32,
                run: (i % (num_repeats as int) + 1) as u32,
            },
    )
}

/// The steps of a run: each baseline in turn, and for each baseline first
/// without, then with aggregation.
pub open spec fn run_steps(num_repeats: u32) -> Seq<UbenchStep> {
    unit_steps(UbenchBaseline::CryptoAcc, UbenchMode::NoAgg, num_repeats) + unit_steps(
        UbenchBaseline::CryptoAcc,
        UbenchMode::Agg,
        num_repeats,
    ) + unit_steps(UbenchBaseline::Vanilla, UbenchMode::NoAgg, num_repeats) + unit_steps(
        UbenchBaseline::Vanilla,
        UbenchMode::Agg,
        num_repeats,
    )
}

/// `<baseline>_<mode>.csv`
pub open spec fn data_file_name_spec(baseline: UbenchBaseline, mode: UbenchMode) -> Seq<char> {
    baseline.name_spec() + "_"@ + mode.name_spec() + ".csv"@
}

/// `<run>,<parameter>,<milliseconds>` and a line end.
pub open spec fn row_spec(run: u32, parameter: u32, elapsed_ms: u128) -> Seq<char> {
    ((decimal(run as nat).push(',') + decimal(parameter as nat)).push(',') + decimal(
        elapsed_ms as nat,
    )).push('\n')
}

/// The part of `s` before the first `sep`; all of `s` where it holds none.
pub open spec fn before(s: Seq<char>, sep: char) -> Seq<char>
    decreases s.len(),
{
    if s.len() == 0 || s[0] == sep {
        Seq::empty()
    } else {
        seq![s[0]] + before(s.drop_first(), sep)
    }
}

/// The baseline and mode that the name of a data file stands for. The last
/// four characters, the extension, are set aside; of what is left, the part
/// before the first underscore names the baseline and the part from there to
/// the next underscore, or to the end, the mode.
pub open spec fn parse_data_file_name_spec(name: Seq<char>) -> Option<(UbenchBaseline, UbenchMode)> {
    if name.len() < 4 {
        None
    } else {
        let stem = name.take(name.len() - 4);
        let first = before(stem, '_');
        if first.len() >= stem.len() {
            None
        } else {
            let second = before(stem.skip(first.len() as int + 1), '_');
            match (UbenchBaseline::from_name_spec(first), UbenchMode::from_name_spec(second)) {
                (Some(baseline), Some(mode)) => Some((baseline, mode)),
                _ => None,
            }
        }
    }
}

/// The time that `records` spent on `parameter`, all repeats together.
pub open spec fn total_time(records: Seq<Record>, parameter: int) -> nat
    decreases records.len(),
{
    if records.len() == 0 {
        0
    } else {
        total_time(records.drop_last(), parameter) + if records.last().parameter == parameter {
            records.last().exec_time_ms as nat
        } else {
            0
        }
    }
}

/// How many repeats `records` hold of each parameter, if they hold as many of
/// each: their number divided by the number of parameters that are run.
pub open spec fn repeats_in(records: Seq<Record>) -> int {
    (records.len() as int) / (MAX_NUM_CHAINS as int)
}

/// Whether `records` can be averaged: no parameter is out of range, there is
/// at least one repeat, and neither the count of the records nor the total of
/// a parameter is beyond what the numbers can hold.
pub open spec fn averageable(records: Seq<Record>) -> bool {
    &&& records.len() <= u32::MAX
    &&& repeats_in(records) > 0
    &&& forall|k: int| 0 <= k < records.len() ==> (#[trigger] records[k]).parameter < NUM_AVERAGES
    &&& forall|p: int| 0 <= p < NUM_AVERAGES ==> #[trigger] total_time(records, p) <= u128::MAX
}

/// For each parameter the total time divided by the number of repeats.
pub open spec fn averages_spec(records: Seq<Record>) -> Seq<u128> {
    Seq::new(
        NUM_AVERAGES as nat,
        |p: int| ((total_time(records, p) as int) / repeats_in(records)) as u128,
    )
}

/// The total of a parameter never goes down as records are added.
pub proof fn lemma_total_time_grows(records: Seq<Record>, n: int, parameter: int)
    requires
        0 <= n <= records.len(),
    ensures
        total_time(records.take(n), parameter) <= total_time(records, parameter),
    decreases records.len() - n,
{
    if n < records.len() {
        lemma_total_time_grows(records, n + 1, parameter);
        assert(records.take(n + 1).drop_last() == records.take(n));
    } else {
        assert(records.take(n) == records);
    }
}

/// A part that holds no separator is found again before what follows it.
pub proof fn lemma_before_part(part: Seq<char>, rest: Seq<char>, sep: char)
    requires
        forall|i: int| 0 <= i < part.len() ==> #[trigger] part[i] != sep,
        rest.len() == 0 || rest[0] == sep,
    ensures
        before(part + rest, sep) == part,
    decreases part.len(),
{
    if part.len() == 0 {
        assert(part + rest == rest);
    } else {
        let tail = part.drop_first();
        assert forall|i: int| 0 <= i < tail.len() implies #[trigger] tail[i] != sep by {
            assert(tail[i] == part[i + 1]);
        }
        lemma_before_part(tail, rest, sep);
        assert((part + rest).drop_first() == tail + rest);
        assert((part + rest)[0] == part[0]);
        assert(seq![part[0]] + tail == part);
    }
}

/// The name of a data file tells the baseline and the mode it was made for.
pub proof fn lemma_data_file_name_round_trip(baseline: UbenchBaseline, mode: UbenchMode)
    ensures
        parse_data_file_name_spec(data_file_name_spec(baseline, mode)) == Some((baseline, mode)),
{
    reveal_strlit("crypto-acc");
    reveal_strlit("vanilla");
    reveal_strlit("noagg");
    reveal_strlit("agg");
    reveal_strlit("_");
    reveal_strlit(".csv");
    let b = baseline.name_spec();
    let m = mode.name_spec();
    let name = data_file_name_spec(baseline, mode);
    let stem = name.take(name.len() - 4);
    assert(stem == b + ("_"@ + m));
    lemma_before_part(b, "_"@ + m, '_');
    assert(stem.skip(b.len() as int + 1) == m + Seq::<char>::empty());
    lemma_before_part(m, Seq::empty(), '_');
    assert(UbenchBaseline::from_name_spec(b) == Some(baseline)) by {
        if baseline == UbenchBaseline::Vanilla {
            assert(b.len() != "crypto-acc"@.len());
        }
    }
    assert(UbenchMode::from_name_spec(m) == Some(mode)) by {
        if mode == UbenchMode::Agg {
            assert(m.len() != "noagg"@.len());
        }
    }
}

#[derive(Debug)]
pub struct Ubench {}

impl Ubench {
    /// The steps that make up a run of `ubench` as `run_args` ask for it, in
    /// order.
    pub fn run(ubench: &MicroBenchmarks, run_args: &UbenchRunArgs) -> (steps: Vec<UbenchStep>)
        ensures
            steps@ == run_steps(run_args.num_repeats),
    {
        match ubench {
            MicroBenchmarks::VerifyEDag => {
                let n = run_args.num_repeats;
                let mut steps: Vec<UbenchStep> = Vec::new();
                Self::push_unit(&mut steps, UbenchBaseline::CryptoAcc, UbenchMode::NoAgg, n);
                Self::push_unit(&mut steps, UbenchBaseline::CryptoAcc, UbenchMode::Agg, n);
                Self::push_unit(&mut steps, UbenchBaseline::Vanilla, UbenchMode::NoAgg, n);
                Self::push_unit(&mut steps, UbenchBaseline::Vanilla, UbenchMode::Agg, n);
                assert(steps@ =~= run_steps(n));
                steps
            },
        }
    }

    fn push_unit(
        steps: &mut Vec<UbenchStep>,
        baseline: UbenchBaseline,
        mode: UbenchMode,
        num_repeats: u32,
    )
        ensures
            final(steps)@ == old(steps)@ + unit_steps(baseline, mode, num_repeats),
    {
        let ghost start = steps@;
        let ghost n = num_repeats as int;
        steps.push(UbenchStep::CreateDataFile { baseline, mode });
        let mut parameter: u32 = 0;
        while parameter < MAX_NUM_CHAINS
            invariant
                parameter <= MAX_NUM_CHAINS,
                n == num_repeats,
                steps@.len() == start.len() + 1 + parameter * n,
                forall|i: int|
                    0 <= i < start.len() + 1 + parameter * n ==> #[trigger] steps@[i] == (start
                        + unit_steps(baseline, mode, num_repeats))[i],
            decreases MAX_NUM_CHAINS - parameter,
        {
            let mut run: u32 = 0;
            while run < num_repeats
                invariant
                    parameter < MAX_NUM_CHAINS,
                    run <= num_repeats,
                    n == num_repeats,
                    steps@.len() == start.len() + 1 + parameter * n + run,
                    forall|i: int|
                        0 <= i < start.len() + 1 + parameter * n + run ==> #[trigger] steps@[i]
                            == (start + unit_steps(baseline, mode, num_repeats))[i],
                decreases num_repeats - run,
            {
                let ghost at = parameter * n + run;
                assert(0 <= at < MAX_NUM_CHAINS * n) by (nonlinear_arith)
                    requires
                        at == parameter * n + run,
                        0 <= parameter < MAX_NUM_CHAINS,
                        0 <= run < n,
                ;
                assert(at / n == parameter && at % n == run) by (nonlinear_arith)
                    requires
                        at == parameter * n + run,
                        0 <= run < n,
                        0 <= parameter,
                ;
                run += 1;
                steps.push(UbenchStep::Execute { baseline, mode, parameter: parameter + 1, run });
                assert(steps@[start.len() + 1 + at] == (start + unit_steps(
                    baseline,
                    mode,
                    num_repeats,
                ))[start.len() + 1 + at]);
            }
            assert((parameter + 1) * n == parameter * n + n) by (nonlinear_arith);
            parameter += 1;
        }
        assert(steps@ =~= start + unit_steps(baseline, mode, num_repeats));
    }

    /// How many executions a run is made of for each data file.
    pub fn progress_len(run_args: &UbenchRunArgs) -> (len: u64)
        ensures
            len == MAX_NUM_CHAINS * run_args.num_repeats,
    {
        (MAX_NUM_CHAINS as u64) * (run_args.num_repeats as u64)
    }

    /// The first line of a data file.
    pub fn header() -> (line: String)
        ensures
            line@ == "Run,Parameter,ExecTimeMS"@.push('\n'),
    {
        let mut line = String::from_str("Run,Parameter,ExecTimeMS");
        line.push('\n');
        line
    }

    /// The line of one execution.
    pub fn row(run: u32, parameter: u32, elapsed_ms: u128) -> (line: String)
        ensures
            line@ == row_spec(run, parameter, elapsed_ms),
    {
        let mut line = String::new();
        push_decimal(&mut line, run as u128);
        line.push(',');
        push_decimal(&mut line, parameter as u128);
        line.push(',');
        push_decimal(&mut line, elapsed_ms);
        line.push('\n');
        assert(line@ == row_spec(run, parameter, elapsed_ms));
        line
    }

    /// The name of the data file of `baseline` and `mode`.
    pub fn data_file_name(baseline: &UbenchBaseline, mode: &UbenchMode) -> (name: String)
        ensures
            name@ == data_file_name_spec(*baseline, *mode),
    {
        let mut name = baseline.name();
        name.append("_");
        name.append(mode.name().as_str());
        name.append(".csv");
        name
    }

    /// Where `text[from..to]` is first interrupted by `sep`: the index of
    /// that character, or `to`.
    fn end_of_part(text: &Vec<char>, from: usize, to: usize, sep: char) -> (end: usize)
        requires
            from <= to <= text.len(),
        ensures
            from <= end <= to,
            text@.subrange(from as int, end as int) == before(
                text@.subrange(from as int, to as int),
                sep,
            ),
    {
        let mut end: usize = from;
        assert(text@.subrange(from as int, from as int) =~= Seq::<char>::empty());
        while end < to && text[end] != sep
            invariant
                from <= end <= to <= text.len(),
                before(text@.subrange(from as int, to as int), sep) == text@.subrange(
                    from as int,
                    end as int,
                ) + before(text@.subrange(end as int, to as int), sep),
            decreases to - end,
        {
            let ghost rest = text@.subrange(end as int, to as int);
            assert(rest[0] == text@[end as int]);
            assert(rest.drop_first() == text@.subrange(end + 1, to as int));
            assert(text@.subrange(from as int, end as int) + (seq![rest[0]] + before(
                rest.drop_first(),
                sep,
            )) == text@.subrange(from as int, end + 1) + before(rest.drop_first(), sep));
            end += 1;
        }
        proof {
            let rest = text@.subrange(end as int, to as int);
            if end < to {
                assert(rest[0] == text@[end as int]);
            }
            assert(before(rest, sep) == Seq::<char>::empty());
            assert(text@.subrange(from as int, end as int) + Seq::<char>::empty()
                == text@.subrange(from as int, end as int));
        }
        end
    }

    fn range_is(text: &Vec<char>, from: usize, to: usize, word: &str) -> (same: bool)
        requires
            from <= to <= text.len(),
        ensures
            same == (text@.subrange(from as int, to as int) == word@),
    {
        let part = string_of_range(text, from, to);
        same_chars(&chars_of(part.as_str()), &chars_of(word))
    }

    /// The baseline and mode that the data file `name` holds the timings of,
    /// where its name tells.
    pub fn parse_data_file_name(name: &str) -> (parsed: Option<(UbenchBaseline, UbenchMode)>)
        ensures
            parsed == parse_data_file_name_spec(name@),
    {
        let text = chars_of(name);
        if text.len() < 4 {
            return None;
        }
        let stem_len = text.len() - 4;
        let ghost stem = text@.take(stem_len as int);
        assert(stem == text@.subrange(0, stem_len as int));
        let first_end = Self::end_of_part(&text, 0, stem_len, '_');
        if first_end >= stem_len {
            return None;
        }
        let second_end = Self::end_of_part(&text, first_end + 1, stem_len, '_');
        proof {
            let first = before(stem, '_');
            assert(first == text@.subrange(0, first_end as int));
            assert(stem.skip(first.len() as int + 1) == text@.subrange(
                first_end + 1,
                stem_len as int,
            ));
        }
        let baseline = if Self::range_is(&text, 0, first_end, "crypto-acc") {
            Some(UbenchBaseline::CryptoAcc)
        } else if Self::range_is(&text, 0, first_end, "vanilla") {
            Some(UbenchBaseline::Vanilla)
        } else {
            None
        };
        let mode = if Self::range_is(&text, first_end + 1, second_end, "noagg") {
            Some(UbenchMode::NoAgg)
        } else if Self::range_is(&text, first_end + 1, second_end, "agg") {
            Some(UbenchMode::Agg)
        } else {
            None
        };
        match (baseline, mode) {
            (Some(baseline), Some(mode)) => Some((baseline, mode)),
            _ => None,
        }
    }

    /// For each parameter the average time of an execution in `records`;
    /// `None` where they cannot be averaged.
    pub fn average_times(records: &Vec<Record>) -> (averages: Option<Vec<u128>>)
        ensures
            averages is Some <==> averageable(records@),
            averages matches Some(a) ==> a@ == averages_spec(records@),
    {
        if records.len() > u32::MAX as usize {
            return None;
        }
        let repeats: u128 = (records.len() as u128) / (MAX_NUM_CHAINS as u128);
        let mut totals: Vec<u128> = Vec::new();
        totals.push(0);
        totals.push(0);
        totals.push(0);
        totals.push(0);
        let mut k: usize = 0;
        assert(records@.take(0) =~= Seq::<Record>::empty());
        while k < records.len()
            invariant
                k <= records.len(),
                totals.len() == NUM_AVERAGES,
                forall|j: int| 0 <= j < k ==> (#[trigger] records@[j]).parameter < NUM_AVERAGES,
                forall|p: int|
                    0 <= p < NUM_AVERAGES ==> #[trigger] totals@[p] == total_time(
                        records@.take(k as int),
                        p,
                    ),
            decreases records.len() - k,
        {
            let record = records[k];
            let ghost next = records@.take(k + 1);
            assert(next.drop_last() == records@.take(k as int));
            assert(next.last() == record);
            if record.parameter as usize >= NUM_AVERAGES {
                return None;
            }
            let p = record.parameter as usize;
            match totals[p].checked_add(record.exec_time_ms) {
                Some(total) => {
                    totals.set(p, total);
                },
                None => {
                    proof {
                        assert(total_time(next, p as int) > u128::MAX);
                        lemma_total_time_grows(records@, k + 1, p as int);
                    }
                    return None;
                },
            }
            k += 1;
        }
        assert(records@.take(k as int) == records@);
        if repeats == 0 {
            return None;
        }
        let mut averages: Vec<u128> = Vec::new();
        let mut p: usize = 0;
        while p < NUM_AVERAGES
            invariant
                p <= NUM_AVERAGES,
                totals.len() == NUM_AVERAGES,
                repeats > 0,
                repeats == repeats_in(records@),
                records.len() <= u32::MAX,
                forall|j: int|
                    0 <= j < records.len() ==> (#[trigger] records@[j]).parameter < NUM_AVERAGES,
                averages.len() == p,
                forall|q: int|
                    0 <= q < NUM_AVERAGES ==> #[trigger] totals@[q] == total_time(records@, q),
                forall|q: int| 0 <= q < p ==> #[trigger] averages@[q] == averages_spec(records@)[q],
            decreases NUM_AVERAGES - p,
        {
            averages.push(totals[p] / repeats);
            p += 1;
        }
        assert(averages@ =~= averages_spec(records@));
        assert(averageable(records@)) by {
            assert forall|q: int| 0 <= q < NUM_AVERAGES implies #[trigger] total_time(records@, q)
                <= u128::MAX by {
                assert(totals@[q] == total_time(records@, q));
            }
        }
        Some(averages)
    }

    /// What is drawn for the data file `file_name` that holds `records`;
    /// `None` where the name does not tell a baseline and a mode, or the
    /// records cannot be averaged.
    pub fn plot(ubench: &MicroBenchmarks, file_name: &str, records: &Vec<Record>) -> (series:
        Option<Series>)
        ensures
            series is Some <==> parse_data_file_name_spec(file_name@) is Some && averageable(
                records@,
            ),
            series matches Some(s) ==> Some((s.baseline, s.mode)) == parse_data_file_name_spec(
                file_name@,
            ) && s.averages@ == averages_spec(records@),
    {
        match ubench {
            MicroBenchmarks::VerifyEDag => {
                match (Self::parse_data_file_name(file_name), Self::average_times(records)) {
                    (Some((baseline, mode)), Some(averages)) => Some(
                        Series { baseline, mode, averages },
                    ),
                    _ => None,
                }
            },
        }
    }
}

} // verus!
