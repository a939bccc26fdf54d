//! The isolation baselines under test and the experiment kinds.

use vstd::prelude::*;

verus! {

/// An isolation technology that a workflow can be run under.
#[derive(Clone, Copy, Debug, PartialEq, Eq, Structural)]
pub enum EvalBaseline {
    Faasm,
    SgxFaasm,
    TlessFaasm,
    Knative,
    CcKnative,
    TlessKnative,
}

impl EvalBaseline {
    /// The name under which the baseline appears in file names and messages.
    pub open spec fn name_spec(self) -> Seq<char> {
        match self {
            EvalBaseline::Faasm => "faasm"@,
            EvalBaseline::SgxFaasm => "sgx-faasm"@,
            EvalBaseline::TlessFaasm => "tless-faasm"@,
            EvalBaseline::Knative => "knative"@,
            EvalBaseline::CcKnative => "cc-knative"@,
            EvalBaseline::TlessKnative => "tless-knative"@,
        }
    }

    /// Whether workflows of this baseline run on the cluster. Only these can
    /// be orchestrated.
    pub open spec fn is_cluster(self) -> bool {
        self == EvalBaseline::Knative || self == EvalBaseline::CcKnative || self
            == EvalBaseline::TlessKnative
    }

    /// The runtime class that a manifest of this baseline asks for; cluster
    /// baselines only.
    pub open spec fn runtime_class_spec(self) -> Option<Seq<char>> {
        match self {
            EvalBaseline::Knative => Some("kata-qemu"@),
            EvalBaseline::CcKnative | EvalBaseline::TlessKnative => Some("kata-qemu-sev"@),
            _ => None,
        }
    }

    pub fn name(&self) -> (s: String)
        ensures
            s@ == self.name_spec(),
    {
        match self {
            EvalBaseline::Faasm => String::from_str("faasm"),
            EvalBaseline::SgxFaasm => String::from_str("sgx-faasm"),
            EvalBaseline::TlessFaasm => String::from_str("tless-faasm"),
            EvalBaseline::Knative => String::from_str("knative"),
            EvalBaseline::CcKnative => String::from_str("cc-knative"),
            EvalBaseline::TlessKnative => String::from_str("tless-knative"),
        }
    }

    pub fn supports_cluster(&self) -> (b: bool)
        ensures
            b == self.is_cluster(),
    {
        match self {
            EvalBaseline::Knative | EvalBaseline::CcKnative | EvalBaseline::TlessKnative => true,
            _ => false,
        }
    }

    /// The runtime class of a cluster baseline, `None` for any other.
    pub fn runtime_class(&self) -> (r: Option<String>)
        ensures
            r is Some <==> self.is_cluster(),
            match r {
                Some(s) => self.runtime_class_spec() == Some(s@),
                None => self.runtime_class_spec() is None,
            },
    {
        match self {
            EvalBaseline::Knative => Some(String::from_str("kata-qemu")),
            EvalBaseline::CcKnative | EvalBaseline::TlessKnative => Some(
                String::from_str("kata-qemu-sev"),
            ),
            _ => None,
        }
    }

    /// Two baselines never share a name, so neither do their data files.
    pub proof fn lemma_names_differ(a: EvalBaseline, b: EvalBaseline)
        requires
            a != b,
        ensures
            a.name_spec() != b.name_spec(),
    {
        reveal_strlit("faasm");
        reveal_strlit("sgx-faasm");
        reveal_strlit("tless-faasm");
        reveal_strlit("knative");
        reveal_strlit("cc-knative");
        reveal_strlit("tless-knative");
        let x = a.name_spec();
        let y = b.name_spec();
        if x.len() == y.len() {
            assert(x[0] != y[0]);
        }
    }
}

/// What an experiment measures.
#[derive(Clone, Copy, Debug, PartialEq, Eq, Structural)]
pub enum EvalExperiment {
    /// End-to-end latency of one workflow execution.
    E2eLatency,
}

impl EvalExperiment {
    pub open spec fn name_spec(self) -> Seq<char> {
        match self {
            EvalExperiment::E2eLatency => "e2e-latency"@,
        }
    }

    /// The column names of a data file of this experiment.
    pub open spec fn header_spec(self) -> Seq<char> {
        match self {
            EvalExperiment::E2eLatency => "Run,TimeMs"@,
        }
    }

    pub fn name(&self) -> (s: String)
        ensures
            s@ == self.name_spec(),
    {
        match self {
            EvalExperiment::E2eLatency => String::from_str("e2e-latency"),
        }
    }

    pub fn header(&self) -> (s: String)
        ensures
            s@ == self.header_spec(),
    {
        match self {
            EvalExperiment::E2eLatency => String::from_str("Run,TimeMs"),
        }
    }
}

/// What the caller asks to be run: the baselines, in order, and how often
/// each workflow is executed under each.
#[derive(Debug)]
pub struct EvalRunArgs {
    pub baseline: Vec<EvalBaseline>,
    pub num_repeats: u32,
    pub num_warmup_repeats: u32,
}

impl EvalRunArgs {
    /// Three measured repeats and no warm-up, unless changed.
    pub fn new(baseline: Vec<EvalBaseline>) -> (args: EvalRunArgs)
        ensures
            args.baseline == baseline,
            args.num_repeats == 3,
            args.num_warmup_repeats == 0,
    {
        EvalRunArgs { baseline, num_repeats: 3, num_warmup_repeats: 0 }
    }
}

} // verus!
