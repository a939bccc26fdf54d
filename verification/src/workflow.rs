//! The closed catalog of workflows: for each one, where its manifest and
//! trigger lie, which pods must be ready before it can run, which key of the
//! object store tells that a run has finished, and what a run leaves behind.

use vstd::prelude::*;

verus! {

/// A workflow that the harness knows how to deploy, trigger and clean up.
#[derive(Clone, Copy, Debug, PartialEq, Eq, Structural)]
pub enum AvailableWorkflow {
    WordCount,
}

/// The name of the file whose appearance ends a run of word-count.
pub open spec fn word_count_marker() -> Seq<char> {
    "aggregated-results.txt"@
}

impl AvailableWorkflow {
    /// Every workflow of the catalog, in the order in which they are run.
    pub open spec fn catalog() -> Seq<AvailableWorkflow> {
        seq![AvailableWorkflow::WordCount]
    }

    pub open spec fn name_spec(self) -> Seq<char> {
        match self {
            AvailableWorkflow::WordCount => "word-count"@,
        }
    }

    /// `<root>/<name>/knative/workflow.yaml`
    pub open spec fn manifest_path_spec(self, root: Seq<char>) -> Seq<char> {
        root + "/"@ + self.name_spec() + "/knative/workflow.yaml"@
    }

    /// `<root>/<name>/knative/curl_cmd.sh`
    pub open spec fn trigger_path_spec(self, root: Seq<char>) -> Seq<char> {
        root + "/"@ + self.name_spec() + "/knative/curl_cmd.sh"@
    }

    /// The key prefix under which a run leaves its results.
    pub open spec fn cleanup_prefix_spec(self) -> Seq<char> {
        match self {
            AvailableWorkflow::WordCount => self.name_spec() + "/few-files/mapper-results/"@,
        }
    }

    /// The key whose existence tells that a run has finished. It lies under
    /// the cleanup prefix, so that cleaning up after one run removes what
    /// would otherwise end the next run at once.
    pub open spec fn completion_key_spec(self) -> Seq<char> {
        match self {
            AvailableWorkflow::WordCount => self.cleanup_prefix_spec() + word_count_marker(),
        }
    }

    /// The label selectors of the pods that must be ready, one pod each,
    /// before the workflow is triggered.
    pub open spec fn readiness_labels_spec(self) -> Seq<Seq<char>> {
        match self {
            AvailableWorkflow::WordCount => seq![
                "tless.workflows/name=word-count-splitter"@,
                "tless.workflows/name=word-count-reducer"@,
            ],
        }
    }

    pub fn iter_variants() -> (all: Vec<AvailableWorkflow>)
        ensures
            all@ == Self::catalog(),
    {
        let mut all: Vec<AvailableWorkflow> = Vec::new();
        all.push(AvailableWorkflow::WordCount);
        assert(all@ =~= Self::catalog());
        all
    }

    /// How many workflows the catalog holds.
    pub fn count() -> (n: usize)
        ensures
            n == Self::catalog().len(),
    {
        1
    }

    /// Workflow number `index` of the catalog, if there is one.
    pub fn at(index: usize) -> (w: Option<AvailableWorkflow>)
        ensures
            w is Some <==> index < Self::catalog().len(),
            w matches Some(workflow) ==> workflow == Self::catalog()[index as int],
    {
        if index == 0 {
            Some(AvailableWorkflow::WordCount)
        } else {
            None
        }
    }

    /// How many readiness labels the workflow has.
    pub fn num_readiness_labels(&self) -> (n: usize)
        ensures
            n == self.readiness_labels_spec().len(),
    {
        match self {
            AvailableWorkflow::WordCount => 2,
        }
    }

    pub fn name(&self) -> (s: String)
        ensures
            s@ == self.name_spec(),
    {
        match self {
            AvailableWorkflow::WordCount => String::from_str("word-count"),
        }
    }

    /// Where the manifest of the workflow lies below `root`.
    pub fn manifest_path(&self, root: &str) -> (path: String)
        ensures
            path@ == self.manifest_path_spec(root@),
    {
        let mut path = String::from_str(root);
        path.append("/");
        path.append(self.name().as_str());
        path.append("/knative/workflow.yaml");
        path
    }

    /// Where the script that triggers one run lies below `root`.
    pub fn trigger_path(&self, root: &str) -> (path: String)
        ensures
            path@ == self.trigger_path_spec(root@),
    {
        let mut path = String::from_str(root);
        path.append("/");
        path.append(self.name().as_str());
        path.append("/knative/curl_cmd.sh");
        path
    }

    pub fn cleanup_prefix(&self) -> (prefix: String)
        ensures
            prefix@ == self.cleanup_prefix_spec(),
    {
        match self {
            AvailableWorkflow::WordCount => {
                let mut prefix = self.name();
                prefix.append("/few-files/mapper-results/");
                prefix
            },
        }
    }

    pub fn completion_key(&self) -> (key: String)
        ensures
            key@ == self.completion_key_spec(),
    {
        match self {
            AvailableWorkflow::WordCount => {
                let mut key = self.cleanup_prefix();
                key.append("aggregated-results.txt");
                key
            },
        }
    }

    pub fn readiness_labels(&self) -> (labels: Vec<String>)
        ensures
            labels.deep_view() == self.readiness_labels_spec(),
    {
        match self {
            AvailableWorkflow::WordCount => {
                let mut labels: Vec<String> = Vec::new();
                labels.push(String::from_str("tless.workflows/name=word-count-splitter"));
                labels.push(String::from_str("tless.workflows/name=word-count-reducer"));
                assert(labels.deep_view() =~= self.readiness_labels_spec());
                labels
            },
        }
    }

    /// The completion key of every workflow lies under its cleanup prefix.
    pub proof fn lemma_completion_key_is_cleaned(w: AvailableWorkflow)
        ensures
            w.cleanup_prefix_spec().is_prefix_of(w.completion_key_spec()),
    {
        let p = w.cleanup_prefix_spec();
        let k = w.completion_key_spec();
        assert(k.subrange(0, p.len() as int) =~= p);
    }
}

} // verus!
