//! How the cluster is addressed: the command lines handed to its
//! command-line tool, and the rule by which a set of pods counts as ready.

use vstd::prelude::*;
use crate::eval::{Eval, EvalError};
use crate::machine::PodSet;
use crate::text::{chars_of, same_chars, split_whitespace, words};

verus! {

/// Seconds between two observations of a set of pods.
pub const POLL_INTERVAL_SECS: u64 = 2;

/// The namespace of the cluster in which everything is deployed.
pub const NAMESPACE: &'static str = "tless";

/// The bucket of the object store that workflows read from and write to.
pub const EVAL_BUCKET_NAME: &'static str = "tless";

/// The label that the pod of the object store carries.
pub const STORE_LABEL: &'static str = "tless.workflows/name=minio";

/// The variable under which the address of the object store is published.
pub const STORE_ADDRESS_VARIABLE: &'static str = "MINIO_URL";

/// What the readiness query prints for a pod that is ready.
pub open spec fn ready_signal() -> Seq<char> {
    "'True'"@
}

/// Whether the output of the readiness query shows exactly `expected` pods,
/// all of them ready. Too few signals, too many, or one that is not the ready
/// signal: not ready.
pub open spec fn pods_ready(output: Seq<char>, expected: nat) -> bool {
    let signals = words(output);
    signals.len() == expected && forall|k: int|
        0 <= k < signals.len() ==> #[trigger] signals[k] == ready_signal()
}

/// `-n <namespace> get pods -l <label> -o jsonpath=...`: the query that
/// prints one readiness signal per pod that carries the label.
pub open spec fn pod_status_query_spec(namespace: Seq<char>, label: Seq<char>) -> Seq<char> {
    "-n "@ + namespace + " get pods -l "@ + label
        + " -o jsonpath='{..status.conditions[?(@.type==\"Ready\")].status}'"@
}

/// The query that prints the cluster-internal address of the object store.
pub open spec fn store_address_query_spec() -> Seq<char> {
    "-n tless get services -o jsonpath={.items[?(@.metadata.name==\"minio\")].spec.clusterIP}"@
}

/// `<tool root>/bin/kubectl`
pub open spec fn kubectl_path_spec(tool_root: Seq<char>) -> Seq<char> {
    tool_root + "/bin/kubectl"@
}

/// `<workflows root>/k8s_common.yaml`: the manifest of what all workflows share.
pub open spec fn common_manifest_spec(workflows_root: Seq<char>) -> Seq<char> {
    workflows_root + "/k8s_common.yaml"@
}

/// The arguments that submit the manifest read from standard input.
pub open spec fn apply_args_spec() -> Seq<Seq<char>> {
    seq!["apply"@, "-f"@, "-"@]
}

/// The arguments that delete what the manifest read from standard input
/// describes, and return only when the objects that depend on it are gone.
pub open spec fn delete_args_spec() -> Seq<Seq<char>> {
    seq!["delete"@, "--wait=true"@, "--cascade=foreground"@, "-f"@, "-"@]
}

/// A wait for a set of pods: which pods, and how many of them must be ready.
/// The wait has no upper bound; it ends with the first observation that
/// `is_ready` accepts.
#[derive(Debug)]
pub struct PodWait {
    pub namespace: String,
    pub label: String,
    pub num_expected: usize,
}

impl PodWait {
    /// The query to run for each observation.
    pub fn query(&self) -> (cmd: String)
        ensures
            cmd@ == pod_status_query_spec(self.namespace@, self.label@),
    {
        let mut cmd = String::from_str("-n ");
        cmd.append(self.namespace.as_str());
        cmd.append(" get pods -l ");
        cmd.append(self.label.as_str());
        cmd.append(" -o jsonpath='{..status.conditions[?(@.type==\"Ready\")].status}'");
        cmd
    }

    /// Whether the observation `output` ends the wait.
    pub fn is_ready(&self, output: &str) -> (ready: bool)
        ensures
            ready == pods_ready(output@, self.num_expected as nat),
    {
        Eval::pods_ready(output, self.num_expected)
    }
}

/// The label that the pods of `pods` carry, if there is such a set of pods.
pub open spec fn pod_label_spec(pods: PodSet) -> Option<Seq<char>> {
    match pods {
        PodSet::Store => Some(STORE_LABEL@),
        PodSet::Workflow { workflow, label } => if label
            < workflow.readiness_labels_spec().len() {
            Some(workflow.readiness_labels_spec()[label as int])
        } else {
            None
        },
    }
}

impl PodSet {
    /// The wait that an observation of these pods belongs to: for the one
    /// pod that carries their label. `None` where the workflow has no label
    /// of that number.
    pub fn wait(&self) -> (wait: Option<PodWait>)
        ensures
            wait is Some <==> pod_label_spec(*self) is Some,
            wait matches Some(w) ==> w.namespace@ == NAMESPACE@ && Some(w.label@)
                == pod_label_spec(*self) && w.num_expected == 1,
    {
        match self {
            PodSet::Store => Some(Eval::wait_for_pod(NAMESPACE, STORE_LABEL)),
            PodSet::Workflow { workflow, label } => {
                let labels = workflow.readiness_labels();
                assert(labels.deep_view().len() == labels.len());
                if *label < labels.len() {
                    assert(labels.deep_view()[*label as int] == labels@[*label as int]@);
                    Some(Eval::wait_for_pod(NAMESPACE, labels[*label].as_str()))
                } else {
                    None
                }
            },
        }
    }
}

impl Eval {
    /// The path of the cluster tool below its installation root, or the
    /// error where no root is configured.
    pub fn get_kubectl_cmd(tool_root: Option<&str>) -> (cmd: Result<String, EvalError>)
        ensures
            match tool_root {
                Some(root) => cmd matches Ok(path) && path@ == kubectl_path_spec(root@),
                None => cmd == Err::<String, EvalError>(EvalError::MissingToolRoot),
            },
    {
        match tool_root {
            Some(root) => {
                let mut path = String::from_str(root);
                path.append("/bin/kubectl");
                Ok(path)
            },
            None => Err(EvalError::MissingToolRoot),
        }
    }

    /// The arguments that the command line `cmd` hands to the cluster tool:
    /// its words.
    pub fn kubectl_args(cmd: &str) -> (args: Vec<String>)
        ensures
            args.deep_view() == words(cmd@),
    {
        split_whitespace(cmd)
    }

    /// Whether `output`, printed by the readiness query, shows exactly
    /// `num_expected` pods, all ready.
    pub fn pods_ready(output: &str, num_expected: usize) -> (ready: bool)
        ensures
            ready == pods_ready(output@, num_expected as nat),
    {
        let signals = split_whitespace(output);
        if signals.len() != num_expected {
            return false;
        }
        let wanted = chars_of("'True'");
        let mut k: usize = 0;
        while k < signals.len()
            invariant
                k <= signals.len(),
                signals.deep_view() == words(output@),
                wanted@ == ready_signal(),
                forall|j: int| 0 <= j < k ==> #[trigger] words(output@)[j] == ready_signal(),
            decreases signals.len() - k,
        {
            let signal = chars_of(signals[k].as_str());
            assert(signals.deep_view()[k as int] == signals@[k as int]@);
            if !same_chars(&signal, &wanted) {
                return false;
            }
            k += 1;
        }
        true
    }

    /// A wait for `num_expected` ready pods that carry `label`.
    pub fn wait_for_pods(namespace: &str, label: &str, num_expected: usize) -> (wait: PodWait)
        ensures
            wait.namespace@ == namespace@,
            wait.label@ == label@,
            wait.num_expected == num_expected,
    {
        PodWait {
            namespace: String::from_str(namespace),
            label: String::from_str(label),
            num_expected,
        }
    }

    /// A wait for the one pod that carries `label`.
    pub fn wait_for_pod(namespace: &str, label: &str) -> (wait: PodWait)
        ensures
            wait.namespace@ == namespace@,
            wait.label@ == label@,
            wait.num_expected == 1,
    {
        Self::wait_for_pods(namespace, label, 1)
    }

    /// The query for the address of the object store.
    pub fn store_address_query() -> (cmd: String)
        ensures
            cmd@ == store_address_query_spec(),
    {
        String::from_str(
            "-n tless get services -o jsonpath={.items[?(@.metadata.name==\"minio\")].spec.clusterIP}",
        )
    }

    /// Where the shared manifest lies below the root of the workflows.
    pub fn common_manifest(workflows_root: &str) -> (path: String)
        ensures
            path@ == common_manifest_spec(workflows_root@),
    {
        let mut path = String::from_str(workflows_root);
        path.append("/k8s_common.yaml");
        path
    }

    /// The command line that submits the shared manifest.
    pub fn apply_common_command(workflows_root: &str) -> (cmd: String)
        ensures
            cmd@ == "apply -f "@ + common_manifest_spec(workflows_root@),
    {
        let mut cmd = String::from_str("apply -f ");
        cmd.append(Self::common_manifest(workflows_root).as_str());
        cmd
    }

    /// The command line that deletes what the shared manifest describes.
    pub fn delete_common_command(workflows_root: &str) -> (cmd: String)
        ensures
            cmd@ == "delete -f "@ + common_manifest_spec(workflows_root@),
    {
        let mut cmd = String::from_str("delete -f ");
        cmd.append(Self::common_manifest(workflows_root).as_str());
        cmd
    }

    /// The arguments that submit a rendered manifest.
    pub fn apply_args() -> (args: Vec<String>)
        ensures
            args.deep_view() == apply_args_spec(),
    {
        let mut args: Vec<String> = Vec::new();
        args.push(String::from_str("apply"));
        args.push(String::from_str("-f"));
        args.push(String::from_str("-"));
        assert(args.deep_view() =~= apply_args_spec());
        args
    }

    /// The arguments that delete what a rendered manifest describes.
    pub fn delete_args() -> (args: Vec<String>)
        ensures
            args.deep_view() == delete_args_spec(),
    {
        let mut args: Vec<String> = Vec::new();
        args.push(String::from_str("delete"));
        args.push(String::from_str("--wait=true"));
        args.push(String::from_str("--cascade=foreground"));
        args.push(String::from_str("-f"));
        args.push(String::from_str("-"));
        assert(args.deep_view() =~= delete_args_spec());
        args
    }
}

} // verus!
