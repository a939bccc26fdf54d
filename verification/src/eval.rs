//! The entry points of the evaluation task and the errors it can end in.

use vstd::prelude::*;
use crate::baseline::{EvalBaseline, EvalExperiment};

verus! {

/// Holds, as associated functions, the rules of the evaluation task: how a
/// manifest is rendered, how the cluster is addressed and when its pods count
/// as ready, and how results are named and written down.
#[derive(Debug)]
pub struct Eval {}

/// Why a run was given up.
#[derive(Clone, Copy, Debug, PartialEq, Eq, Structural)]
pub enum EvalError {
    /// A baseline was asked for that does not run on the cluster.
    UnsupportedBaseline(EvalBaseline),
    /// The installation root of the cluster tools is not configured.
    MissingToolRoot,
    /// A manifest could not be read.
    Template,
    /// The cluster refused a manifest.
    ClusterApply,
    /// The cluster did not confirm a deletion.
    ClusterDelete,
    /// A query to the cluster could not be run.
    ClusterQuery,
    /// The trigger of a workflow could not be run.
    Trigger,
    /// The object store could not be reached.
    ObjectStore,
    /// A data file could not be written.
    DataFile,
    /// The caller reported something that the pending action cannot end in.
    UnexpectedEvent,
}

/// The kinds of error, by what can be done about them.
#[derive(Clone, Copy, Debug, PartialEq, Eq, Structural)]
pub enum ErrorKind {
    /// The request or the environment is wrong; nothing was begun for it.
    Configuration,
    /// A tool or a service outside the harness failed.
    ExternalTool,
    /// The caller did not keep to the order of actions and reports.
    Protocol,
}

impl EvalError {
    pub open spec fn kind_spec(self) -> ErrorKind {
        match self {
            EvalError::UnsupportedBaseline(_) | EvalError::MissingToolRoot =>
                ErrorKind::Configuration,
            EvalError::UnexpectedEvent => ErrorKind::Protocol,
            _ => ErrorKind::ExternalTool,
        }
    }

    pub fn kind(&self) -> (kind: ErrorKind)
        ensures
            kind == self.kind_spec(),
    {
        match self {
            EvalError::UnsupportedBaseline(_) | EvalError::MissingToolRoot =>
                ErrorKind::Configuration,
            EvalError::UnexpectedEvent => ErrorKind::Protocol,
            _ => ErrorKind::ExternalTool,
        }
    }
}

impl Eval {
    /// Results are drawn elsewhere; for this experiment there is nothing to
    /// prepare.
    pub fn plot(_exp: EvalExperiment) {
    }
}

} // verus!
