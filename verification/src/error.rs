//! The local error domain of the merge engine.
//!
//! Remote-call failures and unexpected-output-kind conditions are marked as
//! externally caused, so upstream handling can tell a remote peer or
//! transport problem from a local planning bug.

use vstd::prelude::*;
use vstd::string::StringExecFns;

verus! {

/// A transport or remote-side execution fault reported while contacting a
/// peer, carried verbatim for diagnostics.
#[derive(Debug)]
pub struct RemoteError {
    pub message: String,
}

impl View for RemoteError {
    type V = Seq<char>;

    open spec fn view(&self) -> Seq<char> {
        self.message@
    }
}

impl Clone for RemoteError {
    fn clone(&self) -> (res: Self)
        ensures
            res@ == self@,
    {
        RemoteError { message: self.message.clone() }
    }
}

/// Everything that can abort a merge-scan, by origin.
#[derive(Debug)]
pub enum MergeError {
    /// A planner bug: replacing a leaf operator's children, or requesting a
    /// partition other than the only one.
    PlanningInvariantViolation,
    /// A peer answered a scan with a row-count acknowledgement.
    UnexpectedRemoteOutputKind,
    /// A transport or remote execution fault, externally caused.
    RemoteExecutionFailure(RemoteError),
    /// The declared output schema cannot be converted to the representation
    /// the surrounding engine requires.
    SchemaConversionFailure,
}

/// Mathematical model of a [`MergeError`].
pub enum MergeErrorView {
    PlanningInvariantViolation,
    UnexpectedRemoteOutputKind,
    RemoteExecutionFailure(Seq<char>),
    SchemaConversionFailure,
}

impl View for MergeError {
    type V = MergeErrorView;

    open spec fn view(&self) -> MergeErrorView {
        match self {
            MergeError::PlanningInvariantViolation => MergeErrorView::PlanningInvariantViolation,
            MergeError::UnexpectedRemoteOutputKind => MergeErrorView::UnexpectedRemoteOutputKind,
            MergeError::RemoteExecutionFailure(e) => MergeErrorView::RemoteExecutionFailure(e@),
            MergeError::SchemaConversionFailure => MergeErrorView::SchemaConversionFailure,
        }
    }
}

/// The diagnostic rendering of a merge error, naming its origin; an
/// externally-caused failure carries the remote cause verbatim.
pub open spec fn merge_error_text(e: MergeErrorView) -> Seq<char> {
    match e {
        MergeErrorView::PlanningInvariantViolation => "planning invariant violation"@,
        MergeErrorView::UnexpectedRemoteOutputKind => (
        "unexpected remote output kind: expected RecordBatches or Stream, got AffectedRows"@),
        MergeErrorView::RemoteExecutionFailure(m) => "remote execution failure: "@ + m,
        MergeErrorView::SchemaConversionFailure => "schema conversion failure"@,
    }
}

impl MergeError {
    /// Renders the error for diagnostics.
    pub fn describe(&self) -> (s: String)
        ensures
            s@ == merge_error_text(self@),
    {
        match self {
            MergeError::PlanningInvariantViolation => "planning invariant violation".to_owned(),
            MergeError::UnexpectedRemoteOutputKind => (
            "unexpected remote output kind: expected RecordBatches or Stream, got AffectedRows").to_owned(),
            MergeError::RemoteExecutionFailure(e) => {
                let mut s = "remote execution failure: ".to_owned();
                s.append(e.message.as_str());
                s
            },
            MergeError::SchemaConversionFailure => "schema conversion failure".to_owned(),
        }
    }
}

} // verus!
