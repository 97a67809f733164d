//! A scatter/gather scan-merge engine for a distributed query layer.
//!
//! A coordinator plans a query once, marks the remote part of the plan with a
//! merge-boundary node, fans the serialized sub-plan out to the storage peers
//! that own the data, and merges their heterogeneous responses (row-count
//! acknowledgements, materialized batches, or streaming batches) into one
//! ordered output stream.

use vstd::prelude::*;

mod error;
mod exec;
mod merge;
mod mock;
mod peer;
mod plan;
mod render;
mod schema;

pub use error::{merge_error_text, MergeError, MergeErrorView, RemoteError};
pub use exec::{merge_scan_text, peer_text, peer_views, peers_text, MergeScanExec};
pub use merge::{
    batches_conform, concat_batches, lemma_merge_model_prefix_decides, lemma_merge_model_step,
    lemma_merge_no_peers, lemma_merge_preserves_order, lemma_row_count_aborts,
    lemma_schema_stability, lemma_stream_failure_aborts, merge_collect, merge_model,
    response_batches, response_failure, response_views, responses_conform, MergeModel, MergeOutput,
    MergePhase, MergeStep, Merger, PeerResponse, PeerResponseView, RemoteOutcome, StreamPoll,
};
pub use mock::{scripted_response, scripted_views, MockDistributedInstance};
pub use peer::{Peer, PeerView, TableName, TableNameView};
pub use plan::{
    expr_eq, expr_views, merge_boundary_text, node_eq, node_exprs, node_schema, node_view,
    schema_eq, table_name_eq, Expr, LogicalNode, LogicalNodeView, MergeScanLogicalPlan,
    MergeScanLogicalPlanView,
};
pub use render::{dec_digit, dec_seq, u64_to_dec};
pub use schema::{batch_views, Batch, BatchView, ColumnDef, ColumnDefView, DataType, Schema};

verus! {

/// The number of output partitions a merge-scan operator reports: the merged
/// stream is always a single partition.
pub const MERGE_SCAN_PARTITIONS: usize = 1;

} // verus!
