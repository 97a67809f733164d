//! The merge-scan physical operator: the leaf of the physical plan that owns
//! the resolved peer list, the serialized remote sub-plan, and the output
//! schema, and starts the fan-out when the engine pulls from it.

use vstd::prelude::*;
use vstd::string::StringExecFns;

use crate::error::MergeError;
use crate::merge::{MergePhase, Merger};
use crate::peer::{Peer, PeerView, TableName};
use crate::render::{dec_seq, u64_to_dec};
use crate::schema::Schema;

verus! {

/// The views of all peers in a list.
pub open spec fn peer_views(ps: Seq<Peer>) -> Seq<PeerView> {
    ps.map_values(|p: Peer| p@)
}

/// The diagnostic rendering of one peer: identifier and address.
pub open spec fn peer_text(p: PeerView) -> Seq<char> {
    "peer-"@ + dec_seq(p.id as nat) + "("@ + p.addr + ")"@ + ", "@
}

/// The diagnostic rendering of a peer list, in order.
pub open spec fn peers_text(ps: Seq<PeerView>) -> Seq<char>
    decreases ps.len(),
{
    if ps.len() == 0 {
        Seq::empty()
    } else {
        peer_text(ps[0]) + peers_text(ps.drop_first())
    }
}

/// Rendering one more peer appends its text.
proof fn lemma_peers_text_push(ps: Seq<PeerView>, p: PeerView)
    ensures
        peers_text(ps.push(p)) == peers_text(ps) + peer_text(p),
    decreases ps.len(),
{
    if ps.len() == 0 {
        assert(ps.push(p)[0] == p);
        assert(ps.push(p).drop_first() =~= ps);
        assert(peers_text(ps.push(p)) =~= peers_text(ps) + peer_text(p));
    } else {
        assert(ps.push(p)[0] == ps[0]);
        assert(ps.push(p).drop_first() =~= ps.drop_first().push(p));
        lemma_peers_text_push(ps.drop_first(), p);
        assert(peer_text(ps[0]) + (peers_text(ps.drop_first()) + peer_text(p)) =~= (peer_text(
            ps[0],
        ) + peers_text(ps.drop_first())) + peer_text(p));
        assert(peers_text(ps.push(p)) =~= peers_text(ps) + peer_text(p));
    }
}

/// The full diagnostic rendering of a merge-scan operator: at least the peer
/// set, for `EXPLAIN`-style output.
pub open spec fn merge_scan_text(ps: Seq<PeerView>) -> Seq<char> {
    "MergeScanExec: peers=["@ + peers_text(ps) + "]"@
}

/// The merge-scan physical operator. A true leaf: it has no children, always
/// reports exactly one output partition, and owns its peer list and
/// serialized sub-plan immutably. Executing it starts one fan-out; executing
/// it again replays the same fan-out independently.
pub struct MergeScanExec {
    /// The table the remote sub-plan scans.
    pub table: TableName,
    /// The resolved peers, contacted in exactly this order. May be empty:
    /// zero peers mean an empty output stream, not an error.
    pub peers: Vec<Peer>,
    /// The serialized remote sub-plan, sent verbatim to every peer.
    pub substrait_plan: Vec<u8>,
    /// The schema the merged stream is tagged with, fixed at construction.
    pub schema: Schema,
}

impl MergeScanExec {
    /// Builds the operator from what the distributed planner resolved.
    pub fn new(table: TableName, peers: Vec<Peer>, substrait_plan: Vec<u8>, schema: Schema) -> (e:
        MergeScanExec)
        ensures
            e.table == table,
            e.peers == peers,
            e.substrait_plan == substrait_plan,
            e.schema == schema,
    {
        MergeScanExec { table, peers, substrait_plan, schema }
    }

    /// The schema every batch of the merged stream is tagged with.
    pub fn schema(&self) -> (s: &Schema)
        ensures
            s == &self.schema,
    {
        &self.schema
    }

    /// The merged stream is always exactly one partition.
    pub fn output_partition_count(&self) -> (n: usize)
        ensures
            n == 1,
    {
        crate::MERGE_SCAN_PARTITIONS
    }

    /// The merge imposes no output ordering: it is a concatenating merge,
    /// not a sorted one.
    pub fn output_ordering(&self) -> (r: Option<Vec<usize>>)
        ensures
            r is None,
    {
        None
    }

    /// A merge-scan is a leaf: it never has children.
    pub fn children(&self) -> (c: Vec<MergeScanExec>)
        ensures
            c@.len() == 0,
    {
        Vec::new()
    }

    /// Swapping children into a leaf is a planner bug: it fails loudly for
    /// every requested child list rather than silently producing wrong
    /// results.
    pub fn with_new_children(&self, _children: Vec<MergeScanExec>) -> (r: Result<
        MergeScanExec,
        MergeError,
    >)
        ensures
            r == Err::<MergeScanExec, MergeError>(MergeError::PlanningInvariantViolation),
    {
        Err(MergeError::PlanningInvariantViolation)
    }

    /// Starts the fan-out for the only partition. Requesting any other
    /// partition index is a caller error and is rejected; with zero peers the
    /// returned merge is complete at once.
    pub fn execute(&self, partition: usize) -> (r: Result<Merger, MergeError>)
        ensures
            partition == 0 ==> (r matches Ok(m) && {
                &&& m.wf()
                &&& m.peer_count == self.peers@.len()
                &&& m.cursor == 0
                &&& m.phase == (if self.peers@.len() == 0 {
                    MergePhase::Done
                } else {
                    MergePhase::Fetch
                })
            }),
            partition != 0 ==> r == Err::<Merger, MergeError>(
                MergeError::PlanningInvariantViolation,
            ),
    {
        if partition != 0 {
            return Err(MergeError::PlanningInvariantViolation);
        }
        Ok(Merger::new(self.peers.len()))
    }

    /// Renders the operator for diagnostics, naming every peer.
    pub fn describe(&self) -> (s: String)
        ensures
            s@ == merge_scan_text(peer_views(self.peers@)),
    {
        let ghost views = peer_views(self.peers@);
        let mut s = String::new();
        s.append("MergeScanExec: peers=[");
        let mut i: usize = 0;
        while i < self.peers.len()
            invariant
                i <= self.peers.len(),
                views == peer_views(self.peers@),
                views.len() == self.peers@.len(),
                s@ == "MergeScanExec: peers=["@ + peers_text(views.take(i as int)),
            decreases self.peers.len() - i,
        {
            let ghost sofar = s@;
            let p = &self.peers[i];
            let id_text = u64_to_dec(p.id);
            s.append("peer-");
            s.append(id_text.as_str());
            s.append("(");
            s.append(p.addr.as_str());
            s.append(")");
            s.append(", ");
            proof {
                assert(views[i as int] == self.peers@[i as int]@);
                assert(s@ =~= sofar + peer_text(views[i as int]));
                assert(views.take(i as int).push(views[i as int]) =~= views.take(i as int + 1));
                lemma_peers_text_push(views.take(i as int), views[i as int]);
                assert(s@ =~= "MergeScanExec: peers=["@ + peers_text(views.take(i as int + 1)));
            }
            i = i + 1;
        }
        s.append("]");
        proof {
            assert(views.take(views.len() as int) =~= views);
            assert(s@ =~= merge_scan_text(views));
        }
        s
    }
}

} // verus!
