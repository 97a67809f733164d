//! An in-memory cluster of scripted datanodes: each node answers every
//! sub-plan with a fixed, pre-scripted response, so a whole distributed scan
//! can be exercised without a network.

use std::collections::HashMap;

use vstd::prelude::*;
use vstd::string::StringExecFns;

use crate::error::RemoteError;
use crate::exec::{peer_views, MergeScanExec};
use crate::merge::{
    merge_collect, merge_model, response_views, MergeOutput, PeerResponse, PeerResponseView,
};
use crate::peer::PeerView;

verus! {

broadcast use vstd::std_specs::hash::group_hash_axioms;

/// What a scripted datanode answers when a peer with the given identity is
/// asked to execute the sub-plan: its scripted response, or a transport
/// failure when no datanode with that identity exists.
pub open spec fn scripted_response(m: Map<u64, PeerResponse>, p: PeerView) -> PeerResponseView {
    if m.contains_key(p.id) {
        m[p.id]@
    } else {
        PeerResponseView::Unreachable("unreachable datanode"@)
    }
}

/// The responses a peer list draws from the scripted cluster, in peer-list
/// order.
pub open spec fn scripted_views(m: Map<u64, PeerResponse>, ps: Seq<PeerView>) -> Seq<
    PeerResponseView,
> {
    ps.map_values(|p: PeerView| scripted_response(m, p))
}

/// An in-memory stand-in for a distributed cluster: a set of datanodes, each
/// identified by a node identifier and answering every sub-plan with its
/// scripted response.
pub struct MockDistributedInstance {
    datanode_instances: HashMap<u64, PeerResponse>,
}

impl MockDistributedInstance {
    /// The scripted datanodes, by node identifier.
    pub closed spec fn nodes(&self) -> Map<u64, PeerResponse> {
        self.datanode_instances@
    }

    /// A cluster with no datanodes yet.
    pub fn new() -> (m: MockDistributedInstance)
        ensures
            m.nodes() == Map::<u64, PeerResponse>::empty(),
    {
        MockDistributedInstance { datanode_instances: HashMap::new() }
    }

    /// Adds a datanode with the given identity and scripted response,
    /// replacing any previous script for that identity.
    pub fn insert_datanode(&mut self, id: u64, response: PeerResponse)
        ensures
            final(self).nodes() == old(self).nodes().insert(id, response),
    {
        self.datanode_instances.insert(id, response);
    }

    /// The datanodes of the cluster.
    pub fn datanodes(&self) -> (r: &HashMap<u64, PeerResponse>)
        ensures
            r@ == self.nodes(),
    {
        &self.datanode_instances
    }

    /// Runs a whole merge-scan against the scripted cluster: every peer of
    /// the operator is resolved to its datanode's scripted response, in
    /// peer-list order, and the responses are merged exactly as the fan-out
    /// would merge them.
    pub fn scan(&self, exec: &MergeScanExec) -> (out: MergeOutput)
        ensures
            out@ == merge_model(scripted_views(self.nodes(), peer_views(exec.peers@))),
    {
        let ghost views = peer_views(exec.peers@);
        let mut responses: Vec<PeerResponse> = Vec::new();
        let mut i: usize = 0;
        while i < exec.peers.len()
            invariant
                i <= exec.peers@.len(),
                views == peer_views(exec.peers@),
                views.len() == exec.peers@.len(),
                responses@.len() == i as int,
                forall|j: int| 0 <= j < i ==> (#[trigger] responses@[j])@ == scripted_response(
                    self.nodes(),
                    views[j],
                ),
            decreases exec.peers@.len() - i,
        {
            let p = &exec.peers[i];
            match self.datanode_instances.get(&p.id) {
                Some(r) => {
                    responses.push(r.clone());
                },
                None => {
                    responses.push(
                        PeerResponse::Unreachable(
                            RemoteError { message: "unreachable datanode".to_owned() },
                        ),
                    );
                },
            }
            proof {
                assert(views[i as int] == exec.peers@[i as int]@);
            }
            i = i + 1;
        }
        proof {
            assert(response_views(responses@) =~= scripted_views(self.nodes(), views));
        }
        merge_collect(responses)
    }
}

} // verus!
