//! The response merger: the state machine that turns N independent,
//! heterogeneous peer outcomes into one homogeneous sequence of batches.
//!
//! Peers are contacted strictly in peer-list order, one at a time; a peer's
//! outcome is fully drained before the next peer is contacted. A row-count
//! acknowledgement is not a legal scan outcome and aborts the merge; so does
//! any transport or mid-stream failure. Batches emitted before a failure
//! remain part of the observed result.

use vstd::prelude::*;

use crate::error::{MergeError, MergeErrorView, RemoteError};
use crate::schema::{batch_views, clone_batches, Batch, BatchView, ColumnDefView};

verus! {

/// The classified result of submitting the sub-plan to one peer, as the
/// remote call hands it back. A lazy stream is signalled here and its pulls
/// are fed to the merger one by one.
pub enum RemoteOutcome {
    /// A row-count acknowledgement: never a legal answer to a scan.
    AffectedRows(u64),
    /// A materialized batch collection.
    RecordBatches(Vec<Batch>),
    /// A lazy batch stream was opened.
    Stream,
}

/// One pull from a peer's lazy batch stream.
pub enum StreamPoll {
    /// The stream yielded a batch.
    Item(Batch),
    /// The stream failed mid-way.
    Error(RemoteError),
    /// The stream is exhausted.
    End,
}

/// A peer's whole response, materialized: what the peer would hand back over
/// the course of one sub-plan execution. Used by the sequential driver
/// [`merge_collect`] and by scripted in-memory peers.
pub enum PeerResponse {
    /// The remote call itself failed.
    Unreachable(RemoteError),
    /// A row-count acknowledgement.
    AffectedRows(u64),
    /// A materialized batch collection.
    Batches(Vec<Batch>),
    /// A lazy stream that yields `batches` in order, then either ends cleanly
    /// or fails.
    Stream { batches: Vec<Batch>, failure: Option<RemoteError> },
}

/// Mathematical model of a [`PeerResponse`].
pub enum PeerResponseView {
    Unreachable(Seq<char>),
    AffectedRows(u64),
    Batches(Seq<BatchView>),
    Stream { batches: Seq<BatchView>, failure: Option<Seq<char>> },
}

impl View for PeerResponse {
    type V = PeerResponseView;

    open spec fn view(&self) -> PeerResponseView {
        match self {
            PeerResponse::Unreachable(e) => PeerResponseView::Unreachable(e@),
            PeerResponse::AffectedRows(n) => PeerResponseView::AffectedRows(*n),
            PeerResponse::Batches(v) => PeerResponseView::Batches(batch_views(v@)),
            PeerResponse::Stream { batches, failure } => PeerResponseView::Stream {
                batches: batch_views(batches@),
                failure: match failure {
                    Some(e) => Some(e@),
                    None => None,
                },
            },
        }
    }
}

impl Clone for PeerResponse {
    fn clone(&self) -> (res: Self)
        ensures
            res@ == self@,
    {
        match self {
            PeerResponse::Unreachable(e) => PeerResponse::Unreachable(e.clone()),
            PeerResponse::AffectedRows(n) => PeerResponse::AffectedRows(*n),
            PeerResponse::Batches(v) => PeerResponse::Batches(clone_batches(v)),
            PeerResponse::Stream { batches, failure } => PeerResponse::Stream {
                batches: clone_batches(batches),
                failure: match failure {
                    Some(e) => Some(e.clone()),
                    None => None,
                },
            },
        }
    }
}

/// The views of all responses in a sequence.
pub open spec fn response_views(rs: Seq<PeerResponse>) -> Seq<PeerResponseView> {
    rs.map_values(|r: PeerResponse| r@)
}

/// The batches a response contributes to the merged sequence, in their given
/// order: everything the peer emitted before any failure of its own.
pub open spec fn response_batches(r: PeerResponseView) -> Seq<BatchView> {
    match r {
        PeerResponseView::Unreachable(_) => Seq::empty(),
        PeerResponseView::AffectedRows(_) => Seq::empty(),
        PeerResponseView::Batches(bs) => bs,
        PeerResponseView::Stream { batches, .. } => batches,
    }
}

/// How a response terminates the merge, if it does: a failed remote call and
/// a mid-stream fault surface as externally-caused failures, a row-count
/// acknowledgement as an unexpected output kind.
pub open spec fn response_failure(r: PeerResponseView) -> Option<MergeErrorView> {
    match r {
        PeerResponseView::Unreachable(m) => Some(MergeErrorView::RemoteExecutionFailure(m)),
        PeerResponseView::AffectedRows(_) => Some(MergeErrorView::UnexpectedRemoteOutputKind),
        PeerResponseView::Batches(_) => None,
        PeerResponseView::Stream { failure: f, .. } => match f {
            Some(m) => Some(MergeErrorView::RemoteExecutionFailure(m)),
            None => None,
        },
    }
}

/// What a full sequential fan-out over a peer list yields: the merged batch
/// sequence, the failure that ended it (if any), and how many peers were
/// actually contacted.
#[verifier::ext_equal]
pub struct MergeModel {
    pub batches: Seq<BatchView>,
    pub failure: Option<MergeErrorView>,
    pub contacted: int,
}

/// The defining model of the merge: drain responses in order, concatenating
/// their batches, and stop at the first response that fails, keeping the
/// batches it emitted before failing.
pub open spec fn merge_model(rs: Seq<PeerResponseView>) -> MergeModel
    decreases rs.len(),
{
    if rs.len() == 0 {
        MergeModel { batches: Seq::empty(), failure: None, contacted: 0 }
    } else {
        let head = response_batches(rs[0]);
        match response_failure(rs[0]) {
            Some(e) => MergeModel { batches: head, failure: Some(e), contacted: 1 },
            None => {
                let rest = merge_model(rs.drop_first());
                MergeModel {
                    batches: head + rest.batches,
                    failure: rest.failure,
                    contacted: 1 + rest.contacted,
                }
            },
        }
    }
}

/// Extending a so-far clean merge by one more response appends that
/// response's batches, adopts its failure (if any), and contacts one more
/// peer.
pub proof fn lemma_merge_model_step(rs: Seq<PeerResponseView>, r: PeerResponseView)
    requires
        merge_model(rs).failure is None,
    ensures
        merge_model(rs.push(r)) == (MergeModel {
            batches: merge_model(rs).batches + response_batches(r),
            failure: response_failure(r),
            contacted: rs.len() as int + 1,
        }),
    decreases rs.len(),
{
    if rs.len() == 0 {
        assert(rs.push(r)[0] == r);
        assert(rs.push(r).drop_first() =~= rs);
        assert(merge_model(rs).batches + response_batches(r) =~= response_batches(r));
        assert(merge_model(rs.push(r)) =~= (MergeModel {
            batches: merge_model(rs).batches + response_batches(r),
            failure: response_failure(r),
            contacted: rs.len() as int + 1,
        }));
    } else {
        assert(response_failure(rs[0]) is None);
        assert(rs.push(r)[0] == rs[0]);
        assert(rs.push(r).drop_first() =~= rs.drop_first().push(r));
        lemma_merge_model_step(rs.drop_first(), r);
        assert(response_batches(rs[0]) + (merge_model(rs.drop_first()).batches
            + response_batches(r)) =~= (response_batches(rs[0]) + merge_model(
            rs.drop_first(),
        ).batches) + response_batches(r));
        assert(merge_model(rs.push(r)) =~= (MergeModel {
            batches: merge_model(rs).batches + response_batches(r),
            failure: response_failure(r),
            contacted: rs.len() as int + 1,
        }));
    }
}

/// The flat concatenation of every response's batches, in peer-list order.
pub open spec fn concat_batches(rs: Seq<PeerResponseView>) -> Seq<BatchView> {
    rs.map_values(|r: PeerResponseView| response_batches(r)).flatten()
}

/// Order preservation: when every peer answers cleanly, the merged sequence
/// is exactly the concatenation of each peer's batches in peer-list order,
/// every peer is contacted, and no failure is reported.
pub proof fn lemma_merge_preserves_order(rs: Seq<PeerResponseView>)
    requires
        forall|i: int| 0 <= i < rs.len() ==> response_failure(#[trigger] rs[i]) is None,
    ensures
        merge_model(rs) == (MergeModel {
            batches: concat_batches(rs),
            failure: None,
            contacted: rs.len() as int,
        }),
    decreases rs.len(),
{
    let m = rs.map_values(|r: PeerResponseView| response_batches(r));
    if rs.len() == 0 {
        assert(m.len() == 0);
        assert(concat_batches(rs) =~= Seq::<BatchView>::empty());
        assert(merge_model(rs) =~= (MergeModel {
            batches: concat_batches(rs),
            failure: None,
            contacted: rs.len() as int,
        }));
    } else {
        assert(response_failure(rs[0]) is None);
        assert forall|i: int| 0 <= i < rs.drop_first().len() implies response_failure(
            #[trigger] rs.drop_first()[i],
        ) is None by {
            assert(rs.drop_first()[i] == rs[i + 1]);
        }
        lemma_merge_preserves_order(rs.drop_first());
        assert(m.first() == response_batches(rs[0]));
        assert(m.drop_first() =~= rs.drop_first().map_values(
            |r: PeerResponseView| response_batches(r),
        ));
        assert(concat_batches(rs) == m.first() + m.drop_first().flatten());
        assert(merge_model(rs) =~= (MergeModel {
            batches: concat_batches(rs),
            failure: None,
            contacted: rs.len() as int,
        }));
    }
}

/// With no peers at all the merge yields an empty, immediately complete
/// sequence: no batches, no failure, no peer contacted.
pub proof fn lemma_merge_no_peers(rs: Seq<PeerResponseView>)
    requires
        rs.len() == 0,
    ensures
        merge_model(rs).batches.len() == 0,
        merge_model(rs).failure is None,
        merge_model(rs).contacted == 0,
{
}

/// A row-count acknowledgement from one peer, after a clean prefix, fails the
/// whole merge as an unexpected output kind: the merged sequence holds
/// exactly the batches of the peers before it, and no later peer is
/// contacted.
pub proof fn lemma_row_count_aborts(rs: Seq<PeerResponseView>, k: int)
    requires
        0 <= k < rs.len(),
        rs[k] is AffectedRows,
        forall|i: int| 0 <= i < k ==> response_failure(#[trigger] rs[i]) is None,
    ensures
        merge_model(rs) == (MergeModel {
            batches: concat_batches(rs.take(k)),
            failure: Some(MergeErrorView::UnexpectedRemoteOutputKind),
            contacted: k + 1,
        }),
{
    assert forall|i: int| 0 <= i < rs.take(k).len() implies response_failure(
        #[trigger] rs.take(k)[i],
    ) is None by {
        assert(rs.take(k)[i] == rs[i]);
    }
    lemma_merge_preserves_order(rs.take(k));
    lemma_merge_model_prefix_decides(rs, k);
    assert(concat_batches(rs.take(k)) + response_batches(rs[k]) =~= concat_batches(rs.take(k)));
    assert(merge_model(rs) =~= (MergeModel {
        batches: concat_batches(rs.take(k)),
        failure: Some(MergeErrorView::UnexpectedRemoteOutputKind),
        contacted: k + 1,
    }));
}

/// A mid-stream failure in peer `k`'s lazy stream, after a clean prefix,
/// ends the merge as an externally-caused failure: the merged sequence holds
/// exactly the batches of peers before `k` plus the batches peer `k` emitted
/// before failing, and no later peer is contacted.
pub proof fn lemma_stream_failure_aborts(
    rs: Seq<PeerResponseView>,
    k: int,
    emitted: Seq<BatchView>,
    fault: Seq<char>,
)
    requires
        0 <= k < rs.len(),
        rs[k] == (PeerResponseView::Stream { batches: emitted, failure: Some(fault) }),
        forall|i: int| 0 <= i < k ==> response_failure(#[trigger] rs[i]) is None,
    ensures
        merge_model(rs) == (MergeModel {
            batches: concat_batches(rs.take(k)) + emitted,
            failure: Some(MergeErrorView::RemoteExecutionFailure(fault)),
            contacted: k + 1,
        }),
{
    assert forall|i: int| 0 <= i < rs.take(k).len() implies response_failure(
        #[trigger] rs.take(k)[i],
    ) is None by {
        assert(rs.take(k)[i] == rs[i]);
    }
    lemma_merge_preserves_order(rs.take(k));
    lemma_merge_model_prefix_decides(rs, k);
}

/// Every batch of a sequence carries the given schema.
pub open spec fn batches_conform(bs: Seq<BatchView>, schema: Seq<ColumnDefView>) -> bool {
    forall|i: int| 0 <= i < bs.len() ==> (#[trigger] bs[i]).schema == schema
}

/// Every batch that any response would contribute carries the given schema.
pub open spec fn responses_conform(rs: Seq<PeerResponseView>, schema: Seq<ColumnDefView>) -> bool {
    forall|i: int| 0 <= i < rs.len() ==> batches_conform(response_batches(#[trigger] rs[i]), schema)
}

/// Schema stability: when every peer's batches carry the declared output
/// schema, so does every batch of the merged sequence, whichever peer
/// produced it and however the merge ended.
pub proof fn lemma_schema_stability(rs: Seq<PeerResponseView>, schema: Seq<ColumnDefView>)
    requires
        responses_conform(rs, schema),
    ensures
        batches_conform(merge_model(rs).batches, schema),
    decreases rs.len(),
{
    if rs.len() == 0 {
    } else {
        assert(batches_conform(response_batches(rs[0]), schema));
        assert forall|i: int| 0 <= i < rs.drop_first().len() implies batches_conform(
            response_batches(#[trigger] rs.drop_first()[i]),
            schema,
        ) by {
            assert(rs.drop_first()[i] == rs[i + 1]);
        }
        lemma_schema_stability(rs.drop_first(), schema);
    }
}

/// A clean merge prefix fixes the whole merge once the next response fails:
/// the merged batches are the prefix's batches plus what the failing response
/// emitted before failing, the merge adopts that failure, and no response
/// past the failing one is touched.
pub proof fn lemma_merge_model_prefix_decides(rs: Seq<PeerResponseView>, k: int)
    requires
        0 <= k < rs.len(),
        merge_model(rs.take(k)).failure is None,
        response_failure(rs[k]) is Some,
    ensures
        merge_model(rs) == (MergeModel {
            batches: merge_model(rs.take(k)).batches + response_batches(rs[k]),
            failure: response_failure(rs[k]),
            contacted: k + 1,
        }),
    decreases k,
{
    if k == 0 {
        assert(rs.take(0) =~= Seq::<PeerResponseView>::empty());
        assert(merge_model(rs.take(0)).batches + response_batches(rs[0]) =~= response_batches(
            rs[0],
        ));
        assert(merge_model(rs) =~= (MergeModel {
            batches: merge_model(rs.take(k)).batches + response_batches(rs[k]),
            failure: response_failure(rs[k]),
            contacted: k + 1,
        }));
    } else {
        assert(rs.take(k)[0] == rs[0]);
        assert(response_failure(rs[0]) is None);
        assert(rs.drop_first().take(k - 1) =~= rs.take(k).drop_first());
        assert(rs.drop_first()[k - 1] == rs[k]);
        lemma_merge_model_prefix_decides(rs.drop_first(), k - 1);
        assert(response_batches(rs[0]) + (merge_model(rs.drop_first().take(k - 1)).batches
            + response_batches(rs[k])) =~= (response_batches(rs[0]) + merge_model(
            rs.drop_first().take(k - 1),
        ).batches) + response_batches(rs[k]));
        assert(merge_model(rs) =~= (MergeModel {
            batches: merge_model(rs.take(k)).batches + response_batches(rs[k]),
            failure: response_failure(rs[k]),
            contacted: k + 1,
        }));
    }
}

/// Where the merge state machine stands.
#[derive(Clone, Copy, Debug, PartialEq, Eq, Structural)]
pub enum MergePhase {
    /// The next peer is about to be contacted.
    Fetch,
    /// The current peer opened a lazy stream that is being drained.
    Drain,
    /// Every peer has been drained; the merged sequence is complete.
    Done,
    /// A failure ended the merge; no further peer is contacted.
    Failed,
}

/// What the driver of the merge should do next.
#[derive(Clone, Copy, Debug, PartialEq, Eq, Structural)]
pub enum MergeStep {
    /// Submit the serialized sub-plan to the peer with this index and feed
    /// the outcome to [`Merger::feed_outcome`].
    Contact(usize),
    /// Pull once from the current peer's lazy stream and feed the result to
    /// [`Merger::feed_poll`].
    Poll,
    /// The merge is complete or failed; nothing remains to do.
    Idle,
}

/// The merge state machine. The driver asks [`Merger::next_step`] what to do,
/// performs the remote work, and feeds the result back; the merger classifies
/// it, hands re-emittable batches out, and decides whether the fan-out goes
/// on. Peer `i + 1` is never contacted before peer `i` is fully drained.
pub struct Merger {
    /// How many peers the fan-out addresses.
    pub peer_count: usize,
    /// The index of the peer currently being worked on.
    pub cursor: usize,
    /// Where the state machine stands.
    pub phase: MergePhase,
}

impl Merger {
    /// The machine never points past the peer list, and only rests at the end
    /// of it.
    pub open spec fn wf(self) -> bool {
        &&& self.cursor <= self.peer_count
        &&& ((self.phase is Fetch || self.phase is Drain) ==> self.cursor < self.peer_count)
        &&& (self.phase is Done ==> self.cursor == self.peer_count)
    }

    /// Starts a fan-out over `peer_count` peers. With no peers at all the
    /// merge is complete at once, with no batches and no error.
    pub fn new(peer_count: usize) -> (m: Merger)
        ensures
            m.wf(),
            m.peer_count == peer_count,
            m.cursor == 0,
            m.phase == (if peer_count == 0 {
                MergePhase::Done
            } else {
                MergePhase::Fetch
            }),
    {
        if peer_count == 0 {
            Merger { peer_count, cursor: 0, phase: MergePhase::Done }
        } else {
            Merger { peer_count, cursor: 0, phase: MergePhase::Fetch }
        }
    }

    /// What the driver should do next, decided by the phase alone.
    pub fn next_step(&self) -> (s: MergeStep)
        ensures
            s == (match self.phase {
                MergePhase::Fetch => MergeStep::Contact(self.cursor),
                MergePhase::Drain => MergeStep::Poll,
                MergePhase::Done => MergeStep::Idle,
                MergePhase::Failed => MergeStep::Idle,
            }),
    {
        match self.phase {
            MergePhase::Fetch => MergeStep::Contact(self.cursor),
            MergePhase::Drain => MergeStep::Poll,
            MergePhase::Done => MergeStep::Idle,
            MergePhase::Failed => MergeStep::Idle,
        }
    }

    /// Moves past the current peer once it is fully drained.
    fn advance(&mut self)
        requires
            old(self).wf(),
            old(self).cursor < old(self).peer_count,
        ensures
            final(self).wf(),
            final(self).peer_count == old(self).peer_count,
            final(self).cursor == old(self).cursor + 1,
            final(self).phase == (if old(self).cursor + 1 == old(self).peer_count {
                MergePhase::Done
            } else {
                MergePhase::Fetch
            }),
    {
        self.cursor = self.cursor + 1;
        if self.cursor == self.peer_count {
            self.phase = MergePhase::Done;
        } else {
            self.phase = MergePhase::Fetch;
        }
    }

    /// Classifies the outcome of contacting the current peer. A failed remote
    /// call aborts the merge as externally caused; a row-count
    /// acknowledgement aborts it as an unexpected output kind; a materialized
    /// batch collection is handed back for re-emission, in its given order,
    /// and the fan-out moves on; an opened stream puts the merger into
    /// draining.
    pub fn feed_outcome(&mut self, outcome: Result<RemoteOutcome, RemoteError>) -> (r: Result<
        Vec<Batch>,
        MergeError,
    >)
        requires
            old(self).wf(),
            old(self).phase is Fetch,
        ensures
            final(self).wf(),
            final(self).peer_count == old(self).peer_count,
            match outcome {
                Err(e) => {
                    &&& r == Err::<Vec<Batch>, MergeError>(MergeError::RemoteExecutionFailure(e))
                    &&& final(self).phase is Failed
                    &&& final(self).cursor == old(self).cursor
                },
                Ok(RemoteOutcome::AffectedRows(_)) => {
                    &&& r == Err::<Vec<Batch>, MergeError>(MergeError::UnexpectedRemoteOutputKind)
                    &&& final(self).phase is Failed
                    &&& final(self).cursor == old(self).cursor
                },
                Ok(RemoteOutcome::RecordBatches(v)) => {
                    &&& r == Ok::<Vec<Batch>, MergeError>(v)
                    &&& final(self).cursor == old(self).cursor + 1
                    &&& final(self).phase == (if old(self).cursor + 1 == old(
                        self,
                    ).peer_count {
                        MergePhase::Done
                    } else {
                        MergePhase::Fetch
                    })
                },
                Ok(RemoteOutcome::Stream) => {
                    &&& r matches Ok(bs) && bs@.len() == 0
                    &&& final(self).phase is Drain
                    &&& final(self).cursor == old(self).cursor
                },
            },
    {
        match outcome {
            Err(e) => {
                self.phase = MergePhase::Failed;
                Err(MergeError::RemoteExecutionFailure(e))
            },
            Ok(RemoteOutcome::AffectedRows(_)) => {
                self.phase = MergePhase::Failed;
                Err(MergeError::UnexpectedRemoteOutputKind)
            },
            Ok(RemoteOutcome::RecordBatches(v)) => {
                self.advance();
                Ok(v)
            },
            Ok(RemoteOutcome::Stream) => {
                self.phase = MergePhase::Drain;
                Ok(Vec::new())
            },
        }
    }

    /// Classifies one pull from the current peer's lazy stream. A batch is
    /// handed back for re-emission; the end of the stream moves the fan-out
    /// on to the next peer; a mid-stream fault aborts the merge as
    /// externally caused.
    pub fn feed_poll(&mut self, poll: StreamPoll) -> (r: Result<Option<Batch>, MergeError>)
        requires
            old(self).wf(),
            old(self).phase is Drain,
        ensures
            final(self).wf(),
            final(self).peer_count == old(self).peer_count,
            match poll {
                StreamPoll::Item(b) => {
                    &&& r == Ok::<Option<Batch>, MergeError>(Some(b))
                    &&& *final(self) == *old(self)
                },
                StreamPoll::End => {
                    &&& r == Ok::<Option<Batch>, MergeError>(None)
                    &&& final(self).cursor == old(self).cursor + 1
                    &&& final(self).phase == (if old(self).cursor + 1 == old(
                        self,
                    ).peer_count {
                        MergePhase::Done
                    } else {
                        MergePhase::Fetch
                    })
                },
                StreamPoll::Error(e) => {
                    &&& r == Err::<Option<Batch>, MergeError>(MergeError::RemoteExecutionFailure(
                        e,
                    ))
                    &&& final(self).phase is Failed
                    &&& final(self).cursor == old(self).cursor
                },
            },
    {
        match poll {
            StreamPoll::Item(b) => Ok(Some(b)),
            StreamPoll::End => {
                self.advance();
                Ok(None)
            },
            StreamPoll::Error(e) => {
                self.phase = MergePhase::Failed;
                Err(MergeError::RemoteExecutionFailure(e))
            },
        }
    }
}

/// What a fan-out handed the consumer: the merged batches in their emission
/// order, the failure that ended the merge if one did, and how many peers
/// were contacted before the merge ended.
pub struct MergeOutput {
    pub batches: Vec<Batch>,
    pub failure: Option<MergeError>,
    pub contacted: usize,
}

impl View for MergeOutput {
    type V = MergeModel;

    open spec fn view(&self) -> MergeModel {
        MergeModel {
            batches: batch_views(self.batches@),
            failure: match self.failure {
                Some(e) => Some(e@),
                None => None,
            },
            contacted: self.contacted as int,
        }
    }
}

/// Drives the merge state machine over materialized peer responses in
/// peer-list order: the sequential fan-out, with each peer's response played
/// back exactly as the remote calls would hand it over. Responses past the
/// first failing one are never consumed.
pub fn merge_collect(responses: Vec<PeerResponse>) -> (out: MergeOutput)
    ensures
        out@ == merge_model(response_views(responses@)),
{
    let n = responses.len();
    let ghost all: Seq<PeerResponse> = responses@;
    let mut rest = responses;
    let mut merger = Merger::new(n);
    let mut batches: Vec<Batch> = Vec::new();
    let mut failure: Option<MergeError> = None;
    let mut i: usize = 0;
    while i < n && failure.is_none()
        invariant
            n == all.len(),
            i <= n,
            rest@ == all.skip(i as int),
            merger.wf(),
            merger.peer_count == n,
            failure is None ==> {
                &&& merger.cursor == i
                &&& merger.phase == (if i == n {
                    MergePhase::Done
                } else {
                    MergePhase::Fetch
                })
                &&& merge_model(response_views(all.take(i as int))) == (MergeModel {
                    batches: batch_views(batches@),
                    failure: None,
                    contacted: i as int,
                })
            },
            failure matches Some(e) ==> merge_model(response_views(all)) == (MergeModel {
                batches: batch_views(batches@),
                failure: Some(e@),
                contacted: i as int,
            }),
        decreases n - i,
    {
        let ghost pre = response_views(all.take(i as int));
        let r = rest.remove(0);
        proof {
            assert(r == all[i as int]);
            assert(rest@ =~= all.skip(i as int + 1));
            assert(response_views(all.take(i as int + 1)) =~= pre.push(r@));
        }
        match r {
            PeerResponse::Unreachable(e) => {
                let fed = merger.feed_outcome(Err(e));
                match fed {
                    Err(me) => {
                        proof {
                            assert(response_views(all).take(i as int) =~= pre);
                            assert(response_views(all)[i as int] == r@);
                            lemma_merge_model_prefix_decides(response_views(all), i as int);
                            assert(batch_views(batches@) + response_batches(r@) =~= batch_views(
                                batches@,
                            ));
                        }
                        failure = Some(me);
                    },
                    Ok(_) => {
                        assert(false);
                    },
                }
            },
            PeerResponse::AffectedRows(rows) => {
                let fed = merger.feed_outcome(Ok(RemoteOutcome::AffectedRows(rows)));
                match fed {
                    Err(me) => {
                        proof {
                            assert(response_views(all).take(i as int) =~= pre);
                            assert(response_views(all)[i as int] == r@);
                            lemma_merge_model_prefix_decides(response_views(all), i as int);
                            assert(batch_views(batches@) + response_batches(r@) =~= batch_views(
                                batches@,
                            ));
                        }
                        failure = Some(me);
                    },
                    Ok(_) => {
                        assert(false);
                    },
                }
            },
            PeerResponse::Batches(v) => {
                let ghost v_views = batch_views(v@);
                let fed = merger.feed_outcome(Ok(RemoteOutcome::RecordBatches(v)));
                match fed {
                    Ok(mut got) => {
                        let ghost before = batches@;
                        batches.append(&mut got);
                        proof {
                            lemma_merge_model_step(pre, r@);
                            assert(batch_views(batches@) =~= batch_views(before) + v_views);
                        }
                    },
                    Err(_) => {
                        assert(false);
                    },
                }
            },
            PeerResponse::Stream { batches: stream_batches, failure: stream_failure } => {
                let ghost sb_views = batch_views(stream_batches@);
                let ghost before = batches@;
                let _opened = merger.feed_outcome(Ok(RemoteOutcome::Stream));
                let mut pulls = stream_batches;
                let sn = pulls.len();
                proof {
                    assert(batch_views(pulls@) =~= sb_views.skip(0));
                    assert(batch_views(batches@) =~= batch_views(before) + sb_views.take(0));
                }
                let mut j: usize = 0;
                while j < sn
                    invariant
                        j <= sn,
                        sn == sb_views.len(),
                        batch_views(pulls@) == sb_views.skip(j as int),
                        merger.wf(),
                        merger.phase is Drain,
                        merger.peer_count == n,
                        merger.cursor == i,
                        i < n,
                        batch_views(batches@) == batch_views(before) + sb_views.take(j as int),
                    decreases sn - j,
                {
                    proof {
                        assert(batch_views(pulls@).len() == sb_views.skip(j as int).len());
                        assert(pulls@.len() == sn - j);
                    }
                    let ghost op = pulls@;
                    let b = pulls.remove(0);
                    proof {
                        assert(b@ == sb_views.skip(j as int)[0]);
                        assert(b@ == sb_views[j as int]);
                        assert(op.remove(0) =~= op.skip(1));
                        assert(batch_views(op.skip(1)) =~= batch_views(op).skip(1));
                        assert(sb_views.skip(j as int).skip(1) =~= sb_views.skip(j as int + 1));
                        assert(batch_views(pulls@) =~= sb_views.skip(j as int + 1));
                    }
                    let pulled = merger.feed_poll(StreamPoll::Item(b));
                    match pulled {
                        Ok(Some(got)) => {
                            let ghost bb = batches@;
                            batches.push(got);
                            proof {
                                assert(batch_views(batches@) =~= batch_views(bb).push(b@));
                                assert(sb_views.take(j as int + 1) =~= sb_views.take(
                                    j as int,
                                ).push(sb_views[j as int]));
                                assert((batch_views(before) + sb_views.take(j as int)).push(
                                    sb_views[j as int],
                                ) =~= batch_views(before) + sb_views.take(j as int).push(
                                    sb_views[j as int],
                                ));
                                assert(batch_views(batches@) =~= batch_views(before)
                                    + sb_views.take(j as int + 1));
                            }
                        },
                        Ok(None) => {
                            assert(false);
                        },
                        Err(_) => {
                            assert(false);
                        },
                    }
                    j = j + 1;
                }
                proof {
                    assert(sb_views.take(sn as int) =~= sb_views);
                    assert(response_batches(r@) == sb_views);
                }
                match stream_failure {
                    None => {
                        let ended = merger.feed_poll(StreamPoll::End);
                        match ended {
                            Ok(None) => {
                                proof {
                                    lemma_merge_model_step(pre, r@);
                                    assert(batch_views(batches@) =~= merge_model(pre).batches
                                        + response_batches(r@));
                                }
                            },
                            Ok(Some(_)) => {
                                assert(false);
                            },
                            Err(_) => {
                                assert(false);
                            },
                        }
                    },
                    Some(e) => {
                        let ended = merger.feed_poll(StreamPoll::Error(e));
                        match ended {
                            Err(me) => {
                                proof {
                                    assert(response_views(all).take(i as int) =~= pre);
                                    assert(response_views(all)[i as int] == r@);
                                    lemma_merge_model_prefix_decides(
                                        response_views(all),
                                        i as int,
                                    );
                                    assert(batch_views(batches@) =~= merge_model(pre).batches
                                        + response_batches(r@));
                                }
                                failure = Some(me);
                            },
                            Ok(_) => {
                                assert(false);
                            },
                        }
                    },
                }
            },
        }
        i = i + 1;
    }
    proof {
        if failure is None {
            assert(i == n);
            assert(all.take(n as int) =~= all);
        }
    }
    let out = MergeOutput { batches, failure, contacted: i };
    proof {
        assert(out@ =~= merge_model(response_views(all)));
    }
    out
}

} // verus!
