use merge_scan::{
    Batch, ColumnDef, DataType, MergeError, MergePhase, MergeScanExec, MergeStep, Merger,
    MockDistributedInstance, Peer, PeerResponse, RemoteError, RemoteOutcome, Schema, StreamPoll,
    TableName,
};

fn test_schema() -> Schema {
    Schema {
        columns: vec![
            ColumnDef {
                name: "ts".to_string(),
                data_type: DataType::TimestampMillisecond,
                nullable: false,
            },
            ColumnDef { name: "value".to_string(), data_type: DataType::Int64, nullable: true },
        ],
    }
}

fn batch(tag: u8) -> Batch {
    Batch { schema: test_schema(), payload: vec![tag, tag, tag] }
}

fn remote_error(message: &str) -> RemoteError {
    RemoteError { message: message.to_string() }
}

fn table() -> TableName {
    TableName {
        catalog_name: "greptime".to_string(),
        schema_name: "public".to_string(),
        table_name: "metrics".to_string(),
    }
}

fn peer(id: u64) -> Peer {
    Peer { id, addr: format!("node-{id}:4001") }
}

fn operator(peer_ids: &[u64]) -> MergeScanExec {
    MergeScanExec::new(
        table(),
        peer_ids.iter().map(|id| peer(*id)).collect(),
        vec![0xca, 0xfe],
        test_schema(),
    )
}

#[test]
fn order_preserved_across_peers() {
    let responses = vec![
        PeerResponse::Batches(vec![batch(1), batch(2)]),
        PeerResponse::Stream { batches: vec![batch(3)], failure: None },
        PeerResponse::Batches(vec![batch(4)]),
    ];
    let out = merge_scan::merge_collect(responses);
    assert!(out.failure.is_none());
    assert_eq!(out.contacted, 3);
    let tags: Vec<u8> = out.batches.iter().map(|b| b.payload[0]).collect();
    assert_eq!(tags, vec![1, 2, 3, 4]);
}

#[test]
fn empty_peer_list_yields_empty_merge() {
    let out = merge_scan::merge_collect(Vec::new());
    assert!(out.failure.is_none());
    assert!(out.batches.is_empty());
    assert_eq!(out.contacted, 0);

    let exec = operator(&[]);
    let merger = exec.execute(0).unwrap();
    assert_eq!(merger.phase, MergePhase::Done);
    assert_eq!(merger.next_step(), MergeStep::Idle);
}

#[test]
fn row_count_outcome_fails_merge() {
    let responses = vec![
        PeerResponse::Batches(vec![batch(1)]),
        PeerResponse::AffectedRows(42),
        PeerResponse::Batches(vec![batch(9)]),
    ];
    let out = merge_scan::merge_collect(responses);
    assert!(matches!(out.failure, Some(MergeError::UnexpectedRemoteOutputKind)));
    assert_eq!(out.batches.len(), 1);
    assert_eq!(out.batches[0].payload[0], 1);
    assert_eq!(out.contacted, 2);
}

#[test]
fn mid_stream_failure_keeps_prefix() {
    let responses = vec![
        PeerResponse::Batches(vec![batch(1)]),
        PeerResponse::Stream {
            batches: vec![batch(2), batch(3)],
            failure: Some(remote_error("connection reset")),
        },
        PeerResponse::Batches(vec![batch(9)]),
    ];
    let out = merge_scan::merge_collect(responses);
    match out.failure {
        Some(MergeError::RemoteExecutionFailure(cause)) => {
            assert_eq!(cause.message, "connection reset");
        }
        other => panic!("expected a remote execution failure, got {other:?}"),
    }
    let tags: Vec<u8> = out.batches.iter().map(|b| b.payload[0]).collect();
    assert_eq!(tags, vec![1, 2, 3]);
    assert_eq!(out.contacted, 2);
}

#[test]
fn unreachable_peer_fails_merge() {
    let responses = vec![PeerResponse::Unreachable(remote_error("no route to host"))];
    let out = merge_scan::merge_collect(responses);
    match out.failure {
        Some(MergeError::RemoteExecutionFailure(cause)) => {
            assert_eq!(cause.message, "no route to host");
        }
        other => panic!("expected a remote execution failure, got {other:?}"),
    }
    assert!(out.batches.is_empty());
    assert_eq!(out.contacted, 1);
}

#[test]
fn scatter_gather_scenario() {
    // Three peers: one batch collection of two, one stream that fails after
    // one batch, and a third peer that must never be contacted.
    let mut cluster = MockDistributedInstance::new();
    cluster.insert_datanode(1, PeerResponse::Batches(vec![batch(1), batch(2)]));
    cluster.insert_datanode(
        2,
        PeerResponse::Stream {
            batches: vec![batch(3)],
            failure: Some(remote_error("transport error")),
        },
    );
    cluster.insert_datanode(3, PeerResponse::Batches(vec![batch(9)]));
    assert_eq!(cluster.datanodes().len(), 3);

    let exec = operator(&[1, 2, 3]);
    let out = cluster.scan(&exec);

    assert_eq!(out.batches.len(), 3);
    let tags: Vec<u8> = out.batches.iter().map(|b| b.payload[0]).collect();
    assert_eq!(tags, vec![1, 2, 3]);
    assert!(matches!(out.failure, Some(MergeError::RemoteExecutionFailure(_))));
    assert_eq!(out.contacted, 2);
}

#[test]
fn unknown_datanode_is_unreachable() {
    let cluster = MockDistributedInstance::new();
    let exec = operator(&[5]);
    let out = cluster.scan(&exec);
    match out.failure {
        Some(MergeError::RemoteExecutionFailure(cause)) => {
            assert_eq!(cause.message, "unreachable datanode");
        }
        other => panic!("expected a remote execution failure, got {other:?}"),
    }
    assert_eq!(out.contacted, 1);
}

#[test]
fn merger_walkthrough() {
    let mut merger = Merger::new(2);
    assert_eq!(merger.phase, MergePhase::Fetch);
    assert_eq!(merger.next_step(), MergeStep::Contact(0));

    let got = merger
        .feed_outcome(Ok(RemoteOutcome::RecordBatches(vec![batch(1)])))
        .unwrap();
    assert_eq!(got.len(), 1);
    assert_eq!(merger.next_step(), MergeStep::Contact(1));

    let got = merger.feed_outcome(Ok(RemoteOutcome::Stream)).unwrap();
    assert!(got.is_empty());
    assert_eq!(merger.next_step(), MergeStep::Poll);

    let got = merger.feed_poll(StreamPoll::Item(batch(2))).unwrap();
    assert_eq!(got.unwrap().payload[0], 2);
    assert_eq!(merger.next_step(), MergeStep::Poll);

    let got = merger.feed_poll(StreamPoll::End).unwrap();
    assert!(got.is_none());
    assert_eq!(merger.phase, MergePhase::Done);
    assert_eq!(merger.next_step(), MergeStep::Idle);
}

#[test]
fn merger_stops_on_failed_remote_call() {
    let mut merger = Merger::new(3);
    let err = merger.feed_outcome(Err(remote_error("timed out"))).unwrap_err();
    assert!(matches!(err, MergeError::RemoteExecutionFailure(_)));
    assert_eq!(merger.phase, MergePhase::Failed);
    assert_eq!(merger.next_step(), MergeStep::Idle);
}

#[test]
fn merger_rejects_row_count_outcome() {
    let mut merger = Merger::new(1);
    let err = merger.feed_outcome(Ok(RemoteOutcome::AffectedRows(7))).unwrap_err();
    assert!(matches!(err, MergeError::UnexpectedRemoteOutputKind));
    assert_eq!(merger.phase, MergePhase::Failed);
}

#[test]
fn replayed_fan_out_is_independent() {
    // Executing the operator again replays the same fan-out from the start.
    let mut cluster = MockDistributedInstance::new();
    cluster.insert_datanode(1, PeerResponse::Batches(vec![batch(1)]));
    let exec = operator(&[1]);
    let first = cluster.scan(&exec);
    let second = cluster.scan(&exec);
    assert_eq!(first.batches.len(), 1);
    assert_eq!(second.batches.len(), 1);
    assert!(first.failure.is_none());
    assert!(second.failure.is_none());
}
