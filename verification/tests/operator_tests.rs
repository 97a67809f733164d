use merge_scan::{
    Batch, ColumnDef, DataType, MergeError, MergeScanExec, Peer, RemoteError, Schema, TableName,
};

fn schema() -> Schema {
    Schema {
        columns: vec![ColumnDef {
            name: "value".to_string(),
            data_type: DataType::UInt64,
            nullable: false,
        }],
    }
}

fn operator(peers: Vec<Peer>) -> MergeScanExec {
    MergeScanExec::new(
        TableName {
            catalog_name: "greptime".to_string(),
            schema_name: "public".to_string(),
            table_name: "metrics".to_string(),
        },
        peers,
        vec![1, 2, 3],
        schema(),
    )
}

#[test]
fn partition_count_is_one() {
    let exec = operator(vec![Peer { id: 1, addr: "node-1:4001".to_string() }]);
    assert_eq!(exec.output_partition_count(), 1);
    assert!(exec.execute(0).is_ok());
    assert!(matches!(exec.execute(1), Err(MergeError::PlanningInvariantViolation)));
    assert!(matches!(exec.execute(7), Err(MergeError::PlanningInvariantViolation)));
}

#[test]
fn leaf_has_no_children() {
    let exec = operator(Vec::new());
    assert!(exec.children().is_empty());
    let replacement = operator(Vec::new());
    assert!(matches!(
        exec.with_new_children(vec![replacement]),
        Err(MergeError::PlanningInvariantViolation)
    ));
    assert!(matches!(
        exec.with_new_children(Vec::new()),
        Err(MergeError::PlanningInvariantViolation)
    ));
}

#[test]
fn no_output_ordering() {
    let exec = operator(Vec::new());
    assert!(exec.output_ordering().is_none());
}

#[test]
fn schema_is_the_declared_one() {
    let exec = operator(Vec::new());
    let s = exec.schema();
    assert_eq!(s.columns.len(), 1);
    assert_eq!(s.columns[0].name, "value");
    assert_eq!(s.columns[0].data_type, DataType::UInt64);
    assert!(!s.columns[0].nullable);
}

#[test]
fn merged_batches_keep_the_declared_schema() {
    // Every peer returns batches tagged with the declared output schema; the
    // merge re-emits them verbatim, so every emitted batch still carries it,
    // whichever peer produced it.
    let exec = operator(Vec::new());
    let responses = vec![
        merge_scan::PeerResponse::Batches(vec![Batch { schema: schema(), payload: vec![1] }]),
        merge_scan::PeerResponse::Stream {
            batches: vec![Batch { schema: schema(), payload: vec![2] }],
            failure: None,
        },
    ];
    let out = merge_scan::merge_collect(responses);
    assert_eq!(out.batches.len(), 2);
    for batch in &out.batches {
        assert!(merge_scan::schema_eq(&batch.schema, exec.schema()));
    }
}

#[test]
fn describe_names_every_peer() {
    let exec = operator(vec![
        Peer { id: 1, addr: "node-1:4001".to_string() },
        Peer { id: 2, addr: "node-2:4001".to_string() },
    ]);
    assert_eq!(
        exec.describe(),
        "MergeScanExec: peers=[peer-1(node-1:4001), peer-2(node-2:4001), ]"
    );
}

#[test]
fn describe_with_no_peers() {
    let exec = operator(Vec::new());
    assert_eq!(exec.describe(), "MergeScanExec: peers=[]");
}

#[test]
fn decimal_rendering() {
    assert_eq!(merge_scan::u64_to_dec(0), "0");
    assert_eq!(merge_scan::u64_to_dec(7), "7");
    assert_eq!(merge_scan::u64_to_dec(10), "10");
    assert_eq!(merge_scan::u64_to_dec(12345), "12345");
    assert_eq!(merge_scan::u64_to_dec(u64::MAX), "18446744073709551615");
}

#[test]
fn error_rendering() {
    assert_eq!(
        MergeError::PlanningInvariantViolation.describe(),
        "planning invariant violation"
    );
    assert_eq!(
        MergeError::UnexpectedRemoteOutputKind.describe(),
        "unexpected remote output kind: expected RecordBatches or Stream, got AffectedRows"
    );
    assert_eq!(
        MergeError::RemoteExecutionFailure(RemoteError { message: "boom".to_string() })
            .describe(),
        "remote execution failure: boom"
    );
    assert_eq!(
        MergeError::SchemaConversionFailure.describe(),
        "schema conversion failure"
    );
}
