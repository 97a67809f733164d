use std::collections::hash_map::DefaultHasher;
use std::hash::{Hash, Hasher};

use merge_scan::{
    ColumnDef, DataType, Expr, LogicalNode, MergeScanLogicalPlan, Schema, TableName,
};

fn table() -> TableName {
    TableName {
        catalog_name: "greptime".to_string(),
        schema_name: "public".to_string(),
        table_name: "metrics".to_string(),
    }
}

fn scan_schema() -> Schema {
    Schema {
        columns: vec![
            ColumnDef {
                name: "ts".to_string(),
                data_type: DataType::TimestampMillisecond,
                nullable: false,
            },
            ColumnDef { name: "host".to_string(), data_type: DataType::Utf8, nullable: true },
        ],
    }
}

fn scan() -> LogicalNode {
    LogicalNode::TableScan { table: table(), schema: scan_schema() }
}

fn filtered_scan() -> LogicalNode {
    LogicalNode::Filter {
        input: Box::new(scan()),
        predicate: Expr::Column("host".to_string()),
    }
}

#[test]
fn wrap_and_unwrap() {
    let plan = MergeScanLogicalPlan::new(scan(), true);
    assert!(plan.is_placeholder());
    assert!(plan.input() == &scan());

    let resolved = MergeScanLogicalPlan::new(scan(), false);
    assert!(!resolved.is_placeholder());
}

#[test]
fn name_is_fixed() {
    assert_eq!(MergeScanLogicalPlan::name(), "MergeScan");
}

#[test]
fn lifts_into_a_plan_node() {
    let plan = MergeScanLogicalPlan::new(scan(), false);
    let node = plan.into_logical_plan();
    match node {
        LogicalNode::MergeScan(inner) => assert!(!inner.is_placeholder()),
        other => panic!("expected a merge boundary, got {other:?}"),
    }
}

#[test]
fn exposes_exactly_one_input() {
    let plan = MergeScanLogicalPlan::new(scan(), true);
    let inputs = plan.inputs();
    assert_eq!(inputs.len(), 1);
    assert!(inputs[0] == &scan());
}

#[test]
fn forwards_child_schema() {
    let plan = MergeScanLogicalPlan::new(filtered_scan(), false);
    assert!(merge_scan::schema_eq(plan.schema(), &scan_schema()));
}

#[test]
fn forwards_child_expressions() {
    let plan = MergeScanLogicalPlan::new(filtered_scan(), false);
    let exprs = plan.expressions();
    assert_eq!(exprs.len(), 1);
    assert!(merge_scan::expr_eq(&exprs[0], &Expr::Column("host".to_string())));

    let bare = MergeScanLogicalPlan::new(scan(), false);
    assert!(bare.expressions().is_empty());
}

#[test]
fn from_template_keeps_the_flag() {
    let plan = MergeScanLogicalPlan::new(scan(), true);
    let rebuilt = plan.from_template(&Vec::new(), vec![filtered_scan()]);
    assert!(rebuilt.is_placeholder());
    assert!(rebuilt.input() == &filtered_scan());

    let resolved = MergeScanLogicalPlan::new(scan(), false);
    let rebuilt = resolved.from_template(&Vec::new(), vec![scan()]);
    assert!(!rebuilt.is_placeholder());
}

#[test]
fn structural_equality() {
    let a = MergeScanLogicalPlan::new(scan(), true);
    let b = MergeScanLogicalPlan::new(scan(), true);
    let c = MergeScanLogicalPlan::new(scan(), false);
    let d = MergeScanLogicalPlan::new(filtered_scan(), true);
    assert!(a == b);
    assert!(a != c);
    assert!(a != d);

    assert!(scan() == scan());
    assert!(scan() != filtered_scan());
}

#[test]
fn equal_plans_hash_alike() {
    let a = MergeScanLogicalPlan::new(filtered_scan(), true);
    let b = MergeScanLogicalPlan::new(filtered_scan(), true);
    let mut ha = DefaultHasher::new();
    let mut hb = DefaultHasher::new();
    a.hash(&mut ha);
    b.hash(&mut hb);
    assert_eq!(ha.finish(), hb.finish());
}

#[test]
fn describe_shows_the_placeholder_flag() {
    let plan = MergeScanLogicalPlan::new(scan(), true);
    assert_eq!(plan.describe(), "MergeScan [is_placeholder=true]");
    let plan = MergeScanLogicalPlan::new(scan(), false);
    assert_eq!(plan.describe(), "MergeScan [is_placeholder=false]");
}
