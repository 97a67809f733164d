//! The logical-plan side of the merge boundary: a closed set of plan-node
//! kinds, with the merge boundary one variant among them.
//!
//! The boundary node wraps exactly one child subtree and forwards the
//! child's schema and expressions unchanged: it marks where execution is
//! delegated to remote peers without altering the row shape. Its placeholder
//! flag distinguishes a provisional boundary, inserted before peers and
//! sub-plan are resolved, from one ready for physical lowering.

use vstd::prelude::*;
use vstd::string::StringExecFns;

use crate::peer::TableName;
use crate::schema::{ColumnDefView, Schema};

verus! {

/// A column-reference expression, as plan nodes expose them.
#[derive(Debug, Hash)]
pub enum Expr {
    Column(String),
}

impl View for Expr {
    type V = Seq<char>;

    open spec fn view(&self) -> Seq<char> {
        match self {
            Expr::Column(name) => name@,
        }
    }
}

impl Clone for Expr {
    fn clone(&self) -> (res: Self)
        ensures
            res@ == self@,
    {
        match self {
            Expr::Column(name) => Expr::Column(name.clone()),
        }
    }
}

/// The views of all expressions in a list.
pub open spec fn expr_views(es: Seq<Expr>) -> Seq<Seq<char>> {
    es.map_values(|e: Expr| e@)
}

/// One node of the logical plan.
#[derive(Debug, Hash)]
pub enum LogicalNode {
    /// A scan of one table, the leaf the planner builds sub-plans from.
    TableScan { table: TableName, schema: Schema },
    /// A filter over its input, keeping the input's row shape.
    Filter { input: Box<LogicalNode>, predicate: Expr },
    /// The merge boundary: everything below it executes remotely.
    MergeScan(MergeScanLogicalPlan),
}

/// The merge-boundary logical node: one child subtree and the placeholder
/// flag.
#[derive(Debug, Hash)]
pub struct MergeScanLogicalPlan {
    /// The wrapped subtree: in the logical phase the boundary has exactly
    /// one input.
    pub input: Box<LogicalNode>,
    /// Whether this boundary is provisional: peers and sub-plan not yet
    /// resolved.
    pub is_placeholder: bool,
}

/// Mathematical model of a [`LogicalNode`].
pub enum LogicalNodeView {
    TableScan { table: crate::peer::TableNameView, schema: Seq<ColumnDefView> },
    Filter { input: Box<LogicalNodeView>, predicate: Seq<char> },
    MergeScan { input: Box<LogicalNodeView>, is_placeholder: bool },
}

/// Mathematical model of a [`MergeScanLogicalPlan`].
pub struct MergeScanLogicalPlanView {
    pub input: LogicalNodeView,
    pub is_placeholder: bool,
}

/// The model of a plan node.
pub open spec fn node_view(n: LogicalNode) -> LogicalNodeView
    decreases n,
{
    match n {
        LogicalNode::TableScan { table, schema } => LogicalNodeView::TableScan {
            table: table@,
            schema: schema@,
        },
        LogicalNode::Filter { input, predicate } => LogicalNodeView::Filter {
            input: Box::new(node_view(*input)),
            predicate: predicate@,
        },
        LogicalNode::MergeScan(m) => LogicalNodeView::MergeScan {
            input: Box::new(node_view(*m.input)),
            is_placeholder: m.is_placeholder,
        },
    }
}

impl View for LogicalNode {
    type V = LogicalNodeView;

    open spec fn view(&self) -> LogicalNodeView {
        node_view(*self)
    }
}

impl View for MergeScanLogicalPlan {
    type V = MergeScanLogicalPlanView;

    open spec fn view(&self) -> MergeScanLogicalPlanView {
        MergeScanLogicalPlanView {
            input: node_view(*self.input),
            is_placeholder: self.is_placeholder,
        }
    }
}

/// The schema a plan node exposes: a scan's own, and otherwise the child's,
/// forwarded unchanged.
pub open spec fn node_schema(v: LogicalNodeView) -> Seq<ColumnDefView>
    decreases v,
{
    match v {
        LogicalNodeView::TableScan { schema, .. } => schema,
        LogicalNodeView::Filter { input, .. } => node_schema(*input),
        LogicalNodeView::MergeScan { input, .. } => node_schema(*input),
    }
}

/// The expressions a plan node exposes: a filter's predicate; the merge
/// boundary carries none of its own and forwards the child's.
pub open spec fn node_exprs(v: LogicalNodeView) -> Seq<Seq<char>>
    decreases v,
{
    match v {
        LogicalNodeView::TableScan { .. } => Seq::empty(),
        LogicalNodeView::Filter { predicate, .. } => seq![predicate],
        LogicalNodeView::MergeScan { input, .. } => node_exprs(*input),
    }
}

impl LogicalNode {
    /// The schema of the rows this node produces.
    pub fn schema(&self) -> (s: &Schema)
        ensures
            s@ == node_schema(self@),
        decreases *self,
    {
        match self {
            LogicalNode::TableScan { schema, .. } => schema,
            LogicalNode::Filter { input, .. } => input.schema(),
            LogicalNode::MergeScan(m) => m.input.schema(),
        }
    }

    /// The expressions this node exposes.
    pub fn expressions(&self) -> (r: Vec<Expr>)
        ensures
            expr_views(r@) == node_exprs(self@),
        decreases *self,
    {
        match self {
            LogicalNode::TableScan { .. } => {
                let r: Vec<Expr> = Vec::new();
                proof {
                    assert(expr_views(r@) =~= node_exprs(self@));
                }
                r
            },
            LogicalNode::Filter { predicate, .. } => {
                let mut r: Vec<Expr> = Vec::new();
                r.push(predicate.clone());
                proof {
                    assert(expr_views(r@) =~= node_exprs(self@));
                }
                r
            },
            LogicalNode::MergeScan(m) => {
                let r = m.input.expressions();
                proof {
                    assert(expr_views(r@) =~= node_exprs(self@));
                }
                r
            },
        }
    }
}

/// Structural equality of plan nodes: two nodes are equal exactly when their
/// models are.
pub fn node_eq(a: &LogicalNode, b: &LogicalNode) -> (r: bool)
    ensures
        r == (a@ == b@),
    decreases *a,
{
    match (a, b) {
        (
            LogicalNode::TableScan { table: ta, schema: sa },
            LogicalNode::TableScan { table: tb, schema: sb },
        ) => {
            let r = table_name_eq(ta, tb) && schema_eq(sa, sb);
            proof {
                if r {
                    assert(a@ == b@);
                } else {
                    assert(a@ != b@);
                }
            }
            r
        },
        (
            LogicalNode::Filter { input: ia, predicate: pa },
            LogicalNode::Filter { input: ib, predicate: pb },
        ) => {
            let r = node_eq(ia, ib) && expr_eq(pa, pb);
            proof {
                if r {
                    assert(a@ == b@);
                } else {
                    assert(a@ != b@);
                }
            }
            r
        },
        (LogicalNode::MergeScan(ma), LogicalNode::MergeScan(mb)) => {
            let r = node_eq(&ma.input, &mb.input) && ma.is_placeholder == mb.is_placeholder;
            proof {
                if r {
                    assert(a@ == b@);
                } else {
                    assert(a@ != b@);
                }
            }
            r
        },
        _ => {
            proof {
                assert(a@ != b@);
            }
            false
        },
    }
}

/// Structural equality of table names.
pub fn table_name_eq(a: &TableName, b: &TableName) -> (r: bool)
    ensures
        r == (a@ == b@),
{
    let r = a.catalog_name == b.catalog_name && a.schema_name == b.schema_name && a.table_name
        == b.table_name;
    proof {
        if r {
            assert(a@ == b@);
        } else {
            assert(a@ != b@);
        }
    }
    r
}

/// Structural equality of schemas.
pub fn schema_eq(a: &Schema, b: &Schema) -> (r: bool)
    ensures
        r == (a@ == b@),
{
    if a.columns.len() != b.columns.len() {
        proof {
            assert(a@.len() != b@.len());
        }
        return false;
    }
    let n = a.columns.len();
    let mut i: usize = 0;
    while i < n
        invariant
            n == a.columns@.len(),
            n == b.columns@.len(),
            i <= n,
            forall|j: int| 0 <= j < i ==> a@[j] == b@[j],
        decreases n - i,
    {
        let ca = &a.columns[i];
        let cb = &b.columns[i];
        let same = ca.name == cb.name && ca.data_type == cb.data_type && ca.nullable
            == cb.nullable;
        if !same {
            proof {
                assert(a@[i as int] != b@[i as int]);
            }
            return false;
        }
        proof {
            assert(a@[i as int] == b@[i as int]);
        }
        i = i + 1;
    }
    proof {
        assert(a@ =~= b@);
    }
    true
}

/// Structural equality of expressions.
pub fn expr_eq(a: &Expr, b: &Expr) -> (r: bool)
    ensures
        r == (a@ == b@),
{
    match (a, b) {
        (Expr::Column(na), Expr::Column(nb)) => *na == *nb,
    }
}

impl PartialEq for LogicalNode {
    fn eq(&self, other: &Self) -> bool {
        node_eq(self, other)
    }
}

impl vstd::std_specs::cmp::PartialEqSpecImpl for LogicalNode {
    open spec fn obeys_eq_spec() -> bool {
        true
    }

    open spec fn eq_spec(&self, other: &Self) -> bool {
        self@ == other@
    }
}

impl PartialEq for MergeScanLogicalPlan {
    fn eq(&self, other: &Self) -> bool {
        node_eq(&self.input, &other.input) && self.is_placeholder == other.is_placeholder
    }
}

impl vstd::std_specs::cmp::PartialEqSpecImpl for MergeScanLogicalPlan {
    open spec fn obeys_eq_spec() -> bool {
        true
    }

    open spec fn eq_spec(&self, other: &Self) -> bool {
        self@ == other@
    }
}

/// The diagnostic rendering of the boundary node: at least the placeholder
/// flag.
pub open spec fn merge_boundary_text(is_placeholder: bool) -> Seq<char> {
    "MergeScan [is_placeholder="@ + (if is_placeholder {
        "true"@
    } else {
        "false"@
    }) + "]"@
}

impl MergeScanLogicalPlan {
    /// Wraps a child subtree in a merge boundary.
    pub fn new(input: LogicalNode, is_placeholder: bool) -> (p: MergeScanLogicalPlan)
        ensures
            *p.input == input,
            p.is_placeholder == is_placeholder,
    {
        MergeScanLogicalPlan { input: Box::new(input), is_placeholder }
    }

    /// The fixed name this node kind reports to the planner.
    pub fn name() -> (s: &'static str)
        ensures
            s@ == "MergeScan"@,
    {
        "MergeScan"
    }

    /// Lifts the boundary into a plan node, so the surrounding planner can
    /// treat it uniformly.
    pub fn into_logical_plan(self) -> (n: LogicalNode)
        ensures
            n == LogicalNode::MergeScan(self),
    {
        LogicalNode::MergeScan(self)
    }

    /// Whether this boundary is still provisional.
    pub fn is_placeholder(&self) -> (r: bool)
        ensures
            r == self.is_placeholder,
    {
        self.is_placeholder
    }

    /// The wrapped subtree.
    pub fn input(&self) -> (r: &LogicalNode)
        ensures
            *r == *self.input,
    {
        &self.input
    }

    /// The node's inputs, as the planner enumerates them: exactly the one
    /// wrapped subtree.
    pub fn inputs(&self) -> (r: Vec<&LogicalNode>)
        ensures
            r@.len() == 1,
            *r@[0] == *self.input,
    {
        let mut r: Vec<&LogicalNode> = Vec::new();
        r.push(&self.input);
        r
    }

    /// The child's schema, forwarded unchanged: the boundary never alters
    /// the row shape.
    pub fn schema(&self) -> (s: &Schema)
        ensures
            s@ == node_schema(self@.input),
    {
        self.input.schema()
    }

    /// The child's expressions, forwarded unchanged: the boundary carries no
    /// filter or projection expressions of its own.
    pub fn expressions(&self) -> (r: Vec<Expr>)
        ensures
            expr_views(r@) == node_exprs(self@.input),
    {
        self.input.expressions()
    }

    /// Rebuilds the node from a new child subtree, keeping the placeholder
    /// flag. The expressions are ignored: the boundary owns none.
    pub fn from_template(&self, _exprs: &Vec<Expr>, inputs: Vec<LogicalNode>) -> (p:
        MergeScanLogicalPlan)
        requires
            inputs@.len() >= 1,
        ensures
            *p.input == inputs@[0],
            p.is_placeholder == self.is_placeholder,
    {
        let mut inputs = inputs;
        let first = inputs.remove(0);
        MergeScanLogicalPlan { input: Box::new(first), is_placeholder: self.is_placeholder }
    }

    /// Renders the boundary for `EXPLAIN`-style diagnostics, showing the
    /// placeholder flag.
    pub fn describe(&self) -> (s: String)
        ensures
            s@ == merge_boundary_text(self.is_placeholder),
    {
        let mut s = String::new();
        s.append("MergeScan [is_placeholder=");
        if self.is_placeholder {
            s.append("true");
        } else {
            s.append("false");
        }
        s.append("]");
        proof {
            assert(s@ =~= merge_boundary_text(self.is_placeholder));
        }
        s
    }
}

} // verus!
