//! The row-shape vocabulary of the merge engine: column types, schemas, and
//! the opaque row batches that peers return.
//!
//! The merge never looks inside a batch's payload; it only moves batches and
//! compares schemas, so a batch is modeled as a schema tag plus opaque bytes.

use vstd::prelude::*;

verus! {

/// The column types the engine understands.
#[derive(Clone, Copy, Debug, PartialEq, Eq, Structural, Hash)]
pub enum DataType {
    Boolean,
    Int64,
    UInt64,
    Utf8,
    Binary,
    TimestampMillisecond,
}

/// One column of a schema: name, type, and nullability.
#[derive(Debug, Hash)]
pub struct ColumnDef {
    pub name: String,
    pub data_type: DataType,
    pub nullable: bool,
}

/// Mathematical model of a [`ColumnDef`].
pub struct ColumnDefView {
    pub name: Seq<char>,
    pub data_type: DataType,
    pub nullable: bool,
}

impl View for ColumnDef {
    type V = ColumnDefView;

    open spec fn view(&self) -> ColumnDefView {
        ColumnDefView { name: self.name@, data_type: self.data_type, nullable: self.nullable }
    }
}

impl Clone for ColumnDef {
    fn clone(&self) -> (res: Self)
        ensures
            res@ == self@,
    {
        ColumnDef {
            name: self.name.clone(),
            data_type: self.data_type,
            nullable: self.nullable,
        }
    }
}

/// The shape every batch of the merged stream must conform to, fixed at
/// operator construction.
#[derive(Debug, Hash)]
pub struct Schema {
    pub columns: Vec<ColumnDef>,
}

impl View for Schema {
    type V = Seq<ColumnDefView>;

    open spec fn view(&self) -> Seq<ColumnDefView> {
        self.columns@.map_values(|c: ColumnDef| c@)
    }
}

impl Clone for Schema {
    fn clone(&self) -> (res: Self)
        ensures
            res@ == self@,
    {
        let mut columns: Vec<ColumnDef> = Vec::new();
        let mut i: usize = 0;
        while i < self.columns.len()
            invariant
                i <= self.columns.len(),
                columns@.len() == i as int,
                forall|j: int| 0 <= j < i ==> columns@[j]@ == self.columns@[j]@,
            decreases self.columns.len() - i,
        {
            columns.push(self.columns[i].clone());
            i = i + 1;
        }
        let res = Schema { columns };
        proof {
            assert(res@ =~= self@);
        }
        res
    }
}

/// One batch of rows as a peer hands it over: the schema it claims, plus an
/// opaque encoded payload. The merge re-emits batches verbatim and never
/// decodes the payload.
#[derive(Debug)]
pub struct Batch {
    pub schema: Schema,
    pub payload: Vec<u8>,
}

/// Mathematical model of a [`Batch`].
pub struct BatchView {
    pub schema: Seq<ColumnDefView>,
    pub payload: Seq<u8>,
}

impl View for Batch {
    type V = BatchView;

    open spec fn view(&self) -> BatchView {
        BatchView { schema: self.schema@, payload: self.payload@ }
    }
}

/// The views of all batches in a sequence.
pub open spec fn batch_views(s: Seq<Batch>) -> Seq<BatchView> {
    s.map_values(|b: Batch| b@)
}

/// Clones a batch collection, preserving its model.
pub fn clone_batches(v: &Vec<Batch>) -> (res: Vec<Batch>)
    ensures
        batch_views(res@) == batch_views(v@),
{
    let mut res: Vec<Batch> = Vec::new();
    let mut i: usize = 0;
    while i < v.len()
        invariant
            i <= v.len(),
            res@.len() == i as int,
            forall|j: int| 0 <= j < i ==> res@[j]@ == v@[j]@,
        decreases v.len() - i,
    {
        res.push(v[i].clone());
        i = i + 1;
    }
    proof {
        assert(batch_views(res@) =~= batch_views(v@));
    }
    res
}

impl Clone for Batch {
    fn clone(&self) -> (res: Self)
        ensures
            res@ == self@,
    {
        let mut payload: Vec<u8> = Vec::new();
        let mut i: usize = 0;
        while i < self.payload.len()
            invariant
                i <= self.payload.len(),
                payload@ == self.payload@.take(i as int),
            decreases self.payload.len() - i,
        {
            payload.push(self.payload[i]);
            proof {
                assert(payload@ =~= self.payload@.take(i + 1 as int));
            }
            i = i + 1;
        }
        proof {
            assert(self.payload@.take(self.payload@.len() as int) =~= self.payload@);
        }
        Batch { schema: self.schema.clone(), payload }
    }
}

} // verus!
