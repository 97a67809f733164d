//! Identities the merge engine addresses: remote storage peers and the
//! fully-qualified table a scan reads.

use vstd::prelude::*;

verus! {

/// A remote storage node that takes part in answering a distributed query.
/// Opaque to the merge beyond identity and address.
#[derive(Debug)]
pub struct Peer {
    pub id: u64,
    pub addr: String,
}

/// Mathematical model of a [`Peer`].
pub struct PeerView {
    pub id: u64,
    pub addr: Seq<char>,
}

impl View for Peer {
    type V = PeerView;

    open spec fn view(&self) -> PeerView {
        PeerView { id: self.id, addr: self.addr@ }
    }
}

impl Clone for Peer {
    fn clone(&self) -> (res: Self)
        ensures
            res@ == self@,
    {
        Peer { id: self.id, addr: self.addr.clone() }
    }
}

/// A fully-qualified table identity: catalog, schema, table. Immutable once
/// constructed.
#[derive(Debug, Hash)]
pub struct TableName {
    pub catalog_name: String,
    pub schema_name: String,
    pub table_name: String,
}

/// Mathematical model of a [`TableName`].
pub struct TableNameView {
    pub catalog_name: Seq<char>,
    pub schema_name: Seq<char>,
    pub table_name: Seq<char>,
}

impl View for TableName {
    type V = TableNameView;

    open spec fn view(&self) -> TableNameView {
        TableNameView {
            catalog_name: self.catalog_name@,
            schema_name: self.schema_name@,
            table_name: self.table_name@,
        }
    }
}

impl Clone for TableName {
    fn clone(&self) -> (res: Self)
        ensures
            res@ == self@,
    {
        TableName {
            catalog_name: self.catalog_name.clone(),
            schema_name: self.schema_name.clone(),
            table_name: self.table_name.clone(),
        }
    }
}

} // verus!
