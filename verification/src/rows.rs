//! The change records that a window query yields.

use vstd::prelude::*;

verus! {

/// One change record from the CDC log: the clustering key, partition key
/// and value column of the base table, each possibly null. A null column
/// is a legitimate tombstone or partial-update marker, never a fault.
#[derive(Clone, Copy, Debug, PartialEq, Eq)]
pub struct CdcRow {
    pub ck: Option<i32>,
    pub pk: Option<i32>,
    pub v: Option<i32>,
}

impl CdcRow {
    /// Assembles a record from its three columns, nulls included: every
    /// column value, present or absent, is kept exactly as given.
    pub fn from_columns(ck: Option<i32>, pk: Option<i32>, v: Option<i32>) -> (r: CdcRow)
        ensures
            r.ck == ck,
            r.pk == pk,
            r.v == v,
    {
        CdcRow { ck, pk, v }
    }
}

} // verus!
