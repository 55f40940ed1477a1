//! Relations as the heap-tuple code names them.

use vstd::prelude::*;

verus! {

/// Relations are not exposed to extensions; this stands in for the type so
/// that code naming a tuple descriptor's parent keeps its shape.
pub struct PgRelation {
    _private: (),
}

impl PgRelation {
    /// Relations cannot be opened, so no relation has an OID: the invalid OID.
    pub fn oid(&self) -> (o: u32)
        ensures
            o == 0,
    {
        0
    }
}

} // verus!
