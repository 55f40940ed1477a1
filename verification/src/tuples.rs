//! C-layout tuple descriptor images.
//!
//! An image is the descriptor header, then one `CompactAttribute` per
//! attribute, then one `FormData_pg_attribute` per attribute.

use vstd::prelude::*;

verus! {

/// Bytes of the descriptor header up to its attribute arrays.
pub const TUPDESC_HEADER_SIZE: usize = 24;

/// Bytes of one `CompactAttribute`.
pub const COMPACT_ATTRIBUTE_SIZE: usize = 16;

/// Bytes of the fixed part of one `FormData_pg_attribute`.
pub const ATTRIBUTE_SIZE: usize = 100;

/// The bytes of a C descriptor image with `natts` attributes.
pub fn c_tupdesc_size(natts: usize) -> (n: usize)
    requires
        24 + natts * 116 <= usize::MAX,
    ensures
        n == 24 + natts * 16 + natts * 100,
{
    TUPDESC_HEADER_SIZE + natts * COMPACT_ATTRIBUTE_SIZE + natts * ATTRIBUTE_SIZE
}

/// Where the `FormData_pg_attribute` of attribute `i` (from 0) starts in an
/// image with `natts` attributes.
pub fn c_attr_offset(natts: usize, i: usize) -> (off: usize)
    requires
        i < natts,
        24 + natts * 116 <= usize::MAX,
    ensures
        off == 24 + natts * 16 + i * 100,
        off + 100 <= 24 + natts * 16 + natts * 100,
{
    proof {
        assert(i * 100 + 100 <= natts * 100) by (nonlinear_arith)
            requires
                i < natts,
        ;
        assert(natts * 16 + natts * 100 == natts * 116) by (nonlinear_arith);
        assert(i * 100 <= natts * 100) by (nonlinear_arith)
            requires
                i < natts,
        ;
    }
    TUPDESC_HEADER_SIZE + natts * COMPACT_ATTRIBUTE_SIZE + i * ATTRIBUTE_SIZE
}

/// Length of a `NameData`.
pub const NAMEDATALEN: usize = 64;

/// A name's bytes as C `char`s.
pub fn name_to_c(name: &[u8]) -> (out: Vec<i8>)
    requires
        name@.len() == 64,
    ensures
        out@.len() == 64,
        forall|i: int| 0 <= i < 64 ==> #[trigger] out@[i] == name@[i] as i8,
{
    let mut out: Vec<i8> = Vec::new();
    let mut i: usize = 0;
    while i < NAMEDATALEN
        invariant
            i <= 64,
            name@.len() == 64,
            out@.len() == i,
            forall|k: int| 0 <= k < i ==> #[trigger] out@[k] == name@[k] as i8,
        decreases 64 - i,
    {
        out.push(name[i] as i8);
        i = i + 1;
    }
    out
}

/// A name's C `char`s as bytes.
pub fn name_from_c(name: &[i8]) -> (out: Vec<u8>)
    requires
        name@.len() == 64,
    ensures
        out@.len() == 64,
        forall|i: int| 0 <= i < 64 ==> #[trigger] out@[i] == name@[i] as u8,
{
    let mut out: Vec<u8> = Vec::new();
    let mut i: usize = 0;
    while i < NAMEDATALEN
        invariant
            i <= 64,
            name@.len() == 64,
            out@.len() == i,
            forall|k: int| 0 <= k < i ==> #[trigger] out@[k] == name@[k] as u8,
        decreases 64 - i,
    {
        out.push(name[i] as u8);
        i = i + 1;
    }
    out
}

/// A name survives the trip to C `char`s and back.
pub proof fn lemma_name_round_trip(b: u8)
    ensures
        ((b as i8) as u8) == b,
{
    assert(((b as i8) as u8) == b) by (bit_vector);
}

} // verus!
