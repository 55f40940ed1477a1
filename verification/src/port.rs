//! Inline C macros of `port.h` that apply to the pgrust target: transaction
//! id comparison with wraparound, type alignment, and the server version.

use vstd::prelude::*;

verus! {

/// A 32-bit transaction id. The raw values of the special ids are the
/// constants below.
/// Ids below [`FirstNormalTransactionId`] are the
/// special ids (invalid, bootstrap, frozen); normal ids compare modulo 2^32.
#[derive(Clone, Copy, Debug, PartialEq, Eq, Structural)]
pub struct TransactionId(pub u32);

pub const InvalidTransactionId: u32 = 0;
pub const BootstrapTransactionId: u32 = 1;
pub const FrozenTransactionId: u32 = 2;
pub const FirstNormalTransactionId: u32 = 3;
pub const MaxTransactionId: u32 = 0xFFFF_FFFF;

/// A normal id is at least the first normal id.
pub open spec fn xid_is_normal(x: u32) -> bool {
    x >= 3
}

/// `(int32) (id1 - id2)`: the distance from `id2` to `id1` on the 2^32
/// circle, read as a signed 32-bit number.
pub open spec fn xid_diff(id1: u32, id2: u32) -> int {
    let d: int = if id1 >= id2 { id1 - id2 } else { id1 - id2 + 0x1_0000_0000 };
    if d >= 0x8000_0000 { d - 0x1_0000_0000 } else { d }
}

pub open spec fn xid_precedes(id1: u32, id2: u32) -> bool {
    if !xid_is_normal(id1) || !xid_is_normal(id2) { id1 < id2 } else { xid_diff(id1, id2) < 0 }
}

pub open spec fn xid_precedes_or_equals(id1: u32, id2: u32) -> bool {
    if !xid_is_normal(id1) || !xid_is_normal(id2) { id1 <= id2 } else { xid_diff(id1, id2) <= 0 }
}

pub open spec fn xid_follows(id1: u32, id2: u32) -> bool {
    if !xid_is_normal(id1) || !xid_is_normal(id2) { id1 > id2 } else { xid_diff(id1, id2) > 0 }
}

pub open spec fn xid_follows_or_equals(id1: u32, id2: u32) -> bool {
    if !xid_is_normal(id1) || !xid_is_normal(id2) { id1 >= id2 } else { xid_diff(id1, id2) >= 0 }
}

/// The wrapped difference `id1 - id2` as the unsigned word the C code casts.
fn xid_wrapped_diff(id1: u32, id2: u32) -> (d: u32)
    ensures
        d as int == (if id1 >= id2 { id1 - id2 } else { id1 - id2 + 0x1_0000_0000 }),
        (d >= 0x8000_0000) == (xid_diff(id1, id2) < 0),
        (d == 0) == (xid_diff(id1, id2) == 0),
{
    id1.wrapping_sub(id2)
}

pub fn TransactionIdIsNormal(xid: TransactionId) -> (r: bool)
    ensures
        r == xid_is_normal(xid.0),
{
    xid.0 >= FirstNormalTransactionId
}

/// Is `id1` logically before `id2`?
pub fn TransactionIdPrecedes(id1: TransactionId, id2: TransactionId) -> (r: bool)
    ensures
        r == xid_precedes(id1.0, id2.0),
{
    if !TransactionIdIsNormal(id1) || !TransactionIdIsNormal(id2) {
        return id1.0 < id2.0;
    }
    let diff = xid_wrapped_diff(id1.0, id2.0);
    diff >= 0x8000_0000
}

pub fn TransactionIdPrecedesOrEquals(id1: TransactionId, id2: TransactionId) -> (r: bool)
    ensures
        r == xid_precedes_or_equals(id1.0, id2.0),
{
    if !TransactionIdIsNormal(id1) || !TransactionIdIsNormal(id2) {
        return id1.0 <= id2.0;
    }
    let diff = xid_wrapped_diff(id1.0, id2.0);
    diff == 0 || diff >= 0x8000_0000
}

pub fn TransactionIdFollows(id1: TransactionId, id2: TransactionId) -> (r: bool)
    ensures
        r == xid_follows(id1.0, id2.0),
{
    if !TransactionIdIsNormal(id1) || !TransactionIdIsNormal(id2) {
        return id1.0 > id2.0;
    }
    let diff = xid_wrapped_diff(id1.0, id2.0);
    diff != 0 && diff < 0x8000_0000
}

pub fn TransactionIdFollowsOrEquals(id1: TransactionId, id2: TransactionId) -> (r: bool)
    ensures
        r == xid_follows_or_equals(id1.0, id2.0),
{
    if !TransactionIdIsNormal(id1) || !TransactionIdIsNormal(id2) {
        return id1.0 >= id2.0;
    }
    let diff = xid_wrapped_diff(id1.0, id2.0);
    diff < 0x8000_0000
}

/// "Precedes or equals" is the negation of "follows", for every pair of ids.
pub proof fn lemma_precedes_or_equals_is_not_follows(id1: u32, id2: u32)
    ensures
        xid_precedes_or_equals(id1, id2) == !xid_follows(id1, id2),
        xid_follows_or_equals(id1, id2) == !xid_precedes(id1, id2),
{
}

/// Precedes and follows are converse relations, except for two normal ids
/// exactly 2^31 apart, where each precedes the other.
pub proof fn lemma_precedes_is_converse_of_follows(id1: u32, id2: u32)
    requires
        !(xid_is_normal(id1) && xid_is_normal(id2) && xid_diff(id1, id2) == -0x8000_0000),
    ensures
        xid_precedes(id1, id2) == xid_follows(id2, id1),
        xid_precedes_or_equals(id1, id2) == xid_follows_or_equals(id2, id1),
{
}

/// No id precedes itself, and every id precedes-or-equals itself.
pub proof fn lemma_xid_reflexivity(id: u32)
    ensures
        !xid_precedes(id, id),
        xid_precedes_or_equals(id, id),
        !xid_follows(id, id),
        xid_follows_or_equals(id, id),
{
}

/// Every special id precedes every normal id.
pub proof fn lemma_special_precedes_normal(special: u32, normal: u32)
    requires
        !xid_is_normal(special),
        xid_is_normal(normal),
    ensures
        xid_precedes(special, normal),
        xid_follows(normal, special),
{
}

/// `alignval` is a power of two.
pub open spec fn is_power_of_two(alignval: usize) -> bool {
    alignval != 0 && alignval & ((alignval - 1) as usize) == 0
}

/// `TYPEALIGN(alignval, len)`: `len` rounded up by the mask of `alignval`.
/// For a power-of-two `alignval` the result has the low bits below
/// `alignval` clear and lies in `[len, len + alignval)`: the next multiple.
pub fn TYPEALIGN(alignval: usize, len: usize) -> (r: usize)
    requires
        alignval >= 1,
        len + alignval - 1 <= usize::MAX,
    ensures
        r == (((len + alignval - 1) as usize) & !((alignval - 1) as usize)),
        is_power_of_two(alignval) ==> r & ((alignval - 1) as usize) == 0 && len <= r && r < len
            + alignval,
{
    let mask: usize = alignval - 1;
    let sum: usize = len + mask;
    let r = sum & !mask;
    proof {
        if is_power_of_two(alignval) {
            assert(r & mask == 0 && r <= sum && sum - r <= mask) by (bit_vector)
                requires
                    alignval != 0usize,
                    alignval & mask == 0usize,
                    mask == alignval - 1usize,
                    r == sum & !mask,
            ;
        }
    }
    r
}

/// Aligning is idempotent: a length whose low bits below a power-of-two
/// `alignval` are clear is left as it is.
pub proof fn lemma_typealign_keeps_aligned(alignval: usize, len: usize)
    requires
        is_power_of_two(alignval),
        len + alignval - 1 <= usize::MAX,
        len & ((alignval - 1) as usize) == 0,
    ensures
        (((len + alignval - 1) as usize) & !((alignval - 1) as usize)) == len,
{
    let mask = (alignval - 1) as usize;
    let sum = (len + mask) as usize;
    assert(sum & !mask == len) by (bit_vector)
        requires
            alignval != 0usize,
            alignval & mask == 0usize,
            mask == alignval - 1usize,
            len & mask == 0usize,
            sum == len + mask,
    ;
}

/// `MAXALIGN(len)`: `len` rounded up to a multiple of 8.
pub fn MAXALIGN(len: usize) -> (r: usize)
    requires
        len + 7 <= usize::MAX,
    ensures
        r % 8 == 0,
        len <= r < len + 8,
{
    proof {
        assert(is_power_of_two(8usize)) by (bit_vector);
    }
    let r = TYPEALIGN(8, len);
    proof {
        assert(r & 7 == 0 ==> r % 8 == 0) by (bit_vector);
    }
    r
}

/// The major version of the server this library targets.
pub fn get_pg_major_version_string() -> (s: &'static str)
    ensures
        s@ == "18"@,
{
    "18"
}

pub fn get_pg_major_version_num() -> (v: u16)
    ensures
        v == 18,
{
    18
}

pub fn get_pg_version_string() -> (s: &'static str)
    ensures
        s@ == "PostgreSQL 18 (pgrust)"@,
{
    "PostgreSQL 18 (pgrust)"
}

pub fn get_pg_major_minor_version_string() -> (s: &'static str)
    ensures
        s@ == "18.6"@,
{
    "18.6"
}

} // verus!
