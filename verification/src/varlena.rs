//! Variable-length datum headers and the checks made on datum images
//! (little-endian layout).

use vstd::prelude::*;

verus! {

/// The four bytes of `x`, least significant first.
pub open spec fn le_bytes(x: u32) -> Seq<u8> {
    seq![(x & 0xff) as u8, ((x >> 8) & 0xff) as u8, ((x >> 16) & 0xff) as u8, ((x >> 24) & 0xff) as u8]
}

/// The word whose little-endian bytes are `b0..b3`.
pub open spec fn le_word(b0: u8, b1: u8, b2: u8, b3: u8) -> u32 {
    (b0 as u32) | ((b1 as u32) << 8) | ((b2 as u32) << 16) | ((b3 as u32) << 24)
}

/// The header word of a 4-byte-header varlena of `total` bytes.
pub open spec fn varsize_4b_header(total: u32) -> u32 {
    (total << 2) as u32
}

/// C's `cstring_to_text_with_len`: a `text` image holding the first `len`
/// bytes of `s`, after a 4-byte header giving the total size.
pub fn cstring_to_text_with_len(s: &[u8], len: i32) -> (t: Vec<u8>)
    requires
        0 <= len,
        len <= s@.len(),
    ensures
        t@ == le_bytes(varsize_4b_header((4 + len) as u32)) + s@.subrange(0, len as int),
{
    let total: u32 = 4 + len as u32;
    let header: u32 = total << 2;
    let mut t: Vec<u8> = Vec::new();
    t.push((header & 0xff) as u8);
    t.push(((header >> 8) & 0xff) as u8);
    t.push(((header >> 16) & 0xff) as u8);
    t.push(((header >> 24) & 0xff) as u8);
    let ghost head = t@;
    assert(head =~= le_bytes(varsize_4b_header((4 + len) as u32)));
    let n = len as usize;
    let mut i: usize = 0;
    while i < n
        invariant
            n <= s@.len(),
            i <= n,
            t@ == head + s@.subrange(0, i as int),
        decreases n - i,
    {
        t.push(s[i]);
        i = i + 1;
        assert(t@ =~= head + s@.subrange(0, i as int));
    }
    t
}

/// C's `VARSIZE_4B`: the total size a 4-byte varlena header records.
pub fn varsize_4b(image: &[u8]) -> (n: u32)
    requires
        image@.len() >= 4,
    ensures
        n == le_word(image@[0], image@[1], image@[2], image@[3]) >> 2,
{
    let w: u32 = (image[0] as u32) | ((image[1] as u32) << 8) | ((image[2] as u32) << 16) | ((
    image[3] as u32) << 24);
    w >> 2
}

/// The header of a `text` image made by [`cstring_to_text_with_len`] reads
/// back as the image's length, for every length a varlena can have.
pub proof fn lemma_text_header_round_trip(total: u32)
    requires
        total < 0x4000_0000,
    ensures
        ({
            let b = le_bytes(varsize_4b_header(total));
            le_word(b[0], b[1], b[2], b[3]) >> 2 == total
        }),
{
    let h = varsize_4b_header(total);
    assert(h == total << 2);
    assert((((h & 0xff) as u8) as u32 | ((((h >> 8) & 0xff) as u8) as u32) << 8 | ((((h >> 16)
        & 0xff) as u8) as u32) << 16 | ((((h >> 24) & 0xff) as u8) as u32) << 24) >> 2 == total)
        by (bit_vector)
        requires
            total < 0x4000_0000u32,
            h == total << 2,
    ;
}

/// `HeapTupleHeaderGetDatumLength`: the length a composite datum's
/// `datum_len_` field records.
pub fn heap_tuple_header_get_datum_length(datum_len_: i32) -> (n: u32)
    ensures
        n == (datum_len_ as u32) >> 2,
{
    (datum_len_ as u32) >> 2
}

/// A varlena header byte is the start of an uncompressed 4-byte header.
pub open spec fn varatt_is_4b_u(b0: u8) -> bool {
    b0 & 0x03 == 0x00
}

/// A varlena header byte is the start of a compressed 4-byte header.
pub open spec fn varatt_is_4b_c(b0: u8) -> bool {
    b0 & 0x03 == 0x02
}

/// A varlena header byte is that of an external (TOAST pointer) datum.
pub open spec fn varatt_is_1b_e(b0: u8) -> bool {
    b0 == 0x01
}

/// What detoasting does with a datum.
#[derive(Clone, Copy, Debug, PartialEq, Eq, Structural)]
pub enum DetoastAction {
    /// The datum is returned as it is.
    AsIs,
    /// A copy of the datum's image is returned.
    Copy,
    /// The datum is fetched and decompressed into a fresh image.
    Expand,
}

/// `pg_detoast_datum` on a datum whose header starts with `b0`: an
/// uncompressed 4-byte-header image is returned as it is; anything else is
/// expanded.
pub fn detoast_action(b0: u8) -> (a: DetoastAction)
    ensures
        a == if varatt_is_4b_u(b0) { DetoastAction::AsIs } else { DetoastAction::Expand },
{
    if b0 & 0x03 == 0x00 {
        DetoastAction::AsIs
    } else {
        DetoastAction::Expand
    }
}

/// `pg_detoast_datum_copy`: an uncompressed 4-byte-header image is copied;
/// anything else is expanded.
pub fn detoast_copy_action(b0: u8) -> (a: DetoastAction)
    ensures
        a == if varatt_is_4b_u(b0) { DetoastAction::Copy } else { DetoastAction::Expand },
{
    if b0 & 0x03 == 0x00 {
        DetoastAction::Copy
    } else {
        DetoastAction::Expand
    }
}

/// `pg_detoast_datum_packed`: only external and compressed images are
/// expanded; short-header and plain images are returned as they are.
pub fn detoast_packed_action(b0: u8) -> (a: DetoastAction)
    ensures
        a == if varatt_is_1b_e(b0) || varatt_is_4b_c(b0) {
            DetoastAction::Expand
        } else {
            DetoastAction::AsIs
        },
{
    if b0 == 0x01 || (b0 & 0x03) == 0x02 {
        DetoastAction::Expand
    } else {
        DetoastAction::AsIs
    }
}

/// The header word of a numeric NaN (`NUMERIC_NAN`).
pub const NUMERIC_NAN: u16 = 0xC000;

/// C's `numeric_is_nan` on a numeric's (4-byte-header, uncompressed) image:
/// whether the word after the varlena header is the NaN header. Infinities
/// and finite values are not NaN.
pub fn numeric_is_nan(image: &[u8]) -> (r: bool)
    ensures
        r == (image@.len() >= 6 && ((image@[4] as u16) | ((image@[5] as u16) << 8)) as u16
            == NUMERIC_NAN),
{
    if image.len() < 6 {
        return false;
    }
    let hdr: u16 = (image[4] as u16) | ((image[5] as u16) << 8);
    hdr == NUMERIC_NAN
}

/// The product of the dimensions of the first `k` dimensions, each
/// negative dimension counting as 0.
pub open spec fn dims_product(dims: Seq<i32>, k: int) -> int
    decreases k,
{
    if k <= 0 {
        1
    } else {
        dims_product(dims, k - 1) * (if dims[k - 1] < 0 { 0 } else { dims[k - 1] as int })
    }
}

/// The number of elements of an array with dimensions `dims` (none for an
/// array of no dimensions), as `construct_md_array` counts them.
pub fn array_nitems(dims: &[i32]) -> (n: usize)
    requires
        forall|k: int| 0 <= k <= dims@.len() ==> dims_product(dims@, k) <= usize::MAX,
    ensures
        n == if dims@.len() == 0 { 0 } else { dims_product(dims@, dims@.len() as int) },
{
    if dims.len() == 0 {
        return 0;
    }
    let mut n: usize = 1;
    let mut i: usize = 0;
    while i < dims.len()
        invariant
            i <= dims@.len(),
            n == dims_product(dims@, i as int),
            forall|k: int| 0 <= k <= dims@.len() ==> dims_product(dims@, k) <= usize::MAX,
        decreases dims@.len() - i,
    {
        let d: usize = if dims[i] < 0 { 0 } else { dims[i] as usize };
        assert(dims_product(dims@, i + 1) <= usize::MAX);
        n = n * d;
        i = i + 1;
    }
    n
}

} // verus!
