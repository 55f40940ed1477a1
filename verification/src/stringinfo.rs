//! `StringInfo`: a growable, NUL-terminated byte buffer.
//!
//! The buffer holds `maxlen` bytes; its contents are the first `len` of them
//! and the byte after the contents is always NUL. Appending grows the buffer
//! by doubling its capacity until the contents and the NUL fit.

use vstd::prelude::*;

use crate::mem::{c_string_len, c_string_prefix_len};

verus! {

/// The capacity a fresh buffer starts with.
pub const STRING_INFO_INITIAL_CAPACITY: i32 = 1024;

/// The capacity after doubling `cap` until it holds `need` bytes.
pub open spec fn grown_capacity(cap: int, need: int) -> int
    decreases (if cap >= need { 0 } else { need - cap }),
{
    if cap <= 0 || cap >= need { cap } else { grown_capacity(cap * 2, need) }
}

proof fn lemma_grown_capacity(cap: int, need: int)
    requires
        cap >= 1,
    ensures
        grown_capacity(cap, need) >= cap,
        grown_capacity(cap, need) >= need,
        need > cap ==> grown_capacity(cap, need) < 2 * need,
    decreases (if cap >= need { 0 } else { need - cap }),
{
    if cap < need {
        lemma_grown_capacity(cap * 2, need);
    }
}

#[derive(Debug)]
pub struct StringInfoData {
    data: Vec<u8>,
    len: i32,
    maxlen: i32,
    cursor: i32,
}

impl StringInfoData {
    /// The contents: the first `len` bytes of the buffer.
    pub closed spec fn contents(&self) -> Seq<u8> {
        self.data@.subrange(0, self.len as int)
    }

    pub closed spec fn spec_maxlen(&self) -> int {
        self.maxlen as int
    }

    pub closed spec fn spec_cursor(&self) -> int {
        self.cursor as int
    }

    /// The buffer holds `maxlen` bytes, the contents and their terminating
    /// NUL fit in it, and the byte after the contents is NUL.
    pub closed spec fn wf(&self) -> bool {
        &&& self.data@.len() == self.maxlen
        &&& 0 <= self.len < self.maxlen
        &&& self.data@[self.len as int] == 0
        &&& self.cursor >= 0
    }

    /// The buffer can grow to hold `extra` more bytes and the NUL without its
    /// capacity leaving the `int` range.
    pub open spec fn can_append(&self, extra: int) -> bool {
        &&& extra >= 0
        &&& grown_capacity(self.spec_maxlen(), self.contents().len() + extra + 1) <= i32::MAX
    }

    /// The whole buffer: the contents, their NUL, and the spare room.
    pub closed spec fn buffer(&self) -> Seq<u8> {
        self.data@
    }

    /// A buffer over the bytes of an existing one: `data` is its whole
    /// storage (its length is the capacity), holding `len` bytes of contents
    /// followed by a NUL.
    pub fn from_buffer(data: Vec<u8>, len: i32, cursor: i32) -> (s: StringInfoData)
        requires
            data@.len() <= i32::MAX,
            0 <= len < data@.len(),
            data@[len as int] == 0,
            cursor >= 0,
        ensures
            s.wf(),
            s.buffer() == data@,
            s.contents() == data@.subrange(0, len as int),
            s.spec_maxlen() == data@.len(),
            s.spec_cursor() == cursor,
    {
        let maxlen = data.len() as i32;
        StringInfoData { data, len, maxlen, cursor }
    }

    /// The whole buffer, whose first `len` bytes are the contents.
    pub fn buffer_bytes(&self) -> (b: &[u8])
        requires
            self.wf(),
        ensures
            b@ == self.buffer(),
            b@.len() == self.spec_maxlen(),
            b@.subrange(0, self.contents().len() as int) == self.contents(),
            b@[self.contents().len() as int] == 0,
    {
        self.data.as_slice()
    }

    /// The length of the contents.
    pub fn len(&self) -> (n: i32)
        requires
            self.wf(),
        ensures
            n == self.contents().len(),
    {
        self.len
    }

    /// The capacity of the buffer.
    pub fn maxlen(&self) -> (n: i32)
        ensures
            n == self.spec_maxlen(),
    {
        self.maxlen
    }

    /// The read position.
    pub fn cursor(&self) -> (n: i32)
        ensures
            n == self.spec_cursor(),
    {
        self.cursor
    }

    /// A copy of the contents.
    pub fn contents_vec(&self) -> (out: Vec<u8>)
        requires
            self.wf(),
        ensures
            out@ == self.contents(),
    {
        let mut out: Vec<u8> = Vec::new();
        let mut i: usize = 0;
        let n = self.len as usize;
        while i < n
            invariant
                self.wf(),
                n == self.len,
                i <= n,
                out@ == self.data@.subrange(0, i as int),
            decreases n - i,
        {
            out.push(self.data[i]);
            i = i + 1;
            assert(out@ =~= self.data@.subrange(0, i as int));
        }
        out
    }
}

/// A zero-filled buffer of `n` bytes.
fn zeroed(n: usize) -> (v: Vec<u8>)
    ensures
        v@ == Seq::new(n as nat, |i: int| 0u8),
{
    let mut v: Vec<u8> = Vec::new();
    let mut i: usize = 0;
    while i < n
        invariant
            i <= n,
            v@ == Seq::new(i as nat, |j: int| 0u8),
        decreases n - i,
    {
        v.push(0u8);
        i = i + 1;
        assert(v@ =~= Seq::new(i as nat, |j: int| 0u8));
    }
    v
}

/// C's `makeStringInfo`: a fresh, empty buffer.
pub fn makeStringInfo() -> (s: StringInfoData)
    ensures
        s.wf(),
        s.contents() == Seq::<u8>::empty(),
        s.spec_maxlen() == STRING_INFO_INITIAL_CAPACITY,
        s.spec_cursor() == 0,
{
    let mut s = StringInfoData { data: Vec::new(), len: 0, maxlen: 0, cursor: 0 };
    initStringInfo(&mut s);
    s
}

/// C's `initStringInfo`: make `str_` a fresh, empty buffer of the initial
/// capacity, whatever it held.
pub fn initStringInfo(str_: &mut StringInfoData)
    ensures
        final(str_).wf(),
        final(str_).contents() == Seq::<u8>::empty(),
        final(str_).spec_maxlen() == STRING_INFO_INITIAL_CAPACITY,
        final(str_).spec_cursor() == 0,
{
    str_.data = zeroed(STRING_INFO_INITIAL_CAPACITY as usize);
    str_.maxlen = STRING_INFO_INITIAL_CAPACITY;
    str_.len = 0;
    str_.cursor = 0;
    assert(str_.data@.subrange(0, 0) =~= Seq::<u8>::empty());
}

/// C's `resetStringInfo`: empty the contents, keeping the capacity.
pub fn resetStringInfo(str_: &mut StringInfoData)
    requires
        old(str_).wf(),
    ensures
        final(str_).wf(),
        final(str_).contents() == Seq::<u8>::empty(),
        final(str_).spec_maxlen() == old(str_).spec_maxlen(),
        final(str_).spec_cursor() == 0,
{
    str_.len = 0;
    str_.cursor = 0;
    str_.data.set(0, 0u8);
    assert(str_.data@.subrange(0, 0) =~= Seq::<u8>::empty());
}

/// C's `enlargeStringInfo`: make room for `needed` more bytes and the NUL,
/// doubling the capacity as often as that takes. The contents are kept.
pub fn enlargeStringInfo(str_: &mut StringInfoData, needed: i32)
    requires
        old(str_).wf(),
        old(str_).can_append(needed as int),
    ensures
        final(str_).wf(),
        final(str_).contents() == old(str_).contents(),
        final(str_).spec_cursor() == old(str_).spec_cursor(),
        final(str_).spec_maxlen() == grown_capacity(
            old(str_).spec_maxlen(),
            old(str_).contents().len() + needed + 1,
        ),
        final(str_).spec_maxlen() >= old(str_).contents().len() + needed + 1,
{
    let need: usize = str_.len as usize + needed as usize + 1;
    proof {
        lemma_grown_capacity(str_.maxlen as int, need as int);
    }
    if need <= str_.maxlen as usize {
        return;
    }
    let mut cap: usize = str_.maxlen as usize;
    while cap < need
        invariant
            1 <= cap <= grown_capacity(old(str_).maxlen as int, need as int),
            grown_capacity(cap as int, need as int) == grown_capacity(
                old(str_).maxlen as int,
                need as int,
            ),
            grown_capacity(old(str_).maxlen as int, need as int) <= i32::MAX,
        decreases (if cap >= need { 0 } else { need - cap }),
    {
        proof {
            lemma_grown_capacity(cap as int * 2, need as int);
        }
        cap = cap * 2;
    }
    let ghost old_data = str_.data@;
    let mut i: usize = str_.maxlen as usize;
    while i < cap
        invariant
            str_.maxlen == old(str_).maxlen,
            str_.len == old(str_).len,
            str_.cursor == old(str_).cursor,
            old(str_).maxlen <= i <= cap,
            str_.data@.len() == i,
            str_.data@.subrange(0, old(str_).maxlen as int) == old_data,
            old_data == old(str_).data@,
            old(str_).wf(),
        decreases cap - i,
    {
        let ghost prev = str_.data@;
        str_.data.push(0u8);
        i = i + 1;
        assert(str_.data@.subrange(0, old(str_).maxlen as int) =~= prev.subrange(
            0,
            old(str_).maxlen as int,
        ));
    }
    str_.maxlen = cap as i32;
    proof {
        assert(str_.data@[str_.len as int] == old_data[str_.len as int]);
        assert(str_.data@.subrange(0, str_.len as int) =~= old_data.subrange(0, str_.len as int));
    }
}

/// C's `appendBinaryStringInfo`: append `data` to the contents.
pub fn appendBinaryStringInfo(str_: &mut StringInfoData, data: &[u8])
    requires
        old(str_).wf(),
        data@.len() <= i32::MAX,
        old(str_).can_append(data@.len() as int),
    ensures
        final(str_).wf(),
        final(str_).contents() == old(str_).contents() + data@,
        final(str_).spec_cursor() == old(str_).spec_cursor(),
        final(str_).spec_maxlen() == grown_capacity(
            old(str_).spec_maxlen(),
            (old(str_).contents().len() + data@.len() + 1) as int,
        ),
{
    let datalen = data.len() as i32;
    enlargeStringInfo(str_, datalen);
    let ghost before = str_.contents();
    let start = str_.len as usize;
    let mut i: usize = 0;
    while i < data.len()
        invariant
            str_.data@.len() == str_.maxlen,
            0 <= str_.len < str_.maxlen,
            str_.cursor >= 0,
            str_.len as usize == start,
            start + data@.len() + 1 <= str_.data@.len(),
            str_.data@.subrange(0, start as int) == before,
            before == old(str_).contents(),
            str_.data@.subrange(start as int, start + i) == data@.subrange(0, i as int),
            str_.spec_cursor() == old(str_).spec_cursor(),
            str_.spec_maxlen() == grown_capacity(
                old(str_).spec_maxlen(),
                (old(str_).contents().len() + data@.len() + 1) as int,
            ),
            i <= data@.len(),
        decreases data@.len() - i,
    {
        let ghost prev = str_.data@;
        str_.data.set(start + i, data[i]);
        proof {
            assert(str_.data@.subrange(0, start as int) =~= prev.subrange(0, start as int));
            assert(str_.data@.subrange(start as int, start + i + 1) =~= data@.subrange(
                0,
                i + 1,
            ));
        }
        i = i + 1;
    }
    let end = start + data.len();
    let ghost filled = str_.data@;
    str_.len = end as i32;
    str_.data.set(end, 0u8);
    proof {
        assert(str_.data@.subrange(0, end as int) =~= filled.subrange(0, end as int));
        assert(filled.subrange(0, end as int) =~= filled.subrange(0, start as int)
            + filled.subrange(start as int, end as int));
        assert(str_.contents() =~= before + data@);
    }
}

/// C's `appendStringInfoString`: append the C string at the start of `s`
/// (the bytes before its first NUL).
pub fn appendStringInfoString(str_: &mut StringInfoData, s: &[u8])
    requires
        old(str_).wf(),
        exists|i: int| 0 <= i < s@.len() && s@[i] == 0,
        s@.len() <= i32::MAX,
        old(str_).can_append(s@.len() as int),
    ensures
        final(str_).wf(),
        exists|n: int|
            c_string_len(s@, s@.len() as int, n) && final(str_).contents() == old(str_).contents()
                + s@.subrange(0, n),
        final(str_).spec_cursor() == old(str_).spec_cursor(),
{
    let n = c_string_prefix_len(s, s.len());
    proof {
        let len = old(str_).contents().len() as int;
        lemma_grown_capacity_monotone(str_.spec_maxlen(), len + n + 1, len + s@.len() + 1);
    }
    appendBinaryStringInfo(str_, &s[0..n]);
}

/// C's `appendStringInfoChar`: append one byte.
pub fn appendStringInfoChar(str_: &mut StringInfoData, ch: u8)
    requires
        old(str_).wf(),
        old(str_).can_append(1),
    ensures
        final(str_).wf(),
        final(str_).contents() == old(str_).contents().push(ch),
        final(str_).spec_cursor() == old(str_).spec_cursor(),
{
    let buf: [u8; 1] = [ch];
    appendBinaryStringInfo(str_, buf.as_slice());
    assert(buf@ =~= seq![ch]);
}

/// The grown capacity never decreases when more room is needed.
proof fn lemma_grown_capacity_monotone(cap: int, need1: int, need2: int)
    requires
        cap >= 1,
        need1 <= need2,
    ensures
        grown_capacity(cap, need1) <= grown_capacity(cap, need2),
    decreases (if cap >= need2 { 0 } else { need2 - cap }),
{
    if cap < need1 {
        lemma_grown_capacity_monotone(cap * 2, need1, need2);
    } else if cap < need2 {
        lemma_grown_capacity(cap * 2, need2);
    }
}

} // verus!
