//! Memory-context bookkeeping behind `palloc` and the context globals.
//!
//! Contexts and chunks are named by their addresses. A thread's state is a
//! [`MemoryContexts`]: the armed current context (0 when none is armed), the
//! top context, the child contexts this library created (each with the
//! parent it was created under), and the live chunks with their headers.
//! Every chunk is prefixed by a header of [`CHUNK_HEADER_SIZE`] bytes so that
//! `pfree`, `repalloc` and `GetMemoryChunkContext` can find its context.

use std::collections::HashMap;

use vstd::prelude::*;

use crate::port::is_power_of_two;

verus! {

broadcast use vstd::std_specs::hash::group_hash_axioms;

/// Alignment of every chunk's base and of the header before the user pointer.
pub const CHUNK_ALIGN: usize = 16;

/// Size of the chunk header, padded so the user pointer keeps 16-byte alignment.
pub const CHUNK_HEADER_SIZE: usize = 48;

/// Flags of `MemoryContextAllocExtended`.
pub const MCXT_ALLOC_HUGE: i32 = 0x01;
pub const MCXT_ALLOC_NO_OOM: i32 = 0x02;
pub const MCXT_ALLOC_ZERO: i32 = 0x04;

/// What a memory-context handle points at. Contexts are named by their
/// addresses here and nothing reads through a handle, so the type has no
/// contents.
pub struct MemoryContextData {
    _opaque: [u8; 0],
}

/// What the header before a user pointer records.
#[derive(Clone, Copy, Debug, PartialEq, Eq, Structural)]
pub struct ChunkHeader {
    /// The context the chunk was allocated in.
    pub ctx: usize,
    /// The start of the underlying allocation.
    pub base: usize,
    /// The size the caller asked for.
    pub size: usize,
    /// The size of the underlying allocation.
    pub total: usize,
}

/// Errors of the allocation entry points.
#[derive(Clone, Copy, Debug, PartialEq, Eq, Structural)]
pub enum MemoryError {
    /// The allocator could not provide `size` bytes.
    OutOfMemory { size: usize },
    /// `repalloc` of memory not allocated by `palloc`.
    NotAChunk,
}

/// The alignment a chunk is placed at: at least [`CHUNK_ALIGN`].
pub open spec fn effective_align(align: usize) -> int {
    if align < 16 { 16 } else { align as int }
}

/// The size of the allocation behind a chunk of `size` bytes at `align`.
pub open spec fn chunk_total(size: usize, align: usize) -> int {
    size + 48 + (effective_align(align) - 16)
}

/// The size of the allocation to request for a chunk of `size` bytes.
pub fn chunk_request_size(size: usize, align: usize) -> (total: usize)
    requires
        size + 48 + effective_align(align) <= usize::MAX,
    ensures
        total == chunk_total(size, align),
{
    let align = if align < CHUNK_ALIGN { CHUNK_ALIGN } else { align };
    size + CHUNK_HEADER_SIZE + (align - CHUNK_ALIGN)
}

/// The user pointer of a chunk whose allocation starts at `base`: the first
/// address at or after `base + CHUNK_HEADER_SIZE` aligned to the effective
/// alignment (any alignment below 16 is raised to 16; from 16 up it must be
/// a power of two). It leaves room for the header and for the chunk's bytes
/// within the allocation.
pub fn chunk_user_pointer(base: usize, align: usize) -> (user: usize)
    requires
        align < 16 || is_power_of_two(align),
        base % 16 == 0,
        base + 48 + effective_align(align) <= usize::MAX,
    ensures
        user % 16 == 0,
        user & ((effective_align(align) - 1) as usize) == 0,
        base + 48 <= user,
        user - (base + 48) <= effective_align(align) - 16,
{
    let a = if align < CHUNK_ALIGN { CHUNK_ALIGN } else { align };
    let start = base + CHUNK_HEADER_SIZE;
    let mask = a - 1;
    let sum = start + mask;
    let user = sum & !mask;
    proof {
        assert(is_power_of_two(16usize)) by (bit_vector);
        assert(start & 15 == 0) by (bit_vector)
            requires
                base % 16 == 0,
                start == base + 48usize,
        ;
        assert(user & mask == 0 && user & 15 == 0 && start <= user && user - start <= a - 16)
            by (bit_vector)
            requires
                a & mask == 0usize,
                mask == a - 1usize,
                a >= 16usize,
                start & 15usize == 0usize,
                sum == start + mask,
                user == sum & !mask,
        ;
        assert(user & 15 == 0 ==> user % 16 == 0) by (bit_vector);
    }
    user
}

/// The `(zero, no_oom)` requests in the flags of `MemoryContextAllocExtended`.
pub fn alloc_flags(flags: i32) -> (r: (bool, bool))
    ensures
        r.0 == (flags & MCXT_ALLOC_ZERO != 0),
        r.1 == (flags & MCXT_ALLOC_NO_OOM != 0),
{
    (flags & MCXT_ALLOC_ZERO != 0, flags & MCXT_ALLOC_NO_OOM != 0)
}

/// The abstract state of a thread's contexts.
pub struct ContextsView {
    /// The armed current context, 0 when none is armed.
    pub current: usize,
    /// The thread's top context.
    pub top: usize,
    /// The contexts this library created, each with its parent.
    pub parents: Map<usize, usize>,
    /// The live chunks, by user pointer.
    pub chunks: Map<usize, ChunkHeader>,
}

impl ContextsView {
    /// C's `CurrentMemoryContext`: the armed context, or the top one.
    pub open spec fn current_context(self) -> usize {
        if self.current == 0 { self.top } else { self.current }
    }

    pub open spec fn with_current(self, ctx: usize) -> ContextsView {
        ContextsView { current: ctx, ..self }
    }

    /// The parent a new context is created under: `parent`, or the top
    /// context for a null parent.
    pub open spec fn new_context_parent(self, parent: usize) -> usize {
        if parent == 0 { self.top } else { parent }
    }

    pub open spec fn owns(self, ctx: usize) -> bool {
        self.parents.contains_key(ctx)
    }

    /// The state after `MemoryContextDelete(ctx)` of an owned context.
    pub open spec fn deleted(self, ctx: usize) -> ContextsView {
        ContextsView {
            current: if self.current_context() == ctx { self.top } else { self.current },
            parents: self.parents.remove(ctx),
            ..self
        }
    }

    pub open spec fn parent_of(self, ctx: usize) -> usize {
        if self.parents.contains_key(ctx) { self.parents[ctx] } else { 0 }
    }

    /// The context a chunk belongs to, as `GetMemoryChunkContext` reads it.
    pub open spec fn chunk_context(self, ptr: usize) -> usize {
        if self.chunks.contains_key(ptr) { self.chunks[ptr].ctx } else { self.current_context() }
    }
}

/// A thread's memory-context state (see the module documentation).
pub struct MemoryContexts {
    current: usize,
    top: usize,
    owned: HashMap<usize, usize>,
    chunks: HashMap<usize, ChunkHeader>,
}

impl View for MemoryContexts {
    type V = ContextsView;

    closed spec fn view(&self) -> ContextsView {
        ContextsView {
            current: self.current,
            top: self.top,
            parents: self.owned@,
            chunks: self.chunks@,
        }
    }
}

impl MemoryContexts {
    /// The top context is never null, never one of the created contexts, and
    /// no created context is null.
    pub open spec fn wf(&self) -> bool {
        &&& self@.top != 0
        &&& !self@.parents.contains_key(0)
        &&& !self@.parents.contains_key(self@.top)
    }

    /// A thread's state with `top` as its top context and nothing armed.
    pub fn new(top: usize) -> (m: MemoryContexts)
        requires
            top != 0,
        ensures
            m.wf(),
            m@.current == 0,
            m@.top == top,
            m@.parents == Map::<usize, usize>::empty(),
            m@.chunks == Map::<usize, ChunkHeader>::empty(),
    {
        MemoryContexts { current: 0, top, owned: HashMap::new(), chunks: HashMap::new() }
    }
}

/// The per-thread top context.
pub fn top_memory_context(m: &MemoryContexts) -> (ctx: usize)
    ensures
        ctx == m@.top,
{
    m.top
}

/// C's `CurrentMemoryContext` read: the armed context, or the top context
/// when none is armed.
pub fn current_memory_context(m: &MemoryContexts) -> (ctx: usize)
    ensures
        ctx == m@.current_context(),
{
    if m.current == 0 { m.top } else { m.current }
}

/// C's `CurrentMemoryContext = ctx`.
pub fn set_current_memory_context(m: &mut MemoryContexts, ctx: usize)
    ensures
        final(m)@ == old(m)@.with_current(ctx),
        old(m).wf() ==> final(m).wf(),
{
    m.current = ctx;
}

/// C's `MemoryContextSwitchTo`: arm `ctx` and return the previous current
/// context.
pub fn MemoryContextSwitchTo(m: &mut MemoryContexts, ctx: usize) -> (prev: usize)
    ensures
        prev == old(m)@.current_context(),
        final(m)@ == old(m)@.with_current(ctx),
        old(m).wf() ==> final(m).wf(),
{
    let prev = current_memory_context(m);
    set_current_memory_context(m, ctx);
    prev
}

// The other well-known contexts pgrx names have no analogue extension code
// may allocate into, so every one of them resolves to the top context.

pub fn error_context(m: &MemoryContexts) -> (ctx: usize)
    ensures
        ctx == m@.top,
{
    top_memory_context(m)
}

pub fn portal_context(m: &MemoryContexts) -> (ctx: usize)
    ensures
        ctx == m@.top,
{
    top_memory_context(m)
}

pub fn cache_memory_context(m: &MemoryContexts) -> (ctx: usize)
    ensures
        ctx == m@.top,
{
    top_memory_context(m)
}

pub fn message_context(m: &MemoryContexts) -> (ctx: usize)
    ensures
        ctx == m@.top,
{
    top_memory_context(m)
}

pub fn top_transaction_context(m: &MemoryContexts) -> (ctx: usize)
    ensures
        ctx == m@.top,
{
    top_memory_context(m)
}

pub fn cur_transaction_context(m: &MemoryContexts) -> (ctx: usize)
    ensures
        ctx == m@.top,
{
    top_memory_context(m)
}

pub fn postmaster_context(m: &MemoryContexts) -> (ctx: usize)
    ensures
        ctx == m@.top,
{
    top_memory_context(m)
}

pub fn MemoryContextIsValid(ctx: usize) -> (r: bool)
    ensures
        r == (ctx != 0),
{
    ctx != 0
}

/// Whether `ctx` is one of the contexts created through
/// [`AllocSetContextCreateInternal`] and not yet deleted.
pub fn is_owned(m: &MemoryContexts, ctx: usize) -> (r: bool)
    ensures
        r == m@.owns(ctx),
{
    m.owned.contains_key(&ctx)
}

/// C's `AllocSetContextCreate`: a child context this library owns. The
/// parent is `parent`, or the top context for a null parent; `make_child`
/// creates the child under it and returns its address.
pub fn AllocSetContextCreateInternal<F: FnOnce(usize) -> usize>(
    m: &mut MemoryContexts,
    parent: usize,
    make_child: F,
) -> (child: usize)
    requires
        old(m).wf(),
        call_requires(make_child, (old(m)@.new_context_parent(parent),)),
        forall|c: usize|
            #[trigger] call_ensures(make_child, (old(m)@.new_context_parent(parent),), c) ==> c
                != 0 && c != old(m)@.top && !old(m)@.owns(c),
    ensures
        final(m).wf(),
        call_ensures(make_child, (old(m)@.new_context_parent(parent),), child),
        final(m)@ == (ContextsView {
            parents: old(m)@.parents.insert(child, old(m)@.new_context_parent(parent)),
            ..old(m)@
        }),
{
    let p = if parent == 0 { m.top } else { parent };
    let child = make_child(p);
    assert(call_ensures(make_child, (old(m)@.new_context_parent(parent),), child));
    m.owned.insert(child, p);
    child
}

/// The same as [`AllocSetContextCreateInternal`].
pub fn AllocSetContextCreateExtended<F: FnOnce(usize) -> usize>(
    m: &mut MemoryContexts,
    parent: usize,
    make_child: F,
) -> (child: usize)
    requires
        old(m).wf(),
        call_requires(make_child, (old(m)@.new_context_parent(parent),)),
        forall|c: usize|
            #[trigger] call_ensures(make_child, (old(m)@.new_context_parent(parent),), c) ==> c
                != 0 && c != old(m)@.top && !old(m)@.owns(c),
    ensures
        final(m).wf(),
        call_ensures(make_child, (old(m)@.new_context_parent(parent),), child),
        final(m)@ == (ContextsView {
            parents: old(m)@.parents.insert(child, old(m)@.new_context_parent(parent)),
            ..old(m)@
        }),
{
    AllocSetContextCreateInternal(m, parent, make_child)
}

/// C's `MemoryContextDelete`. Only contexts this library created are
/// deleted; for any other context (null, the top context, the executor's)
/// nothing changes. Deleting the current context re-arms the top context.
/// Returns whether the caller must release the native context.
pub fn MemoryContextDelete(m: &mut MemoryContexts, ctx: usize) -> (release: bool)
    requires
        old(m).wf(),
    ensures
        final(m).wf(),
        release == (ctx != 0 && old(m)@.owns(ctx)),
        release ==> final(m)@ == old(m)@.deleted(ctx),
        !release ==> final(m)@ == old(m)@,
{
    if ctx == 0 || !is_owned(m, ctx) {
        return false;
    }
    if current_memory_context(m) == ctx {
        let top = m.top;
        set_current_memory_context(m, top);
    }
    m.owned.remove(&ctx);
    true
}

/// The parent a created context was created under; 0 for any other context.
pub fn MemoryContextGetParent(m: &MemoryContexts, ctx: usize) -> (parent: usize)
    ensures
        parent == m@.parent_of(ctx),
{
    match m.owned.get(&ctx) {
        Some(p) => *p,
        None => 0,
    }
}

/// Whether `ptr` is a live chunk of this library.
pub fn is_chunk(m: &MemoryContexts, ptr: usize) -> (r: bool)
    ensures
        r == m@.chunks.contains_key(ptr),
{
    m.chunks.contains_key(&ptr)
}

/// The allocation step of `palloc` and friends, given what the allocator
/// returned for a request of [`chunk_request_size`] bytes (`None` when it
/// failed): the chunk's user pointer, registered with its header; a null
/// pointer when the allocation failed and `no_oom` was asked; an
/// out-of-memory error otherwise.
pub fn alloc_in(
    m: &mut MemoryContexts,
    ctx: usize,
    size: usize,
    align: usize,
    no_oom: bool,
    allocated: Option<usize>,
) -> (r: Result<usize, MemoryError>)
    requires
        old(m).wf(),
        align < 16 || is_power_of_two(align),
        size + 48 + effective_align(align) <= usize::MAX,
        allocated matches Some(base) ==> base % 16 == 0 && base + size + 48 + effective_align(
            align,
        ) <= usize::MAX,
    ensures
        final(m).wf(),
        match allocated {
            None => {
                &&& final(m)@ == old(m)@
                &&& r == if no_oom {
                    Ok::<usize, MemoryError>(0)
                } else {
                    Err::<usize, MemoryError>(MemoryError::OutOfMemory { size })
                }
            },
            Some(base) => r matches Ok(user) && {
                &&& user % 16 == 0
                &&& user & ((effective_align(align) - 1) as usize) == 0
                &&& base + 48 <= user
                &&& user + size <= base + chunk_total(size, align)
                &&& final(m)@ == (ContextsView {
                    chunks: old(m)@.chunks.insert(
                        user,
                        ChunkHeader { ctx, base, size, total: chunk_total(size, align) as usize },
                    ),
                    ..old(m)@
                })
            },
        },
{
    let total = chunk_request_size(size, align);
    match allocated {
        None => {
            if no_oom {
                Ok(0)
            } else {
                Err(MemoryError::OutOfMemory { size })
            }
        },
        Some(base) => {
            let user = chunk_user_pointer(base, align);
            m.chunks.insert(user, ChunkHeader { ctx, base, size, total });
            Ok(user)
        },
    }
}

/// C's `pfree`. A pointer that is not a live chunk (null, or memory the
/// backend allocated) is left to its context and nothing changes; a chunk
/// is forgotten and its header returned, so the caller can release the
/// allocation it describes.
pub fn pfree(m: &mut MemoryContexts, ptr: usize) -> (freed: Option<ChunkHeader>)
    requires
        old(m).wf(),
    ensures
        final(m).wf(),
        ptr == 0 || !old(m)@.chunks.contains_key(ptr) ==> freed is None && final(m)@ == old(m)@,
        ptr != 0 && old(m)@.chunks.contains_key(ptr) ==> freed == Some(old(m)@.chunks[ptr])
            && final(m)@ == (ContextsView { chunks: old(m)@.chunks.remove(ptr), ..old(m)@ }),
{
    if ptr == 0 {
        return None;
    }
    let r = m.chunks.remove(&ptr);
    proof {
        if !old(m)@.chunks.contains_key(ptr) {
            assert(m@.chunks =~= old(m)@.chunks);
        }
    }
    r
}

/// The first step of `repalloc`: the context the chunk belongs to and the
/// number of bytes to carry over into a chunk of `size` bytes. Memory not
/// allocated by `palloc` is refused.
pub fn repalloc_prepare(m: &MemoryContexts, ptr: usize, size: usize) -> (r: Result<(usize, usize), MemoryError>)
    ensures
        !m@.chunks.contains_key(ptr) ==> r == Err::<(usize, usize), MemoryError>(MemoryError::NotAChunk),
        m@.chunks.contains_key(ptr) ==> r == Ok::<(usize, usize), MemoryError>((
            m@.chunks[ptr].ctx,
            if m@.chunks[ptr].size < size { m@.chunks[ptr].size } else { size },
        )),
{
    match m.chunks.get(&ptr) {
        None => Err(MemoryError::NotAChunk),
        Some(h) => {
            let keep = if h.size < size { h.size } else { size };
            Ok((h.ctx, keep))
        },
    }
}

/// C's `GetMemoryChunkContext`: the chunk's context, or the current context
/// for memory this library did not allocate.
pub fn GetMemoryChunkContext(m: &MemoryContexts, ptr: usize) -> (ctx: usize)
    ensures
        ctx == m@.chunk_context(ptr),
{
    match m.chunks.get(&ptr) {
        Some(h) => h.ctx,
        None => current_memory_context(m),
    }
}

/// Switching to a context and back to the context that was current restores
/// the current context.
pub proof fn lemma_switch_back_restores(v: ContextsView, ctx: usize)
    ensures
        v.with_current(ctx).with_current(v.current_context()).current_context()
            == v.current_context(),
{
}

/// The top context never changes: switching, creating and deleting
/// contexts, allocating and freeing chunks all keep it, so every read of it
/// on a thread gives the same context.
pub proof fn lemma_top_is_stable(
    v: ContextsView,
    ctx: usize,
    child: usize,
    parent: usize,
    user: usize,
    h: ChunkHeader,
)
    ensures
        v.with_current(ctx).top == v.top,
        (ContextsView { parents: v.parents.insert(child, v.new_context_parent(parent)), ..v }).top
            == v.top,
        v.deleted(ctx).top == v.top,
        (ContextsView { chunks: v.chunks.insert(user, h), ..v }).top == v.top,
        (ContextsView { chunks: v.chunks.remove(user), ..v }).top == v.top,
{
}

/// Arming a context makes it current, and a chunk allocated in the current
/// context then belongs to it; the top context is unchanged.
pub proof fn lemma_armed_allocation(v: ContextsView, ctx: usize, user: usize, h: ChunkHeader)
    requires
        ctx != 0,
        h.ctx == v.with_current(ctx).current_context(),
    ensures
        v.with_current(ctx).current_context() == ctx,
        (ContextsView { chunks: v.chunks.insert(user, h), ..v.with_current(ctx) }).chunk_context(user)
            == ctx,
        (ContextsView { chunks: v.chunks.insert(user, h), ..v.with_current(ctx) }).top == v.top,
{
}

/// A created context reports the parent it was created under until it is
/// deleted; after deletion it is no longer owned, reports no parent, and a
/// second deletion changes nothing.
pub proof fn lemma_create_then_delete(v: ContextsView, child: usize, parent: usize)
    requires
        child != 0,
        child != v.top,
        !v.owns(child),
    ensures
        ({
            let created = ContextsView {
                parents: v.parents.insert(child, v.new_context_parent(parent)),
                ..v
            };
            &&& created.parent_of(child) == v.new_context_parent(parent)
            &&& created.deleted(child).parent_of(child) == 0
            &&& !created.deleted(child).owns(child)
            &&& created.deleted(child).parents == v.parents
        }),
{
    let created = ContextsView { parents: v.parents.insert(child, v.new_context_parent(parent)), ..v };
    assert(created.deleted(child).parents =~= v.parents);
}

/// Deleting a context other than the current one leaves the current context
/// as it was; only deleting the current context moves it (to the top).
pub proof fn lemma_delete_other_keeps_current(v: ContextsView, ctx: usize)
    requires
        ctx != v.current_context(),
    ensures
        v.deleted(ctx).current_context() == v.current_context(),
{
}

/// Deleting the current context leaves the top context current.
pub proof fn lemma_delete_current_arms_top(v: ContextsView, ctx: usize)
    requires
        v.owns(ctx),
        v.current_context() == ctx,
    ensures
        v.deleted(ctx).current_context() == v.top,
{
}

/// A chunk reports the context it was allocated in until it is freed; once
/// freed, the pointer is no longer a chunk.
pub proof fn lemma_chunk_context_until_freed(v: ContextsView, user: usize, h: ChunkHeader)
    ensures
        (ContextsView { chunks: v.chunks.insert(user, h), ..v }).chunk_context(user) == h.ctx,
        !(ContextsView { chunks: v.chunks.insert(user, h).remove(user), ..v }).chunks.contains_key(
            user,
        ),
{
}

/// `n` is the length of the C string at the start of `s`, looking at no more
/// than `limit` bytes: the first `n` bytes are not NUL, and the string stops
/// at a NUL or at the limit.
pub open spec fn c_string_len(s: Seq<u8>, limit: int, n: int) -> bool {
    &&& 0 <= n <= limit
    &&& forall|i: int| 0 <= i < n ==> s[i] != 0
    &&& n < limit ==> s[n] == 0
}

/// The bytes of the C string at the start of `input`, looking at no more
/// than `len` bytes.
pub(crate) fn c_string_prefix_len(input: &[u8], len: usize) -> (n: usize)
    requires
        len <= input@.len(),
    ensures
        c_string_len(input@, len as int, n as int),
{
    let mut n: usize = 0;
    while n < len && input[n] != 0
        invariant
            n <= len <= input@.len(),
            forall|i: int| 0 <= i < n ==> input@[i] != 0,
        decreases len - n,
    {
        n = n + 1;
    }
    n
}

/// The first `n` bytes of `input` followed by a NUL.
fn copy_with_nul(input: &[u8], n: usize) -> (out: Vec<u8>)
    requires
        n <= input@.len(),
    ensures
        out@ == input@.subrange(0, n as int).push(0u8),
{
    let mut out: Vec<u8> = Vec::new();
    let mut i: usize = 0;
    while i < n
        invariant
            i <= n <= input@.len(),
            out@ == input@.subrange(0, i as int),
        decreases n - i,
    {
        out.push(input[i]);
        i = i + 1;
        assert(out@ =~= input@.subrange(0, i as int));
    }
    out.push(0u8);
    out
}

/// C's `pstrdup` on the bytes of a C string: the string up to and including
/// its terminating NUL.
pub fn pstrdup(input: &[u8]) -> (out: Vec<u8>)
    requires
        exists|i: int| 0 <= i < input@.len() && input@[i] == 0,
    ensures
        exists|n: int|
            c_string_len(input@, input@.len() as int, n) && out@ == input@.subrange(0, n).push(0u8),
{
    let n = c_string_prefix_len(input, input.len());
    copy_with_nul(input, n)
}

/// C's `pnstrdup`: at most `len` bytes of `input`, stopping at the first NUL,
/// then a terminating NUL.
pub fn pnstrdup(input: &[u8], len: usize) -> (out: Vec<u8>)
    requires
        len <= input@.len(),
    ensures
        exists|n: int| c_string_len(input@, len as int, n) && out@ == input@.subrange(0, n).push(0u8),
{
    let n = c_string_prefix_len(input, len);
    copy_with_nul(input, n)
}

} // verus!
