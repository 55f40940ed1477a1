use pgrx::mem::{
    alloc_flags, alloc_in, cache_memory_context, chunk_request_size, chunk_user_pointer,
    cur_transaction_context, current_memory_context, error_context, is_chunk, is_owned,
    message_context, pfree, pnstrdup, portal_context, postmaster_context, pstrdup,
    repalloc_prepare, set_current_memory_context, top_memory_context, top_transaction_context,
    AllocSetContextCreateExtended, AllocSetContextCreateInternal, GetMemoryChunkContext,
    MemoryContextDelete, MemoryContextGetParent, MemoryContextIsValid, MemoryContextSwitchTo,
    MemoryContexts, MemoryError, MCXT_ALLOC_NO_OOM, MCXT_ALLOC_ZERO,
};

const TOP: usize = 0x1000;

#[test]
fn current_context_falls_back_to_top() {
    let mut m = MemoryContexts::new(TOP);
    assert_eq!(top_memory_context(&m), TOP);
    assert_eq!(current_memory_context(&m), TOP);
    set_current_memory_context(&mut m, 0x2000);
    assert_eq!(current_memory_context(&m), 0x2000);
    set_current_memory_context(&mut m, 0);
    assert_eq!(current_memory_context(&m), TOP);
}

#[test]
fn well_known_contexts() {
    let mut m = MemoryContexts::new(TOP);
    set_current_memory_context(&mut m, 0x2000);
    assert_eq!(error_context(&m), TOP);
    assert_eq!(cache_memory_context(&m), TOP);
    assert_eq!(top_transaction_context(&m), TOP);
    assert_eq!(cur_transaction_context(&m), TOP);
    assert_eq!(postmaster_context(&m), TOP);
    assert_eq!(portal_context(&m), TOP);
    assert_eq!(message_context(&m), TOP);
}

#[test]
fn switch_and_switch_back_restores() {
    let mut m = MemoryContexts::new(TOP);
    set_current_memory_context(&mut m, 0x3000);
    let prev = MemoryContextSwitchTo(&mut m, 0x4000);
    assert_eq!(prev, 0x3000);
    assert_eq!(current_memory_context(&m), 0x4000);
    let back = MemoryContextSwitchTo(&mut m, prev);
    assert_eq!(back, 0x4000);
    assert_eq!(current_memory_context(&m), 0x3000);
}

#[test]
fn created_context_reports_its_parent_until_deleted() {
    let mut m = MemoryContexts::new(TOP);
    let child = AllocSetContextCreateInternal(&mut m, 0, |parent| {
        assert_eq!(parent, TOP);
        0x5000
    });
    assert_eq!(child, 0x5000);
    assert!(is_owned(&m, child));
    assert_eq!(MemoryContextGetParent(&m, child), TOP);
    let grandchild = AllocSetContextCreateExtended(&mut m, child, |_| 0x6000);
    assert_eq!(MemoryContextGetParent(&m, grandchild), child);
    assert!(MemoryContextDelete(&mut m, child));
    assert!(!is_owned(&m, child));
    assert_eq!(MemoryContextGetParent(&m, child), 0);
    // a second delete does nothing
    assert!(!MemoryContextDelete(&mut m, child));
    assert_eq!(MemoryContextGetParent(&m, grandchild), child);
}

#[test]
fn contexts_not_created_here_are_never_deleted() {
    let mut m = MemoryContexts::new(TOP);
    assert!(!MemoryContextDelete(&mut m, 0));
    assert!(!MemoryContextDelete(&mut m, TOP));
    assert!(!MemoryContextDelete(&mut m, 0x7777));
    assert_eq!(MemoryContextGetParent(&m, TOP), 0);
}

#[test]
fn deleting_the_current_context_arms_the_top_context() {
    let mut m = MemoryContexts::new(TOP);
    let child = AllocSetContextCreateInternal(&mut m, 0, |_| 0x5000);
    MemoryContextSwitchTo(&mut m, child);
    assert!(MemoryContextDelete(&mut m, child));
    assert_eq!(current_memory_context(&m), TOP);
}

#[test]
fn context_validity() {
    assert!(!MemoryContextIsValid(0));
    assert!(MemoryContextIsValid(TOP));
}

#[test]
fn chunk_placement() {
    assert_eq!(chunk_request_size(100, 8), 148);
    assert_eq!(chunk_request_size(100, 64), 196);
    assert_eq!(chunk_user_pointer(0x10000, 16), 0x10030);
    assert_eq!(chunk_user_pointer(0x10000, 64), 0x10040);
    assert_eq!(chunk_user_pointer(0x10010, 64), 0x10040);
    assert_eq!(chunk_user_pointer(0x10000, 128), 0x10080);
}

#[test]
fn allocation_flags() {
    assert_eq!(alloc_flags(0), (false, false));
    assert_eq!(alloc_flags(MCXT_ALLOC_ZERO), (true, false));
    assert_eq!(alloc_flags(MCXT_ALLOC_NO_OOM | MCXT_ALLOC_ZERO | 1), (true, true));
}

#[test]
fn chunks_know_their_context_until_freed() {
    let mut m = MemoryContexts::new(TOP);
    let user = alloc_in(&mut m, 0x2000, 10, 16, false, Some(0x9000)).unwrap();
    assert_eq!(user, 0x9030);
    assert!(is_chunk(&m, user));
    assert_eq!(GetMemoryChunkContext(&m, user), 0x2000);
    assert_eq!(repalloc_prepare(&m, user, 4), Ok((0x2000, 4)));
    assert_eq!(repalloc_prepare(&m, user, 40), Ok((0x2000, 10)));
    let h = pfree(&mut m, user).unwrap();
    assert_eq!((h.ctx, h.base, h.size, h.total), (0x2000, 0x9000, 10, 58));
    assert!(!is_chunk(&m, user));
    // freeing twice does nothing
    assert_eq!(pfree(&mut m, user), None);
    // memory this library did not allocate reads as the current context
    assert_eq!(GetMemoryChunkContext(&m, user), TOP);
    assert_eq!(repalloc_prepare(&m, user, 4), Err(MemoryError::NotAChunk));
    assert_eq!(pfree(&mut m, 0), None);
}

#[test]
fn failed_allocations() {
    let mut m = MemoryContexts::new(TOP);
    assert_eq!(alloc_in(&mut m, TOP, 10, 16, true, None), Ok(0));
    assert_eq!(
        alloc_in(&mut m, TOP, 10, 16, false, None),
        Err(MemoryError::OutOfMemory { size: 10 })
    );
}

#[test]
fn string_duplication() {
    assert_eq!(pstrdup(b"abc\0def"), b"abc\0".to_vec());
    assert_eq!(pstrdup(b"\0"), b"\0".to_vec());
    assert_eq!(pnstrdup(b"abcdef", 3), b"abc\0".to_vec());
    assert_eq!(pnstrdup(b"ab\0def", 5), b"ab\0".to_vec());
    assert_eq!(pnstrdup(b"abc", 0), b"\0".to_vec());
}

#[test]
fn armed_context_owns_new_chunks_and_top_stays() {
    let mut m = MemoryContexts::new(TOP);
    MemoryContextSwitchTo(&mut m, 0x5000);
    let ctx = current_memory_context(&m);
    let user = alloc_in(&mut m, ctx, 32, 16, false, Some(0x9000)).unwrap();
    assert_eq!(GetMemoryChunkContext(&m, user), 0x5000);
    let child = AllocSetContextCreateInternal(&mut m, 0, |_| 0x7000);
    MemoryContextDelete(&mut m, child);
    pfree(&mut m, user);
    assert_eq!(top_memory_context(&m), TOP);
}

#[test]
fn small_alignments_are_raised_to_sixteen() {
    for align in [0usize, 3, 5, 7, 9, 15] {
        let mut m = MemoryContexts::new(TOP);
        assert_eq!(chunk_request_size(10, align), 10 + 48);
        assert_eq!(chunk_user_pointer(0x9000, align), 0x9000 + 48);
        let user = alloc_in(&mut m, TOP, 10, align, false, Some(0x9000)).unwrap();
        assert_eq!(user, 0x9000 + 48);
        assert_eq!(GetMemoryChunkContext(&m, user), TOP);
    }
}
