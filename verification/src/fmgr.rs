//! The C-shaped call frame built around a native call: its size, and where
//! it is stored.
//!
//! A frame is a header followed by one `NullableDatum` per argument. Frames
//! of up to [`INLINE_ARGS`] arguments live in a fixed inline buffer of
//! 8-byte words; larger ones in a heap buffer of words.

use vstd::prelude::*;

verus! {

/// Size of the frame header (`FunctionCallInfoBaseData` without its
/// arguments) on 64-bit targets.
pub const FCINFO_HEADER_SIZE: usize = 48;

/// Size of one `NullableDatum`.
pub const NULLABLE_DATUM_SIZE: usize = 16;

/// Arguments that fit in the inline buffer.
pub const INLINE_ARGS: usize = 8;

/// Bytes of the inline buffer's frame capacity.
pub const INLINE_BYTES: usize = 176;

/// Where a frame is stored.
#[derive(Clone, Copy, Debug, PartialEq, Eq, Structural)]
pub enum FrameStorage {
    /// The inline buffer of `INLINE_BYTES / 8 + 1` words.
    Inline,
    /// A heap buffer of this many words.
    Heap(usize),
}

/// The bytes a frame of `nargs` arguments takes.
pub fn call_frame_bytes(nargs: usize) -> (n: usize)
    requires
        48 + nargs * 16 <= usize::MAX,
    ensures
        n == 48 + nargs * 16,
{
    FCINFO_HEADER_SIZE + nargs * NULLABLE_DATUM_SIZE
}

/// Where the frame of `nargs` arguments goes: inline when it fits there,
/// else a heap buffer of `bytes / 8 + 1` words. Either way the buffer holds
/// the whole frame.
pub fn call_frame_storage(nargs: usize) -> (s: FrameStorage)
    requires
        48 + nargs * 16 <= usize::MAX,
    ensures
        48 + nargs * 16 <= 176 ==> s == FrameStorage::Inline,
        48 + nargs * 16 > 176 ==> s == FrameStorage::Heap(((48 + nargs * 16) / 8 + 1) as usize),
        match s {
            FrameStorage::Inline => 48 + nargs * 16 <= (176int / 8 + 1) * 8,
            FrameStorage::Heap(words) => 48 + nargs * 16 <= words * 8,
        },
{
    let bytes = call_frame_bytes(nargs);
    if bytes <= INLINE_BYTES {
        FrameStorage::Inline
    } else {
        FrameStorage::Heap(bytes / 8 + 1)
    }
}

} // verus!
