//! Which virtual range has to be flushed when a page table walk visits a
//! descriptor.
//!
//! With the dirty state managed in hardware, the CPU clears the read-only bit
//! of a leaf descriptor on the first write through it. A leaf that is found
//! writable is therefore dirty, and the caches that cover its range are to be
//! cleaned.

use crate::paging::{
    byte_len, decoded_flags, descriptor_flags, region_len, region_start, start_of,
};
use aarch64_paging::paging::{Descriptor, MemoryRegion};
use vstd::prelude::*;

verus! {

/// Bit 1 of a descriptor: set in a table descriptor and in a page descriptor,
/// clear in a block descriptor.
pub const TABLE_OR_PAGE: usize = 0x2;

/// `AP[2]`, bit 7 of a block or page descriptor: set where the mapping is
/// read-only.
pub const READ_ONLY: usize = 0x80;

/// The level of the page tables whose entries are all page mappings.
pub const LEAF_PTE_LEVEL: usize = 3;

/// The cache lines to clean: those of the `len` bytes from `start` on.
#[derive(Clone, Copy, Debug, PartialEq, Eq, Structural)]
pub struct FlushRange {
    pub start: usize,
    pub len: usize,
}

/// Whether a descriptor with these attribute bits, found at `level`, maps
/// memory itself: as a page at the last level, as a block above it.
pub open spec fn leaf(flags: usize, level: usize) -> bool {
    if flags & TABLE_OR_PAGE != 0 {
        level == LEAF_PTE_LEVEL
    } else {
        level < LEAF_PTE_LEVEL
    }
}

/// Whether the attribute bits mark the mapping read-only.
pub open spec fn read_only(flags: usize) -> bool {
    flags & READ_ONLY != 0
}

/// What is owed for a descriptor whose attributes decoded to `flags`, found
/// at `level`, that covers `len` bytes from `start` on: an error where the
/// attributes did not decode, a flush of the range where the descriptor is a
/// writable leaf, nothing otherwise.
pub open spec fn flush_owed(flags: Option<usize>, start: usize, len: usize, level: usize) -> Result<
    Option<FlushRange>,
    (),
> {
    match flags {
        None => Err(()),
        Some(flags) => if leaf(flags, level) && !read_only(flags) {
            Ok(Some(FlushRange { start, len }))
        } else {
            Ok(None)
        },
    }
}

/// Checks whether a PTE at given level is a page or block descriptor.
pub fn is_leaf_pte(flags: usize, level: usize) -> (yes: bool)
    ensures
        yes == leaf(flags, level),
{
    if flags & TABLE_OR_PAGE != 0 {
        level == LEAF_PTE_LEVEL
    } else {
        level < LEAF_PTE_LEVEL
    }
}

/// Decides what to flush for a descriptor from what was read of it: the
/// attribute bits that decoded, if any, and the range that it covers.
pub fn decide_flush(flags: Option<usize>, start: usize, len: usize, level: usize) -> (owed: Result<
    Option<FlushRange>,
    (),
>)
    ensures
        owed == flush_owed(flags, start, len, level),
{
    let flags = match flags {
        Some(flags) => flags,
        None => {
            return Err(());
        },
    };
    // Only flush ranges corresponding to dirty leaf PTEs.
    if !is_leaf_pte(flags, level) {
        return Ok(None);
    }
    if flags & READ_ONLY == 0 {
        return Ok(Some(FlushRange { start, len }));
    }
    Ok(None)
}

/// Tells which memory range to flush for the descriptor: the range it refers
/// to, if the descriptor is in writable-dirty state.
///
/// Made to be called on every descriptor that a page table walk visits. An
/// error tells the walk that the descriptor is malformed. The descriptor is
/// never changed.
pub fn flush_dirty_range(va_range: &MemoryRegion, desc: &mut Descriptor, level: usize) -> (owed:
    Result<Option<FlushRange>, ()>)
    ensures
        *final(desc) == *old(desc),
        owed == flush_owed(
            decoded_flags(*old(desc)),
            region_start(*va_range),
            region_len(*va_range),
            level,
        ),
        decoded_flags(*old(desc)) is None <==> owed is Err,
        decoded_flags(*old(desc)) matches Some(bits) && !leaf(bits, level) ==> owed matches Ok(
            None,
        ),
        decoded_flags(*old(desc)) matches Some(bits) && leaf(bits, level) && read_only(bits)
            ==> owed matches Ok(None),
        decoded_flags(*old(desc)) matches Some(bits) && leaf(bits, level) && !read_only(bits)
            ==> (owed matches Ok(Some(range)) && range.start == region_start(*va_range)
            && range.len == region_len(*va_range)),
{
    let flags = descriptor_flags(desc);
    decide_flush(flags, start_of(va_range), byte_len(va_range), level)
}

} // verus!
