//! The layout of the blocks of a free-list allocator. Each block begins
//! with a header that holds its size; a free block holds the address of the
//! next free block behind the header.

use crate::no_std_dev::bump_allocator::{aligned_up, lemma_aligned_up};
use vstd::prelude::*;

verus! {

/// The size of the header of a block, in bytes.
pub const HEADER_SIZE: usize = 8;

/// The size of the smallest block: the header and room for the address of
/// the next free block.
pub const MIN_BLOCK: usize = 16;

/// The size of the block for a payload of `size` bytes aligned to `align`:
/// the header and the payload rounded up to a multiple of `align`, and the
/// smallest block at least.
pub open spec fn block_size(size: int, align: int) -> int {
    let total = 8 + aligned_up(size, align);
    if total < 16 {
        16
    } else {
        total
    }
}

/// Computes the size of the block that an allocation of `size` bytes
/// aligned to `align` needs. As with every memory layout, `align` is not
/// zero and the size of the block is a machine number.
pub fn block_size_for(size: usize, align: usize) -> (total: usize)
    requires
        align > 0,
        8 + aligned_up(size as int, align as int) <= usize::MAX,
    ensures
        total == block_size(size as int, align as int),
        total >= MIN_BLOCK,
        total >= HEADER_SIZE + size,
{
    proof {
        lemma_aligned_up(size as int, align as int);
    }
    let rem = size % align;
    let payload = if rem == 0 {
        size
    } else {
        size + (align - rem)
    };
    let total = HEADER_SIZE + payload;
    if total < MIN_BLOCK {
        MIN_BLOCK
    } else {
        total
    }
}

} // verus!
