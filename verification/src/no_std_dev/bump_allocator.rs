//! A bump allocator: it hands out the addresses of a heap from the start to
//! the end and never takes one back.
//!
//! ```text
//! heap_start                              heap_end
//! |----[allocated]----[allocated]----| next |---[free]---|
//! ```
//!
//! The allocator only computes addresses and never touches the memory
//! behind them. It is shared between threads: its state is one atomic
//! word, which each allocation moves forward in one step. Between two calls
//! of one thread any other thread may have moved it, so the contracts of
//! the allocator say what holds whatever the other threads do.

use std::sync::atomic::{AtomicUsize, Ordering};
use vstd::prelude::*;

verus! {

/// `addr` rounded up to a multiple of `align`, which is positive.
pub open spec fn aligned_up(addr: int, align: int) -> int {
    if addr % align == 0 {
        addr
    } else {
        addr + (align - addr % align)
    }
}

/// Rounding up gives the nearest multiple of `align` at or above `addr`.
pub proof fn lemma_aligned_up(addr: int, align: int)
    requires
        0 <= addr,
        0 < align,
    ensures
        aligned_up(addr, align) % align == 0,
        addr <= aligned_up(addr, align) < addr + align,
{
    let rem = addr % align;
    let q = addr / align;
    vstd::arithmetic::div_mod::lemma_fundamental_div_mod(addr, align);
    if rem != 0 {
        let up = addr + (align - rem);
        assert(up == (q + 1) * align) by (nonlinear_arith)
            requires
                addr == align * q + rem,
                up == addr + (align - rem),
        ;
        vstd::arithmetic::div_mod::lemma_fundamental_div_mod_converse(up, align, q + 1, 0);
    }
}

/// Where an allocation of `size` bytes aligned to `align` lands when the
/// next free address is `next` and the heap ends at `heap_end`: the
/// address of the allocation, which is `next` rounded up, and the next
/// free address after it. There is no place if `align` is zero or if the
/// allocation would reach beyond the end of the heap.
pub open spec fn placed(next: int, size: int, align: int, heap_end: int) -> Option<(int, int)> {
    if align <= 0 {
        None
    } else if aligned_up(next, align) + size <= heap_end {
        Some((aligned_up(next, align), aligned_up(next, align) + size))
    } else {
        None
    }
}

/// Computes where an allocation lands.
pub fn place(next: usize, size: usize, align: usize, heap_end: usize) -> (r: Option<(usize, usize)>)
    ensures
        match r {
            Some((at, end)) => placed(next as int, size as int, align as int, heap_end as int)
                == Some((at as int, end as int)),
            None => placed(next as int, size as int, align as int, heap_end as int) is None,
        },
{
    if align == 0 {
        return None;
    }
    let rem = next % align;
    let gap = if rem == 0 {
        0
    } else {
        align - rem
    };
    if next > heap_end || gap > heap_end - next {
        return None;
    }
    let at = next + gap;
    if size > heap_end - at {
        return None;
    }
    Some((at, at + size))
}

/// The next free address after an allocation, if the allocation fits.
pub open spec fn next_free(next: int, size: int, align: int, heap_end: int) -> Option<int> {
    match placed(next, size, align, heap_end) {
        Some(p) => Some(p.1),
        None => None,
    }
}

/// Computes the next free address after an allocation, if it fits.
pub fn next_after(next: usize, size: usize, align: usize, heap_end: usize) -> (r: Option<usize>)
    ensures
        match r {
            Some(end) => next_free(next as int, size as int, align as int, heap_end as int)
                == Some(end as int),
            None => next_free(next as int, size as int, align as int, heap_end as int) is None,
        },
{
    match place(next, size, align, heap_end) {
        Some(p) => Some(p.1),
        None => None,
    }
}

/// Whether an allocation fits when the next free address is `next`.
pub open spec fn has_room(next: usize, size: usize, align: usize, heap_end: usize) -> bool {
    next_free(next as int, size as int, align as int, heap_end as int) is Some
}

/// `AtomicUsize::fetch_update` with [`next_after`] as the update: in one
/// atomic step the word is replaced by the next free address after the
/// allocation, if the allocation fits. The result is `Ok` with the value
/// that was replaced, or `Err` with the value for which the update declined.
#[verifier::external_body]
fn fetch_update_next(next: &AtomicUsize, size: usize, align: usize, heap_end: usize) -> (r: Result<
    usize,
    usize,
>)
    ensures
        match r {
            Ok(found) => has_room(found, size, align, heap_end),
            Err(found) => !has_room(found, size, align, heap_end),
        },
{
    next.fetch_update(Ordering::SeqCst, Ordering::SeqCst, |n| next_after(n, size, align, heap_end))
}

/// The number of bytes in use when the next free address is `next` in a
/// heap that begins at `heap_start`.
pub open spec fn in_use(next: int, heap_start: int) -> int {
    if next >= heap_start {
        next - heap_start
    } else {
        0
    }
}

/// Computes the number of bytes in use from the next free address.
pub fn bytes_used(next: usize, heap_start: usize) -> (used: usize)
    ensures
        used == in_use(next as int, heap_start as int),
        heap_start + used <= usize::MAX,
{
    if next >= heap_start {
        next - heap_start
    } else {
        0
    }
}

/// No allocation of more bytes than the heap has addresses fits, nor one
/// without an alignment, wherever the next free address stands.
pub proof fn lemma_no_room(next: usize, size: usize, align: usize, heap_end: usize)
    requires
        align == 0 || size > heap_end,
    ensures
        !has_room(next, size, align, heap_end),
{
    if align > 0 {
        lemma_aligned_up(next as int, align as int);
    }
}

/// A bump allocator for the addresses from `heap_start` up to `heap_end`.
pub struct BumpAllocator {
    heap_start: usize,
    heap_end: usize,
    next: AtomicUsize,
}

impl BumpAllocator {
    /// The first address of the heap.
    pub closed spec fn start(&self) -> usize {
        self.heap_start
    }

    /// The address after the last one of the heap.
    pub closed spec fn end(&self) -> usize {
        self.heap_end
    }

    /// An allocator for the addresses from `heap_start` up to `heap_end`,
    /// none of which is in use.
    pub fn new(heap_start: usize, heap_end: usize) -> (a: Self)
        ensures
            a.start() == heap_start,
            a.end() == heap_end,
    {
        BumpAllocator { heap_start, heap_end, next: AtomicUsize::new(heap_start) }
    }

    /// Gives the whole heap free again. Every address that was handed out
    /// before may be handed out again.
    pub fn reset(&self) {
        self.next.store(self.heap_start, Ordering::SeqCst);
    }

    /// The number of bytes from the start of the heap up to the next free
    /// address, at the moment of the call. Added to the start of the heap
    /// it gives that address, whatever it is; [`bytes_used`] says what the
    /// number is for each next free address.
    pub fn used(&self) -> (used: usize)
        ensures
            self.start() + used <= usize::MAX,
    {
        bytes_used(self.next.load(Ordering::SeqCst), self.heap_start)
    }

    /// Allocates `size` bytes at an address that is a multiple of `align`
    /// and gives that address. There is no result if `align` is zero, if
    /// `size` is more than the heap can ever hold, or if the heap has no
    /// room for the allocation at the moment of the call; [`place`] says
    /// exactly where an allocation lands for a given next free address.
    pub fn allocate(&self, size: usize, align: usize) -> (r: Option<usize>)
        ensures
            r matches Some(at) ==> align > 0 && at % align == 0 && at + size <= self.end(),
            align == 0 || size > self.end() ==> r is None,
    {
        match fetch_update_next(&self.next, size, align, self.heap_end) {
            Ok(found) => {
                proof {
                    if align == 0 || size > self.heap_end {
                        lemma_no_room(found, size, align, self.heap_end);
                    }
                    lemma_aligned_up(found as int, align as int);
                }
                match place(found, size, align, self.heap_end) {
                    Some(p) => Some(p.0),
                    None => None,
                }
            },
            Err(_) => None,
        }
    }
}

} // verus!
