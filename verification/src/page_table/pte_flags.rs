//! The entry of an SV39 page table: 64 bits that hold a physical page number
//! and eight flags.
//!
//! ```text
//! 63    54 53        10 9  8 7 6 5 4 3 2 1 0
//! | Rsvd  |    PPN     | RSW|D|A|G|U|X|W|R|V|
//! ```

use vstd::prelude::*;

verus! {

/// Valid: the entry is in use.
pub const PTE_V: u64 = 0x01;
/// Readable.
pub const PTE_R: u64 = 0x02;
/// Writable.
pub const PTE_W: u64 = 0x04;
/// Executable.
pub const PTE_X: u64 = 0x08;
/// Accessible in user mode.
pub const PTE_U: u64 = 0x10;
/// Global: mapped in every address space.
pub const PTE_G: u64 = 0x20;
/// Accessed.
pub const PTE_A: u64 = 0x40;
/// Dirty: written to.
pub const PTE_D: u64 = 0x80;

/// The physical page number begins at this bit of an entry.
pub const PPN_SHIFT: u32 = 10;
/// A physical page number has 44 bits.
pub const PPN_MASK: u64 = 0xFFF_FFFF_FFFF;
/// The three bits that make an entry a leaf: readable, writable, executable.
pub const PTE_RWX: u64 = 0x0E;
/// The flags are the low eight bits of an entry.
pub const FLAGS_MASK: u64 = 0xFF;

/// The entry made of a physical page number and flags: the number from bit
/// 10 up, the flags below it.
pub open spec fn pte_of(ppn: u64, flags: u64) -> u64 {
    (ppn << 10) | flags
}

/// The physical page number that an entry holds: its bits 10 to 53.
pub open spec fn ppn_of(pte: u64) -> u64 {
    (pte >> 10) & 0xFFF_FFFF_FFFFu64
}

/// The flags that an entry holds: its low eight bits.
pub open spec fn flags_of(pte: u64) -> u64 {
    pte & 0xFFu64
}

/// Whether an entry has one of the bits of `mask` set.
pub open spec fn has_any(pte: u64, mask: u64) -> bool {
    pte & mask != 0
}

/// Whether an entry allows an access that asks for the given permissions:
/// it is valid, and has the bit of each permission that is asked for.
pub open spec fn permits(pte: u64, read: bool, write: bool, execute: bool) -> bool {
    &&& has_any(pte, PTE_V)
    &&& read ==> has_any(pte, PTE_R)
    &&& write ==> has_any(pte, PTE_W)
    &&& execute ==> has_any(pte, PTE_X)
}

/// Builds a page table entry from a physical page number and flags.
pub fn make_pte(ppn: u64, flags: u64) -> (pte: u64)
    ensures
        pte == pte_of(ppn, flags),
{
    (ppn << PPN_SHIFT) | flags
}

/// Takes the physical page number out of an entry.
pub fn extract_ppn(pte: u64) -> (ppn: u64)
    ensures
        ppn == ppn_of(pte),
        ppn <= PPN_MASK,
{
    let ppn = (pte >> PPN_SHIFT) & PPN_MASK;
    assert(((pte >> 10) & 0xFFF_FFFF_FFFFu64) <= 0xFFF_FFFF_FFFFu64) by (bit_vector);
    ppn
}

/// Takes the flags out of an entry.
pub fn extract_flags(pte: u64) -> (flags: u64)
    ensures
        flags == flags_of(pte),
        flags <= FLAGS_MASK,
{
    let flags = pte & FLAGS_MASK;
    assert((pte & 0xFFu64) <= 0xFFu64) by (bit_vector);
    flags
}

/// Whether the entry is valid.
pub fn is_valid(pte: u64) -> (valid: bool)
    ensures
        valid == has_any(pte, PTE_V),
{
    pte & PTE_V != 0
}

/// Whether the entry is a leaf, one that maps a page: it is if it can be
/// read, written or executed. Any other entry points to the next table.
pub fn is_leaf(pte: u64) -> (leaf: bool)
    ensures
        leaf == has_any(pte, PTE_RWX),
        leaf == (has_any(pte, PTE_R) || has_any(pte, PTE_W) || has_any(pte, PTE_X)),
{
    assert((pte & 0x0Eu64 != 0) == ((pte & 0x02u64 != 0) || (pte & 0x04u64 != 0) || (pte & 0x08u64
        != 0))) by (bit_vector);
    pte & PTE_RWX != 0
}

/// Whether the entry allows an access that needs the given permissions.
pub fn check_permission(pte: u64, read: bool, write: bool, execute: bool) -> (ok: bool)
    ensures
        ok == permits(pte, read, write, execute),
{
    if !is_valid(pte) {
        return false;
    }
    if read && pte & PTE_R == 0 {
        return false;
    }
    if write && pte & PTE_W == 0 {
        return false;
    }
    if execute && pte & PTE_X == 0 {
        return false;
    }
    true
}

/// An entry gives back the page number and the flags it was made of, as
/// long as the number has at most 44 bits and the flags at most eight.
pub proof fn lemma_pte_round_trip(ppn: u64, flags: u64)
    requires
        ppn <= PPN_MASK,
        flags <= FLAGS_MASK,
    ensures
        ppn_of(pte_of(ppn, flags)) == ppn,
        flags_of(pte_of(ppn, flags)) == flags,
{
    assert(ppn <= 0xFFF_FFFF_FFFFu64 && flags <= 0xFFu64 ==> (((ppn << 10) | flags) >> 10)
        & 0xFFF_FFFF_FFFFu64 == ppn) by (bit_vector);
    assert(flags <= 0xFFu64 ==> ((ppn << 10) | flags) & 0xFFu64 == flags) by (bit_vector);
}

/// The flags of an entry decide alone whether it is valid, whether it is a
/// leaf and what it permits.
pub proof fn lemma_pte_flags_decide(ppn: u64, flags: u64, mask: u64)
    requires
        flags <= FLAGS_MASK,
        mask <= FLAGS_MASK,
    ensures
        has_any(pte_of(ppn, flags), mask) == has_any(flags, mask),
{
    assert(flags <= 0xFFu64 && mask <= 0xFFu64 ==> (((ppn << 10) | flags) & mask) == (flags
        & mask)) by (bit_vector);
}

} // verus!
