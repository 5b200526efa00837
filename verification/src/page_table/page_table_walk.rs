//! A page table of one level: a virtual address of 32 bits is a virtual page
//! number of 20 bits and an offset of 12 bits into a page of 4 KiB.

use vstd::prelude::*;

verus! {

/// The size of a page in bytes.
pub const PAGE_SIZE: usize = 4096;
/// The number of bits of an address that give the offset into its page.
pub const PAGE_OFFSET_BITS: u32 = 12;

/// The entry is in use.
pub const PTE_VALID: u8 = 0x01;
/// The page can be read.
pub const PTE_READ: u8 = 0x02;
/// The page can be written.
pub const PTE_WRITE: u8 = 0x04;

/// One entry of the table: the physical page that a virtual page is mapped
/// to, and its flags.
#[derive(Clone, Copy, Debug)]
pub struct PageTableEntry {
    pub ppn: u32,
    pub flags: u8,
}

/// What the translation of a virtual address gives.
#[derive(Debug, PartialEq, Eq, Structural)]
pub enum TranslateResult {
    /// The physical address.
    Translated(u32),
    /// The virtual page is not mapped, or its entry is not valid.
    PageFault,
    /// The page is mapped, but not for writing.
    PermissionDenied,
}

/// The virtual page number of an address.
pub open spec fn vpn_of(va: u32) -> nat {
    (va / 4096) as nat
}

/// The offset of an address into its page.
pub open spec fn offset_of(va: u32) -> u32 {
    (va % 4096) as u32
}

/// The physical address at `offset` into the physical page `ppn`, in the
/// 32 bits that an address has.
pub open spec fn pa_of(ppn: u32, offset: u32) -> u32 {
    ((ppn * 4096 + offset) % 0x1_0000_0000) as u32
}

/// Whether the flags of an entry have the bit `flag`.
pub open spec fn flag_set(flags: u8, flag: u8) -> bool {
    flags & flag != 0
}

/// What the translation of `va` through `table` gives. A page that is not
/// mapped, or whose entry is not valid, is a page fault; a write to a page
/// without the write flag is denied.
pub open spec fn translation(
    table: Seq<Option<PageTableEntry>>,
    va: u32,
    is_write: bool,
) -> TranslateResult {
    let vpn = vpn_of(va) as int;
    if vpn >= table.len() {
        TranslateResult::PageFault
    } else {
        match table[vpn] {
            None => TranslateResult::PageFault,
            Some(entry) => if !flag_set(entry.flags, PTE_VALID) {
                TranslateResult::PageFault
            } else if is_write && !flag_set(entry.flags, PTE_WRITE) {
                TranslateResult::PermissionDenied
            } else {
                TranslateResult::Translated(pa_of(entry.ppn, offset_of(va)))
            },
        }
    }
}

/// A page table of one level, for a fixed number of virtual pages.
pub struct SingleLevelPageTable {
    entries: Vec<Option<PageTableEntry>>,
}

impl View for SingleLevelPageTable {
    type V = Seq<Option<PageTableEntry>>;

    closed spec fn view(&self) -> Seq<Option<PageTableEntry>> {
        self.entries@
    }
}

impl SingleLevelPageTable {
    /// An empty table for `max_pages` virtual pages.
    pub fn new(max_pages: usize) -> (table: Self)
        ensures
            table@.len() == max_pages,
            forall|vpn: int| 0 <= vpn < max_pages ==> table@[vpn] is None,
    {
        let mut entries: Vec<Option<PageTableEntry>> = Vec::new();
        let mut i: usize = 0;
        while i < max_pages
            invariant
                i <= max_pages,
                entries.len() == i,
                forall|vpn: int| 0 <= vpn < i ==> entries@[vpn] is None,
            decreases max_pages - i,
        {
            entries.push(None);
            i += 1;
        }
        SingleLevelPageTable { entries }
    }

    /// The number of virtual pages that the table has room for.
    pub fn capacity(&self) -> (n: usize)
        ensures
            n == self@.len(),
    {
        self.entries.len()
    }

    /// Maps the virtual page `vpn` to the physical page `ppn` with `flags`.
    /// An earlier mapping of the page is replaced.
    pub fn map(&mut self, vpn: usize, ppn: u32, flags: u8)
        requires
            vpn < old(self)@.len(),
        ensures
            final(self)@ == old(self)@.update(vpn as int, Some(PageTableEntry { ppn, flags })),
    {
        self.entries.set(vpn, Some(PageTableEntry { ppn, flags }));
    }

    /// Takes the mapping of the virtual page `vpn` away.
    pub fn unmap(&mut self, vpn: usize)
        requires
            vpn < old(self)@.len(),
        ensures
            final(self)@ == old(self)@.update(vpn as int, None),
    {
        self.entries.set(vpn, None);
    }

    /// The entry of the virtual page `vpn`, if the page is mapped.
    pub fn lookup(&self, vpn: usize) -> (entry: Option<&PageTableEntry>)
        ensures
            match entry {
                Some(e) => vpn < self@.len() && self@[vpn as int] == Some(*e),
                None => vpn >= self@.len() || self@[vpn as int] is None,
            },
    {
        if vpn >= self.entries.len() {
            return None;
        }
        match &self.entries[vpn] {
            Some(e) => Some(e),
            None => None,
        }
    }

    /// Translates the virtual address `va` for a read, or for a write if
    /// `is_write` is set.
    pub fn translate(&self, va: u32, is_write: bool) -> (r: TranslateResult)
        ensures
            r == translation(self@, va, is_write),
    {
        let vpn = va_to_vpn(va);
        let offset = va_to_offset(va);
        match self.lookup(vpn) {
            None => TranslateResult::PageFault,
            Some(entry) => {
                if entry.flags & PTE_VALID == 0 {
                    TranslateResult::PageFault
                } else if is_write && entry.flags & PTE_WRITE == 0 {
                    TranslateResult::PermissionDenied
                } else {
                    TranslateResult::Translated(make_pa(entry.ppn, offset))
                }
            },
        }
    }
}

/// The virtual page number of `va`: the address without its low 12 bits.
pub fn va_to_vpn(va: u32) -> (vpn: usize)
    ensures
        vpn == vpn_of(va),
        vpn < 0x10_0000,
{
    assert(va >> 12 == va / 4096) by (bit_vector);
    (va >> PAGE_OFFSET_BITS) as usize
}

/// The offset of `va` into its page: its low 12 bits.
pub fn va_to_offset(va: u32) -> (offset: u32)
    ensures
        offset == offset_of(va),
        offset < 4096,
{
    assert(va & 0xFFF == va % 4096) by (bit_vector);
    va & 0xFFF
}

/// The physical address at `offset` into the physical page `ppn`. Page
/// numbers of more than 20 bits do not fit into an address: their high bits
/// are dropped.
pub fn make_pa(ppn: u32, offset: u32) -> (pa: u32)
    ensures
        pa == pa_of(ppn, offset),
        ppn < 0x10_0000 && offset < 4096 ==> pa == ppn * 4096 + offset,
{
    let wide: u64 = (ppn as u64) * 4096 + (offset as u64);
    (wide % 0x1_0000_0000) as u32
}

/// An address is put together again from its page number and its offset.
pub proof fn lemma_va_parts(va: u32)
    ensures
        vpn_of(va) * 4096 + offset_of(va) == va,
        offset_of(va) < 4096,
        vpn_of(va) < 0x10_0000,
{
}

/// A page that has just been mapped as valid translates, for reading, to
/// the page it was mapped to, at the same offset.
pub proof fn lemma_mapped_page_translates(
    table: Seq<Option<PageTableEntry>>,
    va: u32,
    ppn: u32,
    flags: u8,
)
    requires
        vpn_of(va) < table.len(),
        flag_set(flags, PTE_VALID),
    ensures
        translation(
            table.update(vpn_of(va) as int, Some(PageTableEntry { ppn, flags })),
            va,
            false,
        ) == TranslateResult::Translated(pa_of(ppn, offset_of(va))),
{
}

/// Mapping or unmapping one page leaves the translation of every address
/// in another page as it was.
pub proof fn lemma_other_pages_unchanged(
    table: Seq<Option<PageTableEntry>>,
    vpn: int,
    entry: Option<PageTableEntry>,
    va: u32,
    is_write: bool,
)
    requires
        0 <= vpn < table.len(),
        vpn_of(va) != vpn,
    ensures
        translation(table.update(vpn, entry), va, is_write) == translation(table, va, is_write),
{
}

} // verus!
