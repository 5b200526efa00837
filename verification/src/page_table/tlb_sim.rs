//! A translation lookaside buffer of fixed size with first-in, first-out
//! replacement, and a memory management unit that asks it first and walks
//! its page table on a miss.

use vstd::prelude::*;

verus! {

/// One slot of the buffer.
#[derive(Clone, Copy, Debug)]
pub struct TlbEntry {
    pub valid: bool,
    pub asid: u16,
    pub vpn: u64,
    pub ppn: u64,
    pub flags: u64,
}

impl TlbEntry {
    /// A slot that holds nothing.
    pub fn empty() -> (e: Self)
        ensures
            e == (TlbEntry { valid: false, asid: 0, vpn: 0, ppn: 0, flags: 0 }),
    {
        TlbEntry { valid: false, asid: 0, vpn: 0, ppn: 0, flags: 0 }
    }
}

/// How often the buffer was asked with and without success.
#[derive(Debug, Default)]
pub struct TlbStats {
    pub hits: u64,
    pub misses: u64,
}

/// Whether a slot answers a lookup of the page `vpn` in the address space
/// `asid`: it is valid and holds that page of that space.
pub open spec fn answers(e: TlbEntry, vpn: u64, asid: u16) -> bool {
    e.valid && e.vpn == vpn && e.asid == asid
}

/// The place of the first slot from `from` on that answers, if any.
pub open spec fn find_from(entries: Seq<TlbEntry>, vpn: u64, asid: u16, from: int) -> Option<int>
    decreases entries.len() - from,
{
    if from < 0 || from >= entries.len() {
        None
    } else if answers(entries[from], vpn, asid) {
        Some(from)
    } else {
        find_from(entries, vpn, asid, from + 1)
    }
}

/// The place of the first slot that answers, if any.
pub open spec fn find(entries: Seq<TlbEntry>, vpn: u64, asid: u16) -> Option<int> {
    find_from(entries, vpn, asid, 0)
}

/// The physical page that the buffer holds for a page of an address space.
pub open spec fn cached(entries: Seq<TlbEntry>, vpn: u64, asid: u16) -> Option<u64> {
    match find(entries, vpn, asid) {
        Some(at) => Some(entries[at].ppn),
        None => None,
    }
}

/// The slots after a mapping has been put in: the slot that holds the page
/// already is overwritten, and if there is none the slot that the FIFO
/// pointer names.
pub open spec fn inserted(
    entries: Seq<TlbEntry>,
    fifo_ptr: int,
    vpn: u64,
    ppn: u64,
    asid: u16,
    flags: u64,
) -> Seq<TlbEntry> {
    let fresh = TlbEntry { valid: true, asid, vpn, ppn, flags };
    match find(entries, vpn, asid) {
        Some(at) => entries.update(at, fresh),
        None => entries.update(fifo_ptr, fresh),
    }
}

/// The FIFO pointer after a mapping has been put in: it moves on, and back
/// to the first slot after the last, only if a slot was replaced.
pub open spec fn advanced(entries: Seq<TlbEntry>, fifo_ptr: int, vpn: u64, asid: u16) -> int {
    match find(entries, vpn, asid) {
        Some(_) => fifo_ptr,
        None => if fifo_ptr + 1 < entries.len() {
            fifo_ptr + 1
        } else {
            0
        },
    }
}

/// The slots with each one that `hit` selects made invalid.
pub open spec fn flushed(entries: Seq<TlbEntry>, hit: spec_fn(TlbEntry) -> bool) -> Seq<TlbEntry> {
    Seq::new(
        entries.len(),
        |i: int|
            if hit(entries[i]) {
                TlbEntry { valid: false, ..entries[i] }
            } else {
                entries[i]
            },
    )
}

/// The number of valid slots.
pub open spec fn count_valid(entries: Seq<TlbEntry>) -> nat
    decreases entries.len(),
{
    if entries.len() == 0 {
        0
    } else {
        count_valid(entries.drop_last()) + if entries.last().valid {
            1nat
        } else {
            0nat
        }
    }
}

proof fn lemma_find_from(entries: Seq<TlbEntry>, vpn: u64, asid: u16, from: int)
    requires
        0 <= from,
    ensures
        match find_from(entries, vpn, asid, from) {
            Some(at) => from <= at < entries.len() && answers(entries[at], vpn, asid)
                && forall|j: int| from <= j < at ==> !answers(entries[j], vpn, asid),
            None => forall|j: int| from <= j < entries.len() ==> !answers(entries[j], vpn, asid),
        },
    decreases entries.len() - from,
{
    if from < entries.len() && !answers(entries[from], vpn, asid) {
        lemma_find_from(entries, vpn, asid, from + 1);
    }
}

/// What `find` gives is the first slot that answers; it gives nothing only
/// if no slot answers.
pub proof fn lemma_find(entries: Seq<TlbEntry>, vpn: u64, asid: u16)
    ensures
        match find(entries, vpn, asid) {
            Some(at) => 0 <= at < entries.len() && answers(entries[at], vpn, asid) && forall|
                j: int,
            |
                0 <= j < at ==> !answers(entries[j], vpn, asid),
            None => forall|j: int| 0 <= j < entries.len() ==> !answers(entries[j], vpn, asid),
        },
{
    lemma_find_from(entries, vpn, asid, 0);
}

/// A translation lookaside buffer.
pub struct Tlb {
    entries: Vec<TlbEntry>,
    capacity: usize,
    fifo_ptr: usize,
    pub stats: TlbStats,
}

impl Tlb {
    /// The slots of the buffer.
    pub closed spec fn slots(&self) -> Seq<TlbEntry> {
        self.entries@
    }

    /// The slot that is replaced next.
    pub closed spec fn fifo(&self) -> int {
        self.fifo_ptr as int
    }

    /// How many lookups have found their page.
    pub closed spec fn hits(&self) -> int {
        self.stats.hits as int
    }

    /// How many lookups have not found their page.
    pub closed spec fn misses(&self) -> int {
        self.stats.misses as int
    }

    /// What holds of every buffer: the FIFO pointer names one of its slots,
    /// unless it has none.
    pub closed spec fn wf(&self) -> bool {
        &&& self.entries.len() == self.capacity
        &&& self.capacity > 0 ==> self.fifo_ptr < self.capacity
        &&& self.capacity == 0 ==> self.fifo_ptr == 0
    }

    /// A buffer of `capacity` slots, all empty.
    pub fn new(capacity: usize) -> (tlb: Self)
        ensures
            tlb.wf(),
            tlb.slots().len() == capacity,
            forall|i: int| 0 <= i < capacity ==> !(#[trigger] tlb.slots()[i]).valid,
            tlb.fifo() == 0,
            tlb.hits() == 0,
            tlb.misses() == 0,
    {
        let mut entries: Vec<TlbEntry> = Vec::new();
        let mut i: usize = 0;
        while i < capacity
            invariant
                i <= capacity,
                entries.len() == i,
                forall|j: int| 0 <= j < i ==> !(#[trigger] entries@[j]).valid,
            decreases capacity - i,
        {
            entries.push(TlbEntry::empty());
            i += 1;
        }
        Tlb { entries, capacity, fifo_ptr: 0, stats: TlbStats { hits: 0, misses: 0 } }
    }

    /// The number of slots.
    pub fn capacity(&self) -> (n: usize)
        requires
            self.wf(),
        ensures
            n == self.slots().len(),
    {
        self.capacity
    }

    fn position(&self, vpn: u64, asid: u16) -> (at: Option<usize>)
        ensures
            match at {
                Some(i) => find(self.slots(), vpn, asid) == Some(i as int) && i
                    < self.slots().len(),
                None => find(self.slots(), vpn, asid) is None,
            },
    {
        let mut i: usize = 0;
        while i < self.entries.len()
            invariant
                i <= self.entries.len(),
                find(self.slots(), vpn, asid) == find_from(self.slots(), vpn, asid, i as int),
            decreases self.entries.len() - i,
        {
            let e = &self.entries[i];
            if e.valid && e.vpn == vpn && e.asid == asid {
                return Some(i);
            }
            i += 1;
        }
        None
    }

    /// Looks the page `vpn` of the address space `asid` up and counts the
    /// hit or the miss. The slots stay as they are.
    pub fn lookup(&mut self, vpn: u64, asid: u16) -> (ppn: Option<u64>)
        requires
            old(self).wf(),
            old(self).hits() < u64::MAX,
            old(self).misses() < u64::MAX,
        ensures
            final(self).wf(),
            ppn == cached(old(self).slots(), vpn, asid),
            final(self).slots() == old(self).slots(),
            final(self).fifo() == old(self).fifo(),
            final(self).hits() == old(self).hits() + if ppn is Some {
                1int
            } else {
                0int
            },
            final(self).misses() == old(self).misses() + if ppn is Some {
                0int
            } else {
                1int
            },
    {
        match self.position(vpn, asid) {
            Some(i) => {
                self.stats.hits += 1;
                Some(self.entries[i].ppn)
            },
            None => {
                self.stats.misses += 1;
                None
            },
        }
    }

    /// Puts the mapping of the page `vpn` of the address space `asid` in.
    /// If the buffer holds the page already, that slot is overwritten; else
    /// the oldest slot is replaced.
    pub fn insert(&mut self, vpn: u64, ppn: u64, asid: u16, flags: u64)
        requires
            old(self).wf(),
            old(self).slots().len() > 0,
        ensures
            final(self).wf(),
            final(self).slots() == inserted(
                old(self).slots(),
                old(self).fifo(),
                vpn,
                ppn,
                asid,
                flags,
            ),
            final(self).fifo() == advanced(old(self).slots(), old(self).fifo(), vpn, asid),
            final(self).hits() == old(self).hits(),
            final(self).misses() == old(self).misses(),
            cached(final(self).slots(), vpn, asid) == Some(ppn),
    {
        let fresh = TlbEntry { valid: true, asid, vpn, ppn, flags };
        match self.position(vpn, asid) {
            Some(i) => {
                self.entries.set(i, fresh);
            },
            None => {
                let at = self.fifo_ptr;
                self.entries.set(at, fresh);
                self.fifo_ptr = if at + 1 < self.capacity {
                    at + 1
                } else {
                    0
                };
            },
        }
        proof {
            let before = old(self).slots();
            let after = self.slots();
            lemma_find(before, vpn, asid);
            lemma_find(after, vpn, asid);
            let at = match find(before, vpn, asid) {
                Some(i) => i,
                None => old(self).fifo(),
            };
            assert(after == before.update(at, fresh));
            assert(answers(after[at], vpn, asid));
            match find(after, vpn, asid) {
                Some(k) => {
                    if k < at {
                        assert(after[k] == before[k]);
                        assert(answers(before[k], vpn, asid));
                    }
                    if k > at {
                        assert(!answers(after[at], vpn, asid));
                    }
                },
                None => {
                    assert(!answers(after[at], vpn, asid));
                },
            }
        }
    }

    /// Makes every slot invalid.
    pub fn flush_all(&mut self)
        requires
            old(self).wf(),
        ensures
            final(self).wf(),
            final(self).slots() == flushed(old(self).slots(), |e: TlbEntry| true),
            final(self).fifo() == old(self).fifo(),
            final(self).hits() == old(self).hits(),
            final(self).misses() == old(self).misses(),
    {
        let mut i: usize = 0;
        while i < self.entries.len()
            invariant
                i <= self.entries.len(),
                self.entries.len() == old(self).entries.len(),
                self.capacity == old(self).capacity,
                self.fifo_ptr == old(self).fifo_ptr,
                self.stats == old(self).stats,
                forall|j: int|
                    0 <= j < i ==> self.entries@[j] == (TlbEntry {
                        valid: false,
                        ..old(self).entries@[j]
                    }),
                forall|j: int| i <= j < self.entries.len() ==> self.entries@[j] == old(
                    self,
                ).entries@[j],
            decreases self.entries.len() - i,
        {
            let e = self.entries[i];
            self.entries.set(i, TlbEntry { valid: false, ..e });
            i += 1;
        }
    }

    /// Makes the slots of the page `vpn` invalid, in every address space.
    pub fn flush_by_vpn(&mut self, vpn: u64)
        requires
            old(self).wf(),
        ensures
            final(self).wf(),
            final(self).slots() == flushed(old(self).slots(), |e: TlbEntry| e.vpn == vpn),
            final(self).fifo() == old(self).fifo(),
            final(self).hits() == old(self).hits(),
            final(self).misses() == old(self).misses(),
    {
        let mut i: usize = 0;
        while i < self.entries.len()
            invariant
                i <= self.entries.len(),
                self.entries.len() == old(self).entries.len(),
                self.capacity == old(self).capacity,
                self.fifo_ptr == old(self).fifo_ptr,
                self.stats == old(self).stats,
                forall|j: int|
                    0 <= j < i ==> self.entries@[j] == (if old(self).entries@[j].vpn == vpn {
                        TlbEntry { valid: false, ..old(self).entries@[j] }
                    } else {
                        old(self).entries@[j]
                    }),
                forall|j: int| i <= j < self.entries.len() ==> self.entries@[j] == old(
                    self,
                ).entries@[j],
            decreases self.entries.len() - i,
        {
            let e = self.entries[i];
            if e.vpn == vpn {
                self.entries.set(i, TlbEntry { valid: false, ..e });
            }
            i += 1;
        }
    }

    /// Makes the slots of the address space `asid` invalid.
    pub fn flush_by_asid(&mut self, asid: u16)
        requires
            old(self).wf(),
        ensures
            final(self).wf(),
            final(self).slots() == flushed(old(self).slots(), |e: TlbEntry| e.asid == asid),
            final(self).fifo() == old(self).fifo(),
            final(self).hits() == old(self).hits(),
            final(self).misses() == old(self).misses(),
    {
        let mut i: usize = 0;
        while i < self.entries.len()
            invariant
                i <= self.entries.len(),
                self.entries.len() == old(self).entries.len(),
                self.capacity == old(self).capacity,
                self.fifo_ptr == old(self).fifo_ptr,
                self.stats == old(self).stats,
                forall|j: int|
                    0 <= j < i ==> self.entries@[j] == (if old(self).entries@[j].asid == asid {
                        TlbEntry { valid: false, ..old(self).entries@[j] }
                    } else {
                        old(self).entries@[j]
                    }),
                forall|j: int| i <= j < self.entries.len() ==> self.entries@[j] == old(
                    self,
                ).entries@[j],
            decreases self.entries.len() - i,
        {
            let e = self.entries[i];
            if e.asid == asid {
                self.entries.set(i, TlbEntry { valid: false, ..e });
            }
            i += 1;
        }
    }

    /// The number of valid slots.
    pub fn valid_count(&self) -> (n: usize)
        ensures
            n == count_valid(self.slots()),
    {
        let mut n: usize = 0;
        let mut i: usize = 0;
        while i < self.entries.len()
            invariant
                i <= self.entries.len(),
                n <= i,
                n == count_valid(self.entries@.take(i as int)),
            decreases self.entries.len() - i,
        {
            assert(self.entries@.take(i + 1).drop_last() == self.entries@.take(i as int));
            if self.entries[i].valid {
                n += 1;
            }
            i += 1;
        }
        assert(self.entries@.take(self.entries.len() as int) == self.entries@);
        n
    }
}

/// One mapping of the page table of the memory management unit.
pub struct PageMapping {
    pub vpn: u64,
    pub ppn: u64,
    pub flags: u64,
}

/// The place of the first mapping from `from` on of the page `vpn` in the
/// address space `asid`, if there is one.
pub open spec fn walk_from(table: Seq<(u16, PageMapping)>, asid: u16, vpn: u64, from: int) -> Option<
    int,
>
    decreases table.len() - from,
{
    if from < 0 || from >= table.len() {
        None
    } else if table[from].0 == asid && table[from].1.vpn == vpn {
        Some(from)
    } else {
        walk_from(table, asid, vpn, from + 1)
    }
}

/// The place of the mapping that a walk of the page table finds for the
/// page `vpn` in the address space `asid`: the first one that was added.
pub open spec fn walk(table: Seq<(u16, PageMapping)>, asid: u16, vpn: u64) -> Option<int> {
    walk_from(table, asid, vpn, 0)
}

/// The physical page that a walk of the page table gives for the page `vpn`
/// of the address space `asid`.
pub open spec fn looked_up(table: Seq<(u16, PageMapping)>, asid: u16, vpn: u64) -> Option<u64> {
    match walk(table, asid, vpn) {
        Some(at) => Some(table[at].1.ppn),
        None => None,
    }
}

/// The buffer agrees with the page table: every valid slot holds what a
/// walk of the page table gives for its page.
pub open spec fn coherent(slots: Seq<TlbEntry>, table: Seq<(u16, PageMapping)>) -> bool {
    forall|i: int|
        0 <= i < slots.len() && (#[trigger] slots[i]).valid ==> looked_up(
            table,
            slots[i].asid,
            slots[i].vpn,
        ) == Some(slots[i].ppn)
}

proof fn lemma_walk_from_push(
    table: Seq<(u16, PageMapping)>,
    added: (u16, PageMapping),
    asid: u16,
    vpn: u64,
    from: int,
)
    requires
        0 <= from <= table.len(),
    ensures
        walk_from(table.push(added), asid, vpn, from) == match walk_from(table, asid, vpn, from) {
            Some(at) => Some(at),
            None => if added.0 == asid && added.1.vpn == vpn {
                Some(table.len() as int)
            } else {
                None
            },
        },
        walk_from(table, asid, vpn, from) matches Some(at) ==> from <= at < table.len(),
    decreases table.len() - from,
{
    let longer = table.push(added);
    if from < table.len() {
        assert(longer[from] == table[from]);
        if !(table[from].0 == asid && table[from].1.vpn == vpn) {
            lemma_walk_from_push(table, added, asid, vpn, from + 1);
        }
    } else {
        assert(longer[from] == added);
        assert(walk_from(longer, asid, vpn, from + 1) is None);
        assert(walk_from(table, asid, vpn, from) is None);
    }
}

/// A mapping that is added to the page table changes the walk for its own
/// page only, and only if the page was not mapped before: the walk finds
/// the mapping that was added first.
pub proof fn lemma_added_mapping(
    table: Seq<(u16, PageMapping)>,
    added: (u16, PageMapping),
    asid: u16,
    vpn: u64,
)
    ensures
        looked_up(table.push(added), asid, vpn) == match looked_up(table, asid, vpn) {
            Some(ppn) => Some(ppn),
            None => if added.0 == asid && added.1.vpn == vpn {
                Some(added.1.ppn)
            } else {
                None
            },
        },
{
    lemma_walk_from_push(table, added, asid, vpn, 0);
    let longer = table.push(added);
    match walk(table, asid, vpn) {
        Some(at) => {
            assert(longer[at] == table[at]);
        },
        None => {
            assert(longer[table.len() as int] == added);
        },
    }
}

/// A buffer that agrees with the page table still agrees with it after a
/// mapping has been added to the page table.
pub proof fn lemma_add_mapping_keeps_coherent(
    slots: Seq<TlbEntry>,
    table: Seq<(u16, PageMapping)>,
    added: (u16, PageMapping),
)
    requires
        coherent(slots, table),
    ensures
        coherent(slots, table.push(added)),
{
    assert forall|i: int| 0 <= i < slots.len() && (#[trigger] slots[i]).valid implies looked_up(
        table.push(added),
        slots[i].asid,
        slots[i].vpn,
    ) == Some(slots[i].ppn) by {
        lemma_added_mapping(table, added, slots[i].asid, slots[i].vpn);
    }
}

/// A buffer that agrees with the page table still agrees with it after
/// what a walk has found has been put into it.
pub proof fn lemma_insert_keeps_coherent(
    slots: Seq<TlbEntry>,
    fifo_ptr: int,
    table: Seq<(u16, PageMapping)>,
    vpn: u64,
    asid: u16,
    flags: u64,
)
    requires
        coherent(slots, table),
        0 <= fifo_ptr < slots.len(),
        looked_up(table, asid, vpn) is Some,
    ensures
        coherent(inserted(slots, fifo_ptr, vpn, looked_up(table, asid, vpn)->0, asid, flags), table),
{
    lemma_find(slots, vpn, asid);
    let after = inserted(slots, fifo_ptr, vpn, looked_up(table, asid, vpn)->0, asid, flags);
    let at = match find(slots, vpn, asid) {
        Some(i) => i,
        None => fifo_ptr,
    };
    assert forall|i: int| 0 <= i < after.len() && (#[trigger] after[i]).valid implies looked_up(
        table,
        after[i].asid,
        after[i].vpn,
    ) == Some(after[i].ppn) by {
        if i != at {
            assert(after[i] == slots[i]);
        }
    }
}

/// A buffer that agrees with the page table still agrees with it after any
/// of its slots have been flushed.
pub proof fn lemma_flush_keeps_coherent(
    slots: Seq<TlbEntry>,
    hit: spec_fn(TlbEntry) -> bool,
    table: Seq<(u16, PageMapping)>,
)
    requires
        coherent(slots, table),
    ensures
        coherent(flushed(slots, hit), table),
{
    let after = flushed(slots, hit);
    assert forall|i: int| 0 <= i < after.len() && (#[trigger] after[i]).valid implies looked_up(
        table,
        after[i].asid,
        after[i].vpn,
    ) == Some(after[i].ppn) by {
        assert(slots[i].valid);
    }
}

/// What a buffer that agrees with the page table holds for a page is what
/// a walk of the page table gives for it.
pub proof fn lemma_hit_is_the_walk(
    slots: Seq<TlbEntry>,
    table: Seq<(u16, PageMapping)>,
    vpn: u64,
    asid: u16,
)
    requires
        coherent(slots, table),
        cached(slots, vpn, asid) is Some,
    ensures
        cached(slots, vpn, asid) == looked_up(table, asid, vpn),
{
    lemma_find(slots, vpn, asid);
    let at = find(slots, vpn, asid)->0;
    assert(slots[at].valid);
}

/// A memory management unit: a translation lookaside buffer in front of a
/// page table that holds the mappings of several address spaces.
pub struct Mmu {
    pub tlb: Tlb,
    page_table: Vec<(u16, PageMapping)>,
    pub current_asid: u16,
}

impl Mmu {
    /// The mappings of the page table, in the order in which they were
    /// added, each with its address space.
    pub closed spec fn mappings(&self) -> Seq<(u16, PageMapping)> {
        self.page_table@
    }

    /// The translation lookaside buffer of the unit.
    pub closed spec fn buffer(&self) -> Tlb {
        self.tlb
    }

    /// The current address space.
    pub closed spec fn asid(&self) -> u16 {
        self.current_asid
    }

    /// Whether the buffer agrees with the page table. It does as long as
    /// the buffer is filled through [`Mmu::translate`] alone: the buffer is
    /// then a cache that cannot be told from the page table but by its
    /// count of hits and misses.
    pub open spec fn is_coherent(&self) -> bool {
        coherent(self.buffer().slots(), self.mappings())
    }

    /// A unit with a buffer of `tlb_capacity` slots, no mappings, in the
    /// address space 0.
    pub fn new(tlb_capacity: usize) -> (mmu: Self)
        ensures
            mmu.is_coherent(),
            mmu.buffer().wf(),
            mmu.buffer().slots().len() == tlb_capacity,
            forall|i: int| 0 <= i < tlb_capacity ==> !(#[trigger] mmu.buffer().slots()[i]).valid,
            mmu.buffer().hits() == 0,
            mmu.buffer().misses() == 0,
            mmu.mappings().len() == 0,
            mmu.asid() == 0,
    {
        Mmu { tlb: Tlb::new(tlb_capacity), page_table: Vec::new(), current_asid: 0 }
    }

    /// Adds a mapping of the page `vpn` of the address space `asid` to the
    /// page table. The buffer is left alone.
    pub fn add_mapping(&mut self, asid: u16, vpn: u64, ppn: u64, flags: u64)
        ensures
            final(self).mappings() == old(self).mappings().push(
                (asid, PageMapping { vpn, ppn, flags }),
            ),
            final(self).buffer() == old(self).buffer(),
            final(self).asid() == old(self).asid(),
            old(self).is_coherent() ==> final(self).is_coherent(),
    {
        proof {
            if old(self).is_coherent() {
                lemma_add_mapping_keeps_coherent(
                    old(self).buffer().slots(),
                    old(self).mappings(),
                    (asid, PageMapping { vpn, ppn, flags }),
                );
            }
        }
        self.page_table.push((asid, PageMapping { vpn, ppn, flags }));
    }

    /// Makes `new_asid` the current address space. The buffer keeps what it
    /// holds: its slots carry their address space.
    pub fn switch_asid(&mut self, new_asid: u16)
        ensures
            final(self).asid() == new_asid,
            final(self).buffer() == old(self).buffer(),
            final(self).mappings() == old(self).mappings(),
    {
        self.current_asid = new_asid;
    }

    fn walk_table(&self, vpn: u64) -> (at: Option<usize>)
        ensures
            match at {
                Some(i) => walk(self.mappings(), self.asid(), vpn) == Some(i as int) && i
                    < self.mappings().len(),
                None => walk(self.mappings(), self.asid(), vpn) is None,
            },
    {
        let mut i: usize = 0;
        while i < self.page_table.len()
            invariant
                i <= self.page_table.len(),
                walk(self.mappings(), self.asid(), vpn) == walk_from(
                    self.mappings(),
                    self.asid(),
                    vpn,
                    i as int,
                ),
            decreases self.page_table.len() - i,
        {
            let m = &self.page_table[i];
            if m.0 == self.current_asid && m.1.vpn == vpn {
                return Some(i);
            }
            i += 1;
        }
        None
    }

    /// Translates the page `vpn` of the current address space. The buffer
    /// is asked first. On a miss the page table is walked, and what the walk
    /// finds is put into the buffer. A page without a mapping is a fault.
    pub fn translate(&mut self, vpn: u64) -> (ppn: Option<u64>)
        requires
            old(self).buffer().wf(),
            old(self).buffer().slots().len() > 0,
            old(self).buffer().hits() < u64::MAX,
            old(self).buffer().misses() < u64::MAX,
        ensures
            final(self).buffer().wf(),
            final(self).asid() == old(self).asid(),
            final(self).mappings() == old(self).mappings(),
            final(self).buffer().slots().len() == old(self).buffer().slots().len(),
            old(self).is_coherent() ==> final(self).is_coherent() && ppn == looked_up(
                old(self).mappings(),
                old(self).asid(),
                vpn,
            ),
            match cached(old(self).buffer().slots(), vpn, old(self).asid()) {
                Some(hit) => {
                    &&& ppn == Some(hit)
                    &&& final(self).buffer().slots() == old(self).buffer().slots()
                    &&& final(self).buffer().fifo() == old(self).buffer().fifo()
                    &&& final(self).buffer().hits() == old(self).buffer().hits() + 1
                    &&& final(self).buffer().misses() == old(self).buffer().misses()
                },
                None => {
                    &&& final(self).buffer().hits() == old(self).buffer().hits()
                    &&& final(self).buffer().misses() == old(self).buffer().misses() + 1
                    &&& match walk(old(self).mappings(), old(self).asid(), vpn) {
                        Some(at) => {
                            let found = old(self).mappings()[at].1;
                            &&& ppn == Some(found.ppn)
                            &&& final(self).buffer().slots() == inserted(
                                old(self).buffer().slots(),
                                old(self).buffer().fifo(),
                                vpn,
                                found.ppn,
                                old(self).asid(),
                                found.flags,
                            )
                            &&& final(self).buffer().fifo() == advanced(
                                old(self).buffer().slots(),
                                old(self).buffer().fifo(),
                                vpn,
                                old(self).asid(),
                            )
                        },
                        None => {
                            &&& ppn is None
                            &&& final(self).buffer().slots() == old(self).buffer().slots()
                            &&& final(self).buffer().fifo() == old(self).buffer().fifo()
                        },
                    }
                },
            },
    {
        let asid = self.current_asid;
        proof {
            if old(self).is_coherent() {
                if cached(old(self).buffer().slots(), vpn, asid) is Some {
                    lemma_hit_is_the_walk(
                        old(self).buffer().slots(),
                        old(self).mappings(),
                        vpn,
                        asid,
                    );
                } else if looked_up(old(self).mappings(), asid, vpn) is Some {
                    lemma_insert_keeps_coherent(
                        old(self).buffer().slots(),
                        old(self).buffer().fifo(),
                        old(self).mappings(),
                        vpn,
                        asid,
                        old(self).mappings()[walk(old(self).mappings(), asid, vpn)->0].1.flags,
                    );
                }
            }
        }
        match self.tlb.lookup(vpn, asid) {
            Some(ppn) => Some(ppn),
            None => {
                match self.walk_table(vpn) {
                    Some(i) => {
                        let ppn = self.page_table[i].1.ppn;
                        let flags = self.page_table[i].1.flags;
                        self.tlb.insert(vpn, ppn, asid, flags);
                        Some(ppn)
                    },
                    None => None,
                }
            },
        }
    }
}

} // verus!
