//! The page table of three levels of SV39.
//!
//! ```text
//! 38        30 29       21 20       12 11        0
//! |  VPN[2]   |  VPN[1]   |  VPN[0]   |  offset   |
//! ```
//!
//! The tables live in a simulated physical memory: a map from the physical
//! page number of a table to the table.

use std::collections::HashMap;
use vstd::prelude::*;

verus! {

broadcast use vstd::std_specs::hash::group_hash_axioms;

/// The size of a page in bytes.
pub const PAGE_SIZE: usize = 4096;
/// The number of entries of one table.
pub const PT_ENTRIES: usize = 512;

/// Valid.
pub const PTE_V: u64 = 0x01;
/// Readable.
pub const PTE_R: u64 = 0x02;
/// Writable.
pub const PTE_W: u64 = 0x04;
/// Executable.
pub const PTE_X: u64 = 0x08;

/// The physical page number of the root table of a new page table.
pub const ROOT_PPN: u64 = 0x80000;
/// No table is placed at or above this physical page number: a page number
/// has 44 bits.
pub const PPN_LIMIT: u64 = 0x1000_0000_0000;

/// One table: 512 entries.
#[derive(Clone, Copy)]
pub struct PageTableNode {
    pub entries: [u64; 512],
}

/// What the translation of a virtual address gives.
#[derive(Debug, PartialEq, Eq, Structural)]
pub enum TranslateResult {
    /// The physical address.
    Translated(u64),
    /// The address is not mapped.
    PageFault,
}

/// The index into the table of `level` that the virtual address `va`
/// selects: nine bits of it, from bit 12 on at level 0, from bit 21 on at
/// level 1 and from bit 30 on at level 2.
pub open spec fn vpn_index(va: u64, level: int) -> int {
    if level <= 0 {
        ((va / 0x1000) % 512) as int
    } else if level == 1 {
        ((va / 0x20_0000) % 512) as int
    } else {
        ((va / 0x4000_0000) % 512) as int
    }
}

/// The offset of `va` into the page that a leaf of `level` maps: a page of
/// 4 KiB at level 0, of 2 MiB at level 1 and of 1 GiB at level 2.
pub open spec fn page_offset(va: u64, level: int) -> int {
    if level <= 0 {
        (va % 0x1000) as int
    } else if level == 1 {
        (va % 0x20_0000) as int
    } else {
        (va % 0x4000_0000) as int
    }
}

/// Whether an entry is valid.
pub open spec fn entry_valid(pte: u64) -> bool {
    pte & 0x01 != 0
}

/// Whether an entry maps a page, rather than pointing to the next table.
pub open spec fn entry_leaf(pte: u64) -> bool {
    pte & 0x0E != 0
}

/// The physical page number that an entry holds.
pub open spec fn entry_ppn(pte: u64) -> u64 {
    (pte >> 10) & 0xFFF_FFFF_FFFFu64
}

/// The entry that points to the table at the physical page `child`.
pub open spec fn link_to(child: u64) -> u64 {
    (child << 10) | 0x01
}

/// The entry that maps the page of the physical address `pa` with `flags`.
pub open spec fn leaf_for(pa: u64, flags: u64) -> u64 {
    ((pa >> 12) << 10) | flags
}

/// The tables of a page table as specifications see them: each table is the
/// sequence of its entries.
pub struct Sv39Model {
    /// The physical memory that holds the tables.
    pub nodes: Map<u64, Seq<u64>>,
    /// The physical page number of the root table.
    pub root: u64,
    /// The physical page number that the next new table gets.
    pub next: u64,
}

/// A table in which no entry is valid.
pub open spec fn blank() -> Seq<u64> {
    Seq::new(512, |i: int| 0u64)
}

impl Sv39Model {
    /// What holds of every page table: every table has 512 entries, the
    /// root table exists, and the page numbers from `next` on are free.
    pub open spec fn wf(self) -> bool {
        &&& self.nodes.dom().contains(self.root)
        &&& self.next <= PPN_LIMIT
        &&& forall|k: u64| #[trigger] self.nodes.dom().contains(k) ==> k < self.next
        &&& forall|k: u64| #[trigger] self.nodes.dom().contains(k) ==> self.nodes[k].len() == 512
    }

    /// How many tables can still be created.
    pub open spec fn spare(self) -> int {
        PPN_LIMIT - self.next
    }

    /// Whether the walk can go on through `pte`: the entry is valid, is not
    /// a leaf, and the table it points to exists.
    pub open spec fn usable(self, pte: u64) -> bool {
        entry_valid(pte) && !entry_leaf(pte) && self.nodes.dom().contains(entry_ppn(pte))
    }

    /// The page table with the entry `idx` of the table at `table` set to
    /// `pte`.
    pub open spec fn with_entry(self, table: u64, idx: int, pte: u64) -> Sv39Model {
        Sv39Model { nodes: self.nodes.insert(table, self.nodes[table].update(idx, pte)), ..self }
    }

    /// One step down from the table at `table` through its entry `idx`, on
    /// the way to a new mapping. If the walk can go on through the entry,
    /// nothing changes. Otherwise a new table is created and the entry is
    /// made to point to it, in place of whatever it held. Gives the page
    /// table after the step and the table that the step arrives at.
    pub open spec fn descend(self, table: u64, idx: int) -> (Sv39Model, u64) {
        let pte = self.nodes[table][idx];
        if self.usable(pte) {
            (self, entry_ppn(pte))
        } else {
            let child = self.next;
            let grown = Sv39Model {
                nodes: self.nodes.insert(child, blank()),
                next: (child + 1) as u64,
                ..self
            };
            (grown.with_entry(table, idx, link_to(child)), child)
        }
    }

    /// The page table after the page of `va` has been mapped to the page of
    /// `pa` with `flags` by a leaf at `leaf_level`: level 0 for a page of
    /// 4 KiB, level 1 for one of 2 MiB.
    pub open spec fn mapped(self, va: u64, pa: u64, flags: u64, leaf_level: int) -> Sv39Model {
        let (m1, t1) = self.descend(self.root, vpn_index(va, 2));
        if leaf_level >= 1 {
            m1.with_entry(t1, vpn_index(va, 1), leaf_for(pa, flags))
        } else {
            let (m2, t0) = m1.descend(t1, vpn_index(va, 1));
            m2.with_entry(t0, vpn_index(va, 0), leaf_for(pa, flags))
        }
    }

    /// The walk for `va` from the table at `table`, which is of `level`. An
    /// entry that is not valid, a table that does not exist, and an entry of
    /// level 0 that is not a leaf are page faults. A leaf gives the address
    /// at the offset of `va` into the page that the leaf maps.
    pub open spec fn walk(self, table: u64, va: u64, level: int) -> TranslateResult
        decreases level,
    {
        if !self.nodes.dom().contains(table) {
            TranslateResult::PageFault
        } else {
            let pte = self.nodes[table][vpn_index(va, level)];
            if !entry_valid(pte) {
                TranslateResult::PageFault
            } else if entry_leaf(pte) {
                TranslateResult::Translated(
                    (entry_ppn(pte) * 4096 + page_offset(va, level)) as u64,
                )
            } else if level <= 0 {
                TranslateResult::PageFault
            } else {
                self.walk(entry_ppn(pte), va, level - 1)
            }
        }
    }

    /// What the translation of `va` gives.
    pub open spec fn translation(self, va: u64) -> TranslateResult {
        self.walk(self.root, va, 2)
    }
}

impl PageTableNode {
    /// A table in which no entry is valid.
    pub fn new() -> (node: Self)
        ensures
            node.entries@ == blank(),
    {
        let node = PageTableNode { entries: [0u64; 512] };
        assert(node.entries@ =~= blank());
        node
    }
}

impl Default for PageTableNode {
    /// A table in which no entry is valid.
    fn default() -> (node: Self)
        ensures
            node.entries@ == blank(),
    {
        PageTableNode::new()
    }
}

/// A page table of three levels with the memory that holds its tables.
pub struct Sv39PageTable {
    nodes: HashMap<u64, PageTableNode>,
    pub root_ppn: u64,
    next_ppn: u64,
}

impl View for Sv39PageTable {
    type V = Sv39Model;

    closed spec fn view(&self) -> Sv39Model {
        Sv39Model {
            nodes: self.nodes@.map_values(|n: PageTableNode| n.entries@),
            root: self.root_ppn,
            next: self.next_ppn,
        }
    }
}

fn level_index(va: u64, level: usize) -> (idx: usize)
    requires
        level <= 2,
    ensures
        idx == vpn_index(va, level as int),
        idx < 512,
{
    assert((va >> 12) & 0x1FF == (va / 0x1000) % 512) by (bit_vector);
    assert((va >> 21) & 0x1FF == (va / 0x20_0000) % 512) by (bit_vector);
    assert((va >> 30) & 0x1FF == (va / 0x4000_0000) % 512) by (bit_vector);
    if level == 0 {
        ((va >> 12) & 0x1FF) as usize
    } else if level == 1 {
        ((va >> 21) & 0x1FF) as usize
    } else {
        ((va >> 30) & 0x1FF) as usize
    }
}

fn level_offset(va: u64, level: usize) -> (offset: u64)
    requires
        level <= 2,
    ensures
        offset == page_offset(va, level as int),
        offset < 0x4000_0000,
{
    if level == 0 {
        va % 0x1000
    } else if level == 1 {
        va % 0x20_0000
    } else {
        va % 0x4000_0000
    }
}

fn ppn_in(pte: u64) -> (ppn: u64)
    ensures
        ppn == entry_ppn(pte),
        ppn < PPN_LIMIT,
{
    assert(((pte >> 10) & 0xFFF_FFFF_FFFFu64) < 0x1000_0000_0000u64) by (bit_vector);
    (pte >> 10) & 0xFFF_FFFF_FFFF
}

impl Sv39PageTable {
    /// An empty page table: a root table without a valid entry.
    pub fn new() -> (pt: Self)
        ensures
            pt@.wf(),
            pt@.well_layered(),
            pt@.root == ROOT_PPN,
            pt@.next == ROOT_PPN + 1,
            pt@.nodes == Map::<u64, Seq<u64>>::empty().insert(ROOT_PPN, blank()),
    {
        let mut nodes: HashMap<u64, PageTableNode> = HashMap::new();
        nodes.insert(ROOT_PPN, PageTableNode::new());
        let pt = Sv39PageTable { nodes, root_ppn: ROOT_PPN, next_ppn: ROOT_PPN + 1 };
        assert(pt@.nodes =~= Map::<u64, Seq<u64>>::empty().insert(ROOT_PPN, blank()));
        proof {
            lemma_new_is_layered();
        }
        pt
    }

    /// The index into the table of `level` that `va` selects.
    pub fn extract_vpn(va: u64, level: usize) -> (idx: usize)
        requires
            level <= 2,
        ensures
            idx == vpn_index(va, level as int),
            idx < 512,
    {
        level_index(va, level)
    }

    fn set_entry(&mut self, table: u64, idx: usize, pte: u64)
        requires
            old(self)@.wf(),
            old(self)@.nodes.dom().contains(table),
            idx < 512,
        ensures
            final(self)@ == old(self)@.with_entry(table, idx as int, pte),
            final(self)@.wf(),
    {
        let node = self.nodes.get(&table);
        let mut copy = match node {
            Some(n) => *n,
            None => PageTableNode::new(),
        };
        copy.entries[idx] = pte;
        self.nodes.insert(table, copy);
        assert(self@.nodes =~= old(self)@.nodes.insert(
            table,
            old(self)@.nodes[table].update(idx as int, pte),
        ));
    }

    fn descend(&mut self, table: u64, idx: usize) -> (child: u64)
        requires
            old(self)@.wf(),
            old(self)@.spare() >= 1,
            old(self)@.nodes.dom().contains(table),
            idx < 512,
        ensures
            (final(self)@, child) == old(self)@.descend(table, idx as int),
            final(self)@.wf(),
            final(self)@.nodes.dom().contains(child),
            final(self)@.spare() >= old(self)@.spare() - 1,
    {
        let pte = match self.nodes.get(&table) {
            Some(n) => n.entries[idx],
            None => 0,
        };
        let target = ppn_in(pte);
        if pte & 0x01 != 0 && pte & 0x0E == 0 && self.nodes.contains_key(&target) {
            return target;
        }
        let child = self.next_ppn;
        self.nodes.insert(child, PageTableNode::new());
        self.next_ppn = child + 1;
        let ghost grown = self@;
        assert(grown.nodes =~= old(self)@.nodes.insert(child, blank()));
        assert(grown.wf());
        self.set_entry(table, idx, (child << 10) | 0x01);
        child
    }

    /// Maps the page of 4 KiB of the virtual address `va` to the page of
    /// the physical address `pa`, with `flags`. The tables on the way that
    /// are missing are created. An earlier mapping of the page is replaced;
    /// so is a larger page that covers it.
    pub fn map_page(&mut self, va: u64, pa: u64, flags: u64)
        requires
            old(self)@.wf(),
            old(self)@.spare() >= 2,
        ensures
            final(self)@ == old(self)@.mapped(va, pa, flags, 0),
            final(self)@.wf(),
            old(self)@.well_layered() && !entry_link(leaf_for(pa, flags))
                ==> final(self)@.well_layered(),
    {
        proof {
            if old(self)@.well_layered() && !entry_link(leaf_for(pa, flags)) {
                lemma_mapped_is_layered(old(self)@, va, pa, flags, 0);
            }
        }
        let root = self.root_ppn;
        let t1 = self.descend(root, level_index(va, 2));
        let t0 = self.descend(t1, level_index(va, 1));
        self.set_entry(t0, level_index(va, 0), ((pa >> 12) << 10) | flags);
    }

    /// Maps the page of 2 MiB of the virtual address `va` to the page of
    /// the physical address `pa`, with `flags`, by a leaf at level 1. Both
    /// addresses must be multiples of 2 MiB.
    pub fn map_superpage(&mut self, va: u64, pa: u64, flags: u64)
        requires
            old(self)@.wf(),
            old(self)@.spare() >= 1,
            va % 0x20_0000 == 0,
            pa % 0x20_0000 == 0,
        ensures
            final(self)@ == old(self)@.mapped(va, pa, flags, 1),
            final(self)@.wf(),
            old(self)@.well_layered() && !entry_link(leaf_for(pa, flags))
                ==> final(self)@.well_layered(),
    {
        proof {
            if old(self)@.well_layered() && !entry_link(leaf_for(pa, flags)) {
                lemma_mapped_is_layered(old(self)@, va, pa, flags, 1);
            }
        }
        let root = self.root_ppn;
        let t1 = self.descend(root, level_index(va, 2));
        self.set_entry(t1, level_index(va, 1), ((pa >> 12) << 10) | flags);
    }

    fn walk(&self, table: u64, va: u64, level: usize) -> (r: TranslateResult)
        requires
            level <= 2,
        ensures
            r == self@.walk(table, va, level as int),
        decreases level,
    {
        match self.nodes.get(&table) {
            None => TranslateResult::PageFault,
            Some(node) => {
                let pte = node.entries[level_index(va, level)];
                if pte & 0x01 == 0 {
                    TranslateResult::PageFault
                } else if pte & 0x0E != 0 {
                    let ppn = ppn_in(pte);
                    TranslateResult::Translated(ppn * 4096 + level_offset(va, level))
                } else if level == 0 {
                    TranslateResult::PageFault
                } else {
                    self.walk(ppn_in(pte), va, level - 1)
                }
            },
        }
    }

    /// Translates the virtual address `va` by a walk through the three
    /// levels, from the root table down.
    pub fn translate(&self, va: u64) -> (r: TranslateResult)
        ensures
            r == self@.translation(va),
    {
        self.walk(self.root_ppn, va, 2)
    }
}

impl Default for Sv39PageTable {
    /// An empty page table.
    fn default() -> (pt: Self)
        ensures
            pt@.wf(),
            pt@.well_layered(),
            pt@.root == ROOT_PPN,
            pt@.next == ROOT_PPN + 1,
            pt@.nodes == Map::<u64, Seq<u64>>::empty().insert(ROOT_PPN, blank()),
    {
        Sv39PageTable::new()
    }
}

/// The entry that points to a table is valid, is not a leaf, and holds the
/// page number of the table.
pub proof fn lemma_link(child: u64)
    requires
        child < PPN_LIMIT,
    ensures
        entry_valid(link_to(child)),
        !entry_leaf(link_to(child)),
        entry_ppn(link_to(child)) == child,
{
    assert(child < 0x1000_0000_0000u64 ==> (((child << 10) | 0x01) & 0x01 != 0) && (((child << 10)
        | 0x01) & 0x0E == 0) && ((((child << 10) | 0x01) >> 10) & 0xFFF_FFFF_FFFFu64) == child)
        by (bit_vector);
}

/// What one step down on the way to a new mapping leaves behind: the entry
/// that was stepped through leads to the table that the step arrived at,
/// and nothing else of the tables that were there has changed.
pub proof fn lemma_descend(m: Sv39Model, table: u64, idx: int)
    requires
        m.wf(),
        m.spare() >= 1,
        m.nodes.dom().contains(table),
        0 <= idx < 512,
    ensures
        ({
            let (after, child) = m.descend(table, idx);
            &&& after.wf()
            &&& after.root == m.root
            &&& after.spare() >= m.spare() - 1
            &&& after.nodes.dom().contains(child)
            &&& m.nodes.dom().contains(child) || child == m.next
            &&& after.usable(after.nodes[table][idx])
            &&& entry_ppn(after.nodes[table][idx]) == child
            &&& forall|k: u64| m.nodes.dom().contains(k) ==> after.nodes.dom().contains(k)
            &&& forall|k: u64|
                m.nodes.dom().contains(k) && k != table ==> after.nodes[k] == m.nodes[k]
            &&& forall|j: int|
                0 <= j < 512 && j != idx ==> after.nodes[table][j] == m.nodes[table][j]
        }),
{
    let pte = m.nodes[table][idx];
    if !m.usable(pte) {
        lemma_link(m.next);
    }
}

/// After a page has been mapped, every address in it translates to the same
/// offset into the page it was mapped to. This holds where the tables on
/// the way from the root to the leaf are three tables and not one table
/// reached twice; [`lemma_layered_page_translates`] shows that they are in
/// every page table that has only ever been given leaves to map.
pub proof fn lemma_mapped_page_translates(m: Sv39Model, va: u64, pa: u64, flags: u64, at: u64)
    requires
        m.wf(),
        m.spare() >= 2,
        entry_valid(leaf_for(pa, flags)),
        entry_leaf(leaf_for(pa, flags)),
        vpn_index(at, 2) == vpn_index(va, 2),
        vpn_index(at, 1) == vpn_index(va, 1),
        vpn_index(at, 0) == vpn_index(va, 0),
        ({
            let (m1, t1) = m.descend(m.root, vpn_index(va, 2));
            let (m2, t0) = m1.descend(t1, vpn_index(va, 1));
            t1 != m.root && t0 != m.root && t0 != t1
        }),
    ensures
        m.mapped(va, pa, flags, 0).translation(at) == TranslateResult::Translated(
            (entry_ppn(leaf_for(pa, flags)) * 4096 + at % 0x1000) as u64,
        ),
{
    let i2 = vpn_index(va, 2);
    let i1 = vpn_index(va, 1);
    let i0 = vpn_index(va, 0);
    let (m1, t1) = m.descend(m.root, i2);
    lemma_descend(m, m.root, i2);
    let (m2, t0) = m1.descend(t1, i1);
    lemma_descend(m1, t1, i1);
    let m3 = m2.with_entry(t0, i0, leaf_for(pa, flags));
    assert(m3 == m.mapped(va, pa, flags, 0));
    assert(m3.nodes[m.root] == m1.nodes[m.root]);
    assert(m3.nodes[t1] == m2.nodes[t1]);
    assert(m3.nodes[t0][i0] == leaf_for(pa, flags));
    assert(m3.nodes.dom().contains(m.root));
    assert(m3.nodes.dom().contains(t1));
    assert(m3.nodes.dom().contains(t0));
    assert(m3.walk(t0, at, 0) == TranslateResult::Translated(
        (entry_ppn(leaf_for(pa, flags)) * 4096 + at % 0x1000) as u64,
    ));
    assert(m3.walk(t1, at, 1) == m3.walk(t0, at, 0));
    assert(m3.walk(m.root, at, 2) == m3.walk(t1, at, 1));
}

/// In a new page table the first page that is mapped translates as it was
/// mapped.
pub proof fn lemma_first_mapping_translates(va: u64, pa: u64, flags: u64, at: u64)
    requires
        entry_valid(leaf_for(pa, flags)),
        entry_leaf(leaf_for(pa, flags)),
        vpn_index(at, 2) == vpn_index(va, 2),
        vpn_index(at, 1) == vpn_index(va, 1),
        vpn_index(at, 0) == vpn_index(va, 0),
    ensures
        ({
            let fresh = Sv39Model {
                nodes: Map::<u64, Seq<u64>>::empty().insert(ROOT_PPN, blank()),
                root: ROOT_PPN,
                next: (ROOT_PPN + 1) as u64,
            };
            fresh.mapped(va, pa, flags, 0).translation(at) == TranslateResult::Translated(
                (entry_ppn(leaf_for(pa, flags)) * 4096 + at % 0x1000) as u64,
            )
        }),
{
    let fresh = Sv39Model {
        nodes: Map::<u64, Seq<u64>>::empty().insert(ROOT_PPN, blank()),
        root: ROOT_PPN,
        next: (ROOT_PPN + 1) as u64,
    };
    assert(!entry_valid(0u64)) by (bit_vector);
    assert(fresh.wf());
    let (m1, t1) = fresh.descend(ROOT_PPN, vpn_index(va, 2));
    assert(fresh.nodes[ROOT_PPN][vpn_index(va, 2)] == 0);
    assert(t1 == ROOT_PPN + 1);
    lemma_descend(fresh, ROOT_PPN, vpn_index(va, 2));
    assert(m1.nodes[t1] == blank());
    assert(m1.nodes[t1][vpn_index(va, 1)] == 0);
    let (m2, t0) = m1.descend(t1, vpn_index(va, 1));
    assert(t0 == ROOT_PPN + 2);
    lemma_mapped_page_translates(fresh, va, pa, flags, at);
}

/// Whether an entry points to a table: it is valid and not a leaf.
pub open spec fn entry_link(pte: u64) -> bool {
    entry_valid(pte) && !entry_leaf(pte)
}

impl Sv39Model {
    /// The tables form the three layers of a tree under `level`, which
    /// gives every table its level: the root is of level 2, and every entry
    /// that points to a table stands in a table of level 1 or 2 and points
    /// to an existing table of the level below.
    pub open spec fn layered(self, level: Map<u64, int>) -> bool {
        &&& forall|k: u64| self.nodes.dom().contains(k) ==> #[trigger] level.dom().contains(k)
        &&& level[self.root] == 2
        &&& forall|k: u64, j: int|
            #![trigger self.nodes[k][j]]
            self.nodes.dom().contains(k) && 0 <= j < 512 && entry_link(self.nodes[k][j]) ==> {
                &&& level[k] >= 1
                &&& self.nodes.dom().contains(entry_ppn(self.nodes[k][j]))
                &&& level[entry_ppn(self.nodes[k][j])] == level[k] - 1
            }
    }

    /// The tables form the three layers of a tree.
    pub open spec fn well_layered(self) -> bool {
        exists|level: Map<u64, int>| self.layered(level)
    }
}

/// A new page table is a tree: it is all root.
pub proof fn lemma_new_is_layered()
    ensures
        (Sv39Model {
            nodes: Map::<u64, Seq<u64>>::empty().insert(ROOT_PPN, blank()),
            root: ROOT_PPN,
            next: (ROOT_PPN + 1) as u64,
        }).well_layered(),
{
    let fresh = Sv39Model {
        nodes: Map::<u64, Seq<u64>>::empty().insert(ROOT_PPN, blank()),
        root: ROOT_PPN,
        next: (ROOT_PPN + 1) as u64,
    };
    let level = Map::<u64, int>::empty().insert(ROOT_PPN, 2int);
    assert(!entry_valid(0u64)) by (bit_vector);
    assert(fresh.layered(level));
}

proof fn lemma_descend_layered(m: Sv39Model, level: Map<u64, int>, table: u64, idx: int)
    requires
        m.wf(),
        m.spare() >= 1,
        m.layered(level),
        m.nodes.dom().contains(table),
        level[table] >= 1,
        0 <= idx < 512,
    ensures
        ({
            let (after, child) = m.descend(table, idx);
            let level_after = if m.usable(m.nodes[table][idx]) {
                level
            } else {
                level.insert(child, level[table] - 1)
            };
            &&& after.layered(level_after)
            &&& level_after[child] == level[table] - 1
            &&& forall|k: u64| m.nodes.dom().contains(k) ==> level_after[k] == level[k]
        }),
{
    let pte = m.nodes[table][idx];
    let (after, child) = m.descend(table, idx);
    lemma_descend(m, table, idx);
    if m.usable(pte) {
        assert(entry_link(m.nodes[table][idx]));
    } else {
        lemma_link(child);
        let level_after = level.insert(child, level[table] - 1);
        assert(!entry_valid(0u64)) by (bit_vector);
        assert forall|k: u64, j: int|
            #![trigger after.nodes[k][j]]
            after.nodes.dom().contains(k) && 0 <= j < 512 && entry_link(
                after.nodes[k][j],
            ) implies {
            &&& level_after[k] >= 1
            &&& after.nodes.dom().contains(entry_ppn(after.nodes[k][j]))
            &&& level_after[entry_ppn(after.nodes[k][j])] == level_after[k] - 1
        } by {
            if k == child {
                assert(after.nodes[k] == blank());
            } else if k == table {
                if j != idx {
                    assert(after.nodes[k][j] == m.nodes[k][j]);
                }
            } else {
                assert(after.nodes[k][j] == m.nodes[k][j]);
            }
        }
    }
}

proof fn lemma_leaf_layered(m: Sv39Model, level: Map<u64, int>, table: u64, idx: int, pte: u64)
    requires
        m.layered(level),
        m.nodes.dom().contains(table),
        0 <= idx < 512,
        m.nodes[table].len() == 512,
        !entry_link(pte),
    ensures
        m.with_entry(table, idx, pte).layered(level),
{
    let after = m.with_entry(table, idx, pte);
    assert forall|k: u64, j: int|
        #![trigger after.nodes[k][j]]
        after.nodes.dom().contains(k) && 0 <= j < 512 && entry_link(after.nodes[k][j]) implies {
        &&& level[k] >= 1
        &&& after.nodes.dom().contains(entry_ppn(after.nodes[k][j]))
        &&& level[entry_ppn(after.nodes[k][j])] == level[k] - 1
    } by {
        if k == table {
            if j != idx {
                assert(after.nodes[k][j] == m.nodes[k][j]);
            }
        } else {
            assert(after.nodes[k][j] == m.nodes[k][j]);
        }
    }
}

/// Mapping a page keeps the tables a tree, as long as what is mapped is a
/// leaf or nothing: an entry of three flags that are all clear would point
/// to a table.
pub proof fn lemma_mapped_is_layered(m: Sv39Model, va: u64, pa: u64, flags: u64, leaf_level: int)
    requires
        m.wf(),
        m.spare() >= 2 || (leaf_level >= 1 && m.spare() >= 1),
        m.well_layered(),
        !entry_link(leaf_for(pa, flags)),
    ensures
        m.mapped(va, pa, flags, leaf_level).well_layered(),
        m.mapped(va, pa, flags, leaf_level).wf(),
{
    let level = choose|level: Map<u64, int>| m.layered(level);
    let i2 = vpn_index(va, 2);
    let i1 = vpn_index(va, 1);
    let i0 = vpn_index(va, 0);
    let (m1, t1) = m.descend(m.root, i2);
    lemma_descend(m, m.root, i2);
    lemma_descend_layered(m, level, m.root, i2);
    let level1 = if m.usable(m.nodes[m.root][i2]) {
        level
    } else {
        level.insert(t1, level[m.root] - 1)
    };
    if leaf_level >= 1 {
        lemma_leaf_layered(m1, level1, t1, i1, leaf_for(pa, flags));
    } else {
        let (m2, t0) = m1.descend(t1, i1);
        lemma_descend(m1, t1, i1);
        lemma_descend_layered(m1, level1, t1, i1);
        let level2 = if m1.usable(m1.nodes[t1][i1]) {
            level1
        } else {
            level1.insert(t0, level1[t1] - 1)
        };
        lemma_leaf_layered(m2, level2, t0, i0, leaf_for(pa, flags));
    }
}

/// In a page table that is a tree, a page that has just been mapped as a
/// leaf translates as it was mapped: every address in it gives the same
/// offset into the physical page.
pub proof fn lemma_layered_page_translates(m: Sv39Model, va: u64, pa: u64, flags: u64, at: u64)
    requires
        m.wf(),
        m.spare() >= 2,
        m.well_layered(),
        entry_valid(leaf_for(pa, flags)),
        entry_leaf(leaf_for(pa, flags)),
        vpn_index(at, 2) == vpn_index(va, 2),
        vpn_index(at, 1) == vpn_index(va, 1),
        vpn_index(at, 0) == vpn_index(va, 0),
    ensures
        m.mapped(va, pa, flags, 0).translation(at) == TranslateResult::Translated(
            (entry_ppn(leaf_for(pa, flags)) * 4096 + at % 0x1000) as u64,
        ),
{
    let level = choose|level: Map<u64, int>| m.layered(level);
    let i2 = vpn_index(va, 2);
    let i1 = vpn_index(va, 1);
    let (m1, t1) = m.descend(m.root, i2);
    lemma_descend(m, m.root, i2);
    lemma_descend_layered(m, level, m.root, i2);
    let level1 = if m.usable(m.nodes[m.root][i2]) {
        level
    } else {
        level.insert(t1, level[m.root] - 1)
    };
    let (m2, t0) = m1.descend(t1, i1);
    lemma_descend(m1, t1, i1);
    lemma_descend_layered(m1, level1, t1, i1);
    let level2 = if m1.usable(m1.nodes[t1][i1]) {
        level1
    } else {
        level1.insert(t0, level1[t1] - 1)
    };
    assert(level2[m.root] == 2);
    assert(level2[t1] == 1);
    assert(level2[t0] == 0);
    lemma_mapped_page_translates(m, va, pa, flags, at);
}

} // verus!
