use oscamp::page_table::tlb_sim::{Mmu, Tlb};

// The buffer alone

#[test]
fn test_tlb_empty_lookup() {
    let mut tlb = Tlb::new(4);
    assert_eq!(tlb.lookup(0x100, 0), None);
    assert_eq!(tlb.stats.misses, 1);
    assert_eq!(tlb.stats.hits, 0);
}

#[test]
fn test_tlb_insert_and_lookup() {
    let mut tlb = Tlb::new(4);
    tlb.insert(0x100, 0x200, 1, 0x7);
    assert_eq!(tlb.lookup(0x100, 1), Some(0x200));
    assert_eq!(tlb.stats.hits, 1);
}

#[test]
fn test_tlb_asid_isolation() {
    let mut tlb = Tlb::new(4);
    tlb.insert(0x100, 0x200, 1, 0x7);
    tlb.insert(0x100, 0x300, 2, 0x7);

    // the same VPN in different address spaces gives different PPNs
    assert_eq!(tlb.lookup(0x100, 1), Some(0x200));
    assert_eq!(tlb.lookup(0x100, 2), Some(0x300));
}

#[test]
fn test_tlb_miss_wrong_asid() {
    let mut tlb = Tlb::new(4);
    tlb.insert(0x100, 0x200, 1, 0x7);

    // another ASID is a miss
    assert_eq!(tlb.lookup(0x100, 99), None);
    assert_eq!(tlb.stats.misses, 1);
}

#[test]
fn test_tlb_fifo_eviction() {
    let mut tlb = Tlb::new(2); // two slots only
    tlb.insert(0x10, 0x20, 0, 0x7);
    tlb.insert(0x30, 0x40, 0, 0x7);
    // the buffer is full: one more entry evicts the oldest
    tlb.insert(0x50, 0x60, 0, 0x7);

    // 0x10 has been evicted
    assert_eq!(tlb.lookup(0x10, 0), None);
    // 0x30 and 0x50 are still there
    assert_eq!(tlb.lookup(0x30, 0), Some(0x40));
    assert_eq!(tlb.lookup(0x50, 0), Some(0x60));
}

#[test]
fn test_tlb_update_existing() {
    let mut tlb = Tlb::new(4);
    tlb.insert(0x100, 0x200, 1, 0x3);
    tlb.insert(0x100, 0x999, 1, 0x7); // updates the same entry

    assert_eq!(tlb.lookup(0x100, 1), Some(0x999));
    assert_eq!(tlb.valid_count(), 1); // no entry has been added
}

#[test]
fn test_tlb_valid_count() {
    let mut tlb = Tlb::new(4);
    assert_eq!(tlb.valid_count(), 0);

    tlb.insert(0x1, 0x10, 0, 0x7);
    assert_eq!(tlb.valid_count(), 1);

    tlb.insert(0x2, 0x20, 0, 0x7);
    assert_eq!(tlb.valid_count(), 2);
}

// Flushing

#[test]
fn test_flush_all() {
    let mut tlb = Tlb::new(4);
    tlb.insert(0x1, 0x10, 0, 0x7);
    tlb.insert(0x2, 0x20, 1, 0x7);
    tlb.insert(0x3, 0x30, 2, 0x7);
    assert_eq!(tlb.valid_count(), 3);

    tlb.flush_all();
    assert_eq!(tlb.valid_count(), 0);
    assert_eq!(tlb.lookup(0x1, 0), None);
}

#[test]
fn test_flush_by_vpn() {
    let mut tlb = Tlb::new(4);
    tlb.insert(0x100, 0x200, 1, 0x7);
    tlb.insert(0x100, 0x300, 2, 0x7); // same VPN, another ASID
    tlb.insert(0x999, 0x400, 1, 0x7);

    tlb.flush_by_vpn(0x100);

    // both entries of VPN 0x100 are gone
    assert_eq!(tlb.lookup(0x100, 1), None);
    assert_eq!(tlb.lookup(0x100, 2), None);
    // VPN 0x999 is untouched
    assert_eq!(tlb.lookup(0x999, 1), Some(0x400));
}

#[test]
fn test_flush_by_asid() {
    let mut tlb = Tlb::new(4);
    tlb.insert(0x1, 0x10, 1, 0x7);
    tlb.insert(0x2, 0x20, 1, 0x7);
    tlb.insert(0x3, 0x30, 2, 0x7);

    tlb.flush_by_asid(1);

    // the entries of ASID 1 are gone
    assert_eq!(tlb.lookup(0x1, 1), None);
    assert_eq!(tlb.lookup(0x2, 1), None);
    // ASID 2 is untouched
    assert_eq!(tlb.lookup(0x3, 2), Some(0x30));
}

#[test]
fn test_flush_by_vpn_then_reinsert() {
    let mut tlb = Tlb::new(4);
    tlb.insert(0x100, 0x200, 1, 0x7);
    tlb.flush_by_vpn(0x100);
    assert_eq!(tlb.lookup(0x100, 1), None);

    // after a new insert the page is found again
    tlb.insert(0x100, 0x500, 1, 0x7);
    assert_eq!(tlb.lookup(0x100, 1), Some(0x500));
}

// The unit as a whole

#[test]
fn test_mmu_basic_translate() {
    let mut mmu = Mmu::new(4);
    mmu.current_asid = 1;
    mmu.add_mapping(1, 0x100, 0x200, 0x7);

    // first time: a miss, and a walk of the page table
    let ppn = mmu.translate(0x100);
    assert_eq!(ppn, Some(0x200));
    assert_eq!(mmu.tlb.stats.misses, 1);
    assert_eq!(mmu.tlb.stats.hits, 0);

    // second time: a hit
    let ppn = mmu.translate(0x100);
    assert_eq!(ppn, Some(0x200));
    assert_eq!(mmu.tlb.stats.hits, 1);
}

#[test]
fn test_mmu_page_fault() {
    let mut mmu = Mmu::new(4);
    mmu.current_asid = 1;
    // no mapping has been added
    assert_eq!(mmu.translate(0x999), None);
}

#[test]
fn test_mmu_asid_switch() {
    let mut mmu = Mmu::new(4);
    mmu.add_mapping(1, 0x100, 0x200, 0x7);
    mmu.add_mapping(2, 0x100, 0x300, 0x7);

    mmu.switch_asid(1);
    assert_eq!(mmu.translate(0x100), Some(0x200));

    mmu.switch_asid(2);
    assert_eq!(mmu.translate(0x100), Some(0x300));
}

#[test]
fn test_mmu_flush_on_asid_switch() {
    let mut mmu = Mmu::new(4);
    mmu.add_mapping(1, 0x100, 0x200, 0x7);
    mmu.add_mapping(2, 0x100, 0x300, 0x7);

    mmu.switch_asid(1);
    assert_eq!(mmu.translate(0x100), Some(0x200));

    // after the switch the entries of the old ASID are flushed
    mmu.switch_asid(2);
    mmu.tlb.flush_by_asid(1);

    // a miss, then a walk of the page table
    let old_misses = mmu.tlb.stats.misses;
    assert_eq!(mmu.translate(0x100), Some(0x300));
    assert_eq!(mmu.tlb.stats.misses, old_misses + 1);
}

#[test]
fn test_mmu_thrashing() {
    // two slots, and three pages accessed in turn
    let mut mmu = Mmu::new(2);
    mmu.current_asid = 0;
    mmu.add_mapping(0, 0x1, 0x10, 0x7);
    mmu.add_mapping(0, 0x2, 0x20, 0x7);
    mmu.add_mapping(0, 0x3, 0x30, 0x7);

    // 1, 2, 3, 1, 2, 3: with room for two, every access misses
    for vpn in [1, 2, 3, 1, 2, 3] {
        mmu.translate(vpn);
    }

    // the first two miss on a cold buffer, the third misses and evicts page 1,
    // the fourth finds page 1 evicted, and so on
    assert_eq!(mmu.tlb.stats.misses, 6);
    assert_eq!(mmu.tlb.stats.hits, 0);
}
