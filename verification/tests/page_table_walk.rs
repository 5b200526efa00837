use oscamp::page_table::page_table_walk::{
    make_pa, va_to_offset, va_to_vpn, SingleLevelPageTable, TranslateResult, PAGE_SIZE, PTE_READ,
    PTE_VALID, PTE_WRITE,
};

#[test]
fn test_va_decompose() {
    // virtual address 0x12345678
    // VPN = 0x12345, offset = 0x678
    assert_eq!(va_to_vpn(0x12345678), 0x12345);
    assert_eq!(va_to_offset(0x12345678), 0x678);
}

#[test]
fn test_va_decompose_zero() {
    assert_eq!(va_to_vpn(0), 0);
    assert_eq!(va_to_offset(0), 0);
}

#[test]
fn test_va_decompose_page_boundary() {
    // exactly on a page boundary: the offset is 0
    assert_eq!(va_to_vpn(0x3000), 3);
    assert_eq!(va_to_offset(0x3000), 0);
}

#[test]
fn test_make_pa() {
    assert_eq!(make_pa(0x80, 0x100), 0x80 * 4096 + 0x100);
    assert_eq!(make_pa(0, 0), 0);
    assert_eq!(make_pa(1, 0), 4096);
}

#[test]
fn test_map_and_lookup() {
    let mut pt = SingleLevelPageTable::new(1024);
    pt.map(5, 100, PTE_VALID | PTE_READ);

    let entry = pt.lookup(5).expect("the mapping should be found");
    assert_eq!(entry.ppn, 100);
    assert_eq!(entry.flags, PTE_VALID | PTE_READ);
}

#[test]
fn test_lookup_unmapped() {
    let pt = SingleLevelPageTable::new(1024);
    assert!(pt.lookup(0).is_none());
}

#[test]
fn test_unmap() {
    let mut pt = SingleLevelPageTable::new(1024);
    pt.map(10, 200, PTE_VALID | PTE_READ);
    assert!(pt.lookup(10).is_some());

    pt.unmap(10);
    assert!(pt.lookup(10).is_none());
}

#[test]
fn test_translate_basic() {
    let mut pt = SingleLevelPageTable::new(1024);
    // virtual page 1 -> physical page 0x80
    pt.map(1, 0x80, PTE_VALID | PTE_READ);

    // VA = page 1 + offset 0x100 = 0x1100
    let result = pt.translate(0x1100, false);
    // PA = 0x80 * 4096 + 0x100 = 0x80100
    assert_eq!(result, TranslateResult::Translated(0x80100));
}

#[test]
fn test_translate_page_fault() {
    let pt = SingleLevelPageTable::new(1024);
    assert_eq!(pt.translate(0x5000, false), TranslateResult::PageFault);
}

#[test]
fn test_translate_write_permission() {
    let mut pt = SingleLevelPageTable::new(1024);
    // a read-only page
    pt.map(2, 0x90, PTE_VALID | PTE_READ);

    // reading succeeds
    assert_eq!(
        pt.translate(0x2000, false),
        TranslateResult::Translated(0x90 * PAGE_SIZE as u32)
    );
    // writing is denied
    assert_eq!(
        pt.translate(0x2000, true),
        TranslateResult::PermissionDenied
    );
}

#[test]
fn test_translate_writable_page() {
    let mut pt = SingleLevelPageTable::new(1024);
    pt.map(3, 0xA0, PTE_VALID | PTE_READ | PTE_WRITE);

    // writing to a writable page succeeds
    assert_eq!(
        pt.translate(0x3456, true),
        TranslateResult::Translated(0xA0 * PAGE_SIZE as u32 + 0x456)
    );
}

#[test]
fn test_translate_invalid_entry() {
    let mut pt = SingleLevelPageTable::new(1024);
    // mapped, but VALID is not set
    pt.map(4, 0x50, PTE_READ);
    assert_eq!(pt.translate(0x4000, false), TranslateResult::PageFault);
}

#[test]
fn test_multiple_mappings() {
    let mut pt = SingleLevelPageTable::new(1024);
    pt.map(0, 0x10, PTE_VALID | PTE_READ);
    pt.map(1, 0x20, PTE_VALID | PTE_READ | PTE_WRITE);
    pt.map(2, 0x30, PTE_VALID | PTE_READ);

    assert_eq!(pt.translate(0x0FFF, false), TranslateResult::Translated(0x10FFF));
    assert_eq!(pt.translate(0x1000, true), TranslateResult::Translated(0x20000));
    assert_eq!(pt.translate(0x2800, false), TranslateResult::Translated(0x30800));
}
