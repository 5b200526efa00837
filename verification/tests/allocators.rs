use oscamp::no_std_dev::bump_allocator::{bytes_used, next_after, place, BumpAllocator};
use oscamp::no_std_dev::free_list_allocator::{block_size_for, HEADER_SIZE, MIN_BLOCK};

const HEAP_START: usize = 0x1000_0000;
const HEAP_SIZE: usize = 4096;

fn allocator() -> BumpAllocator {
    BumpAllocator::new(HEAP_START, HEAP_START + HEAP_SIZE)
}

#[test]
fn test_block_size_for() {
    assert_eq!(block_size_for(1, 1), 16);
    assert_eq!(block_size_for(64, 8), 72);
}

#[test]
fn block_sizes_have_room_for_header_and_aligned_payload() {
    assert_eq!(HEADER_SIZE, 8);
    assert_eq!(MIN_BLOCK, 16);
    assert_eq!(block_size_for(0, 1), 16);
    assert_eq!(block_size_for(8, 8), 16);
    assert_eq!(block_size_for(9, 8), 24);
    assert_eq!(block_size_for(100, 64), 136);
    assert_eq!(block_size_for(3, 4096), 4104);
}

#[test]
fn an_allocation_lands_at_the_next_aligned_address() {
    assert_eq!(place(0x1000, 16, 8, 0x2000), Some((0x1000, 0x1010)));
    assert_eq!(place(0x1001, 16, 8, 0x2000), Some((0x1008, 0x1018)));
    assert_eq!(place(0x1001, 1, 1, 0x2000), Some((0x1001, 0x1002)));
    assert_eq!(place(0x1001, 0, 64, 0x2000), Some((0x1040, 0x1040)));
    assert_eq!(next_after(0x1001, 16, 8, 0x2000), Some(0x1018));
}

#[test]
fn an_allocation_that_does_not_fit_has_no_place() {
    assert_eq!(place(0x1000, 0x1000, 8, 0x2000), Some((0x1000, 0x2000)));
    assert_eq!(place(0x1000, 0x1001, 8, 0x2000), None);
    assert_eq!(place(0x1001, 0x1000, 8, 0x2000), None);
    assert_eq!(place(0x1ff9, 1, 8, 0x2000), None);
    assert_eq!(place(0x3000, 1, 1, 0x2000), None);
    assert_eq!(place(0x1000, 1, 0, 0x2000), None);
    assert_eq!(place(usize::MAX, 1, 8, usize::MAX), None);
    assert_eq!(next_after(0x1000, 0x1001, 8, 0x2000), None);
}

#[test]
fn allocations_are_aligned_and_do_not_overlap() {
    let a = allocator();
    let mut last_end = HEAP_START;
    for (size, align) in [(1usize, 1usize), (1, 2), (3, 4), (8, 8), (5, 16), (1, 64), (100, 8)] {
        let at = a.allocate(size, align).unwrap();
        assert_eq!(at % align, 0);
        assert!(at >= last_end);
        assert!(at + size <= HEAP_START + HEAP_SIZE);
        last_end = at + size;
    }
    assert_eq!(a.used(), last_end - HEAP_START);
}

#[test]
fn a_full_heap_gives_nothing() {
    let a = allocator();
    for i in 0..4 {
        assert!(a.allocate(1024, 1).is_some(), "allocation {i} fits");
    }
    assert_eq!(a.allocate(1, 1), None);
    assert_eq!(a.used(), HEAP_SIZE);
    assert_eq!(allocator().allocate(HEAP_SIZE + 1, 1), None);
    assert_eq!(allocator().allocate(8, 0), None);
}

#[test]
fn bytes_in_use_are_counted_from_the_start_of_the_heap() {
    assert_eq!(bytes_used(0x1040, 0x1000), 0x40);
    assert_eq!(bytes_used(0x1000, 0x1000), 0);
    assert_eq!(bytes_used(0x0fff, 0x1000), 0);
    assert_eq!(bytes_used(usize::MAX, 1), usize::MAX - 1);
}

#[test]
fn what_can_never_fit_is_refused_on_an_empty_heap() {
    let a = allocator();
    assert_eq!(a.allocate(HEAP_START + HEAP_SIZE + 1, 1), None);
    assert_eq!(a.allocate(usize::MAX, 1), None);
    assert_eq!(a.allocate(0, 0), None);
    assert_eq!(a.used(), 0);
    assert!(a.allocate(HEAP_SIZE, 1).is_some());
}

#[test]
fn reset_gives_the_heap_free_again() {
    let a = allocator();
    assert_eq!(a.used(), 0);
    let first = a.allocate(64, 8).unwrap();
    assert!(a.used() >= 64);
    a.reset();
    assert_eq!(a.used(), 0);
    assert_eq!(a.allocate(64, 8), Some(first));
}
