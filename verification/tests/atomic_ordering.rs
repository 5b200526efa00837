use oscamp::os_concurrency::atomic_ordering::OnceCell;

#[test]
fn test_once_cell_init_once() {
    let cell = OnceCell::new();
    assert!(cell.init(42));
    assert!(!cell.init(100));
    assert_eq!(cell.get(), Some(42));
}

#[test]
fn test_once_cell_not_initialized() {
    let cell = OnceCell::new();
    assert_eq!(cell.get(), None);
}
