use oscamp::no_std_dev::fd_table::{FdTable, File};
use std::sync::Arc;

use std::sync::Mutex;

struct MockFile {
    id: usize,
    write_log: Mutex<Vec<Vec<u8>>>,
}

impl MockFile {
    fn new(id: usize) -> Arc<Self> {
        Arc::new(Self {
            id,
            write_log: Mutex::new(vec![]),
        })
    }
}

impl File for MockFile {
    fn read(&self, buf: &mut [u8]) -> isize {
        buf[0] = self.id as u8;
        1
    }
    fn write(&self, buf: &[u8]) -> isize {
        self.write_log.lock().unwrap().push(buf.to_vec());
        buf.len() as isize
    }
}

#[test]
fn lib_test_alloc_basic() {
    let mut table: FdTable<dyn File> = FdTable::new();
    let fd = table.allocate(MockFile::new(0));
    assert_eq!(fd, 0, "first fd should be 0");
    let fd2 = table.allocate(MockFile::new(1));
    assert_eq!(fd2, 1, "second fd should be 1");
}

#[test]
fn lib_test_get() {
    let mut table: FdTable<dyn File> = FdTable::new();
    let file = MockFile::new(42);
    let fd = table.allocate(file);
    let got = table.get(fd);
    assert!(got.is_some(), "get should return Some");
    let mut buf = [0u8; 1];
    got.unwrap().read(&mut buf);
    assert_eq!(buf[0], 42);
}

#[test]
fn lib_test_get_invalid() {
    let table: FdTable<dyn File> = FdTable::new();
    assert!(table.get(0).is_none());
    assert!(table.get(999).is_none());
}

#[test]
fn lib_test_close_and_reuse() {
    let mut table: FdTable<dyn File> = FdTable::new();
    let fd0 = table.allocate(MockFile::new(0)); // fd=0
    let fd1 = table.allocate(MockFile::new(1)); // fd=1
    let fd2 = table.allocate(MockFile::new(2)); // fd=2

    assert!(table.close(fd1), "closing fd=1 should succeed");
    assert!(
        table.get(fd1).is_none(),
        "get should return None after close"
    );

    // Next allocation should reuse fd=1 (smallest free)
    let fd_new = table.allocate(MockFile::new(99));
    assert_eq!(fd_new, fd1, "should reuse the smallest closed fd");

    let _ = (fd0, fd2);
}

#[test]
fn lib_test_close_invalid() {
    let mut table: FdTable<dyn File> = FdTable::new();
    assert!(
        !table.close(0),
        "closing non-existent fd should return false"
    );
}

#[test]
fn lib_test_count() {
    let mut table: FdTable<dyn File> = FdTable::new();
    assert_eq!(table.count(), 0);
    let fd0 = table.allocate(MockFile::new(0));
    let fd1 = table.allocate(MockFile::new(1));
    assert_eq!(table.count(), 2);
    table.close(fd0);
    assert_eq!(table.count(), 1);
    table.close(fd1);
    assert_eq!(table.count(), 0);
}

#[test]
fn lib_test_write_through_fd() {
    let mut table: FdTable<dyn File> = FdTable::new();
    let file = MockFile::new(0);
    let fd = table.allocate(file);
    let f = table.get(fd).unwrap();
    let n = f.write(b"hello");
    assert_eq!(n, 5);
}
