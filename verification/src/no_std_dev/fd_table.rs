//! The table of file descriptors of a process: it maps small integers to
//! the open files of the process.

use std::sync::Arc;
use vstd::prelude::*;

verus! {

/// What every kind of file, be it a regular file, a pipe or a socket,
/// offers to the kernel.
pub trait File: Send + Sync {
    /// Reads into `buf` and gives the number of bytes read, or a negative
    /// error code.
    fn read(&self, buf: &mut [u8]) -> isize;

    /// Writes `buf` and gives the number of bytes written, or a negative
    /// error code.
    fn write(&self, buf: &[u8]) -> isize;
}

/// Whether the descriptor `fd` is open in a table with these slots.
pub open spec fn is_open<F: File + ?Sized>(slots: Seq<Option<Arc<F>>>, fd: int) -> bool {
    0 <= fd < slots.len() && slots[fd] is Some
}

/// `fd` is the smallest descriptor that is free in a table with these
/// slots: the first closed one, and the one after the last if all are open.
pub open spec fn is_lowest_free<F: File + ?Sized>(slots: Seq<Option<Arc<F>>>, fd: int) -> bool {
    &&& 0 <= fd <= slots.len()
    &&& fd < slots.len() ==> slots[fd] is None
    &&& forall|j: int| 0 <= j < fd ==> slots[j] is Some
}

/// The slots after `file` has been opened under the descriptor `fd`.
pub open spec fn opened<F: File + ?Sized>(
    slots: Seq<Option<Arc<F>>>,
    fd: int,
    file: Arc<F>,
) -> Seq<Option<Arc<F>>> {
    if fd < slots.len() {
        slots.update(fd, Some(file))
    } else {
        slots.push(Some(file))
    }
}

/// The number of open descriptors.
pub open spec fn open_count<F: File + ?Sized>(slots: Seq<Option<Arc<F>>>) -> nat
    decreases slots.len(),
{
    if slots.len() == 0 {
        0
    } else {
        open_count(slots.drop_last()) + if slots.last() is Some {
            1nat
        } else {
            0nat
        }
    }
}

/// `Arc::clone`: the clone is another pointer to the same file.
#[verifier::external_body]
fn share<F: File + ?Sized>(file: &Arc<F>) -> (shared: Arc<F>)
    ensures
        shared == *file,
{
    Arc::clone(file)
}

/// The table of file descriptors of a process whose files are of the kind
/// `F`. With `dyn File` for `F` one table holds files of every kind.
pub struct FdTable<F: File + ?Sized> {
    files: Vec<Option<Arc<F>>>,
}

impl<F: File + ?Sized> View for FdTable<F> {
    type V = Seq<Option<Arc<F>>>;

    closed spec fn view(&self) -> Seq<Option<Arc<F>>> {
        self.files@
    }
}

impl<F: File + ?Sized> FdTable<F> {
    /// A table without any open descriptor.
    pub fn new() -> (table: Self)
        ensures
            table@.len() == 0,
    {
        FdTable { files: Vec::new() }
    }

    /// Opens `file` under the smallest free descriptor and gives that
    /// descriptor: one that was closed is used again before the table grows.
    pub fn allocate(&mut self, file: Arc<F>) -> (fd: usize)
        ensures
            is_lowest_free(old(self)@, fd as int),
            final(self)@ == opened(old(self)@, fd as int, file),
            is_open(final(self)@, fd as int),
            open_count(final(self)@) == open_count(old(self)@) + 1,
    {
        let mut i: usize = 0;
        while i < self.files.len()
            invariant
                i <= self.files.len(),
                self.files@ == old(self).files@,
                forall|j: int| 0 <= j < i ==> self.files@[j] is Some,
            decreases self.files.len() - i,
        {
            if self.files[i].is_none() {
                proof {
                    lemma_open_count_opened(old(self)@, i as int, file);
                }
                self.files.set(i, Some(file));
                return i;
            }
            i += 1;
        }
        proof {
            lemma_open_count_opened(old(self)@, i as int, file);
        }
        self.files.push(Some(file));
        i
    }

    /// The file that is open under `fd`, if there is one.
    pub fn get(&self, fd: usize) -> (file: Option<Arc<F>>)
        ensures
            file == if is_open(self@, fd as int) {
                self@[fd as int]
            } else {
                None
            },
    {
        if fd >= self.files.len() {
            return None;
        }
        match &self.files[fd] {
            Some(f) => Some(share(f)),
            None => None,
        }
    }

    /// Closes `fd` and says whether it was open.
    pub fn close(&mut self, fd: usize) -> (closed: bool)
        ensures
            closed == is_open(old(self)@, fd as int),
            final(self)@ == if closed {
                old(self)@.update(fd as int, None)
            } else {
                old(self)@
            },
            open_count(final(self)@) + (if closed {
                1nat
            } else {
                0nat
            }) == open_count(old(self)@),
    {
        if fd >= self.files.len() {
            return false;
        }
        if self.files[fd].is_none() {
            return false;
        }
        proof {
            lemma_open_count_closed(old(self)@, fd as int);
        }
        self.files.set(fd, None);
        true
    }

    /// The number of open descriptors.
    pub fn count(&self) -> (n: usize)
        ensures
            n == open_count(self@),
    {
        let mut n: usize = 0;
        let mut i: usize = 0;
        while i < self.files.len()
            invariant
                i <= self.files.len(),
                n <= i,
                n == open_count(self.files@.take(i as int)),
            decreases self.files.len() - i,
        {
            assert(self.files@.take(i + 1).drop_last() == self.files@.take(i as int));
            if self.files[i].is_some() {
                n += 1;
            }
            i += 1;
        }
        assert(self.files@.take(self.files.len() as int) == self.files@);
        n
    }
}

impl<F: File + ?Sized> Default for FdTable<F> {
    /// A table without any open descriptor.
    fn default() -> (table: Self)
        ensures
            table@.len() == 0,
    {
        FdTable::new()
    }
}

/// Opening a file raises the number of open descriptors by one.
pub proof fn lemma_open_count_opened<F: File + ?Sized>(slots: Seq<Option<Arc<F>>>, fd: int, file: Arc<F>)
    requires
        is_lowest_free(slots, fd),
    ensures
        open_count(opened(slots, fd, file)) == open_count(slots) + 1,
    decreases slots.len(),
{
    let after = opened(slots, fd, file);
    if fd >= slots.len() {
        assert(after.drop_last() == slots);
    } else if fd == slots.len() - 1 {
        assert(after.drop_last() == slots.drop_last());
    } else {
        let front = slots.drop_last();
        lemma_open_count_opened(front, fd, file);
        assert(after.drop_last() == opened(front, fd, file));
    }
}

/// Closing an open descriptor lowers the number of open descriptors by one.
pub proof fn lemma_open_count_closed<F: File + ?Sized>(slots: Seq<Option<Arc<F>>>, fd: int)
    requires
        is_open(slots, fd),
    ensures
        open_count(slots.update(fd, None)) + 1 == open_count(slots),
    decreases slots.len(),
{
    let after = slots.update(fd, None);
    if fd == slots.len() - 1 {
        assert(after.drop_last() == slots.drop_last());
    } else {
        let front = slots.drop_last();
        lemma_open_count_closed(front, fd);
        assert(after.drop_last() == front.update(fd, None));
    }
}

/// The descriptor that `allocate` gives is fixed by the table alone.
pub proof fn lemma_lowest_free_unique<F: File + ?Sized>(slots: Seq<Option<Arc<F>>>, a: int, b: int)
    requires
        is_lowest_free(slots, a),
        is_lowest_free(slots, b),
    ensures
        a == b,
{
}

} // verus!
