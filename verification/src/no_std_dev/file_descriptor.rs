//! A file descriptor as a value of its own type.

use vstd::prelude::*;

verus! {

/// A file descriptor of the operating system. The value only names the
/// descriptor: whoever holds it sees to it that the descriptor is closed.
pub struct FileDesc {
    fd: i32,
}

impl FileDesc {
    /// The number of the descriptor.
    pub closed spec fn number(&self) -> i32 {
        self.fd
    }

    /// The descriptor with the number `fd`.
    pub fn from_raw(fd: i32) -> (d: Self)
        ensures
            d.number() == fd,
    {
        FileDesc { fd }
    }

    /// The number of the descriptor.
    pub fn raw(&self) -> (fd: i32)
        ensures
            fd == self.number(),
    {
        self.fd
    }
}

} // verus!
