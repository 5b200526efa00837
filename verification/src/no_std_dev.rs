//! Building blocks of a kernel that has no standard library to lean on.

pub mod fd_table;
pub mod syscall_wrapper;
pub mod file_descriptor;
pub mod bump_allocator;
pub mod free_list_allocator;
