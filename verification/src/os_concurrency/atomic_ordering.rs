//! Handing a value from one thread to another with release and acquire
//! ordering, and a cell that is initialised at most once.
//!
//! Both types are shared between threads: between two calls of one thread
//! any other thread may have changed them. So no contract here says what a
//! call returns beyond what holds whatever the other threads do.

use std::sync::atomic::{AtomicBool, AtomicU32, Ordering};
use vstd::prelude::*;

verus! {

/// What a reader gets that has seen `flag` and, after it, `value`: the
/// value if the flag was up, and nothing if it was not.
pub fn behind_flag(flag: bool, value: u32) -> (r: Option<u32>)
    ensures
        r == if flag {
            Some(value)
        } else {
            None::<u32>
        },
{
    if flag {
        Some(value)
    } else {
        None
    }
}

/// A channel for one value. The producer stores the value and then raises
/// the flag with release ordering; a consumer that sees the flag with
/// acquire ordering sees the value too.
pub struct FlagChannel {
    data: AtomicU32,
    ready: AtomicBool,
}

impl FlagChannel {
    /// A channel that holds nothing.
    pub fn new() -> Self {
        FlagChannel { data: AtomicU32::new(0), ready: AtomicBool::new(false) }
    }

    /// Stores `value` and raises the flag.
    pub fn produce(&self, value: u32) {
        self.data.store(value, Ordering::Relaxed);
        self.ready.store(true, Ordering::Release);
    }

    /// Looks once whether a value has been produced, and returns it if so.
    /// A consumer that has nothing else to do calls this in a loop until it
    /// gets the value. The flag is read first, with acquire ordering, and
    /// the value after it; [`behind_flag`] says what is returned for each
    /// pair of them.
    pub fn try_consume(&self) -> Option<u32> {
        let ready = self.ready.load(Ordering::Acquire);
        let data = self.data.load(Ordering::Relaxed);
        behind_flag(ready, data)
    }

    /// Lowers the flag and clears the value.
    pub fn reset(&self) {
        self.ready.store(false, Ordering::Relaxed);
        self.data.store(0, Ordering::Relaxed);
    }
}

/// A cell that takes a value once. Of several threads that try to
/// initialise it, one succeeds.
pub struct OnceCell {
    initialized: AtomicBool,
    claimed: AtomicBool,
    value: AtomicU32,
}

impl OnceCell {
    /// A cell without a value.
    pub fn new() -> Self {
        OnceCell {
            initialized: AtomicBool::new(false),
            claimed: AtomicBool::new(false),
            value: AtomicU32::new(0),
        }
    }

    /// Puts `val` into the cell unless a value was put there before, and
    /// says whether it did.
    pub fn init(&self, val: u32) -> bool {
        match self.claimed.compare_exchange(false, true, Ordering::SeqCst, Ordering::SeqCst) {
            Ok(_) => {
                self.value.store(val, Ordering::SeqCst);
                self.initialized.store(true, Ordering::SeqCst);
                true
            },
            Err(_) => false,
        }
    }

    /// The value of the cell, if it has one. The flag is read first and
    /// the value after it; [`behind_flag`] says what is returned for each
    /// pair of them.
    pub fn get(&self) -> Option<u32> {
        let initialized = self.initialized.load(Ordering::SeqCst);
        let value = self.value.load(Ordering::SeqCst);
        behind_flag(initialized, value)
    }
}

} // verus!
