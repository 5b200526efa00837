//! A counter that many threads may change at once without a lock.
//!
//! The counter is shared: between two calls of one thread any other thread
//! may have changed it. So no contract here says what a call returns beyond
//! what holds whatever the other threads do.

use std::sync::atomic::{AtomicU64, Ordering};
use vstd::prelude::*;

verus! {

/// A counter of 64 bits for use by several threads.
pub struct AtomicCounter {
    value: AtomicU64,
}

/// The product that `fetch_multiply` stores: that of the value it found and
/// the multiplier, in the 64 bits of the counter.
pub open spec fn wrapped_product(current: u64, multiplier: u64) -> u64 {
    ((current * multiplier) % 0x1_0000_0000_0000_0000) as u64
}

/// Computes the value that replaces `current` when the counter is
/// multiplied by `multiplier`. Like the sum in `increment`, the product
/// wraps around.
pub fn product(current: u64, multiplier: u64) -> (next: Option<u64>)
    ensures
        next == Some(wrapped_product(current, multiplier)),
{
    assert(current * multiplier <= u64::MAX * u64::MAX) by (nonlinear_arith)
        requires
            0 <= current <= u64::MAX,
            0 <= multiplier <= u64::MAX,
    ;
    let wide: u128 = (current as u128) * (multiplier as u128);
    Some((wide % 0x1_0000_0000_0000_0000) as u64)
}

/// What is to be put in place of the value that the counter is found to
/// hold.
#[derive(Debug, Clone, Copy, PartialEq, Eq, Structural)]
pub enum Update {
    /// The product of the value found and the multiplier.
    Multiply(u64),
    /// `new_val`, but only if the value found is `expected`.
    Replace { expected: u64, new_val: u64 },
}

/// The value that an update puts in place of `found`, if the update takes
/// place at all: a replacement declines every value but the expected one.
pub open spec fn updated(update: Update, found: u64) -> Option<u64> {
    match update {
        Update::Multiply(multiplier) => Some(wrapped_product(found, multiplier)),
        Update::Replace { expected, new_val } => if found == expected {
            Some(new_val)
        } else {
            None
        },
    }
}

/// Computes the value that an update puts in place of `found`.
pub fn apply(update: Update, found: u64) -> (next: Option<u64>)
    ensures
        next == updated(update, found),
{
    match update {
        Update::Multiply(multiplier) => product(found, multiplier),
        Update::Replace { expected, new_val } => {
            if found == expected {
                Some(new_val)
            } else {
                None
            }
        },
    }
}

/// `AtomicU64::fetch_update` with [`apply`] as the update: in one atomic
/// step the value is replaced by what the update makes of it, unless the
/// update declines. The result is `Ok` with the value that was replaced, or
/// `Err` with the value that the update declined.
#[verifier::external_body]
fn fetch_update_with(value: &AtomicU64, update: Update) -> (r: Result<u64, u64>)
    ensures
        match r {
            Ok(found) => updated(update, found) is Some,
            Err(found) => updated(update, found) is None,
        },
{
    value.fetch_update(Ordering::AcqRel, Ordering::Acquire, |v| apply(update, v))
}

impl AtomicCounter {
    /// A counter that starts at `init`.
    pub fn new(init: u64) -> Self {
        AtomicCounter { value: AtomicU64::new(init) }
    }

    /// Adds one to the counter and returns the value it had before. After
    /// the largest value the counter starts again at 0.
    pub fn increment(&self) -> u64 {
        self.value.fetch_add(1, Ordering::Relaxed)
    }

    /// Takes one from the counter and returns the value it had before.
    /// Below 0 the counter goes to the largest value.
    pub fn decrement(&self) -> u64 {
        self.value.fetch_sub(1, Ordering::Relaxed)
    }

    /// The value of the counter at the moment of the call.
    pub fn get(&self) -> u64 {
        self.value.load(Ordering::Relaxed)
    }

    /// Sets the counter to `new_val` if it holds `expected`, in one atomic
    /// step. Returns `Ok` with the value that was replaced, which is
    /// `expected`, or `Err` with the value that the counter held in place
    /// of `expected`. Which of the two it is depends on what the counter
    /// holds at the moment of the call.
    pub fn compare_and_swap(&self, expected: u64, new_val: u64) -> (r: Result<u64, u64>)
        ensures
            match r {
                Ok(replaced) => replaced == expected,
                Err(held) => held != expected,
            },
    {
        fetch_update_with(&self.value, Update::Replace { expected, new_val })
    }

    /// Multiplies the counter by `multiplier` in one atomic step and
    /// returns the value it had before. [`product`] says what is stored in
    /// place of each value.
    pub fn fetch_multiply(&self, multiplier: u64) -> u64 {
        match fetch_update_with(&self.value, Update::Multiply(multiplier)) {
            Ok(previous) => previous,
            Err(previous) => previous,
        }
    }
}

} // verus!
