//! Two futures as plain state machines. Each `poll` of such a future is one
//! step of its machine, and the step is all there is to decide: to be a
//! future, the machine only has to wake the waker whenever a step is not the
//! last.

use vstd::prelude::*;

verus! {

/// What one step of a future gives.
#[derive(Debug, PartialEq, Eq, Structural)]
pub enum Step<T> {
    /// The future is not done and wants to be polled again.
    Pending,
    /// The future is done, with this result.
    Ready(T),
}

/// A countdown: it is pending for `count` polls and ready at the next one.
pub struct CountDown {
    pub count: u32,
}

impl CountDown {
    /// A countdown from `count`.
    pub fn new(count: u32) -> (c: Self)
        ensures
            c.count == count,
    {
        CountDown { count }
    }

    /// One poll. At zero the countdown is ready with `"liftoff!"`, and stays
    /// so; above zero it counts one down and is pending.
    pub fn step(&mut self) -> (r: Step<&'static str>)
        ensures
            old(self).count == 0 ==> r == Step::Ready("liftoff!") && final(self).count == 0,
            old(self).count > 0 ==> r == Step::<&'static str>::Pending && final(self).count
                == old(self).count - 1,
    {
        if self.count == 0 {
            Step::Ready("liftoff!")
        } else {
            self.count -= 1;
            Step::Pending
        }
    }

    /// The number of polls that a countdown needs until it is ready.
    pub open spec fn polls_needed(self) -> nat {
        (self.count + 1) as nat
    }
}

/// A future that is pending once: the first poll finds it pending, every
/// later one ready.
pub struct YieldOnce {
    yielded: bool,
}

impl YieldOnce {
    /// Whether the future has been polled.
    pub closed spec fn yielded(&self) -> bool {
        self.yielded
    }

    /// A future that has not been polled yet.
    pub fn new() -> (y: Self)
        ensures
            !y.yielded(),
    {
        YieldOnce { yielded: false }
    }

    /// One poll: pending the first time, ready from then on.
    pub fn step(&mut self) -> (r: Step<()>)
        ensures
            final(self).yielded(),
            r == if old(self).yielded() {
                Step::Ready(())
            } else {
                Step::Pending
            },
    {
        if self.yielded {
            Step::Ready(())
        } else {
            self.yielded = true;
            Step::Pending
        }
    }
}

} // verus!
