//! The decisions of a cooperative scheduler of green threads. Each thread is
//! ready, running or finished; the thread at index 0 is the one that started
//! the scheduler. When the running thread yields or finishes, the scheduler
//! picks the next ready thread, going round from the one after the current.
//! The switch of the processor to the context of that thread is not part of
//! the decision.

use crate::progress::{find_next_incomplete, is_next_incomplete, next_incomplete};
use vstd::prelude::*;

verus! {

/// The state of a green thread.
#[derive(Debug, Clone, Copy, PartialEq, Eq, Structural)]
pub enum ThreadState {
    /// The thread can run and waits for its turn.
    Ready,
    /// The thread is the one that runs.
    Running,
    /// The thread has returned from its entry.
    Finished,
}

/// For each thread, whether it is out of the choice: it is not ready.
pub open spec fn passed_over(states: Seq<ThreadState>) -> Seq<bool> {
    states.map_values(|s: ThreadState| s != ThreadState::Ready)
}

/// Whether every thread but the first has finished.
pub open spec fn others_finished(states: Seq<ThreadState>) -> bool {
    forall|i: int| 1 <= i < states.len() ==> states[i] == ThreadState::Finished
}

/// Picks the thread that runs next: the first ready thread after `current`,
/// going round to the first thread after the last. There is none if no
/// thread is ready.
pub fn next_ready(states: &[ThreadState], current: usize) -> (r: Option<usize>)
    ensures
        match r {
            Some(next) => next_incomplete(passed_over(states@), current as int) == Some(
                next as int,
            ) && is_next_incomplete(passed_over(states@), current as int, next as int)
                && states[next as int] == ThreadState::Ready,
            None => forall|i: int| 0 <= i < states.len() ==> states[i] != ThreadState::Ready,
        },
{
    let mut out: Vec<bool> = Vec::new();
    let mut i: usize = 0;
    while i < states.len()
        invariant
            i <= states.len(),
            out.len() == i,
            forall|j: int| 0 <= j < i ==> out[j] == (states[j] != ThreadState::Ready),
        decreases states.len() - i,
    {
        out.push(states[i] != ThreadState::Ready);
        i += 1;
    }
    assert(out@ =~= passed_over(states@));
    find_next_incomplete(out.as_slice(), current)
}

/// Whether the scheduler is done: every thread but the first has finished.
pub fn all_finished(states: &[ThreadState]) -> (r: bool)
    ensures
        r == others_finished(states@),
{
    let mut i: usize = 1;
    while i < states.len()
        invariant
            1 <= i,
            forall|j: int| 1 <= j < i && j < states.len() ==> states[j] == ThreadState::Finished,
        decreases states.len() - i,
    {
        if states[i] != ThreadState::Finished {
            return false;
        }
        i += 1;
    }
    true
}

/// The states after the processor has been handed from the thread at
/// `current` to the one at `next`: the one that ran is ready again unless
/// it has finished, and the other one runs.
pub open spec fn handed_over(states: Seq<ThreadState>, current: int, next: int) -> Seq<ThreadState> {
    let yielded = if states[current] == ThreadState::Finished {
        states
    } else {
        states.update(current, ThreadState::Ready)
    };
    yielded.update(next, ThreadState::Running)
}

/// Records that the processor goes from the thread at `current` to the one
/// at `next`.
pub fn hand_over(states: &mut Vec<ThreadState>, current: usize, next: usize)
    requires
        current < old(states).len(),
        next < old(states).len(),
    ensures
        final(states)@ == handed_over(old(states)@, current as int, next as int),
{
    if states[current] != ThreadState::Finished {
        states.set(current, ThreadState::Ready);
    }
    states.set(next, ThreadState::Running);
}

} // verus!
