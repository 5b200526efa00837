//! Which exercises pass, and which one the session is looking at.

use vstd::arithmetic::div_mod::{lemma_fundamental_div_mod, lemma_fundamental_div_mod_converse};
use vstd::prelude::*;

verus! {

/// The index reached from `current` by `k` steps forward among `n` indices,
/// going back to 0 after the last one.
pub open spec fn step_index(current: int, k: int, n: int) -> int {
    (current + k) % n
}

/// `idx` is the first index after `current`, in forward order with
/// wraparound, whose exercise is not done. After at most `done.len()` steps
/// the search is back at `current` itself.
pub open spec fn is_next_incomplete(done: Seq<bool>, current: int, idx: int) -> bool {
    exists|k: int|
        {
            &&& 1 <= k <= done.len()
            &&& idx == #[trigger] step_index(current, k, done.len() as int)
            &&& 0 <= idx < done.len()
            &&& !done[idx]
            &&& forall|j: int|
                1 <= j < k ==> done[#[trigger] step_index(current, j, done.len() as int)]
        }
}

/// Every exercise is done.
pub open spec fn all_done(done: Seq<bool>) -> bool {
    forall|i: int| 0 <= i < done.len() ==> done[i]
}

/// How many exercises are done.
pub open spec fn done_count(done: Seq<bool>) -> nat
    decreases done.len(),
{
    if done.len() == 0 {
        0
    } else {
        done_count(done.drop_last()) + if done.last() {
            1nat
        } else {
            0nat
        }
    }
}

/// The count of done exercises never exceeds the number of exercises.
pub proof fn lemma_done_count_bound(done: Seq<bool>)
    ensures
        done_count(done) <= done.len(),
    decreases done.len(),
{
    if done.len() > 0 {
        lemma_done_count_bound(done.drop_last());
    }
}

/// Marking one more exercise as done raises the count by one; marking one
/// that is done already changes nothing.
pub proof fn lemma_done_count_update(done: Seq<bool>, i: int)
    requires
        0 <= i < done.len(),
    ensures
        done_count(done.update(i, true)) == done_count(done) + if done[i] {
            0nat
        } else {
            1nat
        },
    decreases done.len(),
{
    let after = done.update(i, true);
    if i == done.len() - 1 {
        assert(after.drop_last() == done.drop_last());
    } else {
        lemma_done_count_update(done.drop_last(), i);
        assert(after.drop_last() == done.drop_last().update(i, true));
    }
}

/// The count reaches the number of exercises exactly when all are done.
pub proof fn lemma_done_count_full(done: Seq<bool>)
    ensures
        done_count(done) == done.len() <==> all_done(done),
    decreases done.len(),
{
    if done.len() > 0 {
        let front = done.drop_last();
        lemma_done_count_full(front);
        lemma_done_count_bound(front);
        if all_done(done) {
            assert forall|i: int| 0 <= i < front.len() implies front[i] by {
                assert(done[i]);
            }
        }
        if done_count(done) == done.len() {
            assert forall|i: int| 0 <= i < done.len() implies done[i] by {
                if i < front.len() {
                    assert(front[i]);
                }
            }
        }
    }
}

/// How many of the exercises are done.
pub fn count_done(done: &[bool]) -> (n: usize)
    ensures
        n == done_count(done@),
        n <= done.len(),
{
    let mut n: usize = 0;
    let mut i: usize = 0;
    assert(done@.take(0) == Seq::<bool>::empty());
    while i < done.len()
        invariant
            i <= done.len(),
            n <= i,
            n == done_count(done@.take(i as int)),
        decreases done.len() - i,
    {
        assert(done@.take(i + 1).drop_last() == done@.take(i as int));
        if done[i] {
            n += 1;
        }
        i += 1;
    }
    assert(done@.take(done.len() as int) == done@);
    n
}

/// The first exercise, in list order, that is not done.
pub fn first_incomplete(done: &[bool]) -> (r: Option<usize>)
    ensures
        match r {
            Some(idx) => idx < done.len() && !done[idx as int] && forall|j: int|
                0 <= j < idx ==> done[j],
            None => all_done(done@),
        },
{
    let mut i: usize = 0;
    while i < done.len()
        invariant
            i <= done.len(),
            forall|j: int| 0 <= j < i ==> done[j],
        decreases done.len() - i,
    {
        if !done[i] {
            return Some(i);
        }
        i += 1;
    }
    None
}

proof fn lemma_step_index(current: int, k: int, n: int)
    requires
        0 < n,
        0 <= current,
        0 <= k <= n,
    ensures
        step_index(current, k, n) == if current % n + k < n {
            current % n + k
        } else {
            current % n + k - n
        },
{
    let c = current % n;
    let q = current / n;
    lemma_fundamental_div_mod(current, n);
    assert(0 <= c < n);
    if c + k < n {
        assert(current + k == q * n + (c + k)) by (nonlinear_arith)
            requires
                current == n * q + c,
        ;
        lemma_fundamental_div_mod_converse(current + k, n, q, c + k);
    } else {
        assert(current + k == (q + 1) * n + (c + k - n)) by (nonlinear_arith)
            requires
                current == n * q + c,
        ;
        lemma_fundamental_div_mod_converse(current + k, n, q + 1, c + k - n);
    }
}

/// The search behind [`next_incomplete`], from step `k` on: the index at
/// the first step `k..=done.len()` whose exercise is not done.
pub open spec fn next_incomplete_from(done: Seq<bool>, current: int, k: int) -> Option<int>
    decreases done.len() + 1 - k,
{
    let n = done.len() as int;
    if k < 1 || k > n {
        None
    } else if !done[step_index(current, k, n)] {
        Some(step_index(current, k, n))
    } else {
        next_incomplete_from(done, current, k + 1)
    }
}

/// The exercise to move to after `current` has passed: the first one that is
/// not done, searching forward from `current + 1` and wrapping round to the
/// start, `current` itself being tried last. `None` when every exercise is
/// done.
pub open spec fn next_incomplete(done: Seq<bool>, current: int) -> Option<int> {
    next_incomplete_from(done, current, 1)
}

proof fn lemma_next_incomplete_from(done: Seq<bool>, current: int, k: int)
    requires
        0 <= current,
        1 <= k,
        forall|j: int| 1 <= j < k ==> done[#[trigger] step_index(current, j, done.len() as int)],
    ensures
        match next_incomplete_from(done, current, k) {
            Some(idx) => is_next_incomplete(done, current, idx),
            None => forall|j: int|
                1 <= j <= done.len() ==> done[#[trigger] step_index(
                    current,
                    j,
                    done.len() as int,
                )],
        },
    decreases done.len() + 1 - k,
{
    let n = done.len() as int;
    if k > n {
    } else if !done[step_index(current, k, n)] {
        lemma_step_index(current, k, n);
    } else {
        lemma_next_incomplete_from(done, current, k + 1);
    }
}

/// What [`next_incomplete`] finds is the nearest exercise that is not done,
/// going forward with wraparound; it finds nothing only if all are done.
pub proof fn lemma_next_incomplete(done: Seq<bool>, current: int)
    requires
        0 <= current,
    ensures
        match next_incomplete(done, current) {
            Some(idx) => is_next_incomplete(done, current, idx),
            None => all_done(done),
        },
{
    lemma_next_incomplete_from(done, current, 1);
    if next_incomplete(done, current) is None {
        let n = done.len() as int;
        if n > 0 {
            let c = current % n;
            assert forall|t: int| 0 <= t < n implies done[t] by {
                let j = if t > c {
                    t - c
                } else {
                    t + n - c
                };
                lemma_step_index(current, j, n);
                assert(done[step_index(current, j, n)]);
            }
        }
    }
}

/// Only one index can be the nearest exercise that is not done.
pub proof fn lemma_next_incomplete_unique(done: Seq<bool>, current: int, a: int, b: int)
    requires
        is_next_incomplete(done, current, a),
        is_next_incomplete(done, current, b),
    ensures
        a == b,
{
    let n = done.len() as int;
    let ka = choose|k: int|
        {
            &&& 1 <= k <= done.len()
            &&& a == #[trigger] step_index(current, k, n)
            &&& 0 <= a < done.len()
            &&& !done[a]
            &&& forall|j: int| 1 <= j < k ==> done[#[trigger] step_index(current, j, n)]
        };
    let kb = choose|k: int|
        {
            &&& 1 <= k <= done.len()
            &&& b == #[trigger] step_index(current, k, n)
            &&& 0 <= b < done.len()
            &&& !done[b]
            &&& forall|j: int| 1 <= j < k ==> done[#[trigger] step_index(current, j, n)]
        };
    if ka < kb {
        assert(done[step_index(current, ka, n)]);
    } else if kb < ka {
        assert(done[step_index(current, kb, n)]);
    }
}

/// Finds the exercise to move to after `current` has passed.
pub fn find_next_incomplete(done: &[bool], current: usize) -> (r: Option<usize>)
    ensures
        match r {
            Some(idx) => next_incomplete(done@, current as int) == Some(idx as int)
                && is_next_incomplete(done@, current as int, idx as int),
            None => next_incomplete(done@, current as int) is None && all_done(done@),
        },
{
    let n = done.len();
    proof {
        lemma_next_incomplete(done@, current as int);
    }
    if n == 0 {
        return None;
    }
    let c = current % n;
    let mut i: usize = 0;
    while i < n
        invariant
            0 < n == done.len(),
            c == current % n,
            i <= n,
            next_incomplete(done@, current as int) == next_incomplete_from(
                done@,
                current as int,
                i + 1,
            ),
        decreases n - i,
    {
        let k = i + 1;
        let idx = if k < n - c {
            c + k
        } else {
            k - (n - c)
        };
        proof {
            lemma_step_index(current as int, k as int, n as int);
            lemma_next_incomplete(done@, current as int);
            assert(idx == step_index(current as int, k as int, n as int));
        }
        if !done[idx] {
            return Some(idx);
        }
        i += 1;
    }
    None
}

} // verus!
