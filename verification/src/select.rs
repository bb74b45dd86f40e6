//! Epsilon-greedy action selection.
//!
//! An epsilon-greedy policy explores with probability epsilon and otherwise
//! exploits the best-known action. The host draws a single uniform random
//! value, compares it against epsilon, and scales the same draw into the
//! index range for the exploring case; both the comparison outcome and the
//! scaled index arrive here as plain values. The per-action value estimates
//! arrive as order keys: unsigned integers whose `<=` order agrees with the
//! order of the estimates they stand for. This module decides the selected
//! index: the externally drawn one when exploring, else the position of the
//! maximum key, ties resolved to the lowest index.

use vstd::prelude::*;

verus! {

/// Error raised by action selection.
#[derive(Clone, Copy, Debug, PartialEq, Eq, Structural)]
pub enum SelectError {
    /// The vector of per-action value estimates was empty.
    EmptyInput,
}

/// `i` is the position of the maximum of `s`, ties resolved to the lowest
/// index (stable, leftmost-max semantics).
pub open spec fn is_leftmost_max(s: Seq<u64>, i: int) -> bool {
    &&& 0 <= i < s.len()
    &&& forall|j: int| 0 <= j < s.len() ==> s[j] <= s[i]
    &&& forall|j: int| 0 <= j < i ==> s[j] < s[i]
}

/// At most one position is the leftmost maximum, so the greedy choice of
/// `epsilon_greedy_decide` is completely determined by its contract.
pub proof fn lemma_leftmost_max_unique(s: Seq<u64>, i: int, j: int)
    requires
        is_leftmost_max(s, i),
        is_leftmost_max(s, j),
    ensures
        i == j,
{
    if i < j {
        assert(s[i] < s[j]);
        assert(s[j] <= s[i]);
    } else if j < i {
        assert(s[j] < s[i]);
        assert(s[i] <= s[j]);
    }
}

/// Decide an epsilon-greedy action. On an empty key vector the selection
/// fails with `EmptyInput`; when exploring, the externally drawn index is
/// returned as it stands; otherwise the index of the maximum key is
/// returned, ties resolved to the lowest index.
pub fn epsilon_greedy_decide(keys: &Vec<u64>, explore: bool, explore_idx: usize) -> (r: Result<
    usize,
    SelectError,
>)
    ensures
        keys@.len() == 0 <==> r == Err::<usize, SelectError>(SelectError::EmptyInput),
        keys@.len() > 0 && explore ==> r == Ok::<usize, SelectError>(explore_idx),
        keys@.len() > 0 && !explore ==> r is Ok && is_leftmost_max(keys@, r->Ok_0 as int),
{
    if keys.len() == 0 {
        return Err(SelectError::EmptyInput);
    }
    if explore {
        return Ok(explore_idx);
    }
    let mut best: usize = 0;
    let mut idx: usize = 1;
    while idx < keys.len()
        invariant
            0 < keys@.len(),
            best < idx <= keys@.len(),
            forall|j: int| 0 <= j < idx ==> keys@[j] <= keys@[best as int],
            forall|j: int| 0 <= j < best ==> keys@[j] < keys@[best as int],
        decreases keys@.len() - idx,
    {
        if keys[idx] > keys[best] {
            best = idx;
        }
        idx += 1;
    }
    Ok(best)
}

} // verus!
