//! Finding the first position of a sequence at which something holds.

use vstd::prelude::*;

verus! {

/// Whether `i` is the least position of `flags` that holds `true`.
pub open spec fn is_first_true(flags: Seq<bool>, i: int) -> bool {
    &&& 0 <= i < flags.len()
    &&& flags[i]
    &&& forall|j: int| 0 <= j < i ==> !flags[j]
}

/// The least position of `flags` that holds `true`, if there is one.
pub open spec fn first_true(flags: Seq<bool>) -> Option<int> {
    if exists|i: int| is_first_true(flags, i) {
        Some(choose|i: int| is_first_true(flags, i))
    } else {
        None
    }
}

/// A position that holds `true` with none before it is the first one.
pub proof fn lemma_first_true_is(flags: Seq<bool>, i: int)
    requires
        is_first_true(flags, i),
    ensures
        first_true(flags) == Some(i),
{
}

/// Below a position that holds `true` there is a least one.
proof fn lemma_least_exists(flags: Seq<bool>, k: int)
    requires
        0 <= k < flags.len(),
        flags[k],
    ensures
        exists|i: int| is_first_true(flags, i),
    decreases k,
{
    if forall|j: int| 0 <= j < k ==> !flags[j] {
        assert(is_first_true(flags, k));
    } else {
        let j = choose|j: int| 0 <= j < k && flags[j];
        lemma_least_exists(flags, j);
    }
}

/// What `first_true` returns: the least position that holds `true`, or
/// nothing when no position does.
pub proof fn lemma_first_true(flags: Seq<bool>)
    ensures
        match first_true(flags) {
            Some(i) => is_first_true(flags, i),
            None => forall|j: int| 0 <= j < flags.len() ==> !flags[j],
        },
{
    if first_true(flags) is None {
        assert forall|j: int| 0 <= j < flags.len() implies !flags[j] by {
            if flags[j] {
                lemma_least_exists(flags, j);
            }
        }
    }
}

} // verus!
