//! What holds of every wrapper, whatever is done with it.
//!
//! The laws are stated over `State`, the view of a wrapper, and over the
//! relations that the contracts of the wrapper's functions use.

use vstd::pervasive::strictly_cloned;
use vstd::prelude::*;
use crate::capability::resets_to;
use crate::state::State;
use crate::wrapper::ResettableWrapper;

verus! {

/// The state at position `i` of `run` turns into the one after it by one
/// mutable access.
pub open spec fn step_is_access<T: Clone>(run: Seq<State<T>>, i: int) -> bool {
    run[i].accessed_mutably(run[i + 1])
}

/// `run` lists the states that a wrapper goes through in one dirty period: it
/// starts clean, and each state follows from the one before it by one mutable
/// access. A run of `k + 1` states holds `k` accesses.
pub open spec fn dirty_period<T: Clone>(run: Seq<State<T>>) -> bool {
    &&& run.len() >= 1
    &&& run[0].is_clean()
    &&& forall|i: int| 0 <= i < run.len() - 1 ==> #[trigger] step_is_access(run, i)
}

/// How many of the accesses in `run` took a snapshot, that is, found the
/// wrapper clean.
pub open spec fn snapshots_taken<T>(run: Seq<State<T>>) -> nat
    decreases run.len(),
{
    if run.len() <= 1 {
        0
    } else {
        let earlier = snapshots_taken(run.drop_last());
        if run[run.len() - 2].is_clean() {
            earlier + 1
        } else {
            earlier
        }
    }
}

/// Wrappers with the same view are the same wrapper.
pub proof fn lemma_equal_views_equal_wrappers<T>(a: ResettableWrapper<T>, b: ResettableWrapper<T>)
    requires
        a@ == b@,
    ensures
        a == b,
{
    a.lemma_with_state_of_view();
    b.lemma_with_state_of_view();
}

/// Until the first write nothing happens: a wrapper made from `value` reads
/// as `value`, and resetting it right away gives the same wrapper back.
pub proof fn lemma_fresh_wrapper_is_kept<T>(
    value: T,
    wrapper: ResettableWrapper<T>,
    restored: ResettableWrapper<T>,
)
    requires
        wrapper@ == State::fresh(value),
        resets_to(wrapper, restored),
    ensures
        wrapper@.live == value,
        restored@ == State::fresh(value),
        restored == wrapper,
{
    lemma_equal_views_equal_wrappers(restored, wrapper);
}

/// Throughout a dirty period the checkpoint is the snapshot that the first
/// access took.
pub proof fn lemma_checkpoint_kept<T: Clone>(run: Seq<State<T>>, k: int)
    requires
        dirty_period(run),
        1 <= k < run.len(),
    ensures
        run[k].is_dirty(),
        run[k].checkpoint == run[1].checkpoint,
        strictly_cloned(run[0].live, run[k].checkpoint->0),
    decreases k,
{
    if k == 1 {
        assert(step_is_access(run, 0));
    } else {
        lemma_checkpoint_kept(run, k - 1);
        assert(step_is_access(run, k - 1));
    }
}

/// After any positive number of writes, a reset goes back to a clone of the
/// value from before the first of them, not to anything written in between.
/// Where `T::clone` returns nothing but its argument, that is the value
/// itself.
pub proof fn lemma_reset_restores_first_value<T: Clone>(run: Seq<State<T>>)
    requires
        dirty_period(run),
        run.len() >= 2,
    ensures
        strictly_cloned(run[0].live, run.last().restored_value()),
        run.last().reset() == State::fresh(run[1].checkpoint->0),
        (forall|a: T, b: T| #[trigger] strictly_cloned(a, b) ==> a == b)
            ==> run.last().restored_value() == run[0].live,
{
    lemma_checkpoint_kept(run, run.len() - 1);
}

/// A dirty period of any positive number of writes takes one snapshot: the
/// first access takes it, and no later access takes another.
pub proof fn lemma_one_snapshot_per_dirty_period<T: Clone>(run: Seq<State<T>>)
    requires
        dirty_period(run),
        run.len() >= 2,
    ensures
        snapshots_taken(run) == 1,
    decreases run.len(),
{
    let earlier = run.drop_last();
    assert forall|i: int| 0 <= i < earlier.len() - 1 implies #[trigger] step_is_access(
        earlier,
        i,
    ) by {
        assert(step_is_access(run, i));
    }
    if run.len() == 2 {
        assert(snapshots_taken(earlier) == 0);
    } else {
        lemma_one_snapshot_per_dirty_period(earlier);
        lemma_checkpoint_kept(run, run.len() - 2);
    }
}

/// A reset leaves the wrapper clean, and a second reset right after it
/// changes nothing.
pub proof fn lemma_reset_twice<T>(
    wrapper: ResettableWrapper<T>,
    once: ResettableWrapper<T>,
    twice: ResettableWrapper<T>,
)
    requires
        resets_to(wrapper, once),
        resets_to(once, twice),
    ensures
        once@.is_clean(),
        twice == once,
        wrapper@.reset().reset() == wrapper@.reset(),
{
    lemma_equal_views_equal_wrappers(twice, once);
}

/// Unwrapping after a reset gives what `reset_inner` gives: the live value of
/// the reset wrapper is the restored value of the wrapper it came from.
pub proof fn lemma_reset_then_unwrap<T>(wrapper: ResettableWrapper<T>, restored: ResettableWrapper<T>)
    requires
        resets_to(wrapper, restored),
    ensures
        restored@.live == wrapper@.restored_value(),
{
}

/// In a pair of wrappers each field is reset on its own. Whatever the two
/// fields went through since they were clean, resetting the pair leaves both
/// clean; a field that was not written to comes out as it was, and a field
/// that was written to comes out holding a clone of its value from before the
/// first write, whether or not the other field was written to as well.
pub proof fn lemma_pair_resets_each_field<A: Clone, B: Clone>(
    first: Seq<State<A>>,
    second: Seq<State<B>>,
    pair: (ResettableWrapper<A>, ResettableWrapper<B>),
    restored: (ResettableWrapper<A>, ResettableWrapper<B>),
)
    requires
        dirty_period(first),
        dirty_period(second),
        pair.0@ == first.last(),
        pair.1@ == second.last(),
        resets_to(pair, restored),
    ensures
        restored.0@ == pair.0@.reset(),
        restored.1@ == pair.1@.reset(),
        first.len() == 1 ==> restored.0 == pair.0,
        second.len() == 1 ==> restored.1 == pair.1,
        first.len() >= 2 ==> strictly_cloned(first[0].live, restored.0@.live),
        second.len() >= 2 ==> strictly_cloned(second[0].live, restored.1@.live),
{
    if first.len() == 1 {
        lemma_equal_views_equal_wrappers(restored.0, pair.0);
    } else {
        lemma_reset_restores_first_value(first);
    }
    if second.len() == 1 {
        lemma_equal_views_equal_wrappers(restored.1, pair.1);
    } else {
        lemma_reset_restores_first_value(second);
    }
}

} // verus!
