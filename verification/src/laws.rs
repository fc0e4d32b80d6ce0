use vstd::prelude::*;

use crate::accumulator::{after_add, after_reset, fresh, run, AccumulatorState, POSITIVE_ZERO_BITS};

verus! {

/// A new accumulator's running sum is exactly the value it was created with,
/// its compensation is `+0.0`, it keeps that value as its initial value, and
/// it has made no addition.
pub proof fn fresh_holds_initial_value(initial: u64)
    ensures
        fresh(initial).sum == initial,
        fresh(initial).compensation == POSITIVE_ZERO_BITS,
        fresh(initial).initial == initial,
        fresh(initial).ops == 0,
{
}

/// After a reset the running sum is exactly the initial value, the
/// compensation is `+0.0`, the initial value is unchanged and the count is
/// zero, whatever the state before.
pub proof fn reset_puts_initial_value_back(s: AccumulatorState)
    ensures
        after_reset(s).sum == s.initial,
        after_reset(s).compensation == POSITIVE_ZERO_BITS,
        after_reset(s).initial == s.initial,
        after_reset(s).ops == 0,
{
}

/// A recorded addition makes the given results the running sum and the
/// compensation, keeps the initial value, and counts exactly one more
/// operation.
pub proof fn add_stores_results(s: AccumulatorState, sum: u64, compensation: u64)
    ensures
        after_add(s, sum, compensation).sum == sum,
        after_add(s, sum, compensation).compensation == compensation,
        after_add(s, sum, compensation).initial == s.initial,
        after_add(s, sum, compensation).ops == s.ops + 1,
{
}

/// The `+0.0` compensation of a fresh or reset accumulator is the all-zero
/// bit pattern.
pub proof fn positive_zero_is_all_zero_bits()
    ensures
        POSITIVE_ZERO_BITS == 0,
{
}

/// A reset brings back exactly the state the accumulator was created in.
pub proof fn reset_restores_fresh(s: AccumulatorState)
    ensures
        after_reset(s) == fresh(s.initial),
{
}

/// Resetting twice is the same as resetting once.
pub proof fn reset_is_idempotent(s: AccumulatorState)
    ensures
        after_reset(after_reset(s)) == after_reset(s),
{
}

/// Recording additions never changes the initial value, and the count goes up
/// by exactly the number of additions recorded.
pub proof fn run_counts_additions(s: AccumulatorState, steps: Seq<(u64, u64)>)
    ensures
        run(s, steps).initial == s.initial,
        run(s, steps).ops == s.ops + steps.len(),
    decreases steps.len(),
{
    if steps.len() > 0 {
        run_counts_additions(s, steps.drop_last());
    }
}

/// After `n` additions on a new accumulator the count is `n`, and the state
/// holds the results of the last addition (or the fresh state when there was
/// none).
pub proof fn fresh_run_counts_additions(initial: u64, steps: Seq<(u64, u64)>)
    ensures
        run(fresh(initial), steps).ops == steps.len(),
        run(fresh(initial), steps).initial == initial,
        steps.len() == 0 ==> run(fresh(initial), steps) == fresh(initial),
        steps.len() > 0 ==> run(fresh(initial), steps).sum == steps.last().0,
        steps.len() > 0 ==> run(fresh(initial), steps).compensation == steps.last().1,
{
    run_counts_additions(fresh(initial), steps);
}

/// Whatever additions were made, a reset forgets them all: the state is the
/// one the accumulator was created in.
pub proof fn reset_forgets_history(initial: u64, steps: Seq<(u64, u64)>)
    ensures
        after_reset(run(fresh(initial), steps)) == fresh(initial),
{
    run_counts_additions(fresh(initial), steps);
}

/// An addition recorded after a reset acts as one on a new accumulator.
pub proof fn add_after_reset_is_first_add(s: AccumulatorState, sum: u64, compensation: u64)
    ensures
        after_add(after_reset(s), sum, compensation) == after_add(fresh(s.initial), sum, compensation),
{
}

} // verus!
