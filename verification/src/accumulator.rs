use vstd::prelude::*;

verus! {

/// Bit pattern of the binary64 value `+0.0`, the compensation of a fresh or
/// reset accumulator.
pub const POSITIVE_ZERO_BITS: u64 = 0u64;

/// Mathematical model of an accumulator.
///
/// `sum`, `compensation` and `initial` are binary64 bit patterns; `ops` is
/// the number of additions recorded since creation or the last reset.
pub struct AccumulatorState {
    pub sum: u64,
    pub compensation: u64,
    pub initial: u64,
    pub ops: nat,
}

/// The state of an accumulator created with `initial`: the sum is the
/// initial value, the compensation is `+0.0`, and no addition has been made.
pub open spec fn fresh(initial: u64) -> AccumulatorState {
    AccumulatorState { sum: initial, compensation: POSITIVE_ZERO_BITS, initial: initial, ops: 0 }
}

/// The state after one compensated addition whose results are `sum` (the new
/// running sum) and `compensation` (the new compensation buffer).
pub open spec fn after_add(s: AccumulatorState, sum: u64, compensation: u64) -> AccumulatorState {
    AccumulatorState { sum: sum, compensation: compensation, initial: s.initial, ops: s.ops + 1 }
}

/// The state after a reset: sum back to the initial value, compensation
/// `+0.0`, count zero; the initial value itself is kept.
pub open spec fn after_reset(s: AccumulatorState) -> AccumulatorState {
    AccumulatorState { sum: s.initial, compensation: POSITIVE_ZERO_BITS, initial: s.initial, ops: 0 }
}

/// The state reached from `s` by recording the additions in `steps`, in
/// order; each step is the pair (new sum, new compensation).
pub open spec fn run(s: AccumulatorState, steps: Seq<(u64, u64)>) -> AccumulatorState
    decreases steps.len(),
{
    if steps.len() == 0 {
        s
    } else {
        let last = steps.last();
        after_add(run(s, steps.drop_last()), last.0, last.1)
    }
}

/// Neumaier-compensated accumulator (bookkeeping part).
///
/// Not thread-safe: one instance per thread, or synchronize externally.
#[derive(Debug, Clone, Copy)]
pub struct ScgAccumulator {
    /// Running sum (binary64 bit pattern).
    sum: u64,
    /// Compensation buffer (binary64 bit pattern).
    compensation: u64,
    /// Initial value (binary64 bit pattern), kept for drift and reset.
    initial: u64,
    /// Number of additions since creation or the last reset.
    ops: u64,
}

impl View for ScgAccumulator {
    type V = AccumulatorState;

    closed spec fn view(&self) -> AccumulatorState {
        AccumulatorState {
            sum: self.sum,
            compensation: self.compensation,
            initial: self.initial,
            ops: self.ops as nat,
        }
    }
}

impl ScgAccumulator {
    /// Creates an accumulator whose running sum is `initial` (a binary64 bit
    /// pattern), with a `+0.0` compensation and no additions made.
    pub fn new(initial: u64) -> (r: Self)
        ensures
            r@ == fresh(initial),
            r@.sum == initial,
            r@.compensation == POSITIVE_ZERO_BITS,
            r@.initial == initial,
            r@.ops == 0,
    {
        ScgAccumulator { sum: initial, compensation: POSITIVE_ZERO_BITS, initial, ops: 0 }
    }

    /// Records one compensated addition: `sum` becomes the running sum,
    /// `compensation` the compensation buffer, and the count goes up by one.
    ///
    /// The count must not be at `u64::MAX`: one more addition would overflow it.
    pub fn record_add(&mut self, sum: u64, compensation: u64)
        requires
            old(self)@.ops < u64::MAX,
        ensures
            final(self)@ == after_add(old(self)@, sum, compensation),
            final(self)@.sum == sum,
            final(self)@.compensation == compensation,
            final(self)@.initial == old(self)@.initial,
            final(self)@.ops == old(self)@.ops + 1,
    {
        self.sum = sum;
        self.compensation = compensation;
        self.ops = self.ops + 1;
    }

    /// Running sum without compensation (binary64 bit pattern).
    pub fn raw_sum(&self) -> (r: u64)
        ensures
            r == self@.sum,
    {
        self.sum
    }

    /// Compensation buffer (binary64 bit pattern).
    pub fn compensation(&self) -> (r: u64)
        ensures
            r == self@.compensation,
    {
        self.compensation
    }

    /// The value the accumulator was created with (binary64 bit pattern).
    pub fn initial(&self) -> (r: u64)
        ensures
            r == self@.initial,
    {
        self.initial
    }

    /// Number of additions since creation or the last reset.
    pub fn ops(&self) -> (r: u64)
        ensures
            r == self@.ops,
    {
        self.ops
    }

    /// Resets to the initial state: the sum becomes the initial value, the
    /// compensation `+0.0`, the count zero.
    pub fn reset(&mut self)
        ensures
            final(self)@ == after_reset(old(self)@),
            final(self)@.sum == old(self)@.initial,
            final(self)@.compensation == POSITIVE_ZERO_BITS,
            final(self)@.initial == old(self)@.initial,
            final(self)@.ops == 0,
    {
        self.sum = self.initial;
        self.compensation = POSITIVE_ZERO_BITS;
        self.ops = 0;
    }
}

} // verus!
