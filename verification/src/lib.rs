//! Drift Kernel: the bookkeeping of a Neumaier-compensated accumulator.
//!
//! The accumulator keeps a running sum, a compensation buffer, the value it
//! was created with, and a count of the additions made since it was created
//! or last reset. The numeric fields are IEEE-754 binary64 values held as
//! their bit patterns; the floating-point arithmetic of a compensated step is
//! done by the caller, which hands the step's results to `record_add`.
//!
//! What is proved here is the state machine: what a new accumulator holds,
//! what each recorded addition changes, that the operation count counts the
//! additions, and that a reset brings back exactly the state the accumulator
//! was created in.

pub mod accumulator;
pub mod laws;

pub use accumulator::{AccumulatorState, ScgAccumulator, POSITIVE_ZERO_BITS};
