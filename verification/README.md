# drift_kernel

Neumaier-compensated summation with a stable C ABI.

- `src/` — the verified library: the accumulator's state machine
  (`accumulator.rs`: model, specification and executable code) and the laws
  proved about it (`laws.rs`). Numeric fields are binary64 bit patterns; the
  library does no floating-point arithmetic.
- `app/` — the binary64 front end: the compensated step, the one-shot slice
  sum, the `DriftAccumulator` trait and the exported `scg_*` C functions.
- `tests/` — tests of the library.
