# chart_rs

A charting engine core for desktop applications, written in Verus. The parts of the engine
that decide are verified against their contracts: validation, invalidation and redraw
planning, pane bookkeeping, interaction state, capture and trace import, the argument parsing
of the two command-line tools, and the conversion of `rust_decimal` prices.

Floating-point values cross the verified library as their IEEE-754 bit patterns
(`float_bits::F64Bits`); classifying and comparing them is integer logic with a contract.
Arithmetic on them (scales, projections, layout, marker placement, kinetic steps, applying the
time-scale constraints) lives in `app/`, which also holds the `serde` forms of library types
and the conversions from `chrono` and `serde_json` values.

- `src/` the verified library, one module per concern
- `tests/` tests of the library
- `app/` the host-side code around it
