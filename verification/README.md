# hyperplane

The arithmetic and the decisions of a two-token automated market maker,
verified with Verus.

- `src/curve/` holds the pricing curves (constant product, constant price,
  offset and stable), the fee schedule and the pool token conversions. The
  256-bit and fixed-point arithmetic of the stable curve runs on
  `spl-math`'s `U256` and `PreciseNumber`, each call behind a wrapper whose
  contract states what it computes.
- `src/transfer_fee.rs` reads a mint's Token-2022 transfer fee schedule
  through `spl-token-2022` and applies it to amounts going in and out.
- `src/instructions.rs` holds what each pool instruction decides (pool
  creation, deposits, withdrawals, swaps, fee withdrawals and config
  updates), from plain values: the caller performs the token transfers it
  returns.
- `src/pool_value.rs` proves that on constant product, offset and constant
  price pools the worth of a pool token never falls over any sequence of
  swaps, deposits and withdrawals, and that on stable pools it never falls
  over any sequence of deposits and withdrawals; `src/curve/stable.rs`
  proves that a stable swap keeps the pool on or above the curve it was
  priced at, but for one rounding.
- `src/constraints.rs`, `src/state.rs`, `src/configs.rs`, `src/ix.rs` and
  `src/event.rs` hold the owner's constraints, the stored config values, the
  command-line config values, the instruction data and the events.
- `app/` holds a big-integer model of the stable swap, used to cross-check
  the stable curve, and the command-line reading of config values.

`tests/` exercises the library with the real outside crates linked.
