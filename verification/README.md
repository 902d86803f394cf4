# amm_q3_2026

A constant-product AMM pool for Solana, split in two:

- `src/` is the verified library (Verus). Each instruction (`init_pool`,
  `add_liquidity`, `remove_liquidity`, `swap`, `toggle_lock`) is a method on a
  plain-value model of the accounts it reads. It either refuses the request
  with an `AmmError` or returns the plan of token movements (transfers, LP
  mints and burns) that carries it out. The constant-product pricing is handed
  in as a closure; the contracts state the outcome for whatever it answers,
  and a `settle` function per instruction gives the exact outcome for a given
  answer. `movement.rs` models what a plan does to balances and proves that
  no plan creates or destroys token A or B, and that LP tokens appear in
  accounts exactly as the LP supply grows.
- `app/` is the Anchor program: account validation, the calls into the
  `constant_product_curve` crate, and the token-program CPIs that perform the
  planned movements.
- `tests/` runs the library through a pool's life (creation, deposits,
  withdrawals, swaps both ways, locking and unlocking, refused requests),
  with a plain proportional and constant-product pricing standing in for
  the curve, and applies the planned movements to a ledger of balances.
