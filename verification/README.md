# amms

The decision logic of a constant-product automated market maker (a Solana
program built with Anchor), verified with Verus.

- `src/` is the verified library. `deposit`, `withdraw` and `swap` validate a
  request against the pool's state, say which computation the
  constant-product curve must make, and, given the curve's answer, yield the
  exact token-program instructions that carry the operation out (or the error
  that refuses it). `token.rs` gives those instructions their meaning on the
  balances involved; `laws.rs` proves what the operations do to the balances
  and to each other.
- `app/` is the on-chain program around it: Anchor account validation, the
  curve computations, and the cross-program calls to the token program.
- `tests/` runs the library on concrete pools.
