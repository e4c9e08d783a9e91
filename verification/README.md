# kitties

A kitty-collecting game for a blockchain runtime, verified with Verus.

- `src/types.rs` — kitties, battle attributes, wild animals, weaponry, origins, errors, events.
- `src/linked_list.rs` — the per-account list of owned kitties, kept in one map keyed by
  `(account, Option<kitty>)` with a sentinel entry per account.
- `src/hashing.rs` — DNA and lottery randomness: SCALE encoding and Blake2 hashing.
- `src/battle.rs` — DNA mixing and battle arithmetic.
- `src/module.rs` — the game's storage and its calls; calls that need a payment are split
  into a check that names the payment and a step that completes the call once it is made.
- `src/unsigned.rs` — the calls and the validation of unsigned transactions.
- `src/laws.rs` — properties that hold across calls and states.
- `app/lib.rs` — runs the game on a host chain that supplies randomness, block numbers,
  balances and the sudo key.
