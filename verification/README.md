# escrow

A token escrow for Solana, verified with Verus.

A maker locks mint-A tokens in a vault held by a program-derived escrow
account and asks for a fixed amount of mint-B tokens. `take` settles the trade;
`cancel` returns the vault to the maker.

- `src/` — the verified library. Each instruction is a state machine
  (`instructions/take.rs`, `instructions/cancel.rs`): given the accounts as they
  are and the outcome of the last cross-program invocation, it answers with the
  next invocation, the final lamport settlement, or the instruction's result.
  `state.rs` reads the escrow record, `token.rs` reads token accounts,
  `pda.rs` derives the escrow address, `laws.rs` proves properties that span
  several steps.
- `app/` — the on-chain glue: copies `AccountView`s into snapshots, performs
  the invocations with `pinocchio-token` and `pinocchio-associated-token-account`,
  and writes the settlement.
- `tests/` — unit tests, and whole-instruction runs against a small stand-in
  for the token programs.
