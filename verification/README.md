# vovo

A verified library for the Vovo vault programs on Solana.

- `processor` (with `create_vault`, `deposit`, `set_authority`), `instruction`,
  `errors`: the native vault program. Each handler takes the instruction's
  accounts as plain values and returns what the runtime must do (allocate,
  transfer, write account data) or the error it reports.
- `vovo_vault`, `anchor_vault`, `vovo_solana`: the three Anchor versions of the
  vault. Their handlers check the account constraints (signers, the token
  program, the record's derived address), return the token transfers and
  cross-program calls to make, and update the depositor records they are
  given. The three-pool vault's poke, which decides between outside calls, is
  a step function: the caller makes each call it asks for and hands back the
  outcome.
- `ledger`: the balance arithmetic all vaults share; `codec`: the little-endian
  account and instruction layouts; `address`: program-derived addresses and the
  SPL token program id, taken from the Solana crates.
- `app/`: the runtime glue of the native program, and runners that carry out
  what the Anchor handlers ask for (token transfers, and the poke loop with
  the outside calls supplied by the caller).
