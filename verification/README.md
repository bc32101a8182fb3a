# steel_examples

Verified models of a handful of Solana programs written with the `steel`
framework: a favorites store, a token mint with a program-derived mint
authority, a minter router, a lever switch and a message account.

- `src/` is the Verus library. It models an account as plain values
  (`account::AccountState`) and holds the programs' byte layouts, the account
  validations, and each instruction processor's decisions, with contracts and
  laws (layout round trips, read-after-write of stored favorites, last write
  wins, the create-token strings surviving the client's padding and the
  program's trimming and reaching the metadata instruction).
  Calls into `solana-program`, `spl-token`, `spl-associated-token-account`,
  `mpl-token-metadata` and `steel` go through a few trusted wrappers in
  `keys.rs`, `token.rs`, `cpi.rs` and `minter.rs`; `cpi.rs` builds the
  token and metadata programs' instructions that create-token invokes.
- `app/` is the runtime glue: it reads `AccountInfo`s into the library's
  model, performs the cross-program invocations the library plans and writes
  back the data it computes.
- `tests/` runs the library on concrete inputs.
