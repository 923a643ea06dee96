# bitsave

A verified library for the Bitsave savings protocol, with the on-chain
program around it.

- `src/` is the library, with every function proved against its contract:
  - `key.rs`: account addresses as 32 plain bytes.
  - `state.rs`: the global state, user vaults, savings, and the payout of a
    withdrawal.
  - `accounts.rs`: the accounts each instruction takes, and the checks on them.
  - `instructions.rs`: what each instruction changes and which transfers it asks for.
  - `interest.rs`: the fixed-point interest formula.
  - `laws.rs`: properties that span several functions.
- `app/` is the Anchor program: it reads accounts and the clock, calls the
  library, performs the transfers and writes the accounts back.
- `tests/` runs the library on concrete values.
