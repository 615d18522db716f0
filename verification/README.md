# jupiter_lend

Account state of a lending protocol on Solana, written in Verus: every function of
`src/` carries a contract that the verifier has proved.

- `src/liquidity/state.rs`: the global state, the authorization lists and the claims of
  users, with what initialization, approvals and resets do to them.
- `src/liquidity/admin.rs`: setting up the protocol, and locking and unlocking it.
- `src/oracle/`: the oracle's constants, and when a published price is accepted.
- `src/math.rs`, `src/errors.rs`: addition that reports an overflow, and the errors.
- `src/keys.rs`: the only place where the library trusts code it has not proved, the
  address type of `anchor_lang`.
- `app/`: the accounts with `anchor_lang`'s derives, and conversions from and to the
  types of the library.

What relates several operations stands beside them as public proof functions whose names
start with `law_`.
