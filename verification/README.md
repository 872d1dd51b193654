# wallet_engine

A verified core of a TON wallet engine.

- `src/wallet/recipient_public_key.rs` checks that a caller-supplied public
  key belongs to a recipient address by rebuilding the standard initial
  wallet states (V1–V5, default and workchain-aware wallet IDs) and comparing
  their addresses. Its contract is exact over the `ton` crate's results,
  which `src/wallet/ton_interop.rs` names and specifies.
  Wallet rev00 is tried last, in workchain zero: the `ton` crate this
  project builds with (0.4.12) ships neither the rev00 code nor its data
  layout or subwallet IDs, so the rev00 address is an argument of
  `verify_recipient_public_key`, derived by the host (`app/rev00.rs`).
- `src/engine/` holds the client state (with the invariant that only the
  latest generation can hold the resolution slot) and the decisions of
  signed-transfer preparation: each step takes the result of the previous
  action and answers the next one, from building the requests to the secret
  request and the signing. Failure diagnostics are bounded to a
  per-client limit of characters.
- `src/domain/` holds addresses and the encrypted-comment request records.
- `app/` holds serde copies of the records, the rev00 hook and the
  asynchronous driver that performs the outside work of transfer preparation.
