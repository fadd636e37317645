# liquifact_escrow

A verified core for the LiquiFact invoice escrow: investors fund a tokenized
invoice, the SME settles or withdraws, investors claim pro-rata payouts or
refunds, and governance controls (legal hold, allowlist, caps, attestations)
gate each step. Every entrypoint is proved against a contract stated over an
abstract view of the escrow's storage (`state::EscrowState`).

## Layout

- `src/contract.rs` and `src/contract/` — the escrow (`LiquifactEscrow`): its
  storage, the per-call effects handed to the host (events, required
  authorizations, token movements), and the entrypoints grouped by concern.
- `src/model.rs` and `src/model/` — what each operation does, as spec
  functions: the error it reports (first failing guard), the storage it
  leaves, and its effects.
- `src/state.rs` — the abstract storage, the invariant every call keeps, the
  investor table and its lemmas.
- `src/laws.rs` — properties spanning calls: status only moves forward, the
  funding-close snapshot and primary attestation are written once, the
  attestation log is append-only, a batch equals the same deposits made one
  by one, custody matches the books (a deposit records principal without
  moving tokens; refunds and withdrawals pay out exactly what the books owe),
  the payouts of a settled escrow stay within principal plus coupon, each
  investor's payout stays within its contribution plus the coupon at its own
  (tier or base) yield, and more.
- `src/payout.rs` — pro-rata payout arithmetic and the proof that rounded
  payouts never exceed the settlement pool.
- `src/validation.rs`, `src/symbol.rs`, `src/transfer.rs` — yield ladders and
  tier selection, maturity bounds, invoice identifiers, and the balance-delta
  checks around token transfers.
- `app/lib.rs` — the Soroban contract around the core: storage, address
  handles, authorization, token transfers with the core's balance checks,
  and event publication.
- `tests/` — tests of the core called directly, and `tests/scenarios.rs`,
  which drives deployed escrows through an in-process host (ledger clock,
  authorizations, installed tokens, published events, direct storage
  access).
