use vstd::prelude::*;

pub use crate::symbol::ShortSymbol;

verus! {

/// An account or contract address, identified by a stable integer handle.
pub type Address = u64;

/// A 32-byte digest (for example the SHA-256 of a document bundle).
pub type Digest = [u8; 32];

/// Storage schema version written by `init`.
pub const SCHEMA_VERSION: u32 = 6;

/// Capacity of the append-only attestation log.
pub const MAX_ATTESTATION_APPEND_ENTRIES: u32 = 32;

/// Default upper bound on how far in the future a maturity may lie (five years).
pub const DEFAULT_MATURITY_MAX_HORIZON_SECS: u64 = 157_680_000;

/// Largest amount a single treasury dust sweep may move.
pub const MAX_DUST_SWEEP_AMOUNT: i128 = 100_000_000;

/// Largest number of entries accepted by `fund_batch`.
pub const MAX_FUND_BATCH: u32 = 50;

/// Largest number of investors accepted by `refund_batch`.
pub const MAX_REFUND_BATCH: u32 = 50;

/// Largest number of investors accepted by `set_investors_allowlisted`.
pub const MAX_INVESTOR_ALLOWLIST_BATCH: u32 = 50;

/// Longest accepted invoice identifier, in bytes.
pub const MAX_INVOICE_ID_STRING_LEN: usize = 32;

/// Largest invoice face amount accepted by `init`.
pub const MAX_INVOICE_AMOUNT: i128 = 1_000_000_000_000_000_000_000_000_000_000;

/// Basis-point denominator: 10_000 bps is 100 %.
pub const BPS_DENOMINATOR: i128 = 10_000;

/// Escrow status values.
pub const STATUS_OPEN: u32 = 0;
pub const STATUS_FUNDED: u32 = 1;
pub const STATUS_SETTLED: u32 = 2;
pub const STATUS_WITHDRAWN: u32 = 3;
pub const STATUS_CANCELLED: u32 = 4;

/// One tier of the yield ladder: a commitment of at least `min_lock_secs`
/// earns `yield_bps`.
#[derive(Clone, Copy, Debug, PartialEq, Eq)]
pub struct YieldTier {
    pub min_lock_secs: u64,
    pub yield_bps: i64,
}

/// The core escrow record.
#[derive(Clone, Copy, Debug, PartialEq, Eq)]
pub struct InvoiceEscrow {
    pub invoice_id: ShortSymbol,
    pub admin: Address,
    pub sme_address: Address,
    pub amount: i128,
    pub funding_target: i128,
    pub funded_amount: i128,
    pub yield_bps: i64,
    pub maturity: u64,
    pub status: u32,
}

/// Pro-rata denominator captured once, when funding first closes.
#[derive(Clone, Copy, Debug, PartialEq, Eq)]
pub struct FundingCloseSnapshot {
    pub total_principal: i128,
    pub funding_target: i128,
    pub closed_at_ledger_timestamp: u64,
    pub closed_at_ledger_sequence: u32,
}

/// SME-reported collateral pledge (metadata only; nothing is locked).
#[derive(Clone, Copy, Debug, PartialEq, Eq)]
pub struct SmeCollateralCommitment {
    pub asset: ShortSymbol,
    pub amount: i128,
    pub recorded_at: u64,
}

/// Everything the escrow stores about one address.
#[derive(Clone, Copy, Debug, PartialEq, Eq)]
pub struct InvestorRecord {
    pub contribution: i128,
    pub effective_yield_bps: Option<i64>,
    pub claim_not_before: u64,
    pub claimed: bool,
    pub refunded: bool,
    pub allowlisted: bool,
}

/// An address together with its record.
#[derive(Clone, Copy, Debug, PartialEq, Eq)]
pub struct InvestorEntry {
    pub investor: Address,
    pub record: InvestorRecord,
}

/// A proposed successor admin, optionally with a deadline for acceptance.
#[derive(Clone, Copy, Debug, PartialEq, Eq)]
pub struct PendingAdmin {
    pub address: Address,
    pub expires_at: Option<u64>,
}

/// One entry of the attestation log.
#[derive(Clone, Copy, Debug, PartialEq, Eq)]
pub struct AttestationInfo {
    pub digest: Digest,
    pub revoked: bool,
}

/// Option-like wrapper for the snapshot inside [`EscrowSummary`].
#[derive(Clone, Copy, Debug, PartialEq, Eq)]
pub enum EscrowCloseSnapshot {
    NotClosed,
    Closed(FundingCloseSnapshot),
}

/// Option-like wrapper for the collateral record inside [`EscrowSummary`].
#[derive(Clone, Copy, Debug, PartialEq, Eq)]
pub enum CollateralCommitmentSnapshot {
    NotRecorded,
    Recorded(SmeCollateralCommitment),
}

/// Several read views bundled in one call.
#[derive(Clone, Copy, Debug, PartialEq, Eq)]
pub struct EscrowSummary {
    pub escrow: InvoiceEscrow,
    pub has_maturity_lock: bool,
    pub legal_hold: bool,
    pub funding_close_snapshot: EscrowCloseSnapshot,
    pub unique_funder_count: u32,
    pub is_allowlist_active: bool,
    pub schema_version: u32,
    pub sme_collateral_commitment: CollateralCommitmentSnapshot,
    pub has_primary_attestation: bool,
    pub attestation_log_length: u32,
}

/// A movement of the funding token that the host must carry out, with the
/// balance-delta checks of [`crate::transfer::check_transfer_deltas`].
#[derive(Clone, Copy, Debug, PartialEq, Eq)]
pub struct TokenTransfer {
    pub from: Address,
    pub to: Address,
    pub amount: i128,
}

/// Ledger time as observed by the host.
#[derive(Clone, Copy, Debug, PartialEq, Eq)]
pub struct Ledger {
    pub timestamp: u64,
    pub sequence: u32,
}

} // verus!
