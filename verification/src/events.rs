//! Events published by the escrow. Each variant carries the payload that
//! indexers read; the variant name is the event's topic.
use vstd::prelude::*;

use crate::symbol::ShortSymbol;
use crate::types::{Address, Digest, InvoiceEscrow};

verus! {

/// One event emitted by a successful escrow call.
#[derive(Clone, Copy, Debug, PartialEq, Eq)]
pub enum EscrowEvent {
    EscrowInitialized {
        escrow: InvoiceEscrow,
        funding_token: Address,
        treasury: Address,
        registry: Option<Address>,
        has_maturity_lock: bool,
    },
    EscrowFunded {
        invoice_id: ShortSymbol,
        investor: Address,
        amount: i128,
        funded_amount: i128,
        status: u32,
        investor_effective_yield_bps: i64,
        tier_lock_secs: u64,
    },
    EscrowPartialSettle { invoice_id: ShortSymbol, funded_amount: i128 },
    EscrowSettled {
        invoice_id: ShortSymbol,
        funded_amount: i128,
        yield_bps: i64,
        maturity: u64,
        settled_at_ledger_timestamp: u64,
    },
    SmeWithdrew { invoice_id: ShortSymbol, amount: i128, recipient: Address },
    InvestorPayoutClaimed { investor: Address, invoice_id: ShortSymbol },
    FundingCancelled { invoice_id: ShortSymbol, funded_amount: i128 },
    InvestorRefundedEvt { investor: Address, invoice_id: ShortSymbol, amount: i128 },
    TreasuryDustSwept { invoice_id: ShortSymbol, token: Address, amount: i128 },
    FundingTargetUpdated { invoice_id: ShortSymbol, old_target: i128, new_target: i128 },
    MaturityUpdatedEvent { invoice_id: ShortSymbol, old_maturity: u64, new_maturity: u64 },
    MaturityMaxHorizonUpdated { invoice_id: ShortSymbol, old_horizon: u64, new_horizon: u64 },
    FundingDeadlineUpdated {
        invoice_id: ShortSymbol,
        prior_deadline: Option<u64>,
        new_deadline: Option<u64>,
    },
    LegalHoldChanged { invoice_id: ShortSymbol, active: u32 },
    LegalHoldClearRequested { invoice_id: ShortSymbol, clearable_at: u64 },
    LegalHoldClearCancelled { invoice_id: ShortSymbol },
    AllowlistEnabledChanged { invoice_id: ShortSymbol, active: u32 },
    InvestorAllowlistChanged { invoice_id: ShortSymbol, investor: Address, allowed: u32 },
    MaxUniqueInvestorsCapLowered { invoice_id: ShortSymbol, old_cap: u32, new_cap: u32 },
    MaxUniqueInvestorsCapRaised { invoice_id: ShortSymbol, old_cap: u32, new_cap: u32 },
    MinContributionFloorLowered { invoice_id: ShortSymbol, old_floor: i128, new_floor: i128 },
    AdminProposedEvent { invoice_id: ShortSymbol, current_admin: Address, pending_admin: Address },
    AdminProposalCancelled { invoice_id: ShortSymbol, cancelled_pending: Address },
    AdminTransferredEvent { invoice_id: ShortSymbol, new_admin: Address },
    AdminAcceptedEvent { invoice_id: ShortSymbol, prior_admin: Address, new_admin: Address },
    DeprecatedTransferAdminUsed { invoice_id: ShortSymbol, proposed_address: Address },
    BeneficiaryRotated { invoice_id: ShortSymbol, prior_sme: Address, new_sme: Address },
    RegistryRefRebound { invoice_id: ShortSymbol, registry: Option<Address> },
    CollateralRecordedEvt { invoice_id: ShortSymbol, amount: i128, prior_amount: i128 },
    CollateralClearedEvt { invoice_id: ShortSymbol, amount: i128 },
    CollateralCommitmentCleared {
        invoice_id: ShortSymbol,
        asset: ShortSymbol,
        amount: i128,
        recorded_at: u64,
    },
    PrimaryAttestationBound { invoice_id: ShortSymbol, digest: Digest },
    AttestationDigestAppended { invoice_id: ShortSymbol, index: u32, digest: Digest },
    AttestationDigestRevoked { invoice_id: ShortSymbol, index: u32 },
    AttestationDigestUnrevoked { invoice_id: ShortSymbol, index: u32 },
    ContractUpgraded { new_wasm_hash: Digest },
}

} // verus!
