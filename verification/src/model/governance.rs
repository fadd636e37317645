//! Governance and compliance: legal hold, allowlist, caps and floors,
//! maturity and deadline changes, admin handover, beneficiary rotation,
//! registry and collateral metadata, attestations, migration and upgrade.
use vstd::prelude::*;

use super::escrow_of;
use super::lifecycle::horizon_or_default;
use crate::errors::EscrowError;
use crate::events::EscrowEvent;
use crate::state::{no_effects, put_record, record_of, Effects, EscrowState};
use crate::symbol::ShortSymbol;
use crate::types::{
    Address, AttestationInfo, Digest, InvestorRecord, InvoiceEscrow, PendingAdmin,
    SmeCollateralCommitment, MAX_ATTESTATION_APPEND_ENTRIES, MAX_INVESTOR_ALLOWLIST_BATCH,
    SCHEMA_VERSION, STATUS_FUNDED, STATUS_OPEN,
};
use crate::validation::maturity_error;

verus! {

/// The error of an admin-only call on uninitialized storage.
pub open spec fn admin_call_error(s: EscrowState) -> Option<EscrowError> {
    if s.escrow is None {
        Some(EscrowError::EscrowNotInitialized)
    } else {
        None
    }
}

/// Effects of an admin call that publishes one event.
pub open spec fn admin_effects(s: EscrowState, e: EscrowEvent) -> Effects {
    no_effects().auth(escrow_of(s).admin).emit(e)
}

/// The invoice identifier of initialized storage.
pub open spec fn invoice_of(s: EscrowState) -> ShortSymbol {
    escrow_of(s).invoice_id
}

/// A flag as the `0`/`1` value events carry.
pub open spec fn flag(b: bool) -> u32 {
    if b {
        1
    } else {
        0
    }
}

// ---------------------------------------------------------------------------
// Legal hold
// ---------------------------------------------------------------------------

/// The error of lifting the hold: with a clear delay configured, a clear
/// must have been requested and its time must have come.
pub open spec fn clear_hold_error(s: EscrowState) -> Option<EscrowError> {
    if s.escrow is None {
        Some(EscrowError::EscrowNotInitialized)
    } else if s.legal_hold_clear_delay > 0 && s.legal_hold_clearable_at is None {
        Some(EscrowError::LegalHoldClearRequestMissing)
    } else if s.legal_hold_clear_delay > 0 && s.ledger.timestamp
        < s.legal_hold_clearable_at.unwrap() {
        Some(EscrowError::LegalHoldClearNotReady)
    } else {
        None
    }
}

/// The error of `set_legal_hold(active)`.
pub open spec fn set_hold_error(s: EscrowState, active: bool) -> Option<EscrowError> {
    if active {
        admin_call_error(s)
    } else {
        clear_hold_error(s)
    }
}

/// Storage with the hold set to `active`; any pending clear request is dropped.
pub open spec fn set_hold_state(s: EscrowState, active: bool) -> EscrowState {
    EscrowState { legal_hold: active, legal_hold_clearable_at: None, ..s }
}

/// Effects of changing the hold.
pub open spec fn set_hold_effects(s: EscrowState, active: bool) -> Effects {
    admin_effects(
        s,
        EscrowEvent::LegalHoldChanged { invoice_id: invoice_of(s), active: flag(active) },
    )
}

/// The error of `request_clear_legal_hold`.
pub open spec fn request_clear_error(s: EscrowState) -> Option<EscrowError> {
    if s.escrow is None {
        Some(EscrowError::EscrowNotInitialized)
    } else if s.ledger.timestamp + s.legal_hold_clear_delay > u64::MAX {
        Some(EscrowError::LegalHoldClearDelayOverflow)
    } else {
        None
    }
}

/// When a clear requested now may take effect.
pub open spec fn clearable_at(s: EscrowState) -> u64 {
    (s.ledger.timestamp + s.legal_hold_clear_delay) as u64
}

/// Storage after a clear request.
pub open spec fn request_clear_state(s: EscrowState) -> EscrowState {
    EscrowState { legal_hold_clearable_at: Some(clearable_at(s)), ..s }
}

/// Effects of a clear request.
pub open spec fn request_clear_effects(s: EscrowState) -> Effects {
    admin_effects(
        s,
        EscrowEvent::LegalHoldClearRequested {
            invoice_id: invoice_of(s),
            clearable_at: clearable_at(s),
        },
    )
}

/// The error of `cancel_clear_legal_hold`.
pub open spec fn cancel_clear_error(s: EscrowState) -> Option<EscrowError> {
    if s.escrow is None {
        Some(EscrowError::EscrowNotInitialized)
    } else if s.legal_hold_clearable_at is None {
        Some(EscrowError::LegalHoldClearRequestMissing)
    } else {
        None
    }
}

/// Storage after withdrawing a clear request.
pub open spec fn cancel_clear_state(s: EscrowState) -> EscrowState {
    EscrowState { legal_hold_clearable_at: None, ..s }
}

/// Effects of withdrawing a clear request.
pub open spec fn cancel_clear_effects(s: EscrowState) -> Effects {
    admin_effects(s, EscrowEvent::LegalHoldClearCancelled { invoice_id: invoice_of(s) })
}

// ---------------------------------------------------------------------------
// Allowlist
// ---------------------------------------------------------------------------

/// Storage with the allowlist gate switched.
pub open spec fn allowlist_active_state(s: EscrowState, active: bool) -> EscrowState {
    EscrowState { allowlist_active: active, ..s }
}

/// Effects of switching the allowlist gate.
pub open spec fn allowlist_active_effects(s: EscrowState, active: bool) -> Effects {
    admin_effects(
        s,
        EscrowEvent::AllowlistEnabledChanged { invoice_id: invoice_of(s), active: flag(active) },
    )
}

/// Storage with `investor`'s allowlist flag set to `allowed`.
pub open spec fn allowlisted_state(s: EscrowState, investor: Address, allowed: bool) -> EscrowState {
    s.with_investors(
        put_record(
            s.investors,
            investor,
            InvestorRecord { allowlisted: allowed, ..record_of(s.investors, investor) },
        ),
    )
}

/// The event of one allowlist change.
pub open spec fn allowlisted_event(s: EscrowState, investor: Address, allowed: bool) -> EscrowEvent {
    EscrowEvent::InvestorAllowlistChanged {
        invoice_id: invoice_of(s),
        investor,
        allowed: flag(allowed),
    }
}

/// Allowlist changes applied in order, with one event each.
pub open spec fn allowlist_run(s: EscrowState, eff: Effects, investors: Seq<Address>, allowed: bool) -> (
    EscrowState,
    Effects,
)
    decreases investors.len(),
{
    if investors.len() == 0 {
        (s, eff)
    } else {
        allowlist_run(
            allowlisted_state(s, investors[0], allowed),
            eff.emit(allowlisted_event(s, investors[0], allowed)),
            investors.drop_first(),
            allowed,
        )
    }
}

/// The error of `set_investors_allowlisted`.
pub open spec fn allowlist_batch_error(s: EscrowState, investors: Seq<Address>) -> Option<
    EscrowError,
> {
    if investors.len() == 0 {
        Some(EscrowError::InvestorBatchEmpty)
    } else if investors.len() > MAX_INVESTOR_ALLOWLIST_BATCH {
        Some(EscrowError::InvestorBatchTooLarge)
    } else {
        admin_call_error(s)
    }
}

// ---------------------------------------------------------------------------
// Caps and floors
// ---------------------------------------------------------------------------

/// The error of `lower_max_unique_investors(new_cap)`.
pub open spec fn lower_cap_error(s: EscrowState, new_cap: u32) -> Option<EscrowError> {
    match s.escrow {
        None => Some(EscrowError::EscrowNotInitialized),
        Some(e) => if e.status != STATUS_OPEN {
            Some(EscrowError::CapLowerNotOpen)
        } else if s.max_unique_investors is None {
            Some(EscrowError::NoInvestorCapConfigured)
        } else if new_cap >= s.max_unique_investors.unwrap() {
            Some(EscrowError::NewCapNotLower)
        } else if new_cap < s.unique_funder_count {
            Some(EscrowError::NewCapBelowCurrentFunderCount)
        } else {
            None
        },
    }
}

/// The error of `raise_max_unique_investors(new_cap)`.
pub open spec fn raise_cap_error(s: EscrowState, new_cap: u32) -> Option<EscrowError> {
    match s.escrow {
        None => Some(EscrowError::EscrowNotInitialized),
        Some(e) => if e.status != STATUS_OPEN {
            Some(EscrowError::CapRaiseNotOpen)
        } else if s.max_unique_investors is None {
            Some(EscrowError::NoInvestorCapConfigured)
        } else if new_cap <= s.max_unique_investors.unwrap() {
            Some(EscrowError::NewCapNotHigher)
        } else {
            None
        },
    }
}

/// Storage with a new distinct-funder cap.
pub open spec fn cap_state(s: EscrowState, new_cap: u32) -> EscrowState {
    EscrowState { max_unique_investors: Some(new_cap), ..s }
}

/// Effects of lowering the cap.
pub open spec fn lower_cap_effects(s: EscrowState, new_cap: u32) -> Effects {
    admin_effects(
        s,
        EscrowEvent::MaxUniqueInvestorsCapLowered {
            invoice_id: invoice_of(s),
            old_cap: s.max_unique_investors.unwrap(),
            new_cap,
        },
    )
}

/// Effects of raising the cap.
pub open spec fn raise_cap_effects(s: EscrowState, new_cap: u32) -> Effects {
    admin_effects(
        s,
        EscrowEvent::MaxUniqueInvestorsCapRaised {
            invoice_id: invoice_of(s),
            old_cap: s.max_unique_investors.unwrap(),
            new_cap,
        },
    )
}

/// The error of `lower_min_contribution_floor(new_floor)`.
pub open spec fn lower_floor_error(s: EscrowState, new_floor: i128) -> Option<EscrowError> {
    match s.escrow {
        None => Some(EscrowError::EscrowNotInitialized),
        Some(e) => if e.status != STATUS_OPEN {
            Some(EscrowError::FloorLowerNotOpen)
        } else if new_floor <= 0 {
            Some(EscrowError::NewFloorNotPositive)
        } else if new_floor >= s.min_contribution {
            Some(EscrowError::NewFloorNotLower)
        } else {
            None
        },
    }
}

/// Storage with a new contribution floor.
pub open spec fn floor_state(s: EscrowState, new_floor: i128) -> EscrowState {
    EscrowState { min_contribution: new_floor, ..s }
}

/// Effects of lowering the floor.
pub open spec fn lower_floor_effects(s: EscrowState, new_floor: i128) -> Effects {
    admin_effects(
        s,
        EscrowEvent::MinContributionFloorLowered {
            invoice_id: invoice_of(s),
            old_floor: s.min_contribution,
            new_floor,
        },
    )
}

// ---------------------------------------------------------------------------
// Maturity, horizon and deadline
// ---------------------------------------------------------------------------

/// The error of `update_maturity(new_maturity)`.
pub open spec fn maturity_update_error(s: EscrowState, new_maturity: u64) -> Option<EscrowError> {
    match s.escrow {
        None => Some(EscrowError::EscrowNotInitialized),
        Some(e) => if e.status != STATUS_OPEN {
            Some(EscrowError::MaturityUpdateNotOpen)
        } else if new_maturity == e.maturity {
            Some(EscrowError::MaturityUnchanged)
        } else {
            maturity_error(
                new_maturity,
                s.ledger.timestamp,
                horizon_or_default(s.maturity_max_horizon),
            )
        },
    }
}

/// Storage with a new maturity.
pub open spec fn maturity_state(s: EscrowState, new_maturity: u64) -> EscrowState {
    EscrowState {
        escrow: Some(InvoiceEscrow { maturity: new_maturity, ..escrow_of(s) }),
        ..s
    }
}

/// Effects of a maturity change.
pub open spec fn maturity_effects(s: EscrowState, new_maturity: u64) -> Effects {
    admin_effects(
        s,
        EscrowEvent::MaturityUpdatedEvent {
            invoice_id: invoice_of(s),
            old_maturity: escrow_of(s).maturity,
            new_maturity,
        },
    )
}

/// Storage with a new maturity horizon.
pub open spec fn horizon_state(s: EscrowState, new_horizon: u64) -> EscrowState {
    EscrowState { maturity_max_horizon: Some(new_horizon), ..s }
}

/// Effects of a horizon change.
pub open spec fn horizon_effects(s: EscrowState, new_horizon: u64) -> Effects {
    admin_effects(
        s,
        EscrowEvent::MaturityMaxHorizonUpdated {
            invoice_id: invoice_of(s),
            old_horizon: horizon_or_default(s.maturity_max_horizon),
            new_horizon,
        },
    )
}

/// The error of `update_funding_deadline(new_deadline)`.
pub open spec fn deadline_update_error(s: EscrowState, new_deadline: Option<u64>) -> Option<
    EscrowError,
> {
    match s.escrow {
        None => Some(EscrowError::EscrowNotInitialized),
        Some(e) => if e.status != STATUS_OPEN {
            Some(EscrowError::FundingDeadlineUpdateNotOpen)
        } else if new_deadline is Some && new_deadline.unwrap() <= s.ledger.timestamp {
            Some(EscrowError::FundingDeadlinePassed)
        } else {
            None
        },
    }
}

/// Storage with a new funding deadline (none: funding is open-ended).
pub open spec fn deadline_state(s: EscrowState, new_deadline: Option<u64>) -> EscrowState {
    EscrowState { funding_deadline: new_deadline, ..s }
}

/// Effects of a deadline change.
pub open spec fn deadline_effects(s: EscrowState, new_deadline: Option<u64>) -> Effects {
    admin_effects(
        s,
        EscrowEvent::FundingDeadlineUpdated {
            invoice_id: invoice_of(s),
            prior_deadline: s.funding_deadline,
            new_deadline,
        },
    )
}

// ---------------------------------------------------------------------------
// Admin handover and beneficiary rotation
// ---------------------------------------------------------------------------

/// The error of proposing `new_admin`.
pub open spec fn propose_error(s: EscrowState, new_admin: Address) -> Option<EscrowError> {
    match s.escrow {
        None => Some(EscrowError::EscrowNotInitialized),
        Some(e) => if new_admin == e.admin {
            Some(EscrowError::NewAdminSameAsCurrent)
        } else {
            None
        },
    }
}

/// Storage with `new_admin` pending (replacing any earlier proposal).
pub open spec fn propose_state(s: EscrowState, new_admin: Address, expires_at: Option<u64>) -> EscrowState {
    EscrowState { pending_admin: Some(PendingAdmin { address: new_admin, expires_at }), ..s }
}

/// The event of a proposal.
pub open spec fn proposed_event(s: EscrowState, new_admin: Address) -> EscrowEvent {
    EscrowEvent::AdminProposedEvent {
        invoice_id: invoice_of(s),
        current_admin: escrow_of(s).admin,
        pending_admin: new_admin,
    }
}

/// Effects of `transfer_admin`: a proposal, then the deprecation notice.
pub open spec fn transfer_admin_effects(s: EscrowState, new_admin: Address) -> Effects {
    admin_effects(s, proposed_event(s, new_admin)).emit(
        EscrowEvent::DeprecatedTransferAdminUsed {
            invoice_id: invoice_of(s),
            proposed_address: new_admin,
        },
    )
}

/// The error of `accept_admin`.
pub open spec fn accept_error(s: EscrowState) -> Option<EscrowError> {
    match s.escrow {
        None => Some(EscrowError::EscrowNotInitialized),
        Some(e) => match s.pending_admin {
            None => Some(EscrowError::NoPendingAdmin),
            Some(p) => if p.expires_at is Some && s.ledger.timestamp > p.expires_at.unwrap() {
                Some(EscrowError::PendingAdminExpired)
            } else {
                None
            },
        },
    }
}

/// Storage after the pending admin takes over.
pub open spec fn accept_state(s: EscrowState) -> EscrowState {
    EscrowState {
        escrow: Some(InvoiceEscrow { admin: s.pending_admin.unwrap().address, ..escrow_of(s) }),
        pending_admin: None,
        ..s
    }
}

/// Effects of `accept_admin`: the new admin authorizes; the transfer and
/// the acceptance are published.
pub open spec fn accept_effects(s: EscrowState) -> Effects {
    let new_admin = s.pending_admin.unwrap().address;
    no_effects().auth(new_admin).emit(
        EscrowEvent::AdminTransferredEvent { invoice_id: invoice_of(s), new_admin },
    ).emit(
        EscrowEvent::AdminAcceptedEvent {
            invoice_id: invoice_of(s),
            prior_admin: escrow_of(s).admin,
            new_admin,
        },
    )
}

/// The error of `cancel_pending_admin`.
pub open spec fn cancel_pending_error(s: EscrowState) -> Option<EscrowError> {
    if s.escrow is None {
        Some(EscrowError::EscrowNotInitialized)
    } else if s.pending_admin is None {
        Some(EscrowError::NoPendingAdmin)
    } else {
        None
    }
}

/// Storage without a pending admin.
pub open spec fn cancel_pending_state(s: EscrowState) -> EscrowState {
    EscrowState { pending_admin: None, ..s }
}

/// Effects of withdrawing a proposal.
pub open spec fn cancel_pending_effects(s: EscrowState) -> Effects {
    admin_effects(
        s,
        EscrowEvent::AdminProposalCancelled {
            invoice_id: invoice_of(s),
            cancelled_pending: s.pending_admin.unwrap().address,
        },
    )
}

/// The error of `rotate_beneficiary(new_sme)`.
pub open spec fn rotate_error(s: EscrowState, new_sme: Address) -> Option<EscrowError> {
    match s.escrow {
        None => Some(EscrowError::EscrowNotInitialized),
        Some(e) => if s.legal_hold {
            Some(EscrowError::LegalHoldBlocksBeneficiaryRotation)
        } else if e.status != STATUS_OPEN && e.status != STATUS_FUNDED {
            Some(EscrowError::RotationNotOpen)
        } else if new_sme == e.sme_address {
            Some(EscrowError::NewSmeSameAsCurrent)
        } else {
            None
        },
    }
}

/// Storage with a new beneficiary.
pub open spec fn rotate_state(s: EscrowState, new_sme: Address) -> EscrowState {
    EscrowState {
        escrow: Some(InvoiceEscrow { sme_address: new_sme, ..escrow_of(s) }),
        ..s
    }
}

/// Effects of a rotation: the current SME and the admin both authorize.
pub open spec fn rotate_effects(s: EscrowState, new_sme: Address) -> Effects {
    let e = escrow_of(s);
    no_effects().auth(e.sme_address).auth(e.admin).emit(
        EscrowEvent::BeneficiaryRotated {
            invoice_id: e.invoice_id,
            prior_sme: e.sme_address,
            new_sme,
        },
    )
}

// ---------------------------------------------------------------------------
// Registry and collateral metadata
// ---------------------------------------------------------------------------

/// Storage with a new registry reference.
pub open spec fn registry_state(s: EscrowState, registry: Option<Address>) -> EscrowState {
    EscrowState { registry, ..s }
}

/// Effects of a registry change.
pub open spec fn registry_effects(s: EscrowState, registry: Option<Address>) -> Effects {
    admin_effects(s, EscrowEvent::RegistryRefRebound { invoice_id: invoice_of(s), registry })
}

/// The error of recording a collateral pledge.
pub open spec fn collateral_error(s: EscrowState, asset: ShortSymbol, amount: i128) -> Option<
    EscrowError,
> {
    if s.escrow is None {
        Some(EscrowError::EscrowNotInitialized)
    } else if amount <= 0 {
        Some(EscrowError::CollateralAmountNotPositive)
    } else if asset@.len() == 0 {
        Some(EscrowError::CollateralAssetEmpty)
    } else if s.collateral is Some && s.ledger.timestamp < s.collateral.unwrap().recorded_at {
        Some(EscrowError::CollateralTimestampBackwards)
    } else {
        None
    }
}

/// The pledge recorded now.
pub open spec fn collateral_of(s: EscrowState, asset: ShortSymbol, amount: i128) -> SmeCollateralCommitment {
    SmeCollateralCommitment { asset, amount, recorded_at: s.ledger.timestamp }
}

/// The amount of the current pledge, zero when none.
pub open spec fn prior_pledge(s: EscrowState) -> i128 {
    match s.collateral {
        Some(c) => c.amount,
        None => 0,
    }
}

/// Storage with a recorded pledge.
pub open spec fn collateral_state(s: EscrowState, asset: ShortSymbol, amount: i128) -> EscrowState {
    EscrowState { collateral: Some(collateral_of(s, asset, amount)), ..s }
}

/// Effects of recording a pledge: the SME authorizes.
pub open spec fn collateral_effects(s: EscrowState, amount: i128) -> Effects {
    no_effects().auth(escrow_of(s).sme_address).emit(
        EscrowEvent::CollateralRecordedEvt {
            invoice_id: invoice_of(s),
            amount,
            prior_amount: prior_pledge(s),
        },
    )
}

/// The error of clearing the pledge.
pub open spec fn clear_collateral_error(s: EscrowState) -> Option<EscrowError> {
    if s.escrow is None {
        Some(EscrowError::EscrowNotInitialized)
    } else if s.collateral is None {
        Some(EscrowError::NoCollateralToClear)
    } else {
        None
    }
}

/// Storage without a pledge.
pub open spec fn clear_collateral_state(s: EscrowState) -> EscrowState {
    EscrowState { collateral: None, ..s }
}

/// Effects of clearing the pledge: the SME authorizes; the removal is
/// published with the cleared amount, then with the whole cleared pledge
/// (asset, amount and when it was recorded).
pub open spec fn clear_collateral_effects(s: EscrowState) -> Effects {
    let c = s.collateral.unwrap();
    no_effects().auth(escrow_of(s).sme_address).emit(
        EscrowEvent::CollateralClearedEvt { invoice_id: invoice_of(s), amount: c.amount },
    ).emit(
        EscrowEvent::CollateralCommitmentCleared {
            invoice_id: invoice_of(s),
            asset: c.asset,
            amount: c.amount,
            recorded_at: c.recorded_at,
        },
    )
}

// ---------------------------------------------------------------------------
// Attestations
// ---------------------------------------------------------------------------

/// The error of binding the primary attestation digest.
pub open spec fn bind_error(s: EscrowState) -> Option<EscrowError> {
    if s.escrow is None {
        Some(EscrowError::EscrowNotInitialized)
    } else if s.primary_attestation is Some {
        Some(EscrowError::PrimaryAttestationAlreadyBound)
    } else {
        None
    }
}

/// Storage with the primary digest bound.
pub open spec fn bind_state(s: EscrowState, digest: Digest) -> EscrowState {
    EscrowState { primary_attestation: Some(digest), ..s }
}

/// Effects of binding the primary digest.
pub open spec fn bind_effects(s: EscrowState, digest: Digest) -> Effects {
    admin_effects(s, EscrowEvent::PrimaryAttestationBound { invoice_id: invoice_of(s), digest })
}

/// The error of appending a digest to the log.
pub open spec fn append_error(s: EscrowState) -> Option<EscrowError> {
    if s.escrow is None {
        Some(EscrowError::EscrowNotInitialized)
    } else if s.attestations.len() >= MAX_ATTESTATION_APPEND_ENTRIES {
        Some(EscrowError::AttestationAppendLogCapacityReached)
    } else {
        None
    }
}

/// Storage with `digest` appended, not revoked.
pub open spec fn append_state(s: EscrowState, digest: Digest) -> EscrowState {
    EscrowState { attestations: s.attestations.push(AttestationInfo { digest, revoked: false }), ..s }
}

/// Effects of an append; the event carries the new entry's index.
pub open spec fn append_effects(s: EscrowState, digest: Digest) -> Effects {
    admin_effects(
        s,
        EscrowEvent::AttestationDigestAppended {
            invoice_id: invoice_of(s),
            index: s.attestations.len() as u32,
            digest,
        },
    )
}

/// The error of revoking log entry `index`.
pub open spec fn revoke_error(s: EscrowState, index: u32) -> Option<EscrowError> {
    if s.escrow is None {
        Some(EscrowError::EscrowNotInitialized)
    } else if index >= s.attestations.len() {
        Some(EscrowError::AttestationIndexOutOfRange)
    } else if s.attestations[index as int].revoked {
        Some(EscrowError::AttestationAlreadyRevoked)
    } else {
        None
    }
}

/// The error of reinstating log entry `index`.
pub open spec fn unrevoke_error(s: EscrowState, index: u32) -> Option<EscrowError> {
    if s.escrow is None {
        Some(EscrowError::EscrowNotInitialized)
    } else if index >= s.attestations.len() {
        Some(EscrowError::AttestationIndexOutOfRange)
    } else if !s.attestations[index as int].revoked {
        Some(EscrowError::AttestationNotRevoked)
    } else {
        None
    }
}

/// Storage with entry `index` marked `revoked` (its digest is kept).
pub open spec fn mark_state(s: EscrowState, index: u32, revoked: bool) -> EscrowState {
    EscrowState {
        attestations: s.attestations.update(
            index as int,
            AttestationInfo { revoked, ..s.attestations[index as int] },
        ),
        ..s
    }
}

/// The event of a revocation.
pub open spec fn revoked_event(s: EscrowState, index: u32) -> EscrowEvent {
    EscrowEvent::AttestationDigestRevoked { invoice_id: invoice_of(s), index }
}

/// Effects of reinstating an entry.
pub open spec fn unrevoke_effects(s: EscrowState, index: u32) -> Effects {
    admin_effects(s, EscrowEvent::AttestationDigestUnrevoked { invoice_id: invoice_of(s), index })
}

/// Revocations applied in order; the first failing one fails the run.
pub open spec fn revoke_run(s: EscrowState, eff: Effects, indices: Seq<u32>) -> Result<
    (EscrowState, Effects),
    EscrowError,
>
    decreases indices.len(),
{
    if indices.len() == 0 {
        Ok((s, eff))
    } else {
        match revoke_error(s, indices[0]) {
            Some(err) => Err(err),
            None => revoke_run(
                mark_state(s, indices[0], true),
                eff.emit(revoked_event(s, indices[0])),
                indices.drop_first(),
            ),
        }
    }
}

/// The error of revoking several entries at once.
pub open spec fn revoke_many_error(s: EscrowState, indices: Seq<u32>) -> Option<EscrowError> {
    if s.escrow is None {
        Some(EscrowError::EscrowNotInitialized)
    } else {
        match revoke_run(s, no_effects().auth(escrow_of(s).admin), indices) {
            Err(err) => Some(err),
            Ok(_) => None,
        }
    }
}

// ---------------------------------------------------------------------------
// Schema migration and upgrade
// ---------------------------------------------------------------------------

/// The error `migrate(from_version)` always reports: no migration exists in
/// this schema version.
pub open spec fn migrate_error(s: EscrowState, from_version: u32) -> EscrowError {
    if from_version != s.version {
        EscrowError::MigrationVersionMismatch
    } else if from_version >= SCHEMA_VERSION {
        EscrowError::AlreadyCurrentSchemaVersion
    } else {
        EscrowError::NoMigrationPath
    }
}

/// Effects of a refused migration: the admin's authorization is demanded
/// before any version is compared, so an unauthorized caller is refused by
/// the host before the version checks are reached.
pub open spec fn migrate_effects(s: EscrowState) -> Effects {
    match s.escrow {
        Some(e) => no_effects().auth(e.admin),
        None => no_effects(),
    }
}

/// Effects of an upgrade: the admin authorizes; the new code hash is published.
pub open spec fn upgrade_effects(s: EscrowState, new_wasm_hash: Digest) -> Effects {
    admin_effects(s, EscrowEvent::ContractUpgraded { new_wasm_hash })
}

} // verus!
