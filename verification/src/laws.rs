//! Properties of the escrow that span operations: what every call keeps,
//! how the status may move, what is written only once, and how a batch
//! relates to single calls.
use vstd::prelude::*;

use crate::errors::EscrowError;
use crate::model::governance::{
    accept_error, accept_state, admin_call_error, allowlist_active_state, allowlist_batch_error,
    allowlist_run, allowlisted_state, append_error, append_state, bind_error, bind_state,
    cancel_clear_error, cancel_clear_state, cancel_pending_error, cancel_pending_state, cap_state,
    clear_collateral_error, clear_collateral_state, collateral_error, collateral_state,
    deadline_state, deadline_update_error, floor_state, horizon_state, lower_cap_error,
    lower_floor_error, mark_state, maturity_state, maturity_update_error, migrate_error,
    propose_error, propose_state, raise_cap_error, registry_state, request_clear_error,
    request_clear_state, revoke_error, revoke_many_error, revoke_run, rotate_error, rotate_state,
    set_hold_error, set_hold_state, unrevoke_error,
};
use crate::model::lifecycle::{
    cancel_error, cancel_state, claim_error, claim_state, init_error, init_state,
    partial_settle_error, partial_settle_state, refund_batch_error, refund_error, refund_run,
    refund_state, settle_error, settle_state, sweep_amount, sweep_error, target_error,
    target_state, withdraw_error, withdraw_state, InitArgs,
};
use crate::model::{
    batch_run, entry_lock, escrow_of, fund_batch_error, fund_error, fund_state, fund_effects,
};
use crate::model::lifecycle::{payout_error, payout_value, refund_effects};
use crate::model::investor_yield;
use crate::payout::{
    coupon, lemma_payouts_within_pool, lemma_share_within_own_coupon, settle_pool, total_of,
    total_payouts,
};
use crate::state::{
    lemma_find_investor, lemma_total_nonneg, no_effects, record_of,
    total_contributions, Effects, EscrowState,
};
use crate::symbol::ShortSymbol;
use crate::types::{
    Address, Digest, InvestorEntry, STATUS_CANCELLED, STATUS_FUNDED, STATUS_OPEN, STATUS_SETTLED,
    STATUS_WITHDRAWN,
};

verus! {

/// A state-changing call of the escrow, with its arguments.
pub enum Call {
    Init(InitArgs, ShortSymbol),
    Fund(Address, i128),
    FundWithCommitment(Address, i128, u64),
    FundBatch(Seq<(Address, i128, u64)>),
    PartialSettle(Address),
    Settle,
    Withdraw,
    Claim(Address),
    CancelFunding,
    Refund(Address),
    RefundBatch(Seq<Address>),
    UpdateFundingTarget(i128),
    SweepTerminalDust(i128, i128),
    SetLegalHold(bool),
    RequestClearLegalHold,
    CancelClearLegalHold,
    SetAllowlistActive(bool),
    SetInvestorAllowlisted(Address, bool),
    SetInvestorsAllowlisted(Seq<Address>, bool),
    LowerMaxUniqueInvestors(u32),
    RaiseMaxUniqueInvestors(u32),
    LowerMinContributionFloor(i128),
    UpdateMaturity(u64),
    UpdateMaturityMaxHorizon(u64),
    UpdateFundingDeadline(Option<u64>),
    ProposeAdmin(Address, Option<u64>),
    AcceptAdmin,
    CancelPendingAdmin,
    RotateBeneficiary(Address),
    RebindRegistryRef(Option<Address>),
    RecordCollateral(ShortSymbol, i128),
    ClearCollateral,
    BindPrimaryAttestation(Digest),
    AppendAttestation(Digest),
    RevokeAttestation(u32),
    UnrevokeAttestation(u32),
    RevokeAttestations(Seq<u32>),
    Migrate(u32),
    Upgrade(Digest),
}

/// A call's result: its error, or the storage it leaves.
pub open spec fn result_of(err: Option<EscrowError>, next: EscrowState) -> Result<EscrowState, EscrowError> {
    match err {
        Some(e) => Err(e),
        None => Ok(next),
    }
}

/// What one call does to the storage (its effects aside). A failed call
/// leaves the storage as it was.
pub open spec fn step(s: EscrowState, c: Call) -> Result<EscrowState, EscrowError> {
    match c {
        Call::Init(a, id) => result_of(init_error(s, a), init_state(s, a, id)),
        Call::Fund(a, amount) => result_of(
            fund_error(s, a, amount, None, false),
            fund_state(s, a, amount, None),
        ),
        Call::FundWithCommitment(a, amount, l) => result_of(
            fund_error(s, a, amount, Some(l), false),
            fund_state(s, a, amount, Some(l)),
        ),
        Call::FundBatch(entries) => result_of(
            fund_batch_error(s, entries),
            batch_run(s, no_effects(), entries).unwrap().0,
        ),
        Call::PartialSettle(caller) => result_of(
            partial_settle_error(s, caller),
            partial_settle_state(s),
        ),
        Call::Settle => result_of(settle_error(s), settle_state(s)),
        Call::Withdraw => result_of(withdraw_error(s), withdraw_state(s)),
        Call::Claim(a) => result_of(claim_error(s, a), claim_state(s, a)),
        Call::CancelFunding => result_of(cancel_error(s), cancel_state(s)),
        Call::Refund(a) => result_of(refund_error(s, a), refund_state(s, a)),
        Call::RefundBatch(investors) => result_of(
            refund_batch_error(s, investors),
            refund_run(s, no_effects(), investors).unwrap().0,
        ),
        Call::UpdateFundingTarget(t) => result_of(target_error(s, t), target_state(s, t)),
        Call::SweepTerminalDust(amount, balance) => result_of(sweep_error(s, amount, balance), s),
        Call::SetLegalHold(active) => result_of(
            set_hold_error(s, active),
            set_hold_state(s, active),
        ),
        Call::RequestClearLegalHold => result_of(request_clear_error(s), request_clear_state(s)),
        Call::CancelClearLegalHold => result_of(cancel_clear_error(s), cancel_clear_state(s)),
        Call::SetAllowlistActive(active) => result_of(
            admin_call_error(s),
            allowlist_active_state(s, active),
        ),
        Call::SetInvestorAllowlisted(a, allowed) => result_of(
            admin_call_error(s),
            allowlisted_state(s, a, allowed),
        ),
        Call::SetInvestorsAllowlisted(investors, allowed) => result_of(
            allowlist_batch_error(s, investors),
            allowlist_run(s, no_effects().auth(escrow_of(s).admin), investors, allowed).0,
        ),
        Call::LowerMaxUniqueInvestors(c) => result_of(lower_cap_error(s, c), cap_state(s, c)),
        Call::RaiseMaxUniqueInvestors(c) => result_of(raise_cap_error(s, c), cap_state(s, c)),
        Call::LowerMinContributionFloor(f) => result_of(lower_floor_error(s, f), floor_state(s, f)),
        Call::UpdateMaturity(m) => result_of(maturity_update_error(s, m), maturity_state(s, m)),
        Call::UpdateMaturityMaxHorizon(h) => result_of(admin_call_error(s), horizon_state(s, h)),
        Call::UpdateFundingDeadline(d) => result_of(
            deadline_update_error(s, d),
            deadline_state(s, d),
        ),
        Call::ProposeAdmin(a, exp) => result_of(propose_error(s, a), propose_state(s, a, exp)),
        Call::AcceptAdmin => result_of(accept_error(s), accept_state(s)),
        Call::CancelPendingAdmin => result_of(cancel_pending_error(s), cancel_pending_state(s)),
        Call::RotateBeneficiary(a) => result_of(rotate_error(s, a), rotate_state(s, a)),
        Call::RebindRegistryRef(r) => result_of(admin_call_error(s), registry_state(s, r)),
        Call::RecordCollateral(asset, amount) => result_of(
            collateral_error(s, asset, amount),
            collateral_state(s, asset, amount),
        ),
        Call::ClearCollateral => result_of(clear_collateral_error(s), clear_collateral_state(s)),
        Call::BindPrimaryAttestation(d) => result_of(bind_error(s), bind_state(s, d)),
        Call::AppendAttestation(d) => result_of(append_error(s), append_state(s, d)),
        Call::RevokeAttestation(i) => result_of(revoke_error(s, i), mark_state(s, i, true)),
        Call::UnrevokeAttestation(i) => result_of(unrevoke_error(s, i), mark_state(s, i, false)),
        Call::RevokeAttestations(indices) => result_of(
            revoke_many_error(s, indices),
            revoke_run(s, no_effects().auth(escrow_of(s).admin), indices).unwrap().0,
        ),
        Call::Migrate(v) => Err(migrate_error(s, v)),
        Call::Upgrade(_) => result_of(admin_call_error(s), s),
    }
}

// ---------------------------------------------------------------------------
// Facts about the runs inside batch calls
// ---------------------------------------------------------------------------

/// Sum of the amounts of batch entries.
pub open spec fn batch_total(entries: Seq<(Address, i128, u64)>) -> int
    decreases entries.len(),
{
    if entries.len() == 0 {
        0
    } else {
        entries[0].1 + batch_total(entries.drop_first())
    }
}

/// What a successful deposit run keeps and changes.
proof fn lemma_batch_run_facts(s: EscrowState, eff: Effects, entries: Seq<(Address, i128, u64)>)
    requires
        s.valid(),
        s.escrow is Some,
        escrow_of(s).status == STATUS_OPEN || escrow_of(s).status == STATUS_FUNDED,
        batch_run(s, eff, entries) is Ok,
    ensures
        ({
            let t = batch_run(s, eff, entries).unwrap().0;
            &&& t.valid()
            &&& t.escrow is Some
            &&& escrow_of(t).status == STATUS_OPEN || escrow_of(t).status == STATUS_FUNDED
            &&& escrow_of(s).status == STATUS_FUNDED ==> escrow_of(t).status == STATUS_FUNDED
            &&& s.snapshot is Some ==> t.snapshot == s.snapshot
            &&& escrow_of(t).invoice_id == escrow_of(s).invoice_id
            &&& escrow_of(t).amount == escrow_of(s).amount
            &&& escrow_of(t).funded_amount == escrow_of(s).funded_amount + batch_total(entries)
            &&& 0 <= batch_total(entries)
            &&& t.primary_attestation == s.primary_attestation
            &&& t.attestations == s.attestations
        }),
    decreases entries.len(),
{
    if entries.len() > 0 {
        let (a, amount, l) = entries[0];
        let n = fund_state(s, a, amount, entry_lock(l));
        crate::model::lemma_fund_preserves_valid(s, a, amount, entry_lock(l), true);
        lemma_batch_run_facts(
            n,
            fund_effects(eff, s, a, amount, entry_lock(l)),
            entries.drop_first(),
        );
    }
}

/// What a successful refund run keeps and changes.
proof fn lemma_refund_run_facts(s: EscrowState, eff: Effects, investors: Seq<Address>)
    requires
        refund_run(s, eff, investors) is Ok,
    ensures
        ({
            let t = refund_run(s, eff, investors).unwrap().0;
            &&& t.escrow == s.escrow
            &&& t.snapshot == s.snapshot
            &&& t.primary_attestation == s.primary_attestation
            &&& t.attestations == s.attestations
        }),
    decreases investors.len(),
{
    if investors.len() > 0 {
        let a = investors[0];
        if record_of(s.investors, a).refunded {
            lemma_refund_run_facts(s, eff, investors.drop_first());
        } else {
            lemma_refund_run_facts(
                refund_state(s, a),
                crate::model::lifecycle::refund_effects(eff, s, a),
                investors.drop_first(),
            );
        }
    }
}

/// What a successful revocation run keeps and changes.
proof fn lemma_revoke_run_facts(s: EscrowState, eff: Effects, indices: Seq<u32>)
    requires
        revoke_run(s, eff, indices) is Ok,
    ensures
        ({
            let t = revoke_run(s, eff, indices).unwrap().0;
            &&& t.escrow == s.escrow
            &&& t.snapshot == s.snapshot
            &&& t.primary_attestation == s.primary_attestation
            &&& t.attestations.len() == s.attestations.len()
            &&& forall|i: int|
                0 <= i < s.attestations.len() ==> #[trigger] t.attestations[i].digest
                    == s.attestations[i].digest
        }),
    decreases indices.len(),
{
    if indices.len() > 0 {
        let n = mark_state(s, indices[0], true);
        lemma_revoke_run_facts(
            n,
            eff.emit(crate::model::governance::revoked_event(s, indices[0])),
            indices.drop_first(),
        );
        let t = revoke_run(s, eff, indices).unwrap().0;
        assert forall|i: int| 0 <= i < s.attestations.len() implies #[trigger] t.attestations[i].digest
            == s.attestations[i].digest by {
            assert(t.attestations[i].digest == n.attestations[i].digest);
        }
    }
}

/// What an allowlist run keeps.
proof fn lemma_allowlist_run_facts(s: EscrowState, eff: Effects, investors: Seq<Address>, allowed: bool)
    ensures
        ({
            let t = allowlist_run(s, eff, investors, allowed).0;
            &&& t.escrow == s.escrow
            &&& t.snapshot == s.snapshot
            &&& t.primary_attestation == s.primary_attestation
            &&& t.attestations == s.attestations
        }),
    decreases investors.len(),
{
    if investors.len() > 0 {
        lemma_allowlist_run_facts(
            allowlisted_state(s, investors[0], allowed),
            eff.emit(crate::model::governance::allowlisted_event(s, investors[0], allowed)),
            investors.drop_first(),
            allowed,
        );
    }
}

/// What every successful call keeps, in one place.
#[verifier::spinoff_prover]
#[verifier::rlimit(100)]
proof fn lemma_step_facts(s: EscrowState, c: Call)
    requires
        s.valid(),
        step(s, c) is Ok,
    ensures
        ({
            let t = step(s, c).unwrap();
            &&& t.escrow is Some
            &&& (s.escrow is Some ==> {
                let (e, f) = (escrow_of(s), escrow_of(t));
                &&& f.invoice_id == e.invoice_id
                &&& f.amount == e.amount
                &&& e.funded_amount <= f.funded_amount
                &&& (f.status == e.status || (e.status == STATUS_OPEN && (f.status
                    == STATUS_FUNDED || f.status == STATUS_CANCELLED)) || (e.status
                    == STATUS_FUNDED && (f.status == STATUS_SETTLED || f.status
                    == STATUS_WITHDRAWN)))
                &&& (s.snapshot is Some ==> t.snapshot == s.snapshot)
            })
            &&& (s.primary_attestation is Some ==> t.primary_attestation == s.primary_attestation)
            &&& s.attestations.len() <= t.attestations.len()
            &&& forall|i: int|
                0 <= i < s.attestations.len() ==> #[trigger] t.attestations[i].digest
                    == s.attestations[i].digest
        }),
{
    match c {
        Call::FundBatch(entries) => {
            lemma_batch_run_facts(s, no_effects(), entries);
        },
        Call::RefundBatch(investors) => {
            lemma_refund_run_facts(s, no_effects(), investors);
        },
        Call::SetInvestorsAllowlisted(investors, allowed) => {
            lemma_allowlist_run_facts(s, no_effects().auth(escrow_of(s).admin), investors, allowed);
        },
        Call::RevokeAttestations(indices) => {
            lemma_revoke_run_facts(s, no_effects().auth(escrow_of(s).admin), indices);
        },
        Call::AppendAttestation(d) => {
            let t = step(s, c).unwrap();
            assert forall|i: int| 0 <= i < s.attestations.len() implies #[trigger] t.attestations[i].digest
                == s.attestations[i].digest by {
                assert(t.attestations[i] == s.attestations[i]);
            }
        },
        Call::RevokeAttestation(idx) => {
            let t = step(s, c).unwrap();
            assert forall|i: int| 0 <= i < s.attestations.len() implies #[trigger] t.attestations[i].digest
                == s.attestations[i].digest by {
                if i != idx {
                    assert(t.attestations[i] == s.attestations[i]);
                }
            }
        },
        Call::UnrevokeAttestation(idx) => {
            let t = step(s, c).unwrap();
            assert forall|i: int| 0 <= i < s.attestations.len() implies #[trigger] t.attestations[i].digest
                == s.attestations[i].digest by {
                if i != idx {
                    assert(t.attestations[i] == s.attestations[i]);
                }
            }
        },
        _ => {},
    }
}

// ---------------------------------------------------------------------------
// Laws
// ---------------------------------------------------------------------------

/// The funding-close snapshot is written once: no later successful call
/// changes it.
pub proof fn lemma_snapshot_write_once(s: EscrowState, c: Call)
    requires
        s.valid(),
        s.snapshot is Some,
        step(s, c) is Ok,
    ensures
        step(s, c).unwrap().snapshot == s.snapshot,
{
    lemma_step_facts(s, c);
}

/// The status only moves forward: open to funded or cancelled, funded to
/// settled or withdrawn; settled, withdrawn and cancelled are final.
pub proof fn lemma_status_moves_forward(s: EscrowState, c: Call)
    requires
        s.valid(),
        s.escrow is Some,
        step(s, c) is Ok,
    ensures
        ({
            let (a, b) = (escrow_of(s).status, escrow_of(step(s, c).unwrap()).status);
            ||| a == b
            ||| a == STATUS_OPEN && (b == STATUS_FUNDED || b == STATUS_CANCELLED)
            ||| a == STATUS_FUNDED && (b == STATUS_SETTLED || b == STATUS_WITHDRAWN)
        }),
{
    lemma_step_facts(s, c);
}

/// The funded amount never decreases, and the invoice identifier and face
/// amount never change once the escrow is initialized.
pub proof fn lemma_funded_amount_monotone(s: EscrowState, c: Call)
    requires
        s.valid(),
        s.escrow is Some,
        step(s, c) is Ok,
    ensures
        escrow_of(s).funded_amount <= escrow_of(step(s, c).unwrap()).funded_amount,
        escrow_of(step(s, c).unwrap()).invoice_id == escrow_of(s).invoice_id,
        escrow_of(step(s, c).unwrap()).amount == escrow_of(s).amount,
{
    lemma_step_facts(s, c);
}

/// The primary attestation digest, once bound, never changes; the
/// attestation log only grows, and its digests are never rewritten.
pub proof fn lemma_attestations_append_only(s: EscrowState, c: Call)
    requires
        s.valid(),
        step(s, c) is Ok,
    ensures
        s.primary_attestation is Some ==> step(s, c).unwrap().primary_attestation
            == s.primary_attestation,
        s.attestations.len() <= step(s, c).unwrap().attestations.len(),
        forall|i: int|
            0 <= i < s.attestations.len() ==> #[trigger] step(s, c).unwrap().attestations[i].digest
                == s.attestations[i].digest,
{
    lemma_step_facts(s, c);
}

/// Deposits made one call after another, each as `fund` (lock zero) or
/// `fund_with_commitment`.
pub open spec fn sequential_funds(s: EscrowState, entries: Seq<(Address, i128, u64)>) -> Result<
    EscrowState,
    EscrowError,
>
    decreases entries.len(),
{
    if entries.len() == 0 {
        Ok(s)
    } else {
        let (a, amount, l) = entries[0];
        let c = if l == 0 {
            Call::Fund(a, amount)
        } else {
            Call::FundWithCommitment(a, amount, l)
        };
        match step(s, c) {
            Err(e) => Err(e),
            Ok(t) => sequential_funds(t, entries.drop_first()),
        }
    }
}

proof fn lemma_batch_run_matches_sequential(
    s: EscrowState,
    eff: Effects,
    entries: Seq<(Address, i128, u64)>,
)
    requires
        sequential_funds(s, entries) is Ok,
    ensures
        batch_run(s, eff, entries) is Ok,
        batch_run(s, eff, entries).unwrap().0 == sequential_funds(s, entries).unwrap(),
    decreases entries.len(),
{
    if entries.len() > 0 {
        let (a, amount, l) = entries[0];
        lemma_batch_run_matches_sequential(
            fund_state(s, a, amount, entry_lock(l)),
            fund_effects(eff, s, a, amount, entry_lock(l)),
            entries.drop_first(),
        );
    }
}

/// A batch does what the same deposits do as separate calls: whenever the
/// separate calls all succeed on an open escrow, the batch (of 1 to 50
/// entries) succeeds and leaves the same storage.
pub proof fn lemma_fund_batch_matches_sequential(s: EscrowState, entries: Seq<(Address, i128, u64)>)
    requires
        s.escrow is Some,
        escrow_of(s).status == STATUS_OPEN,
        0 < entries.len() <= crate::types::MAX_FUND_BATCH,
        sequential_funds(s, entries) is Ok,
    ensures
        fund_batch_error(s, entries) is None,
        step(s, Call::FundBatch(entries)) == sequential_funds(s, entries),
{
    lemma_batch_run_matches_sequential(s, no_effects(), entries);
}

/// A successful batch raises the funded amount by exactly the sum of its
/// entries.
pub proof fn lemma_fund_batch_total(s: EscrowState, entries: Seq<(Address, i128, u64)>)
    requires
        s.valid(),
        step(s, Call::FundBatch(entries)) is Ok,
    ensures
        escrow_of(step(s, Call::FundBatch(entries)).unwrap()).funded_amount == escrow_of(
            s,
        ).funded_amount + batch_total(entries),
{
    lemma_batch_run_facts(s, no_effects(), entries);
}

/// A deposit into an open escrow closes funding exactly when the new total
/// reaches the target, and the snapshot then records that total.
pub proof fn lemma_funding_closes_at_target(s: EscrowState, investor: Address, amount: i128)
    requires
        s.valid(),
        s.escrow is Some,
        escrow_of(s).status == STATUS_OPEN,
        step(s, Call::Fund(investor, amount)) is Ok,
    ensures
        ({
            let t = step(s, Call::Fund(investor, amount)).unwrap();
            let funded = escrow_of(s).funded_amount + amount;
            &&& escrow_of(t).funded_amount == funded
            &&& (escrow_of(t).status == STATUS_FUNDED <==> funded >= escrow_of(s).funding_target)
            &&& (funded >= escrow_of(s).funding_target ==> (t.snapshot matches Some(snap)
                && snap.total_principal == funded))
        }),
{
}

/// A deposit never takes an investor past the per-investor cap, and with
/// the allowlist gate active only allowlisted addresses can deposit.
pub proof fn lemma_fund_respects_caps(s: EscrowState, investor: Address, amount: i128, lock: Option<u64>)
    requires
        s.valid(),
        fund_error(s, investor, amount, lock, false) is None,
    ensures
        ({
            let c = record_of(fund_state(s, investor, amount, lock).investors, investor).contribution;
            s.max_per_investor matches Some(cap) ==> c <= cap
        }),
        s.allowlist_active ==> record_of(s.investors, investor).allowlisted,
        record_of(fund_state(s, investor, amount, lock).investors, investor).contribution
            == record_of(s.investors, investor).contribution + amount,
{
    crate::state::lemma_put_record(
        s.investors,
        investor,
        crate::model::funded_record(s, investor, amount, lock),
    );
}

/// While the legal hold is active, no risk-bearing call succeeds: funding,
/// partial settlement, settlement, withdrawal, claims, cancellation, the
/// dust sweep and beneficiary rotation all fail.
pub proof fn lemma_legal_hold_blocks(
    s: EscrowState,
    investor: Address,
    amount: i128,
    lock: Option<u64>,
    caller: Address,
    balance: i128,
    new_sme: Address,
)
    requires
        s.escrow is Some,
        s.legal_hold,
    ensures
        fund_error(s, investor, amount, lock, false) is Some,
        partial_settle_error(s, caller) == Some(EscrowError::LegalHoldBlocksPartialSettle),
        settle_error(s) == Some(EscrowError::LegalHoldBlocksSettlement),
        withdraw_error(s) == Some(EscrowError::LegalHoldBlocksWithdrawal),
        claim_error(s, investor) == Some(EscrowError::LegalHoldBlocksInvestorClaims),
        cancel_error(s) == Some(EscrowError::LegalHoldBlocksCancelFunding),
        sweep_error(s, amount, balance) is Some,
        rotate_error(s, new_sme) == Some(EscrowError::LegalHoldBlocksBeneficiaryRotation),
{
}

/// `settle` and `withdraw` exclude each other: after one succeeds the other
/// fails because the escrow is no longer funded.
pub proof fn lemma_settle_withdraw_exclusive(s: EscrowState)
    ensures
        settle_error(s) is None ==> withdraw_error(settle_state(s)) == Some(
            EscrowError::WithdrawalNotFunded,
        ),
        withdraw_error(s) is None ==> settle_error(withdraw_state(s)) == Some(
            EscrowError::SettlementNotFunded,
        ),
{
}

/// Settlement waits for maturity: it succeeds only when no maturity is set
/// or the ledger has reached it.
pub proof fn lemma_settle_after_maturity(s: EscrowState)
    requires
        settle_error(s) is None,
    ensures
        escrow_of(s).maturity == 0 || s.ledger.timestamp >= escrow_of(s).maturity,
        escrow_of(settle_state(s)).status == STATUS_SETTLED,
{
}

/// A refund returns exactly the investor's contribution, adds it to the
/// distributed total, and cannot be repeated.
pub proof fn lemma_refund_once(s: EscrowState, investor: Address)
    requires
        s.valid(),
        refund_error(s, investor) is None,
    ensures
        ({
            let t = refund_state(s, investor);
            &&& t.distributed_principal == s.distributed_principal + record_of(
                s.investors,
                investor,
            ).contribution
            &&& record_of(t.investors, investor).refunded
            &&& refund_error(t, investor) == Some(EscrowError::NoContributionToRefund)
        }),
{
    let r = record_of(s.investors, investor);
    crate::state::lemma_record_le_total(s.investors, investor);
    crate::state::lemma_put_record(
        s.investors,
        investor,
        crate::types::InvestorRecord { contribution: 0, refunded: true, ..r },
    );
}

/// Claiming is idempotent: a second claim succeeds, changes nothing and
/// publishes nothing.
pub proof fn lemma_claim_idempotent(s: EscrowState, investor: Address)
    requires
        s.valid(),
        claim_error(s, investor) is None,
    ensures
        ({
            let t = claim_state(s, investor);
            &&& record_of(t.investors, investor).claimed
            &&& claim_error(t, investor) is None
            &&& claim_state(t, investor) == t
            &&& crate::model::lifecycle::claim_effects(t, investor).events.len() == 0
        }),
{
    let r = record_of(s.investors, investor);
    crate::state::lemma_put_record(
        s.investors,
        investor,
        crate::types::InvestorRecord { claimed: true, ..r },
    );
}

/// The dust sweep of a cancelled escrow never dips into principal still
/// owed: after the sweep the balance covers everything not yet refunded.
pub proof fn lemma_sweep_keeps_liability_floor(s: EscrowState, amount: i128, balance: i128)
    requires
        sweep_error(s, amount, balance) is None,
        escrow_of(s).status == STATUS_CANCELLED,
    ensures
        balance - sweep_amount(amount, balance) >= escrow_of(s).funded_amount
            - s.distributed_principal,
        0 < sweep_amount(amount, balance) <= amount,
        sweep_amount(amount, balance) <= balance,
{
}

/// In a cancelled escrow what investors can still reclaim plus what was
/// already returned is exactly what was funded.
pub proof fn lemma_cancelled_accounting(s: EscrowState)
    requires
        s.valid(),
        s.escrow is Some,
        escrow_of(s).status == STATUS_CANCELLED,
    ensures
        crate::state::total_contributions(s.investors) + s.distributed_principal == escrow_of(
            s,
        ).funded_amount,
        0 <= s.distributed_principal <= escrow_of(s).funded_amount,
{
    crate::state::lemma_total_nonneg(s.investors);
}

/// Admin handover takes two steps: a proposal leaves the admin unchanged,
/// and accepting it (before expiry) installs the proposed address.
pub proof fn lemma_admin_handover(s: EscrowState, new_admin: Address, expires_at: Option<u64>)
    requires
        step(s, Call::ProposeAdmin(new_admin, expires_at)) is Ok,
    ensures
        ({
            let t = step(s, Call::ProposeAdmin(new_admin, expires_at)).unwrap();
            &&& escrow_of(t).admin == escrow_of(s).admin
            &&& (accept_error(t) is None ==> escrow_of(accept_state(t)).admin == new_admin
                && accept_state(t).pending_admin is None)
            &&& (expires_at is None ==> accept_error(t) is None)
        }),
{
}

/// Custody follows the books: a deposit raises the funded amount by exactly
/// its amount and asks the host to move no tokens (principal custody is the
/// integration's, reconciled before payout); a refund moves exactly the
/// investor's contribution out of the escrow; a withdrawal moves exactly the
/// funded amount to the SME.
pub proof fn lemma_custody_matches_books(s: EscrowState, investor: Address, amount: i128, lock: Option<u64>)
    requires
        s.valid(),
    ensures
        fund_error(s, investor, amount, lock, false) is None ==> {
            &&& fund_effects(no_effects(), s, investor, amount, lock).transfers == Seq::<
                crate::types::TokenTransfer,
            >::empty()
            &&& escrow_of(fund_state(s, investor, amount, lock)).funded_amount == escrow_of(
                s,
            ).funded_amount + amount
        },
        refund_error(s, investor) is None ==> crate::model::lifecycle::refund_effects(
            no_effects(),
            s,
            investor,
        ).transfers == seq![
            crate::types::TokenTransfer {
                from: s.contract,
                to: investor,
                amount: record_of(s.investors, investor).contribution,
            },
        ],
        withdraw_error(s) is None ==> crate::model::lifecycle::withdraw_effects(s).transfers
            == seq![
            crate::types::TokenTransfer {
                from: s.contract,
                to: escrow_of(s).sme_address,
                amount: escrow_of(s).funded_amount,
            },
        ],
{
    assert(no_effects().transfers.push(
        crate::types::TokenTransfer {
            from: s.contract,
            to: investor,
            amount: record_of(s.investors, investor).contribution,
        },
    ) =~= seq![
        crate::types::TokenTransfer {
            from: s.contract,
            to: investor,
            amount: record_of(s.investors, investor).contribution,
        },
    ]);
    assert(no_effects().transfers.push(
        crate::types::TokenTransfer {
            from: s.contract,
            to: escrow_of(s).sme_address,
            amount: escrow_of(s).funded_amount,
        },
    ) =~= seq![
        crate::types::TokenTransfer {
            from: s.contract,
            to: escrow_of(s).sme_address,
            amount: escrow_of(s).funded_amount,
        },
    ]);
}

// ---------------------------------------------------------------------------
// Payouts of a settled escrow
// ---------------------------------------------------------------------------

/// Sum of what `compute_investor_payout` reports for the investors of `inv`.
pub open spec fn table_payouts(s: EscrowState, inv: Seq<InvestorEntry>) -> int
    decreases inv.len(),
{
    if inv.len() == 0 {
        0
    } else {
        table_payouts(s, inv.drop_last()) + payout_value(s, inv.last().investor) as int
    }
}

/// The contributions recorded in `inv`, in order.
pub open spec fn contributions_of(inv: Seq<InvestorEntry>) -> Seq<int> {
    inv.map_values(|e: InvestorEntry| e.record.contribution as int)
}

/// Every investor of the table earns the escrow's base yield.
pub open spec fn single_yield(s: EscrowState) -> bool {
    forall|i: int|
        0 <= i < s.investors.len() ==> investor_yield(escrow_of(s), #[trigger] s.investors[i].record)
            == escrow_of(s).yield_bps
}

/// `compute_investor_payout` succeeds for every investor of the table.
pub open spec fn payouts_computable(s: EscrowState) -> bool {
    forall|i: int| 0 <= i < s.investors.len() ==> payout_error(s, #[trigger] s.investors[i].investor) is None
}

proof fn lemma_table_payouts_prefix(s: EscrowState, k: int)
    requires
        s.valid(),
        s.escrow is Some,
        s.snapshot is Some,
        single_yield(s),
        payouts_computable(s),
        0 <= k <= s.investors.len(),
    ensures
        total_of(contributions_of(s.investors).take(k)) == total_contributions(s.investors.take(k)),
        s.snapshot.unwrap().total_principal > 0 ==> table_payouts(s, s.investors.take(k))
            == total_payouts(
            contributions_of(s.investors).take(k),
            s.snapshot.unwrap().total_principal as int,
            escrow_of(s).yield_bps as int,
        ),
        s.snapshot.unwrap().total_principal <= 0 ==> table_payouts(s, s.investors.take(k)) == 0,
    decreases k,
{
    if k > 0 {
        lemma_table_payouts_prefix(s, k - 1);
        let inv = s.investors;
        let cs = contributions_of(inv);
        assert(inv.take(k).drop_last() =~= inv.take(k - 1));
        assert(cs.take(k).drop_last() =~= cs.take(k - 1));
        let e = inv[k - 1];
        assert(inv.take(k).last() == e);
        assert(cs.take(k).last() == e.record.contribution as int);
        lemma_find_investor(inv, e.investor, k - 1);
        assert(record_of(inv, e.investor) == e.record);
        let p = s.snapshot.unwrap().total_principal as int;
        let y = escrow_of(s).yield_bps as int;
        let c = e.record.contribution as int;
        assert(investor_yield(escrow_of(s), s.investors[k - 1].record) == escrow_of(s).yield_bps);
        assert(payout_error(s, s.investors[k - 1].investor) is None);
        assert(0 <= c);
        if p > 0 {
            if c == 0 {
                assert(payout_value(s, e.investor) == 0);
                assert(c * settle_pool(p, y) == 0);
            } else {
                let pool = settle_pool(p, y);
                assert(0 <= p * y) by (nonlinear_arith)
                    requires
                        0 < p,
                        0 <= y,
                ;
                assert(c * pool <= i128::MAX);
                assert(0 <= c * pool / p <= c * pool) by (nonlinear_arith)
                    requires
                        0 < c,
                        0 <= pool,
                        0 < p,
                ;
                assert(payout_value(s, e.investor) as int == c * pool / p);
            }
        }
    }
}

/// Payouts never exceed the settlement pool: in a settled escrow whose
/// investors all earn the base yield and whose recorded contributions add up
/// to at most the snapshot principal, the payouts `compute_investor_payout`
/// reports for the investors, summed over the investor table, are at most
/// principal plus coupon.
pub proof fn lemma_settled_payouts_within_pool(s: EscrowState)
    requires
        s.valid(),
        s.escrow is Some,
        escrow_of(s).status == STATUS_SETTLED,
        single_yield(s),
        payouts_computable(s),
        total_contributions(s.investors) <= s.snapshot.unwrap().total_principal,
    ensures
        table_payouts(s, s.investors) <= settle_pool(
            s.snapshot.unwrap().total_principal as int,
            escrow_of(s).yield_bps as int,
        ),
{
    let inv = s.investors;
    let n = inv.len() as int;
    lemma_table_payouts_prefix(s, n);
    assert(inv.take(n) =~= inv);
    let cs = contributions_of(inv);
    assert(cs.take(n) =~= cs);
    lemma_total_nonneg(inv);
    let p = s.snapshot.unwrap().total_principal as int;
    let y = escrow_of(s).yield_bps as int;
    if p > 0 {
        assert forall|i: int| 0 <= i < cs.len() implies 0 <= #[trigger] cs[i] by {
            assert(cs[i] == inv[i].record.contribution as int);
        }
        lemma_payouts_within_pool(cs, p, y);
    } else {
        assert(p == 0);
        assert(settle_pool(p, y) == 0);
    }
}

/// What the investors of `inv` are owed at their own yields: each
/// contribution plus the coupon on it at the investor's yield (a fixed tier
/// yield, or the base yield).
pub open spec fn owed_at_own_yields(s: EscrowState, inv: Seq<InvestorEntry>) -> int
    decreases inv.len(),
{
    if inv.len() == 0 {
        0
    } else {
        let r = inv.last().record;
        owed_at_own_yields(s, inv.drop_last()) + r.contribution + coupon(
            r.contribution as int,
            investor_yield(escrow_of(s), r) as int,
        )
    }
}

proof fn lemma_own_yields_prefix(s: EscrowState, k: int)
    requires
        s.valid(),
        s.escrow is Some,
        payouts_computable(s),
        0 <= k <= s.investors.len(),
    ensures
        table_payouts(s, s.investors.take(k)) <= owed_at_own_yields(s, s.investors.take(k)),
    decreases k,
{
    if k > 0 {
        lemma_own_yields_prefix(s, k - 1);
        let inv = s.investors;
        assert(inv.take(k).drop_last() =~= inv.take(k - 1));
        let e = inv[k - 1];
        assert(inv.take(k).last() == e);
        lemma_find_investor(inv, e.investor, k - 1);
        assert(record_of(inv, e.investor) == e.record);
        assert(payout_error(s, s.investors[k - 1].investor) is None);
        let c = e.record.contribution as int;
        let y = investor_yield(escrow_of(s), e.record) as int;
        assert(0 <= c);
        assert(crate::state::yield_in_range(s.investors[k - 1].record));
        assert(0 <= y <= 10_000);
        assert(0 <= c * y) by (nonlinear_arith)
            requires
                0 <= c,
                0 <= y,
        ;
        assert(0 <= coupon(c, y));
        match s.snapshot {
            None => {},
            Some(snap) => {
                let p = snap.total_principal as int;
                if c > 0 && p > 0 {
                    let pool = settle_pool(p, y);
                    assert(0 <= p * y) by (nonlinear_arith)
                        requires
                            0 < p,
                            0 <= y,
                    ;
                    assert(c * pool <= i128::MAX);
                    assert(0 <= c * pool / p <= c * pool) by (nonlinear_arith)
                        requires
                            0 < c,
                            0 <= pool,
                            0 < p,
                    ;
                    assert(payout_value(s, e.investor) as int == c * pool / p);
                    lemma_share_within_own_coupon(c, p, y);
                }
            },
        }
    }
}

/// Whatever yield each investor earns (a fixed tier or the base), the
/// payouts `compute_investor_payout` reports, summed over the investor
/// table, never exceed what the investors are owed at their own yields:
/// the sum of each contribution plus the coupon on it at the investor's
/// yield. Rounding only ever leaves dust behind.
pub proof fn lemma_payouts_within_own_coupons(s: EscrowState)
    requires
        s.valid(),
        s.escrow is Some,
        payouts_computable(s),
    ensures
        table_payouts(s, s.investors) <= owed_at_own_yields(s, s.investors),
{
    let n = s.investors.len() as int;
    lemma_own_yields_prefix(s, n);
    assert(s.investors.take(n) =~= s.investors);
}

// ---------------------------------------------------------------------------
// Closing funding early, sweeping dust, refunding in batches
// ---------------------------------------------------------------------------

/// Closing funding early is open to both the SME and the admin: in an open
/// escrow without a legal hold, `partial_settle` by either succeeds, marks
/// the escrow funded with its funded amount unchanged, and writes the
/// snapshot with the amount raised so far as principal. Any other caller is
/// refused.
pub proof fn lemma_partial_settle_by_sme_or_admin(s: EscrowState, caller: Address)
    requires
        s.valid(),
        s.escrow is Some,
        escrow_of(s).status == STATUS_OPEN,
        !s.legal_hold,
    ensures
        (caller == escrow_of(s).admin || caller == escrow_of(s).sme_address) ==> {
            &&& step(s, Call::PartialSettle(caller)) is Ok
            &&& ({
                let t = step(s, Call::PartialSettle(caller)).unwrap();
                &&& escrow_of(t).status == STATUS_FUNDED
                &&& escrow_of(t).funded_amount == escrow_of(s).funded_amount
                &&& t.snapshot matches Some(snap) && snap.total_principal == escrow_of(
                    s,
                ).funded_amount
            })
        },
        (caller != escrow_of(s).admin && caller != escrow_of(s).sme_address) ==> step(
            s,
            Call::PartialSettle(caller),
        ) == Err::<EscrowState, EscrowError>(EscrowError::PartialSettleUnauthorizedCaller),
{
}

/// The dust sweep works in every terminal state: in a settled or withdrawn
/// escrow (or a cancelled one whose balance after the sweep still covers the
/// principal not yet refunded) without a legal hold, with token and treasury
/// bound, a sweep of `0 < amount <= MAX_DUST_SWEEP_AMOUNT` out of a positive
/// balance succeeds, leaves storage unchanged, and moves exactly
/// `min(amount, balance)` from the escrow to the treasury. An open or funded
/// escrow is never swept.
pub proof fn lemma_sweep_in_terminal_states(s: EscrowState, amount: i128, balance: i128)
    requires
        s.valid(),
        s.escrow is Some,
    ensures
        ({
            let e = escrow_of(s);
            let moved = if amount <= balance {
                amount
            } else {
                balance
            };
            (!s.legal_hold && s.funding_token is Some && s.treasury is Some && 0 < amount
                <= crate::types::MAX_DUST_SWEEP_AMOUNT && 0 < balance && (e.status == STATUS_SETTLED
                || e.status == STATUS_WITHDRAWN || (e.status == STATUS_CANCELLED && balance - moved
                >= e.funded_amount - s.distributed_principal))) ==> {
                &&& step(s, Call::SweepTerminalDust(amount, balance)) == Ok::<
                    EscrowState,
                    EscrowError,
                >(s)
                &&& crate::model::lifecycle::sweep_effects(s, amount, balance).transfers == seq![
                    crate::types::TokenTransfer {
                        from: s.contract,
                        to: s.treasury.unwrap(),
                        amount: moved,
                    },
                ]
            }
        }),
        (escrow_of(s).status == STATUS_OPEN || escrow_of(s).status == STATUS_FUNDED) ==> step(
            s,
            Call::SweepTerminalDust(amount, balance),
        ) is Err,
{
    let treasury = s.treasury;
    if treasury is Some {
        let t = crate::types::TokenTransfer {
            from: s.contract,
            to: treasury.unwrap(),
            amount: sweep_amount(amount, balance),
        };
        assert(no_effects().auth(treasury.unwrap()).transfers.push(t) =~= seq![t]);
    }
}

/// Sum of the amounts of `ts`.
pub open spec fn transferred(ts: Seq<crate::types::TokenTransfer>) -> int
    decreases ts.len(),
{
    if ts.len() == 0 {
        0
    } else {
        transferred(ts.drop_last()) + ts.last().amount
    }
}

/// A refund moves exactly the investor's contribution out of the escrow to
/// the investor, whatever effects came before it in the same call.
pub proof fn lemma_refund_moves_contribution(eff: Effects, s: EscrowState, investor: Address)
    requires
        refund_error(s, investor) is None,
    ensures
        refund_effects(eff, s, investor).transfers == eff.transfers.push(
            crate::types::TokenTransfer {
                from: s.contract,
                to: investor,
                amount: record_of(s.investors, investor).contribution,
            },
        ),
{
}

/// A refund batch pays out exactly what it books: after a successful run,
/// the transfers it added all leave the escrow, go to investors whose
/// records are now refunded with nothing left to reclaim, and add up to
/// exactly the growth of the principal returned.
pub proof fn lemma_refund_batch_pays_what_it_books(
    s: EscrowState,
    eff: Effects,
    investors: Seq<Address>,
)
    requires
        s.valid(),
        refund_run(s, eff, investors) is Ok,
    ensures
        ({
            let (t, e2) = refund_run(s, eff, investors).unwrap();
            &&& e2.transfers.len() >= eff.transfers.len()
            &&& e2.transfers.take(eff.transfers.len() as int) == eff.transfers
            &&& transferred(e2.transfers) - transferred(eff.transfers) == t.distributed_principal
                - s.distributed_principal
            &&& forall|i: int|
                eff.transfers.len() <= i < e2.transfers.len() ==> (#[trigger] e2.transfers[i]).from
                    == s.contract
        }),
    decreases investors.len(),
{
    if investors.len() > 0 {
        let a = investors[0];
        if record_of(s.investors, a).refunded {
            lemma_refund_batch_pays_what_it_books(s, eff, investors.drop_first());
        } else {
            let s2 = refund_state(s, a);
            let eff2 = refund_effects(eff, s, a);
            let c = record_of(s.investors, a).contribution;
            crate::state::lemma_record_le_total(s.investors, a);
            lemma_refund_step_valid(s, a);
            assert(s2.distributed_principal == s.distributed_principal + c);
            let tr = crate::types::TokenTransfer { from: s.contract, to: a, amount: c };
            assert(eff2.transfers == eff.transfers.push(tr));
            assert(eff2.transfers.drop_last() =~= eff.transfers);
            assert(transferred(eff2.transfers) == transferred(eff.transfers) + c);
            lemma_refund_batch_pays_what_it_books(s2, eff2, investors.drop_first());
            let e3 = refund_run(s, eff, investors).unwrap().1;
            assert(e3.transfers.take(eff2.transfers.len() as int) == eff2.transfers);
            assert(e3.transfers.take(eff.transfers.len() as int) =~= eff.transfers) by {
                assert forall|i: int| 0 <= i < eff.transfers.len() implies e3.transfers[i]
                    == eff.transfers[i] by {
                    assert(e3.transfers.take(eff2.transfers.len() as int)[i] == eff2.transfers[i]);
                }
            }
            assert forall|i: int|
                eff.transfers.len() <= i < e3.transfers.len() implies (#[trigger] e3.transfers[i]).from
                == s.contract by {
                if i == eff.transfers.len() {
                    assert(e3.transfers.take(eff2.transfers.len() as int)[i] == eff2.transfers[i]);
                }
            }
        }
    }
}

/// The distinct-funder count grows by one exactly when an address makes
/// its first deposit, and never exceeds the cap.
pub proof fn lemma_unique_count_once_per_address(
    s: EscrowState,
    investor: Address,
    amount: i128,
    lock: Option<u64>,
)
    requires
        s.valid(),
        fund_error(s, investor, amount, lock, false) is None,
    ensures
        fund_state(s, investor, amount, lock).unique_funder_count == s.unique_funder_count + (
        if record_of(s.investors, investor).contribution == 0 {
            1int
        } else {
            0int
        }),
        fund_state(s, investor, amount, lock).max_unique_investors matches Some(cap)
            ==> fund_state(s, investor, amount, lock).unique_funder_count <= cap,
{
}

// ---------------------------------------------------------------------------
// The invariant
// ---------------------------------------------------------------------------

proof fn lemma_refund_step_valid(s: EscrowState, investor: Address)
    requires
        s.valid(),
        refund_error(s, investor) is None,
    ensures
        refund_state(s, investor).valid(),
{
    let r = record_of(s.investors, investor);
    crate::state::lemma_record_le_total(s.investors, investor);
    crate::state::lemma_find_investor_range(s.investors, investor);
    crate::state::lemma_put_record(
        s.investors,
        investor,
        crate::types::InvestorRecord { contribution: 0, refunded: true, ..r },
    );
}

proof fn lemma_refund_run_valid(s: EscrowState, eff: Effects, investors: Seq<Address>)
    requires
        s.valid(),
        refund_run(s, eff, investors) is Ok,
    ensures
        refund_run(s, eff, investors).unwrap().0.valid(),
    decreases investors.len(),
{
    if investors.len() > 0 {
        let a = investors[0];
        if record_of(s.investors, a).refunded {
            lemma_refund_run_valid(s, eff, investors.drop_first());
        } else {
            lemma_refund_step_valid(s, a);
            lemma_refund_run_valid(
                refund_state(s, a),
                crate::model::lifecycle::refund_effects(eff, s, a),
                investors.drop_first(),
            );
        }
    }
}

proof fn lemma_allowlisted_valid(s: EscrowState, investor: Address, allowed: bool)
    requires
        s.valid(),
        s.escrow is Some,
    ensures
        allowlisted_state(s, investor, allowed).valid(),
{
    let r = record_of(s.investors, investor);
    crate::state::lemma_record_le_total(s.investors, investor);
    crate::state::lemma_find_investor_range(s.investors, investor);
    crate::state::lemma_put_record(
        s.investors,
        investor,
        crate::types::InvestorRecord { allowlisted: allowed, ..r },
    );
}

proof fn lemma_allowlist_run_valid(s: EscrowState, eff: Effects, investors: Seq<Address>, allowed: bool)
    requires
        s.valid(),
        s.escrow is Some,
    ensures
        allowlist_run(s, eff, investors, allowed).0.valid(),
    decreases investors.len(),
{
    if investors.len() > 0 {
        lemma_allowlisted_valid(s, investors[0], allowed);
        lemma_allowlist_run_valid(
            allowlisted_state(s, investors[0], allowed),
            eff.emit(crate::model::governance::allowlisted_event(s, investors[0], allowed)),
            investors.drop_first(),
            allowed,
        );
    }
}

proof fn lemma_revoke_run_valid(s: EscrowState, eff: Effects, indices: Seq<u32>)
    requires
        s.valid(),
        revoke_run(s, eff, indices) is Ok,
    ensures
        revoke_run(s, eff, indices).unwrap().0.valid(),
    decreases indices.len(),
{
    if indices.len() > 0 {
        lemma_revoke_run_valid(
            mark_state(s, indices[0], true),
            eff.emit(crate::model::governance::revoked_event(s, indices[0])),
            indices.drop_first(),
        );
    }
}

proof fn lemma_claim_valid(s: EscrowState, investor: Address)
    requires
        s.valid(),
        claim_error(s, investor) is None,
    ensures
        claim_state(s, investor).valid(),
{
    let r = record_of(s.investors, investor);
    crate::state::lemma_record_le_total(s.investors, investor);
    crate::state::lemma_find_investor_range(s.investors, investor);
    crate::state::lemma_put_record(
        s.investors,
        investor,
        crate::types::InvestorRecord { claimed: true, ..r },
    );
}

proof fn lemma_lifecycle_keeps_invariant(s: EscrowState, c: Call)
    requires
        s.valid(),
        step(s, c) is Ok,
        c is Init || c is Fund || c is FundWithCommitment || c is FundBatch || c is PartialSettle
            || c is Settle || c is Withdraw || c is CancelFunding || c is UpdateFundingTarget
            || c is SweepTerminalDust,
    ensures
        step(s, c).unwrap().valid(),
{
    match c {
        Call::Init(a, id) => {
            crate::validation::lemma_tiers_error_none_iff_valid(a.yield_tiers, a.yield_bps);
        },
        Call::Fund(a, amount) => {
            crate::model::lemma_fund_preserves_valid(s, a, amount, None, false);
        },
        Call::FundWithCommitment(a, amount, l) => {
            crate::model::lemma_fund_preserves_valid(s, a, amount, Some(l), false);
        },
        Call::FundBatch(entries) => {
            lemma_batch_run_facts(s, no_effects(), entries);
        },
        _ => {},
    }
}

proof fn lemma_investor_calls_keep_invariant(s: EscrowState, c: Call)
    requires
        s.valid(),
        step(s, c) is Ok,
        c is Claim || c is Refund || c is RefundBatch || c is SetInvestorAllowlisted
            || c is SetInvestorsAllowlisted,
    ensures
        step(s, c).unwrap().valid(),
{
    match c {
        Call::Claim(a) => {
            lemma_claim_valid(s, a);
        },
        Call::Refund(a) => {
            lemma_refund_step_valid(s, a);
        },
        Call::RefundBatch(investors) => {
            lemma_refund_run_valid(s, no_effects(), investors);
        },
        Call::SetInvestorAllowlisted(a, allowed) => {
            lemma_allowlisted_valid(s, a, allowed);
        },
        Call::SetInvestorsAllowlisted(investors, allowed) => {
            lemma_allowlist_run_valid(s, no_effects().auth(escrow_of(s).admin), investors, allowed);
        },
        _ => {},
    }
}

proof fn lemma_settings_keep_invariant(s: EscrowState, c: Call)
    requires
        s.valid(),
        step(s, c) is Ok,
        c is SetLegalHold || c is RequestClearLegalHold || c is CancelClearLegalHold
            || c is SetAllowlistActive || c is LowerMaxUniqueInvestors || c is RaiseMaxUniqueInvestors
            || c is LowerMinContributionFloor || c is UpdateMaturity || c is UpdateMaturityMaxHorizon
            || c is UpdateFundingDeadline,
    ensures
        step(s, c).unwrap().valid(),
{
}

proof fn lemma_roles_keep_invariant(s: EscrowState, c: Call)
    requires
        s.valid(),
        step(s, c) is Ok,
        c is ProposeAdmin || c is AcceptAdmin || c is CancelPendingAdmin || c is RotateBeneficiary
            || c is RebindRegistryRef || c is RecordCollateral || c is ClearCollateral,
    ensures
        step(s, c).unwrap().valid(),
{
}

proof fn lemma_attestation_calls_keep_invariant(s: EscrowState, c: Call)
    requires
        s.valid(),
        step(s, c) is Ok,
        c is BindPrimaryAttestation || c is AppendAttestation || c is RevokeAttestation
            || c is UnrevokeAttestation || c is RevokeAttestations || c is Migrate || c is Upgrade,
    ensures
        step(s, c).unwrap().valid(),
{
    match c {
        Call::RevokeAttestations(indices) => {
            lemma_revoke_run_valid(s, no_effects().auth(escrow_of(s).admin), indices);
        },
        _ => {},
    }
}

/// Every call keeps the escrow's invariant: investor addresses stay unique,
/// contributions non-negative, the books balance (contributions plus
/// principal already returned equal the funded amount), the distinct-funder
/// count stays within its cap, the yield ladder stays well formed, and the
/// snapshot exists exactly when funding has closed without cancellation.
pub proof fn lemma_step_keeps_invariant(s: EscrowState, c: Call)
    requires
        s.valid(),
        step(s, c) is Ok,
    ensures
        step(s, c).unwrap().valid(),
{
    if c is Init || c is Fund || c is FundWithCommitment || c is FundBatch || c is PartialSettle
        || c is Settle || c is Withdraw || c is CancelFunding || c is UpdateFundingTarget
        || c is SweepTerminalDust {
        lemma_lifecycle_keeps_invariant(s, c);
    } else if c is Claim || c is Refund || c is RefundBatch || c is SetInvestorAllowlisted
        || c is SetInvestorsAllowlisted {
        lemma_investor_calls_keep_invariant(s, c);
    } else if c is SetLegalHold || c is RequestClearLegalHold || c is CancelClearLegalHold
        || c is SetAllowlistActive || c is LowerMaxUniqueInvestors || c is RaiseMaxUniqueInvestors
        || c is LowerMinContributionFloor || c is UpdateMaturity || c is UpdateMaturityMaxHorizon
        || c is UpdateFundingDeadline {
        lemma_settings_keep_invariant(s, c);
    } else if c is ProposeAdmin || c is AcceptAdmin || c is CancelPendingAdmin
        || c is RotateBeneficiary || c is RebindRegistryRef || c is RecordCollateral
        || c is ClearCollateral {
        lemma_roles_keep_invariant(s, c);
    } else {
        lemma_attestation_calls_keep_invariant(s, c);
    }
}

} // verus!
