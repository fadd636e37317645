//! The lifecycle of an escrow: initialization, settlement, withdrawal,
//! claims, cancellation, refunds, the target update and the dust sweep.
use vstd::prelude::*;

use super::escrow_of;
use crate::errors::EscrowError;
use crate::events::EscrowEvent;
use crate::payout::{payout_overflows, payout_share};
use crate::state::{no_effects, put_record, record_of, Effects, EscrowState};
use crate::symbol::{invoice_id_error, ShortSymbol};
use crate::types::{
    Address, FundingCloseSnapshot, InvestorRecord, InvoiceEscrow, YieldTier,
    DEFAULT_MATURITY_MAX_HORIZON_SECS, MAX_DUST_SWEEP_AMOUNT, MAX_INVOICE_AMOUNT,
    MAX_REFUND_BATCH, SCHEMA_VERSION, STATUS_CANCELLED, STATUS_FUNDED, STATUS_OPEN,
    STATUS_SETTLED, STATUS_WITHDRAWN,
};
use crate::validation::{maturity_error, tiers_error};

verus! {

// ---------------------------------------------------------------------------
// Initialization
// ---------------------------------------------------------------------------

/// The arguments of `init`, as plain values.
pub struct InitArgs {
    pub admin: Address,
    pub invoice_id: Seq<u8>,
    pub sme: Address,
    pub amount: i128,
    pub yield_bps: i64,
    pub maturity: u64,
    pub funding_token: Address,
    pub registry: Option<Address>,
    pub treasury: Address,
    pub yield_tiers: Seq<YieldTier>,
    pub min_contribution: Option<i128>,
    pub max_unique_investors: Option<u32>,
    pub max_per_investor: Option<i128>,
    pub legal_hold_clear_delay: Option<u64>,
    pub maturity_max_horizon: Option<u64>,
    pub funding_deadline: Option<u64>,
}

/// The horizon a maturity may lie ahead of the ledger: the configured one,
/// else the default of five years.
pub open spec fn horizon_or_default(h: Option<u64>) -> u64 {
    match h {
        Some(v) => v,
        None => DEFAULT_MATURITY_MAX_HORIZON_SECS,
    }
}

/// The error `init` reports, in the order the contract checks.
pub open spec fn init_error(s: EscrowState, a: InitArgs) -> Option<EscrowError> {
    let now = s.ledger.timestamp;
    if s.escrow is Some {
        Some(EscrowError::EscrowAlreadyInitialized)
    } else if a.amount <= 0 {
        Some(EscrowError::AmountMustBePositive)
    } else if a.amount > MAX_INVOICE_AMOUNT {
        Some(EscrowError::AmountExceedsMax)
    } else if a.yield_bps < 0 || a.yield_bps > 10_000 {
        Some(EscrowError::YieldBpsOutOfRange)
    } else if invoice_id_error(a.invoice_id) is Some {
        invoice_id_error(a.invoice_id)
    } else if a.min_contribution is Some && a.min_contribution.unwrap() <= 0 {
        Some(EscrowError::MinContributionNotPositive)
    } else if a.min_contribution is Some && a.min_contribution.unwrap() > a.amount {
        Some(EscrowError::MinContributionExceedsAmount)
    } else if a.max_unique_investors == Some(0u32) {
        Some(EscrowError::MaxUniqueInvestorsNotPositive)
    } else if a.max_per_investor is Some && a.max_per_investor.unwrap() <= 0 {
        Some(EscrowError::MaxPerInvestorNotPositive)
    } else if tiers_error(a.yield_tiers, a.yield_bps) is Some {
        tiers_error(a.yield_tiers, a.yield_bps)
    } else if maturity_error(a.maturity, now, horizon_or_default(a.maturity_max_horizon)) is Some {
        maturity_error(a.maturity, now, horizon_or_default(a.maturity_max_horizon))
    } else if a.funding_deadline is Some && a.funding_deadline.unwrap() <= now {
        Some(EscrowError::FundingDeadlinePassed)
    } else {
        None
    }
}

/// The ladder given to `init` (none: an empty ladder).
pub open spec fn tiers_of(t: Option<Vec<YieldTier>>) -> Seq<YieldTier> {
    match t {
        Some(v) => v@,
        None => Seq::empty(),
    }
}

/// How `init` ended: on success it returned the new escrow record, whose
/// identifier holds the given bytes, and left `init_state` behind.
pub open spec fn init_outcome(
    r: Result<InvoiceEscrow, EscrowError>,
    pre: EscrowState,
    post: EscrowState,
    effects: Effects,
    a: InitArgs,
) -> bool {
    match init_error(pre, a) {
        Some(x) => r == Err::<InvoiceEscrow, EscrowError>(x) && post == pre && effects
            == no_effects(),
        None => match r {
            Ok(esc) => esc.invoice_id@ == a.invoice_id && esc == init_escrow(a, esc.invoice_id)
                && post == init_state(pre, a, esc.invoice_id) && effects == init_effects(
                a,
                esc.invoice_id,
            ),
            Err(_) => false,
        },
    }
}

/// The escrow record `init` creates: open, nothing funded, the target equal
/// to the face amount.
pub open spec fn init_escrow(a: InitArgs, id: ShortSymbol) -> InvoiceEscrow {
    InvoiceEscrow {
        invoice_id: id,
        admin: a.admin,
        sme_address: a.sme,
        amount: a.amount,
        funding_target: a.amount,
        funded_amount: 0,
        yield_bps: a.yield_bps,
        maturity: a.maturity,
        status: STATUS_OPEN,
    }
}

/// Storage after `init`, with `id` the validated invoice identifier.
pub open spec fn init_state(s: EscrowState, a: InitArgs, id: ShortSymbol) -> EscrowState {
    EscrowState {
        escrow: Some(init_escrow(a, id)),
        version: SCHEMA_VERSION,
        funding_token: Some(a.funding_token),
        treasury: Some(a.treasury),
        registry: a.registry,
        legal_hold_clear_delay: match a.legal_hold_clear_delay {
            Some(d) => d,
            None => 0,
        },
        funding_deadline: a.funding_deadline,
        min_contribution: match a.min_contribution {
            Some(m) => m,
            None => 0,
        },
        max_unique_investors: a.max_unique_investors,
        max_per_investor: a.max_per_investor,
        maturity_max_horizon: a.maturity_max_horizon,
        yield_tiers: a.yield_tiers,
        ..s
    }
}

/// Effects of `init`: the admin authorizes; `EscrowInitialized` is published.
pub open spec fn init_effects(a: InitArgs, id: ShortSymbol) -> Effects {
    no_effects().auth(a.admin).emit(
        EscrowEvent::EscrowInitialized {
            escrow: init_escrow(a, id),
            funding_token: a.funding_token,
            treasury: a.treasury,
            registry: a.registry,
            has_maturity_lock: a.maturity > 0,
        },
    )
}

// ---------------------------------------------------------------------------
// Settlement paths
// ---------------------------------------------------------------------------

/// Storage with the escrow record replaced.
pub open spec fn with_escrow(s: EscrowState, e: InvoiceEscrow) -> EscrowState {
    EscrowState { escrow: Some(e), ..s }
}

/// The snapshot written when funding closes now, at `funded`.
pub open spec fn close_snapshot(s: EscrowState, funded: i128) -> FundingCloseSnapshot {
    FundingCloseSnapshot {
        total_principal: funded,
        funding_target: escrow_of(s).funding_target,
        closed_at_ledger_timestamp: s.ledger.timestamp,
        closed_at_ledger_sequence: s.ledger.sequence,
    }
}

/// The error of `partial_settle` by `caller`.
pub open spec fn partial_settle_error(s: EscrowState, caller: Address) -> Option<EscrowError> {
    match s.escrow {
        None => Some(EscrowError::EscrowNotInitialized),
        Some(e) => if s.legal_hold {
            Some(EscrowError::LegalHoldBlocksPartialSettle)
        } else if caller != e.sme_address && caller != e.admin {
            Some(EscrowError::PartialSettleUnauthorizedCaller)
        } else if e.status != STATUS_OPEN {
            Some(EscrowError::PartialSettleNotOpen)
        } else {
            None
        },
    }
}

/// `partial_settle` closes funding early at whatever has been raised.
pub open spec fn partial_settle_state(s: EscrowState) -> EscrowState {
    let e = escrow_of(s);
    EscrowState {
        escrow: Some(InvoiceEscrow { status: STATUS_FUNDED, ..e }),
        snapshot: Some(close_snapshot(s, e.funded_amount)),
        ..s
    }
}

/// Effects of `partial_settle`.
pub open spec fn partial_settle_effects(s: EscrowState, caller: Address) -> Effects {
    let e = escrow_of(s);
    no_effects().auth(caller).emit(
        EscrowEvent::EscrowPartialSettle { invoice_id: e.invoice_id, funded_amount: e.funded_amount },
    )
}

/// The error of `settle`.
pub open spec fn settle_error(s: EscrowState) -> Option<EscrowError> {
    match s.escrow {
        None => Some(EscrowError::EscrowNotInitialized),
        Some(e) => if s.legal_hold {
            Some(EscrowError::LegalHoldBlocksSettlement)
        } else if e.status != STATUS_FUNDED {
            Some(EscrowError::SettlementNotFunded)
        } else if e.maturity > 0 && s.ledger.timestamp < e.maturity {
            Some(EscrowError::MaturityNotReached)
        } else {
            None
        },
    }
}

/// `settle` moves a funded escrow to settled.
pub open spec fn settle_state(s: EscrowState) -> EscrowState {
    with_escrow(s, InvoiceEscrow { status: STATUS_SETTLED, ..escrow_of(s) })
}

/// Effects of `settle`: the SME authorizes; `EscrowSettled` is published.
pub open spec fn settle_effects(s: EscrowState) -> Effects {
    let e = escrow_of(s);
    no_effects().auth(e.sme_address).emit(
        EscrowEvent::EscrowSettled {
            invoice_id: e.invoice_id,
            funded_amount: e.funded_amount,
            yield_bps: e.yield_bps,
            maturity: e.maturity,
            settled_at_ledger_timestamp: s.ledger.timestamp,
        },
    )
}

/// The error of `withdraw`.
pub open spec fn withdraw_error(s: EscrowState) -> Option<EscrowError> {
    match s.escrow {
        None => Some(EscrowError::EscrowNotInitialized),
        Some(e) => if s.legal_hold {
            Some(EscrowError::LegalHoldBlocksWithdrawal)
        } else if e.status != STATUS_FUNDED {
            Some(EscrowError::WithdrawalNotFunded)
        } else {
            None
        },
    }
}

/// `withdraw` hands the funded principal to the SME.
pub open spec fn withdraw_state(s: EscrowState) -> EscrowState {
    let e = escrow_of(s);
    EscrowState {
        escrow: Some(InvoiceEscrow { status: STATUS_WITHDRAWN, ..e }),
        distributed_principal: (s.distributed_principal + e.funded_amount) as i128,
        ..s
    }
}

/// Effects of `withdraw`: the SME authorizes, the funded amount moves from
/// the escrow to the SME, `SmeWithdrew` is published.
pub open spec fn withdraw_effects(s: EscrowState) -> Effects {
    let e = escrow_of(s);
    no_effects().auth(e.sme_address).pay(s.contract, e.sme_address, e.funded_amount).emit(
        EscrowEvent::SmeWithdrew {
            invoice_id: e.invoice_id,
            amount: e.funded_amount,
            recipient: e.sme_address,
        },
    )
}

// ---------------------------------------------------------------------------
// Investor claims and payouts
// ---------------------------------------------------------------------------

/// The error of `claim_investor_payout` by `investor`.
pub open spec fn claim_error(s: EscrowState, investor: Address) -> Option<EscrowError> {
    let r = record_of(s.investors, investor);
    match s.escrow {
        None => Some(EscrowError::EscrowNotInitialized),
        Some(e) => if s.legal_hold {
            Some(EscrowError::LegalHoldBlocksInvestorClaims)
        } else if r.contribution == 0 {
            Some(EscrowError::NoContributionToClaim)
        } else if e.status != STATUS_SETTLED {
            Some(EscrowError::InvestorClaimNotSettled)
        } else if s.ledger.timestamp < r.claim_not_before {
            Some(EscrowError::InvestorCommitmentLockNotExpired)
        } else {
            None
        },
    }
}

/// A claim marks the investor as claimed (a repeated claim changes nothing).
pub open spec fn claim_state(s: EscrowState, investor: Address) -> EscrowState {
    let r = record_of(s.investors, investor);
    if r.claimed {
        s
    } else {
        s.with_investors(put_record(s.investors, investor, InvestorRecord { claimed: true, ..r }))
    }
}

/// Effects of a claim: the investor authorizes; the first claim publishes
/// `InvestorPayoutClaimed`.
pub open spec fn claim_effects(s: EscrowState, investor: Address) -> Effects {
    if record_of(s.investors, investor).claimed {
        no_effects().auth(investor)
    } else {
        no_effects().auth(investor).emit(
            EscrowEvent::InvestorPayoutClaimed {
                investor,
                invoice_id: escrow_of(s).invoice_id,
            },
        )
    }
}

/// The principal and yield the payout of `investor` is computed from, if
/// any: none before funding closes, for an address without contribution,
/// or for an empty snapshot.
pub open spec fn payout_inputs(s: EscrowState, investor: Address) -> Option<(int, int, int)> {
    let r = record_of(s.investors, investor);
    match s.snapshot {
        None => None,
        Some(snap) => if r.contribution == 0 || snap.total_principal <= 0 {
            None
        } else {
            Some(
                (
                    r.contribution as int,
                    snap.total_principal as int,
                    super::investor_yield(escrow_of(s), r) as int,
                ),
            )
        },
    }
}

/// The error of `compute_investor_payout`.
pub open spec fn payout_error(s: EscrowState, investor: Address) -> Option<EscrowError> {
    match payout_inputs(s, investor) {
        Some((c, p, y)) => if payout_overflows(c, p, y) {
            Some(EscrowError::ComputePayoutArithmeticOverflow)
        } else {
            None
        },
        None => None,
    }
}

/// The gross payout of `investor` (zero when there is nothing to pay).
pub open spec fn payout_value(s: EscrowState, investor: Address) -> i128 {
    match payout_inputs(s, investor) {
        Some((c, p, y)) => payout_share(c, p, y) as i128,
        None => 0,
    }
}

// ---------------------------------------------------------------------------
// Cancellation and refunds
// ---------------------------------------------------------------------------

/// The error of `cancel_funding`.
pub open spec fn cancel_error(s: EscrowState) -> Option<EscrowError> {
    match s.escrow {
        None => Some(EscrowError::EscrowNotInitialized),
        Some(e) => if s.legal_hold {
            Some(EscrowError::LegalHoldBlocksCancelFunding)
        } else if e.status != STATUS_OPEN {
            Some(EscrowError::CancelFundingNotOpen)
        } else {
            None
        },
    }
}

/// `cancel_funding` moves an open escrow to cancelled.
pub open spec fn cancel_state(s: EscrowState) -> EscrowState {
    with_escrow(s, InvoiceEscrow { status: STATUS_CANCELLED, ..escrow_of(s) })
}

/// Effects of `cancel_funding`.
pub open spec fn cancel_effects(s: EscrowState) -> Effects {
    let e = escrow_of(s);
    no_effects().auth(e.admin).emit(
        EscrowEvent::FundingCancelled { invoice_id: e.invoice_id, funded_amount: e.funded_amount },
    )
}

/// The error of `refund` for `investor`.
pub open spec fn refund_error(s: EscrowState, investor: Address) -> Option<EscrowError> {
    match s.escrow {
        None => Some(EscrowError::EscrowNotInitialized),
        Some(e) => if e.status != STATUS_CANCELLED {
            Some(EscrowError::RefundNotCancelled)
        } else if record_of(s.investors, investor).contribution == 0 {
            Some(EscrowError::NoContributionToRefund)
        } else {
            None
        },
    }
}

/// A refund returns the contribution: it is zeroed, the investor is marked
/// refunded, and the distributed total grows by it.
pub open spec fn refund_state(s: EscrowState, investor: Address) -> EscrowState {
    let r = record_of(s.investors, investor);
    EscrowState {
        investors: put_record(
            s.investors,
            investor,
            InvestorRecord { contribution: 0, refunded: true, ..r },
        ),
        distributed_principal: (s.distributed_principal + r.contribution) as i128,
        ..s
    }
}

/// `eff` followed by the effects of a refund: the investor authorizes, the
/// contribution moves back, `InvestorRefundedEvt` is published.
pub open spec fn refund_effects(eff: Effects, s: EscrowState, investor: Address) -> Effects {
    let amount = record_of(s.investors, investor).contribution;
    eff.auth(investor).pay(s.contract, investor, amount).emit(
        EscrowEvent::InvestorRefundedEvt {
            investor,
            invoice_id: escrow_of(s).invoice_id,
            amount,
        },
    )
}

/// Refunds processed in order inside `refund_batch`; already refunded
/// investors are skipped.
pub open spec fn refund_run(s: EscrowState, eff: Effects, investors: Seq<Address>) -> Result<
    (EscrowState, Effects),
    EscrowError,
>
    decreases investors.len(),
{
    if investors.len() == 0 {
        Ok((s, eff))
    } else {
        let a = investors[0];
        if record_of(s.investors, a).refunded {
            refund_run(s, eff, investors.drop_first())
        } else {
            match refund_error(s, a) {
                Some(err) => Err(err),
                None => refund_run(refund_state(s, a), refund_effects(eff, s, a), investors.drop_first()),
            }
        }
    }
}

/// The error of `refund_batch`.
pub open spec fn refund_batch_error(s: EscrowState, investors: Seq<Address>) -> Option<EscrowError> {
    if investors.len() == 0 {
        Some(EscrowError::InvestorBatchEmpty)
    } else if investors.len() > MAX_REFUND_BATCH {
        Some(EscrowError::InvestorBatchTooLarge)
    } else if s.escrow is None {
        Some(EscrowError::EscrowNotInitialized)
    } else if escrow_of(s).status != STATUS_CANCELLED {
        Some(EscrowError::RefundNotCancelled)
    } else {
        match refund_run(s, no_effects(), investors) {
            Err(err) => Some(err),
            Ok(_) => None,
        }
    }
}

// ---------------------------------------------------------------------------
// Funding target
// ---------------------------------------------------------------------------

/// The error of `update_funding_target`.
pub open spec fn target_error(s: EscrowState, new_target: i128) -> Option<EscrowError> {
    match s.escrow {
        None => Some(EscrowError::EscrowNotInitialized),
        Some(e) => if new_target <= 0 {
            Some(EscrowError::TargetNotPositive)
        } else if e.status != STATUS_OPEN {
            Some(EscrowError::TargetUpdateNotOpen)
        } else if new_target < e.funded_amount {
            Some(EscrowError::TargetBelowFundedAmount)
        } else {
            None
        },
    }
}

/// A new target; when what is already funded meets it, funding closes.
pub open spec fn target_state(s: EscrowState, new_target: i128) -> EscrowState {
    let e = escrow_of(s);
    let closes = e.funded_amount >= new_target;
    EscrowState {
        escrow: Some(
            InvoiceEscrow {
                funding_target: new_target,
                status: if closes {
                    STATUS_FUNDED
                } else {
                    STATUS_OPEN
                },
                ..e
            },
        ),
        snapshot: if closes {
            Some(
                FundingCloseSnapshot {
                    total_principal: e.funded_amount,
                    funding_target: new_target,
                    closed_at_ledger_timestamp: s.ledger.timestamp,
                    closed_at_ledger_sequence: s.ledger.sequence,
                },
            )
        } else {
            s.snapshot
        },
        ..s
    }
}

/// Effects of `update_funding_target`.
pub open spec fn target_effects(s: EscrowState, new_target: i128) -> Effects {
    let e = escrow_of(s);
    no_effects().auth(e.admin).emit(
        EscrowEvent::FundingTargetUpdated {
            invoice_id: e.invoice_id,
            old_target: e.funding_target,
            new_target,
        },
    )
}

// ---------------------------------------------------------------------------
// Treasury dust sweep
// ---------------------------------------------------------------------------

/// The amount a sweep moves: the request capped by the escrow's balance.
pub open spec fn sweep_amount(amount: i128, balance: i128) -> i128 {
    if amount <= balance {
        amount
    } else {
        balance
    }
}

/// The error of `sweep_terminal_dust(amount)` when the escrow holds
/// `balance` of the funding token.
pub open spec fn sweep_error(s: EscrowState, amount: i128, balance: i128) -> Option<EscrowError> {
    match s.escrow {
        None => Some(EscrowError::EscrowNotInitialized),
        Some(e) => if s.funding_token is None {
            Some(EscrowError::FundingTokenNotSet)
        } else if s.treasury is None {
            Some(EscrowError::TreasuryNotSet)
        } else if s.legal_hold {
            Some(EscrowError::LegalHoldBlocksTreasuryDustSweep)
        } else if amount <= 0 {
            Some(EscrowError::SweepAmountNotPositive)
        } else if amount > MAX_DUST_SWEEP_AMOUNT {
            Some(EscrowError::SweepAmountExceedsMax)
        } else if e.status != STATUS_SETTLED && e.status != STATUS_WITHDRAWN && e.status
            != STATUS_CANCELLED {
            Some(EscrowError::DustSweepNotTerminal)
        } else if balance <= 0 {
            Some(EscrowError::NoFundingTokenBalanceToSweep)
        } else if e.status == STATUS_CANCELLED && balance - sweep_amount(amount, balance)
            < e.funded_amount - s.distributed_principal {
            Some(EscrowError::SweepExceedsLiabilityFloor)
        } else {
            None
        },
    }
}

/// Effects of a sweep: the treasury authorizes, the swept amount moves to
/// it, `TreasuryDustSwept` is published.
pub open spec fn sweep_effects(s: EscrowState, amount: i128, balance: i128) -> Effects {
    let treasury = s.treasury.unwrap();
    let moved = sweep_amount(amount, balance);
    no_effects().auth(treasury).pay(s.contract, treasury, moved).emit(
        EscrowEvent::TreasuryDustSwept {
            invoice_id: escrow_of(s).invoice_id,
            token: s.funding_token.unwrap(),
            amount: moved,
        },
    )
}

} // verus!
