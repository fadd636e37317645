//! Lifecycle entrypoints: `init`, settlement and withdrawal, investor
//! claims and payouts, cancellation and refunds, the target update and the
//! treasury dust sweep.
use vstd::prelude::*;

use super::LiquifactEscrow;
use crate::errors::EscrowError;
use crate::events::EscrowEvent;
use crate::model::lifecycle::{
    cancel_effects, cancel_error, cancel_state, claim_effects, claim_error, claim_state,
    init_effects, init_outcome, init_state, partial_settle_effects, partial_settle_error,
    partial_settle_state, payout_error, payout_value, refund_batch_error, refund_effects,
    refund_error, refund_run, refund_state, settle_effects, settle_error, settle_state,
    sweep_amount, sweep_effects, sweep_error, target_effects, target_error, target_state,
    tiers_of, withdraw_effects, withdraw_error, withdraw_state, InitArgs,
};
use crate::model::{escrow_of, outcome};
use crate::payout::pro_rata_payout;
use crate::state::{lemma_find_investor_range, lemma_put_record, lemma_record_le_total, no_effects};
use crate::symbol::validate_invoice_id;
use crate::types::{
    Address, FundingCloseSnapshot, InvestorRecord, InvoiceEscrow, YieldTier,
    DEFAULT_MATURITY_MAX_HORIZON_SECS, MAX_DUST_SWEEP_AMOUNT, MAX_INVOICE_AMOUNT,
    MAX_REFUND_BATCH, SCHEMA_VERSION, STATUS_CANCELLED, STATUS_FUNDED, STATUS_OPEN,
    STATUS_SETTLED, STATUS_WITHDRAWN,
};
use crate::validation::{
    check_maturity_bounds, lemma_tiers_error_none_iff_valid, validate_yield_tiers,
};

verus! {

impl LiquifactEscrow {
    /// Initializes the escrow for one invoice. The admin must authorize.
    /// Optional settings default to: no contribution floor, no caps, no clear
    /// delay, the five-year maturity horizon and no funding deadline.
    pub fn init(
        &mut self,
        admin: Address,
        invoice_id: &[u8],
        sme: Address,
        amount: i128,
        yield_bps: i64,
        maturity: u64,
        funding_token: Address,
        registry: Option<Address>,
        treasury: Address,
        yield_tiers: Option<Vec<YieldTier>>,
        min_contribution: Option<i128>,
        max_unique_investors: Option<u32>,
        max_per_investor: Option<i128>,
        legal_hold_clear_delay: Option<u64>,
        maturity_max_horizon: Option<u64>,
        funding_deadline: Option<u64>,
    ) -> (r: Result<InvoiceEscrow, EscrowError>)
        requires
            old(self)@.valid(),
        ensures
            final(self)@.valid(),
            init_outcome(
                r,
                old(self)@,
                final(self)@,
                final(self).effects(),
                (InitArgs {
                    admin,
                    invoice_id: invoice_id@,
                    sme,
                    amount,
                    yield_bps,
                    maturity,
                    funding_token,
                    registry,
                    treasury,
                    yield_tiers: tiers_of(yield_tiers),
                    min_contribution,
                    max_unique_investors,
                    max_per_investor,
                    legal_hold_clear_delay,
                    maturity_max_horizon,
                    funding_deadline,
                }),
            ),
    {
        self.begin_call();
        let ghost a = InitArgs {
            admin,
            invoice_id: invoice_id@,
            sme,
            amount,
            yield_bps,
            maturity,
            funding_token,
            registry,
            treasury,
            yield_tiers: tiers_of(yield_tiers),
            min_contribution,
            max_unique_investors,
            max_per_investor,
            legal_hold_clear_delay,
            maturity_max_horizon,
            funding_deadline,
        };
        let now = self.ledger.timestamp;
        if self.escrow.is_some() {
            return Err(EscrowError::EscrowAlreadyInitialized);
        }
        if amount <= 0 {
            return Err(EscrowError::AmountMustBePositive);
        }
        if amount > MAX_INVOICE_AMOUNT {
            return Err(EscrowError::AmountExceedsMax);
        }
        if yield_bps < 0 || yield_bps > 10_000 {
            return Err(EscrowError::YieldBpsOutOfRange);
        }
        let id = match validate_invoice_id(invoice_id) {
            Ok(id) => id,
            Err(e) => {
                return Err(e);
            },
        };
        if let Some(m) = min_contribution {
            if m <= 0 {
                return Err(EscrowError::MinContributionNotPositive);
            }
            if m > amount {
                return Err(EscrowError::MinContributionExceedsAmount);
            }
        }
        if let Some(c) = max_unique_investors {
            if c == 0 {
                return Err(EscrowError::MaxUniqueInvestorsNotPositive);
            }
        }
        if let Some(c) = max_per_investor {
            if c <= 0 {
                return Err(EscrowError::MaxPerInvestorNotPositive);
            }
        }
        let tiers = match yield_tiers {
            Some(v) => v,
            None => Vec::new(),
        };
        match validate_yield_tiers(tiers.as_slice(), yield_bps) {
            Ok(()) => {},
            Err(e) => {
                return Err(e);
            },
        }
        let horizon = match maturity_max_horizon {
            Some(h) => h,
            None => DEFAULT_MATURITY_MAX_HORIZON_SECS,
        };
        match check_maturity_bounds(maturity, now, horizon) {
            Ok(()) => {},
            Err(e) => {
                return Err(e);
            },
        }
        if let Some(d) = funding_deadline {
            if d <= now {
                return Err(EscrowError::FundingDeadlinePassed);
            }
        }
        let escrow = InvoiceEscrow {
            invoice_id: id,
            admin,
            sme_address: sme,
            amount,
            funding_target: amount,
            funded_amount: 0,
            yield_bps,
            maturity,
            status: STATUS_OPEN,
        };
        self.escrow = Some(escrow);
        self.version = SCHEMA_VERSION;
        self.funding_token = Some(funding_token);
        self.treasury = Some(treasury);
        self.registry = registry;
        self.legal_hold_clear_delay = match legal_hold_clear_delay {
            Some(d) => d,
            None => 0,
        };
        self.funding_deadline = funding_deadline;
        self.min_contribution = match min_contribution {
            Some(m) => m,
            None => 0,
        };
        self.max_unique_investors = max_unique_investors;
        self.max_per_investor = max_per_investor;
        self.maturity_max_horizon = maturity_max_horizon;
        self.yield_tiers = tiers;
        self.require_auth(admin);
        self.emit(
            EscrowEvent::EscrowInitialized {
                escrow,
                funding_token,
                treasury,
                registry,
                has_maturity_lock: maturity > 0,
            },
        );
        proof {
            lemma_tiers_error_none_iff_valid(a.yield_tiers, yield_bps);
            assert(self@ =~= init_state(old(self)@, a, id));
            assert(self.effects() =~= init_effects(a, id));
        }
        Ok(escrow)
    }

    /// Closes funding early at the amount raised so far (status becomes
    /// funded and the snapshot is written). The caller, SME or admin, must
    /// authorize.
    pub fn partial_settle(&mut self, caller: Address) -> (r: Result<InvoiceEscrow, EscrowError>)
        requires
            old(self)@.valid(),
        ensures
            final(self)@.valid(),
            outcome(
                r,
                old(self)@,
                final(self)@,
                final(self).effects(),
                partial_settle_error(old(self)@, caller),
                partial_settle_state(old(self)@),
                escrow_of(partial_settle_state(old(self)@)),
                partial_settle_effects(old(self)@, caller),
            ),
    {
        self.begin_call();
        let e = match self.escrow {
            Some(e) => e,
            None => {
                return Err(EscrowError::EscrowNotInitialized);
            },
        };
        if self.legal_hold {
            return Err(EscrowError::LegalHoldBlocksPartialSettle);
        }
        if caller != e.sme_address && caller != e.admin {
            return Err(EscrowError::PartialSettleUnauthorizedCaller);
        }
        if e.status != STATUS_OPEN {
            return Err(EscrowError::PartialSettleNotOpen);
        }
        let updated = InvoiceEscrow { status: STATUS_FUNDED, ..e };
        self.escrow = Some(updated);
        self.snapshot = Some(
            FundingCloseSnapshot {
                total_principal: e.funded_amount,
                funding_target: e.funding_target,
                closed_at_ledger_timestamp: self.ledger.timestamp,
                closed_at_ledger_sequence: self.ledger.sequence,
            },
        );
        self.require_auth(caller);
        self.emit(
            EscrowEvent::EscrowPartialSettle {
                invoice_id: e.invoice_id,
                funded_amount: e.funded_amount,
            },
        );
        proof {
            assert(self@ =~= partial_settle_state(old(self)@));
            assert(self.effects() =~= partial_settle_effects(old(self)@, caller));
        }
        Ok(updated)
    }

    /// Finalizes a funded escrow after maturity (when one is set). The SME
    /// must authorize.
    pub fn settle(&mut self) -> (r: Result<InvoiceEscrow, EscrowError>)
        requires
            old(self)@.valid(),
        ensures
            final(self)@.valid(),
            outcome(
                r,
                old(self)@,
                final(self)@,
                final(self).effects(),
                settle_error(old(self)@),
                settle_state(old(self)@),
                escrow_of(settle_state(old(self)@)),
                settle_effects(old(self)@),
            ),
    {
        self.begin_call();
        let e = match self.escrow {
            Some(e) => e,
            None => {
                return Err(EscrowError::EscrowNotInitialized);
            },
        };
        if self.legal_hold {
            return Err(EscrowError::LegalHoldBlocksSettlement);
        }
        if e.status != STATUS_FUNDED {
            return Err(EscrowError::SettlementNotFunded);
        }
        if e.maturity > 0 && self.ledger.timestamp < e.maturity {
            return Err(EscrowError::MaturityNotReached);
        }
        let updated = InvoiceEscrow { status: STATUS_SETTLED, ..e };
        self.escrow = Some(updated);
        self.require_auth(e.sme_address);
        self.emit(
            EscrowEvent::EscrowSettled {
                invoice_id: e.invoice_id,
                funded_amount: e.funded_amount,
                yield_bps: e.yield_bps,
                maturity: e.maturity,
                settled_at_ledger_timestamp: self.ledger.timestamp,
            },
        );
        proof {
            assert(self@ =~= settle_state(old(self)@));
            assert(self.effects() =~= settle_effects(old(self)@));
        }
        Ok(updated)
    }

    /// Pays the funded principal out to the SME (no maturity gate). The SME
    /// must authorize.
    pub fn withdraw(&mut self) -> (r: Result<InvoiceEscrow, EscrowError>)
        requires
            old(self)@.valid(),
        ensures
            final(self)@.valid(),
            outcome(
                r,
                old(self)@,
                final(self)@,
                final(self).effects(),
                withdraw_error(old(self)@),
                withdraw_state(old(self)@),
                escrow_of(withdraw_state(old(self)@)),
                withdraw_effects(old(self)@),
            ),
    {
        self.begin_call();
        let e = match self.escrow {
            Some(e) => e,
            None => {
                return Err(EscrowError::EscrowNotInitialized);
            },
        };
        if self.legal_hold {
            return Err(EscrowError::LegalHoldBlocksWithdrawal);
        }
        if e.status != STATUS_FUNDED {
            return Err(EscrowError::WithdrawalNotFunded);
        }
        let updated = InvoiceEscrow { status: STATUS_WITHDRAWN, ..e };
        self.escrow = Some(updated);
        self.distributed_principal = self.distributed_principal + e.funded_amount;
        self.require_auth(e.sme_address);
        let contract = self.contract;
        self.transfer(contract, e.sme_address, e.funded_amount);
        self.emit(
            EscrowEvent::SmeWithdrew {
                invoice_id: e.invoice_id,
                amount: e.funded_amount,
                recipient: e.sme_address,
            },
        );
        proof {
            assert(self@ =~= withdraw_state(old(self)@));
            assert(self.effects() =~= withdraw_effects(old(self)@));
        }
        Ok(updated)
    }

    /// Records that `investor` has claimed after settlement (once their
    /// commitment lock, if any, has expired). Claiming again is accepted and
    /// changes nothing. The investor must authorize.
    pub fn claim_investor_payout(&mut self, investor: Address) -> (r: Result<(), EscrowError>)
        requires
            old(self)@.valid(),
        ensures
            final(self)@.valid(),
            outcome(
                r,
                old(self)@,
                final(self)@,
                final(self).effects(),
                claim_error(old(self)@, investor),
                claim_state(old(self)@, investor),
                (),
                claim_effects(old(self)@, investor),
            ),
    {
        self.begin_call();
        let e = match self.escrow {
            Some(e) => e,
            None => {
                return Err(EscrowError::EscrowNotInitialized);
            },
        };
        if self.legal_hold {
            return Err(EscrowError::LegalHoldBlocksInvestorClaims);
        }
        let rec = self.record(investor);
        if rec.contribution == 0 {
            return Err(EscrowError::NoContributionToClaim);
        }
        if e.status != STATUS_SETTLED {
            return Err(EscrowError::InvestorClaimNotSettled);
        }
        if self.ledger.timestamp < rec.claim_not_before {
            return Err(EscrowError::InvestorCommitmentLockNotExpired);
        }
        self.require_auth(investor);
        if !rec.claimed {
            proof {
                lemma_put_record(self.investors@, investor, InvestorRecord { claimed: true, ..rec });
                lemma_find_investor_range(self.investors@, investor);
            }
            self.put(investor, InvestorRecord { claimed: true, ..rec });
            self.emit(EscrowEvent::InvestorPayoutClaimed { investor, invoice_id: e.invoice_id });
        }
        proof {
            assert(self@ =~= claim_state(old(self)@, investor));
            assert(self.effects() =~= claim_effects(old(self)@, investor));
        }
        Ok(())
    }

    /// The gross payout owed to `investor`: their share of principal plus
    /// coupon, pro rata over the funding-close snapshot, at their yield.
    /// Zero before funding closes or for an address without contribution.
    pub fn compute_investor_payout(&self, investor: Address) -> (r: Result<i128, EscrowError>)
        requires
            self@.valid(),
        ensures
            match payout_error(self@, investor) {
                Some(e) => r == Err::<i128, EscrowError>(e),
                None => r == Ok::<i128, EscrowError>(payout_value(self@, investor)),
            },
    {
        let snap = match self.snapshot {
            Some(s) => s,
            None => {
                return Ok(0);
            },
        };
        let rec = self.record(investor);
        proof {
            lemma_record_le_total(self.investors@, investor);
            lemma_find_investor_range(self.investors@, investor);
        }
        if rec.contribution == 0 || snap.total_principal <= 0 {
            return Ok(0);
        }
        let e = self.escrow.unwrap();
        let y = match rec.effective_yield_bps {
            Some(y) => y,
            None => e.yield_bps,
        };
        pro_rata_payout(rec.contribution, snap.total_principal, y)
    }

    /// Cancels an open escrow so that investors can reclaim their
    /// principal. The admin must authorize.
    pub fn cancel_funding(&mut self) -> (r: Result<InvoiceEscrow, EscrowError>)
        requires
            old(self)@.valid(),
        ensures
            final(self)@.valid(),
            outcome(
                r,
                old(self)@,
                final(self)@,
                final(self).effects(),
                cancel_error(old(self)@),
                cancel_state(old(self)@),
                escrow_of(cancel_state(old(self)@)),
                cancel_effects(old(self)@),
            ),
    {
        self.begin_call();
        let e = match self.escrow {
            Some(e) => e,
            None => {
                return Err(EscrowError::EscrowNotInitialized);
            },
        };
        if self.legal_hold {
            return Err(EscrowError::LegalHoldBlocksCancelFunding);
        }
        if e.status != STATUS_OPEN {
            return Err(EscrowError::CancelFundingNotOpen);
        }
        let updated = InvoiceEscrow { status: STATUS_CANCELLED, ..e };
        self.escrow = Some(updated);
        self.require_auth(e.admin);
        self.emit(
            EscrowEvent::FundingCancelled { invoice_id: e.invoice_id, funded_amount: e.funded_amount },
        );
        proof {
            assert(self@ =~= cancel_state(old(self)@));
            assert(self.effects() =~= cancel_effects(old(self)@));
        }
        Ok(updated)
    }

    /// One refund, appending its effects to those already gathered.
    fn refund_step(&mut self, investor: Address) -> (r: Result<i128, EscrowError>)
        requires
            old(self)@.valid(),
        ensures
            final(self)@.valid(),
            match refund_error(old(self)@, investor) {
                Some(e) => r == Err::<i128, EscrowError>(e) && final(self)@ == old(self)@
                    && final(self).effects() == old(self).effects(),
                None => r == Ok::<i128, EscrowError>(
                    crate::state::record_of(old(self)@.investors, investor).contribution,
                ) && final(self)@ == refund_state(old(self)@, investor) && final(self).effects()
                    == refund_effects(old(self).effects(), old(self)@, investor),
            },
    {
        let ghost pre = self@;
        let e = match self.escrow {
            Some(e) => e,
            None => {
                return Err(EscrowError::EscrowNotInitialized);
            },
        };
        if e.status != STATUS_CANCELLED {
            return Err(EscrowError::RefundNotCancelled);
        }
        let rec = self.record(investor);
        if rec.contribution == 0 {
            return Err(EscrowError::NoContributionToRefund);
        }
        proof {
            lemma_record_le_total(self.investors@, investor);
            lemma_find_investor_range(self.investors@, investor);
            lemma_put_record(
                self.investors@,
                investor,
                InvestorRecord { contribution: 0, refunded: true, ..rec },
            );
        }
        self.put(investor, InvestorRecord { contribution: 0, refunded: true, ..rec });
        self.distributed_principal = self.distributed_principal + rec.contribution;
        self.require_auth(investor);
        let contract = self.contract;
        self.transfer(contract, investor, rec.contribution);
        self.emit(
            EscrowEvent::InvestorRefundedEvt {
                investor,
                invoice_id: e.invoice_id,
                amount: rec.contribution,
            },
        );
        proof {
            assert(self@ =~= refund_state(pre, investor));
            assert(self.effects() =~= refund_effects(old(self).effects(), pre, investor));
        }
        Ok(rec.contribution)
    }

    /// Returns `investor`'s principal from a cancelled escrow; the amount
    /// refunded is returned. The investor must authorize.
    pub fn refund(&mut self, investor: Address) -> (r: Result<i128, EscrowError>)
        requires
            old(self)@.valid(),
        ensures
            final(self)@.valid(),
            outcome(
                r,
                old(self)@,
                final(self)@,
                final(self).effects(),
                refund_error(old(self)@, investor),
                refund_state(old(self)@, investor),
                crate::state::record_of(old(self)@.investors, investor).contribution,
                refund_effects(no_effects(), old(self)@, investor),
            ),
    {
        self.begin_call();
        self.refund_step(investor)
    }

    /// Refunds several investors in one atomic call, skipping those already
    /// refunded.
    pub fn refund_batch(&mut self, investors: &[Address]) -> (r: Result<(), EscrowError>)
        requires
            old(self)@.valid(),
        ensures
            final(self)@.valid(),
            outcome(
                r,
                old(self)@,
                final(self)@,
                final(self).effects(),
                refund_batch_error(old(self)@, investors@),
                refund_run(old(self)@, no_effects(), investors@).unwrap().0,
                (),
                refund_run(old(self)@, no_effects(), investors@).unwrap().1,
            ),
    {
        self.begin_call();
        let ghost pre = self@;
        if investors.len() == 0 {
            return Err(EscrowError::InvestorBatchEmpty);
        }
        if investors.len() > MAX_REFUND_BATCH as usize {
            return Err(EscrowError::InvestorBatchTooLarge);
        }
        match self.escrow {
            None => {
                return Err(EscrowError::EscrowNotInitialized);
            },
            Some(e) => {
                if e.status != STATUS_CANCELLED {
                    return Err(EscrowError::RefundNotCancelled);
                }
            },
        }
        let mut work = self.duplicate();
        let mut i: usize = 0;
        proof {
            assert(investors@.skip(0) =~= investors@);
        }
        while i < investors.len()
            invariant
                i <= investors@.len(),
                work@.valid(),
                self@ == pre,
                pre == old(self)@,
                self.effects() == no_effects(),
                pre.valid(),
                0 < investors@.len() <= MAX_REFUND_BATCH,
                pre.escrow is Some,
                escrow_of(pre).status == STATUS_CANCELLED,
                refund_run(pre, no_effects(), investors@) == refund_run(
                    work@,
                    work.effects(),
                    investors@.skip(i as int),
                ),
            decreases investors@.len() - i,
        {
            let a = investors[i];
            proof {
                assert(investors@.skip(i as int).drop_first() =~= investors@.skip(i as int + 1));
                assert(investors@.skip(i as int)[0] == investors@[i as int]);
            }
            let ghost before = work@;
            let ghost before_effects = work.effects();
            let rec = work.record(a);
            if !rec.refunded {
                let step = work.refund_step(a);
                match step {
                    Ok(_) => {},
                    Err(err) => {
                        proof {
                            assert(refund_run(before, before_effects, investors@.skip(i as int))
                                == Err::<
                                (crate::state::EscrowState, crate::state::Effects),
                                EscrowError,
                            >(err));
                        }
                        return Err(err);
                    },
                }
            }
            i = i + 1;
        }
        proof {
            assert(investors@.skip(investors@.len() as int) =~= Seq::<Address>::empty());
        }
        *self = work;
        Ok(())
    }

    /// Changes the funding target of an open escrow; a target already met
    /// by the funded amount closes funding. The admin must authorize.
    pub fn update_funding_target(&mut self, new_target: i128) -> (r: Result<
        InvoiceEscrow,
        EscrowError,
    >)
        requires
            old(self)@.valid(),
        ensures
            final(self)@.valid(),
            outcome(
                r,
                old(self)@,
                final(self)@,
                final(self).effects(),
                target_error(old(self)@, new_target),
                target_state(old(self)@, new_target),
                escrow_of(target_state(old(self)@, new_target)),
                target_effects(old(self)@, new_target),
            ),
    {
        self.begin_call();
        let e = match self.escrow {
            Some(e) => e,
            None => {
                return Err(EscrowError::EscrowNotInitialized);
            },
        };
        if new_target <= 0 {
            return Err(EscrowError::TargetNotPositive);
        }
        if e.status != STATUS_OPEN {
            return Err(EscrowError::TargetUpdateNotOpen);
        }
        if new_target < e.funded_amount {
            return Err(EscrowError::TargetBelowFundedAmount);
        }
        let closes = e.funded_amount >= new_target;
        let updated = InvoiceEscrow {
            funding_target: new_target,
            status: if closes {
                STATUS_FUNDED
            } else {
                STATUS_OPEN
            },
            ..e
        };
        if closes {
            self.snapshot = Some(
                FundingCloseSnapshot {
                    total_principal: e.funded_amount,
                    funding_target: new_target,
                    closed_at_ledger_timestamp: self.ledger.timestamp,
                    closed_at_ledger_sequence: self.ledger.sequence,
                },
            );
        }
        self.escrow = Some(updated);
        self.require_auth(e.admin);
        self.emit(
            EscrowEvent::FundingTargetUpdated {
                invoice_id: e.invoice_id,
                old_target: e.funding_target,
                new_target,
            },
        );
        proof {
            assert(self@ =~= target_state(old(self)@, new_target));
            assert(self.effects() =~= target_effects(old(self)@, new_target));
        }
        Ok(updated)
    }

    /// Sweeps up to `amount` of leftover funding token to the treasury once
    /// the escrow is settled, withdrawn or cancelled; `balance` is the
    /// escrow's current funding-token balance. In a cancelled escrow the
    /// sweep may not dip into principal still owed to investors. Returns the
    /// amount swept. The treasury must authorize.
    pub fn sweep_terminal_dust(&mut self, amount: i128, balance: i128) -> (r: Result<
        i128,
        EscrowError,
    >)
        requires
            old(self)@.valid(),
        ensures
            final(self)@.valid(),
            outcome(
                r,
                old(self)@,
                final(self)@,
                final(self).effects(),
                sweep_error(old(self)@, amount, balance),
                old(self)@,
                sweep_amount(amount, balance),
                sweep_effects(old(self)@, amount, balance),
            ),
    {
        self.begin_call();
        let e = match self.escrow {
            Some(e) => e,
            None => {
                return Err(EscrowError::EscrowNotInitialized);
            },
        };
        let token = match self.funding_token {
            Some(t) => t,
            None => {
                return Err(EscrowError::FundingTokenNotSet);
            },
        };
        let treasury = match self.treasury {
            Some(t) => t,
            None => {
                return Err(EscrowError::TreasuryNotSet);
            },
        };
        if self.legal_hold {
            return Err(EscrowError::LegalHoldBlocksTreasuryDustSweep);
        }
        if amount <= 0 {
            return Err(EscrowError::SweepAmountNotPositive);
        }
        if amount > MAX_DUST_SWEEP_AMOUNT {
            return Err(EscrowError::SweepAmountExceedsMax);
        }
        if e.status != STATUS_SETTLED && e.status != STATUS_WITHDRAWN && e.status
            != STATUS_CANCELLED {
            return Err(EscrowError::DustSweepNotTerminal);
        }
        if balance <= 0 {
            return Err(EscrowError::NoFundingTokenBalanceToSweep);
        }
        let moved = if amount <= balance {
            amount
        } else {
            balance
        };
        if e.status == STATUS_CANCELLED && balance - moved < e.funded_amount
            - self.distributed_principal {
            return Err(EscrowError::SweepExceedsLiabilityFloor);
        }
        self.require_auth(treasury);
        let contract = self.contract;
        self.transfer(contract, treasury, moved);
        self.emit(EscrowEvent::TreasuryDustSwept { invoice_id: e.invoice_id, token, amount: moved });
        proof {
            assert(self.effects() =~= sweep_effects(old(self)@, amount, balance));
        }
        Ok(moved)
    }
}

} // verus!
