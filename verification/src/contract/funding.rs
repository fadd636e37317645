//! Deposits: `fund`, `fund_with_commitment` and the atomic `fund_batch`.
use vstd::prelude::*;

use super::LiquifactEscrow;
use crate::errors::EscrowError;
use crate::events::EscrowEvent;
use crate::model::{
    batch_run, entry_lock, escrow_of, fund_batch_effects, fund_batch_error, fund_batch_state,
    fund_effects, fund_error, fund_state, lemma_fund_preserves_valid, outcome,
};
use crate::state::{lemma_record_le_total, no_effects};
use crate::types::{
    Address, FundingCloseSnapshot, InvestorRecord, InvoiceEscrow, MAX_FUND_BATCH, STATUS_FUNDED,
    STATUS_OPEN,
};
use crate::validation::effective_yield_for_commitment;

verus! {

impl LiquifactEscrow {
    /// One deposit, appending its effects to those already gathered.
    fn fund_step(&mut self, investor: Address, amount: i128, lock: Option<u64>, in_batch: bool) -> (r:
        Result<(), EscrowError>)
        requires
            old(self)@.valid(),
            in_batch ==> old(self)@.escrow is Some && (escrow_of(old(self)@).status == STATUS_OPEN
                || escrow_of(old(self)@).status == STATUS_FUNDED),
        ensures
            final(self)@.valid(),
            match fund_error(old(self)@, investor, amount, lock, in_batch) {
                Some(e) => r == Err::<(), EscrowError>(e) && final(self)@ == old(self)@
                    && final(self).effects() == old(self).effects(),
                None => r is Ok && final(self)@ == fund_state(old(self)@, investor, amount, lock)
                    && final(self).effects() == fund_effects(
                    old(self).effects(),
                    old(self)@,
                    investor,
                    amount,
                    lock,
                ),
            },
    {
        let ghost pre = self@;
        let e = match self.escrow {
            Some(e) => e,
            None => {
                return Err(EscrowError::EscrowNotInitialized);
            },
        };
        let now = self.ledger.timestamp;
        if amount <= 0 {
            return Err(EscrowError::FundingAmountNotPositive);
        }
        if amount < self.min_contribution {
            return Err(EscrowError::FundingBelowMinContribution);
        }
        if self.legal_hold {
            return Err(EscrowError::LegalHoldBlocksFunding);
        }
        if let Some(d) = self.funding_deadline {
            if now > d {
                return Err(EscrowError::FundingDeadlinePassed);
            }
        }
        if !in_batch && e.status != STATUS_OPEN {
            return Err(EscrowError::EscrowNotOpenForFunding);
        }
        let prior = self.record(investor);
        proof {
            lemma_record_le_total(self.investors@, investor);
        }
        if self.allowlist_active && !prior.allowlisted {
            return Err(EscrowError::InvestorNotAllowlisted);
        }
        if prior.contribution > i128::MAX - amount {
            return Err(EscrowError::InvestorContributionOverflow);
        }
        let contribution = prior.contribution + amount;
        if let Some(cap) = self.max_per_investor {
            if contribution > cap {
                return Err(EscrowError::InvestorContributionExceedsCap);
            }
        }
        if prior.contribution == 0 {
            if self.unique_funder_count == u32::MAX {
                return Err(EscrowError::UniqueInvestorCapReached);
            }
            if let Some(cap) = self.max_unique_investors {
                if self.unique_funder_count >= cap {
                    return Err(EscrowError::UniqueInvestorCapReached);
                }
            }
        }
        if let Some(l) = lock {
            if prior.contribution > 0 {
                return Err(EscrowError::TieredSecondDeposit);
            }
            if l > u64::MAX - now {
                return Err(EscrowError::InvestorClaimTimeOverflow);
            }
        }
        if e.funded_amount > i128::MAX - amount {
            return Err(EscrowError::FundedAmountOverflow);
        }
        let funded = e.funded_amount + amount;
        if let Some(l) = lock {
            if l > 0 && e.maturity > 0 && now + l > e.maturity {
                return Err(EscrowError::CommitmentLockExceedsMaturity);
            }
        }
        let record = match lock {
            Some(l) => InvestorRecord {
                contribution,
                effective_yield_bps: Some(
                    effective_yield_for_commitment(self.yield_tiers.as_slice(), e.yield_bps, l),
                ),
                claim_not_before: if l > 0 {
                    now + l
                } else {
                    prior.claim_not_before
                },
                ..prior
            },
            None => InvestorRecord { contribution, ..prior },
        };
        let closes = e.status == STATUS_OPEN && funded >= e.funding_target;
        let status = if closes {
            STATUS_FUNDED
        } else {
            e.status
        };
        let updated = InvoiceEscrow { funded_amount: funded, status, ..e };
        if closes {
            self.snapshot = Some(
                FundingCloseSnapshot {
                    total_principal: funded,
                    funding_target: e.funding_target,
                    closed_at_ledger_timestamp: now,
                    closed_at_ledger_sequence: self.ledger.sequence,
                },
            );
        }
        if prior.contribution == 0 {
            self.unique_funder_count = self.unique_funder_count + 1;
        }
        self.escrow = Some(updated);
        self.put(investor, record);
        self.require_auth(investor);
        let yield_bps = match record.effective_yield_bps {
            Some(y) => y,
            None => e.yield_bps,
        };
        let tier_lock_secs = match lock {
            Some(l) => l,
            None => 0,
        };
        self.emit(
            EscrowEvent::EscrowFunded {
                invoice_id: e.invoice_id,
                investor,
                amount,
                funded_amount: funded,
                status,
                investor_effective_yield_bps: yield_bps,
                tier_lock_secs,
            },
        );
        proof {
            lemma_fund_preserves_valid(pre, investor, amount, lock, in_batch);
            assert(self@ =~= fund_state(pre, investor, amount, lock));
            assert(self.effects() =~= fund_effects(
                old(self).effects(),
                pre,
                investor,
                amount,
                lock,
            ));
        }
        Ok(())
    }

    /// Records a deposit of `amount` by `investor` (who must authorize); the
    /// deposit itself moves no tokens. Reaching the funding target closes
    /// funding: the status becomes funded and the pro-rata snapshot is
    /// written; after that the escrow refuses further deposits (only the
    /// later entries of the batch that closed it are still taken).
    pub fn fund(&mut self, investor: Address, amount: i128) -> (r: Result<InvoiceEscrow, EscrowError>)
        requires
            old(self)@.valid(),
        ensures
            final(self)@.valid(),
            outcome(
                r,
                old(self)@,
                final(self)@,
                final(self).effects(),
                fund_error(old(self)@, investor, amount, None, false),
                fund_state(old(self)@, investor, amount, None),
                escrow_of(fund_state(old(self)@, investor, amount, None)),
                fund_effects(no_effects(), old(self)@, investor, amount, None),
            ),
    {
        self.begin_call();
        let r = self.fund_step(investor, amount, None, false);
        match r {
            Ok(()) => Ok(self.escrow.unwrap()),
            Err(e) => Err(e),
        }
    }

    /// A first deposit that commits to a lock of `lock_secs`: the investor
    /// earns the yield of the best tier the lock reaches and, for a positive
    /// lock, cannot claim before `now + lock_secs`.
    pub fn fund_with_commitment(&mut self, investor: Address, amount: i128, lock_secs: u64) -> (r:
        Result<InvoiceEscrow, EscrowError>)
        requires
            old(self)@.valid(),
        ensures
            final(self)@.valid(),
            outcome(
                r,
                old(self)@,
                final(self)@,
                final(self).effects(),
                fund_error(old(self)@, investor, amount, Some(lock_secs), false),
                fund_state(old(self)@, investor, amount, Some(lock_secs)),
                escrow_of(fund_state(old(self)@, investor, amount, Some(lock_secs))),
                fund_effects(no_effects(), old(self)@, investor, amount, Some(lock_secs)),
            ),
    {
        self.begin_call();
        let r = self.fund_step(investor, amount, Some(lock_secs), false);
        match r {
            Ok(()) => Ok(self.escrow.unwrap()),
            Err(e) => Err(e),
        }
    }

    /// Processes `(investor, amount, lock_secs)` entries in order, as one
    /// atomic call: either every entry is deposited or nothing changes. The
    /// escrow must be open when the batch starts; entries after the one that
    /// closes funding are still accepted.
    pub fn fund_batch(&mut self, entries: &[(Address, i128, u64)]) -> (r: Result<
        InvoiceEscrow,
        EscrowError,
    >)
        requires
            old(self)@.valid(),
        ensures
            final(self)@.valid(),
            outcome(
                r,
                old(self)@,
                final(self)@,
                final(self).effects(),
                fund_batch_error(old(self)@, entries@),
                fund_batch_state(old(self)@, entries@),
                escrow_of(fund_batch_state(old(self)@, entries@)),
                fund_batch_effects(old(self)@, entries@),
            ),
    {
        self.begin_call();
        let ghost pre = self@;
        if entries.len() == 0 {
            return Err(EscrowError::FundingBatchEmpty);
        }
        if entries.len() > MAX_FUND_BATCH as usize {
            return Err(EscrowError::FundingBatchTooLarge);
        }
        match self.escrow {
            None => {
                return Err(EscrowError::EscrowNotInitialized);
            },
            Some(e) => {
                if e.status != STATUS_OPEN {
                    return Err(EscrowError::EscrowNotOpenForFunding);
                }
            },
        }
        let mut work = self.duplicate();
        let mut i: usize = 0;
        proof {
            assert(entries@.skip(0) =~= entries@);
        }
        while i < entries.len()
            invariant
                i <= entries@.len(),
                work@.valid(),
                work@.escrow is Some,
                escrow_of(work@).status == STATUS_OPEN || escrow_of(work@).status == STATUS_FUNDED,
                self@ == pre,
                pre == old(self)@,
                self.effects() == no_effects(),
                pre.valid(),
                0 < entries@.len() <= MAX_FUND_BATCH,
                pre.escrow is Some,
                escrow_of(pre).status == STATUS_OPEN,
                batch_run(pre, no_effects(), entries@) == batch_run(
                    work@,
                    work.effects(),
                    entries@.skip(i as int),
                ),
            decreases entries@.len() - i,
        {
            let (a, amount, l) = entries[i];
            let lock = if l == 0 {
                None
            } else {
                Some(l)
            };
            proof {
                assert(entries@.skip(i as int).drop_first() =~= entries@.skip(i as int + 1));
                assert(entries@.skip(i as int)[0] == entries@[i as int]);
                assert(lock == entry_lock(l));
            }
            let ghost before = work@;
            let ghost before_effects = work.effects();
            let step = work.fund_step(a, amount, lock, true);
            match step {
                Ok(()) => {},
                Err(err) => {
                    proof {
                        assert(batch_run(before, before_effects, entries@.skip(i as int)) == Err::<
                            (crate::state::EscrowState, crate::state::Effects),
                            EscrowError,
                        >(err));
                    }
                    return Err(err);
                },
            }
            i = i + 1;
        }
        proof {
            assert(entries@.skip(entries@.len() as int) =~= Seq::<(Address, i128, u64)>::empty());
        }
        *self = work;
        Ok(self.escrow.unwrap())
    }
}

} // verus!
