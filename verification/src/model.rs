//! What each escrow operation does, stated over [`EscrowState`]: the error it
//! reports (the first failing guard, in the order the contract checks them),
//! the storage it leaves behind, and the effects it hands to the host.
use vstd::prelude::*;

use crate::errors::EscrowError;
use crate::events::EscrowEvent;
use crate::state::{
    lemma_find_investor_range, lemma_put_record, lemma_record_le_total, no_effects, put_record, record_of, Effects,
    EscrowState,
};
use crate::types::{
    Address, AttestationInfo, CollateralCommitmentSnapshot, Digest, EscrowCloseSnapshot,
    EscrowSummary, FundingCloseSnapshot, InvestorRecord, InvoiceEscrow, STATUS_FUNDED,
    STATUS_OPEN,
};
use crate::validation::{lemma_select_yield_in_range, select_yield};

pub mod governance;
pub mod lifecycle;

verus! {

/// How a call ended: with `err` it failed and changed nothing; otherwise it
/// returned `value`, left `next` behind and produced `next_effects`.
pub open spec fn outcome<T>(
    r: Result<T, EscrowError>,
    pre: EscrowState,
    post: EscrowState,
    effects: Effects,
    err: Option<EscrowError>,
    next: EscrowState,
    value: T,
    next_effects: Effects,
) -> bool {
    match err {
        Some(x) => r == Err::<T, EscrowError>(x) && post == pre && effects == no_effects(),
        None => r == Ok::<T, EscrowError>(value) && post == next && effects == next_effects,
    }
}

/// The escrow record of initialized storage.
pub open spec fn escrow_of(s: EscrowState) -> InvoiceEscrow {
    s.escrow.unwrap()
}

/// The yield an investor earns: the tier fixed at commitment, else the base.
pub open spec fn investor_yield(e: InvoiceEscrow, r: InvestorRecord) -> i64 {
    match r.effective_yield_bps {
        Some(y) => y,
        None => e.yield_bps,
    }
}

// ---------------------------------------------------------------------------
// Views
// ---------------------------------------------------------------------------

/// The digests of the attestation log, in order.
pub open spec fn log_digests(log: Seq<AttestationInfo>) -> Seq<Digest> {
    log.map_values(|a: AttestationInfo| a.digest)
}

/// Whether a funded escrow could be settled now: no hold, and maturity (if
/// any) reached.
pub open spec fn settleable(s: EscrowState) -> bool {
    match s.escrow {
        Some(e) => e.status == STATUS_FUNDED && !s.legal_hold && (e.maturity == 0
            || s.ledger.timestamp >= e.maturity),
        None => false,
    }
}

/// The summary view of initialized storage.
pub open spec fn summary_of(s: EscrowState) -> EscrowSummary {
    let e = escrow_of(s);
    EscrowSummary {
        escrow: e,
        has_maturity_lock: e.maturity > 0,
        legal_hold: s.legal_hold,
        funding_close_snapshot: match s.snapshot {
            Some(x) => EscrowCloseSnapshot::Closed(x),
            None => EscrowCloseSnapshot::NotClosed,
        },
        unique_funder_count: s.unique_funder_count,
        is_allowlist_active: s.allowlist_active,
        schema_version: s.version,
        sme_collateral_commitment: match s.collateral {
            Some(c) => CollateralCommitmentSnapshot::Recorded(c),
            None => CollateralCommitmentSnapshot::NotRecorded,
        },
        has_primary_attestation: s.primary_attestation is Some,
        attestation_log_length: s.attestations.len() as u32,
    }
}

// ---------------------------------------------------------------------------
// Funding
// ---------------------------------------------------------------------------

/// Whether the funding deadline (if any) lies strictly before `now`.
pub open spec fn deadline_passed(deadline: Option<u64>, now: u64) -> bool {
    match deadline {
        Some(d) => now > d,
        None => false,
    }
}

/// Whether admitting one more distinct funder would break the cap.
pub open spec fn funder_cap_reached(s: EscrowState) -> bool {
    s.unique_funder_count == u32::MAX || match s.max_unique_investors {
        Some(c) => s.unique_funder_count >= c,
        None => false,
    }
}

/// The error of one deposit of `amount` by `investor`, with an optional
/// commitment lock. A call refuses it unless the escrow is open; inside a
/// batch the open status was checked once for the whole batch, so entries
/// after the one that closes funding are still taken.
pub open spec fn fund_error(
    s: EscrowState,
    investor: Address,
    amount: i128,
    lock: Option<u64>,
    in_batch: bool,
) -> Option<EscrowError> {
    match s.escrow {
        None => Some(EscrowError::EscrowNotInitialized),
        Some(e) => {
            let prior = record_of(s.investors, investor).contribution;
            let now = s.ledger.timestamp;
            if amount <= 0 {
                Some(EscrowError::FundingAmountNotPositive)
            } else if amount < s.min_contribution {
                Some(EscrowError::FundingBelowMinContribution)
            } else if s.legal_hold {
                Some(EscrowError::LegalHoldBlocksFunding)
            } else if deadline_passed(s.funding_deadline, now) {
                Some(EscrowError::FundingDeadlinePassed)
            } else if !in_batch && e.status != STATUS_OPEN {
                Some(EscrowError::EscrowNotOpenForFunding)
            } else if s.allowlist_active && !record_of(s.investors, investor).allowlisted {
                Some(EscrowError::InvestorNotAllowlisted)
            } else if prior + amount > i128::MAX {
                Some(EscrowError::InvestorContributionOverflow)
            } else if s.max_per_investor is Some && prior + amount > s.max_per_investor.unwrap() {
                Some(EscrowError::InvestorContributionExceedsCap)
            } else if prior == 0 && funder_cap_reached(s) {
                Some(EscrowError::UniqueInvestorCapReached)
            } else if lock is Some && prior > 0 {
                Some(EscrowError::TieredSecondDeposit)
            } else if lock is Some && now + lock.unwrap() > u64::MAX {
                Some(EscrowError::InvestorClaimTimeOverflow)
            } else if e.funded_amount + amount > i128::MAX {
                Some(EscrowError::FundedAmountOverflow)
            } else if lock is Some && lock.unwrap() > 0 && e.maturity > 0 && now + lock.unwrap()
                > e.maturity {
                Some(EscrowError::CommitmentLockExceedsMaturity)
            } else {
                None
            }
        },
    }
}

/// The investor's record after the deposit: the contribution grows; a
/// commitment fixes the tier yield and, for a positive lock, the earliest
/// claim time.
pub open spec fn funded_record(
    s: EscrowState,
    investor: Address,
    amount: i128,
    lock: Option<u64>,
) -> InvestorRecord {
    let prior = record_of(s.investors, investor);
    let contribution = (prior.contribution + amount) as i128;
    match lock {
        Some(l) => InvestorRecord {
            contribution,
            effective_yield_bps: Some(select_yield(s.yield_tiers, escrow_of(s).yield_bps, l)),
            claim_not_before: if l > 0 {
                (s.ledger.timestamp + l) as u64
            } else {
                prior.claim_not_before
            },
            ..prior
        },
        None => InvestorRecord { contribution, ..prior },
    }
}

/// Whether the deposit closes funding: the escrow was open and the new total
/// reaches the target.
pub open spec fn fund_closes(s: EscrowState, amount: i128) -> bool {
    let e = escrow_of(s);
    e.status == STATUS_OPEN && e.funded_amount + amount >= e.funding_target
}

/// Storage after a successful deposit.
pub open spec fn fund_state(
    s: EscrowState,
    investor: Address,
    amount: i128,
    lock: Option<u64>,
) -> EscrowState {
    let e = escrow_of(s);
    let funded = (e.funded_amount + amount) as i128;
    let closes = fund_closes(s, amount);
    let new_funder = record_of(s.investors, investor).contribution == 0;
    EscrowState {
        escrow: Some(
            InvoiceEscrow {
                funded_amount: funded,
                status: if closes {
                    STATUS_FUNDED
                } else {
                    e.status
                },
                ..e
            },
        ),
        snapshot: if closes {
            Some(
                FundingCloseSnapshot {
                    total_principal: funded,
                    funding_target: e.funding_target,
                    closed_at_ledger_timestamp: s.ledger.timestamp,
                    closed_at_ledger_sequence: s.ledger.sequence,
                },
            )
        } else {
            s.snapshot
        },
        unique_funder_count: if new_funder {
            (s.unique_funder_count + 1) as u32
        } else {
            s.unique_funder_count
        },
        investors: put_record(s.investors, investor, funded_record(s, investor, amount, lock)),
        ..s
    }
}

/// The `EscrowFunded` event of a successful deposit.
pub open spec fn fund_event(
    s: EscrowState,
    investor: Address,
    amount: i128,
    lock: Option<u64>,
) -> EscrowEvent {
    let t = escrow_of(fund_state(s, investor, amount, lock));
    EscrowEvent::EscrowFunded {
        invoice_id: t.invoice_id,
        investor,
        amount,
        funded_amount: t.funded_amount,
        status: t.status,
        investor_effective_yield_bps: investor_yield(
            t,
            funded_record(s, investor, amount, lock),
        ),
        tier_lock_secs: match lock {
            Some(l) => l,
            None => 0,
        },
    }
}

/// `eff` followed by the effects of one deposit: the investor authorizes,
/// the event is published. A deposit moves no tokens: principal custody is
/// reconciled by the integration before any payout.
pub open spec fn fund_effects(
    eff: Effects,
    s: EscrowState,
    investor: Address,
    amount: i128,
    lock: Option<u64>,
) -> Effects {
    eff.auth(investor).emit(
        fund_event(s, investor, amount, lock),
    )
}

/// The lock that a batch entry's `lock_secs` stands for (zero: a plain deposit).
pub open spec fn entry_lock(lock_secs: u64) -> Option<u64> {
    if lock_secs == 0 {
        None
    } else {
        Some(lock_secs)
    }
}

/// Deposits processed one after another inside a batch, starting from `s`
/// with effects `eff`; the first failing entry fails the whole run.
pub open spec fn batch_run(
    s: EscrowState,
    eff: Effects,
    entries: Seq<(Address, i128, u64)>,
) -> Result<(EscrowState, Effects), EscrowError>
    decreases entries.len(),
{
    if entries.len() == 0 {
        Ok((s, eff))
    } else {
        let (a, amount, l) = entries[0];
        match fund_error(s, a, amount, entry_lock(l), true) {
            Some(err) => Err(err),
            None => batch_run(
                fund_state(s, a, amount, entry_lock(l)),
                fund_effects(eff, s, a, amount, entry_lock(l)),
                entries.drop_first(),
            ),
        }
    }
}

/// The error of a whole batch: its size first, then the open status, then
/// the first failing entry.
pub open spec fn fund_batch_error(
    s: EscrowState,
    entries: Seq<(Address, i128, u64)>,
) -> Option<EscrowError> {
    if entries.len() == 0 {
        Some(EscrowError::FundingBatchEmpty)
    } else if entries.len() > crate::types::MAX_FUND_BATCH {
        Some(EscrowError::FundingBatchTooLarge)
    } else if s.escrow is None {
        Some(EscrowError::EscrowNotInitialized)
    } else if escrow_of(s).status != STATUS_OPEN {
        Some(EscrowError::EscrowNotOpenForFunding)
    } else {
        match batch_run(s, no_effects(), entries) {
            Err(err) => Some(err),
            Ok(_) => None,
        }
    }
}

/// Storage after a successful batch.
pub open spec fn fund_batch_state(s: EscrowState, entries: Seq<(Address, i128, u64)>) -> EscrowState {
    batch_run(s, no_effects(), entries).unwrap().0
}

/// Effects of a successful batch.
pub open spec fn fund_batch_effects(s: EscrowState, entries: Seq<(Address, i128, u64)>) -> Effects {
    batch_run(s, no_effects(), entries).unwrap().1
}

/// A successful deposit keeps the escrow's invariant.
pub proof fn lemma_fund_preserves_valid(
    s: EscrowState,
    investor: Address,
    amount: i128,
    lock: Option<u64>,
    in_batch: bool,
)
    requires
        s.valid(),
        fund_error(s, investor, amount, lock, in_batch) is None,
        in_batch ==> (escrow_of(s).status == STATUS_OPEN || escrow_of(s).status == STATUS_FUNDED),
    ensures
        fund_state(s, investor, amount, lock).valid(),
{
    let r = funded_record(s, investor, amount, lock);
    lemma_record_le_total(s.investors, investor);
    lemma_find_investor_range(s.investors, investor);
    if let Some(l) = lock {
        lemma_select_yield_in_range(s.yield_tiers, escrow_of(s).yield_bps, l);
    }
    lemma_put_record(s.investors, investor, r);
}

} // verus!
