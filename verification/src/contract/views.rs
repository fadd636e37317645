//! Read-only views of the escrow. None of them changes storage or effects.
use vstd::prelude::*;

use super::LiquifactEscrow;
use crate::errors::EscrowError;
use crate::model::lifecycle::horizon_or_default;
use crate::model::{deadline_passed, investor_yield, log_digests, settleable, summary_of};
use crate::state::record_of;
use crate::types::{
    Address, AttestationInfo, CollateralCommitmentSnapshot, Digest, EscrowCloseSnapshot,
    EscrowSummary, FundingCloseSnapshot, InvoiceEscrow, Ledger, SmeCollateralCommitment,
    DEFAULT_MATURITY_MAX_HORIZON_SECS, STATUS_FUNDED,
};

verus! {

impl LiquifactEscrow {
    /// The address the escrow is deployed at.
    pub fn contract_address(&self) -> (r: Address)
        ensures
            r == self@.contract,
    {
        self.contract
    }

    /// The ledger time the escrow observes.
    pub fn ledger(&self) -> (r: Ledger)
        ensures
            r == self@.ledger,
    {
        self.ledger
    }

    /// The escrow record; `EscrowNotInitialized` before `init`.
    pub fn get_escrow(&self) -> (r: Result<InvoiceEscrow, EscrowError>)
        ensures
            match self@.escrow {
                Some(e) => r == Ok::<InvoiceEscrow, EscrowError>(e),
                None => r == Err::<InvoiceEscrow, EscrowError>(EscrowError::EscrowNotInitialized),
            },
    {
        match self.escrow {
            Some(e) => Ok(e),
            None => Err(EscrowError::EscrowNotInitialized),
        }
    }

    /// The stored schema version (zero before `init`).
    pub fn get_version(&self) -> (r: u32)
        ensures
            r == self@.version,
    {
        self.version
    }

    /// Several views in one call; `EscrowNotInitialized` before `init`.
    pub fn get_escrow_summary(&self) -> (r: Result<EscrowSummary, EscrowError>)
        requires
            self@.valid(),
        ensures
            match self@.escrow {
                Some(_) => r == Ok::<EscrowSummary, EscrowError>(summary_of(self@)),
                None => r == Err::<EscrowSummary, EscrowError>(EscrowError::EscrowNotInitialized),
            },
    {
        let e = match self.escrow {
            Some(e) => e,
            None => {
                return Err(EscrowError::EscrowNotInitialized);
            },
        };
        let funding_close_snapshot = match self.snapshot {
            Some(x) => EscrowCloseSnapshot::Closed(x),
            None => EscrowCloseSnapshot::NotClosed,
        };
        let sme_collateral_commitment = match self.collateral {
            Some(c) => CollateralCommitmentSnapshot::Recorded(c),
            None => CollateralCommitmentSnapshot::NotRecorded,
        };
        Ok(
            EscrowSummary {
                escrow: e,
                has_maturity_lock: e.maturity > 0,
                legal_hold: self.legal_hold,
                funding_close_snapshot,
                unique_funder_count: self.unique_funder_count,
                is_allowlist_active: self.allowlist_active,
                schema_version: self.version,
                sme_collateral_commitment,
                has_primary_attestation: self.primary_attestation.is_some(),
                attestation_log_length: self.attestations.len() as u32,
            },
        )
    }

    /// The bound funding token; `FundingTokenNotSet` before `init`.
    pub fn get_funding_token(&self) -> (r: Result<Address, EscrowError>)
        ensures
            match self@.funding_token {
                Some(t) => r == Ok::<Address, EscrowError>(t),
                None => r == Err::<Address, EscrowError>(EscrowError::FundingTokenNotSet),
            },
    {
        match self.funding_token {
            Some(t) => Ok(t),
            None => Err(EscrowError::FundingTokenNotSet),
        }
    }

    /// The bound treasury; `TreasuryNotSet` before `init`.
    pub fn get_treasury(&self) -> (r: Result<Address, EscrowError>)
        ensures
            match self@.treasury {
                Some(t) => r == Ok::<Address, EscrowError>(t),
                None => r == Err::<Address, EscrowError>(EscrowError::TreasuryNotSet),
            },
    {
        match self.treasury {
            Some(t) => Ok(t),
            None => Err(EscrowError::TreasuryNotSet),
        }
    }

    /// The registry reference, if any.
    pub fn get_registry_ref(&self) -> (r: Option<Address>)
        ensures
            r == self@.registry,
    {
        self.registry
    }

    /// The proposed successor admin, if any.
    pub fn get_pending_admin(&self) -> (r: Option<Address>)
        ensures
            r == (match self@.pending_admin {
                Some(p) => Some(p.address),
                None => None,
            }),
    {
        match self.pending_admin {
            Some(p) => Some(p.address),
            None => None,
        }
    }

    /// Whether the compliance hold is active.
    pub fn get_legal_hold(&self) -> (r: bool)
        ensures
            r == self@.legal_hold,
    {
        self.legal_hold
    }

    /// The delay between a clear request and lifting the hold.
    pub fn get_legal_hold_clear_delay(&self) -> (r: u64)
        ensures
            r == self@.legal_hold_clear_delay,
    {
        self.legal_hold_clear_delay
    }

    /// When a requested clear may take effect, if one is pending.
    pub fn get_legal_hold_clearable_at(&self) -> (r: Option<u64>)
        ensures
            r == self@.legal_hold_clearable_at,
    {
        self.legal_hold_clearable_at
    }

    /// The funding deadline, if any.
    pub fn get_funding_deadline(&self) -> (r: Option<u64>)
        ensures
            r == self@.funding_deadline,
    {
        self.funding_deadline
    }

    /// Whether the funding deadline has passed (false when none is set).
    pub fn is_funding_expired(&self) -> (r: bool)
        ensures
            r == deadline_passed(self@.funding_deadline, self@.ledger.timestamp),
    {
        match self.funding_deadline {
            Some(d) => self.ledger.timestamp > d,
            None => false,
        }
    }

    /// The per-deposit floor (zero when none).
    pub fn get_min_contribution_floor(&self) -> (r: i128)
        ensures
            r == self@.min_contribution,
    {
        self.min_contribution
    }

    /// The distinct-funder cap, if any.
    pub fn get_max_unique_investors_cap(&self) -> (r: Option<u32>)
        ensures
            r == self@.max_unique_investors,
    {
        self.max_unique_investors
    }

    /// The per-investor cap, if any.
    pub fn get_max_per_investor_cap(&self) -> (r: Option<i128>)
        ensures
            r == self@.max_per_investor,
    {
        self.max_per_investor
    }

    /// How far ahead a maturity may be placed (the default when unset).
    pub fn get_maturity_max_horizon(&self) -> (r: u64)
        ensures
            r == horizon_or_default(self@.maturity_max_horizon),
    {
        match self.maturity_max_horizon {
            Some(h) => h,
            None => DEFAULT_MATURITY_MAX_HORIZON_SECS,
        }
    }

    /// Whether settlement waits for a maturity.
    pub fn has_maturity_lock(&self) -> (r: Result<bool, EscrowError>)
        ensures
            match self@.escrow {
                Some(e) => r == Ok::<bool, EscrowError>(e.maturity > 0),
                None => r == Err::<bool, EscrowError>(EscrowError::EscrowNotInitialized),
            },
    {
        match self.escrow {
            Some(e) => Ok(e.maturity > 0),
            None => Err(EscrowError::EscrowNotInitialized),
        }
    }

    /// The funding-close snapshot, once funding has closed.
    pub fn get_funding_close_snapshot(&self) -> (r: Option<FundingCloseSnapshot>)
        ensures
            r == self@.snapshot,
    {
        self.snapshot
    }

    /// What `investor` has contributed (zero for an unknown address).
    pub fn get_contribution(&self, investor: Address) -> (r: i128)
        requires
            self@.valid(),
        ensures
            r == record_of(self@.investors, investor).contribution,
    {
        self.record(investor).contribution
    }

    /// How many distinct addresses have funded.
    pub fn get_unique_funder_count(&self) -> (r: u32)
        ensures
            r == self@.unique_funder_count,
    {
        self.unique_funder_count
    }

    /// The yield `investor` earns: the tier fixed at commitment, else the
    /// base yield.
    pub fn get_investor_yield_bps(&self, investor: Address) -> (r: Result<i64, EscrowError>)
        requires
            self@.valid(),
        ensures
            match self@.escrow {
                Some(e) => r == Ok::<i64, EscrowError>(
                    investor_yield(e, record_of(self@.investors, investor)),
                ),
                None => r == Err::<i64, EscrowError>(EscrowError::EscrowNotInitialized),
            },
    {
        let e = match self.escrow {
            Some(e) => e,
            None => {
                return Err(EscrowError::EscrowNotInitialized);
            },
        };
        match self.record(investor).effective_yield_bps {
            Some(y) => Ok(y),
            None => Ok(e.yield_bps),
        }
    }

    /// The earliest time `investor` may claim (zero when unrestricted).
    pub fn get_investor_claim_not_before(&self, investor: Address) -> (r: u64)
        requires
            self@.valid(),
        ensures
            r == record_of(self@.investors, investor).claim_not_before,
    {
        self.record(investor).claim_not_before
    }

    /// Whether `investor` has claimed.
    pub fn is_investor_claimed(&self, investor: Address) -> (r: bool)
        requires
            self@.valid(),
        ensures
            r == record_of(self@.investors, investor).claimed,
    {
        self.record(investor).claimed
    }

    /// Whether `investor` has been refunded.
    pub fn is_investor_refunded(&self, investor: Address) -> (r: bool)
        requires
            self@.valid(),
        ensures
            r == record_of(self@.investors, investor).refunded,
    {
        self.record(investor).refunded
    }

    /// Whether `investor` may fund while the allowlist gate is active.
    pub fn is_investor_allowlisted(&self, investor: Address) -> (r: bool)
        requires
            self@.valid(),
        ensures
            r == record_of(self@.investors, investor).allowlisted,
    {
        self.record(investor).allowlisted
    }

    /// Whether the allowlist gate is active.
    pub fn is_allowlist_active(&self) -> (r: bool)
        ensures
            r == self@.allowlist_active,
    {
        self.allowlist_active
    }

    /// Principal already returned (refunds) or paid out (withdrawal).
    pub fn get_distributed_principal(&self) -> (r: i128)
        ensures
            r == self@.distributed_principal,
    {
        self.distributed_principal
    }

    /// Distinct funders still admissible under the cap (none: no cap).
    pub fn get_remaining_investor_slots(&self) -> (r: Option<u32>)
        requires
            self@.valid(),
        ensures
            r == (match self@.max_unique_investors {
                Some(c) => Some((c - self@.unique_funder_count) as u32),
                None => None,
            }),
    {
        match self.max_unique_investors {
            Some(c) => Some(c - self.unique_funder_count),
            None => None,
        }
    }

    /// Whether `settle` would pass its status, hold and maturity checks now;
    /// an uninitialized escrow reports `EscrowNotInitialized`.
    pub fn is_settleable(&self) -> (r: Result<bool, EscrowError>)
        ensures
            r == (match self@.escrow {
                Some(_) => Ok::<bool, EscrowError>(settleable(self@)),
                None => Err::<bool, EscrowError>(EscrowError::EscrowNotInitialized),
            }),
    {
        match self.escrow {
            Some(e) => Ok(e.status == STATUS_FUNDED && !self.legal_hold && (e.maturity == 0
                || self.ledger.timestamp >= e.maturity)),
            None => Err(EscrowError::EscrowNotInitialized),
        }
    }

    /// The primary attestation digest, once bound.
    pub fn get_primary_attestation_hash(&self) -> (r: Option<Digest>)
        ensures
            r == self@.primary_attestation,
    {
        self.primary_attestation
    }

    /// The digests of the attestation log, in order.
    pub fn get_attestation_append_log(&self) -> (r: Vec<Digest>)
        ensures
            r@ == log_digests(self@.attestations),
    {
        let mut r: Vec<Digest> = Vec::new();
        let mut i: usize = 0;
        while i < self.attestations.len()
            invariant
                i <= self.attestations@.len(),
                r@ == log_digests(self.attestations@.take(i as int)),
            decreases self.attestations@.len() - i,
        {
            r.push(self.attestations[i].digest);
            proof {
                assert(log_digests(self.attestations@.take(i as int + 1)) =~= log_digests(
                    self.attestations@.take(i as int),
                ).push(self.attestations@[i as int].digest));
            }
            i = i + 1;
        }
        proof {
            assert(self.attestations@.take(self.attestations@.len() as int) =~= self.attestations@);
        }
        r
    }

    /// Log entry `index` with its revocation mark, if it exists.
    pub fn get_attestation_digest_at(&self, index: u32) -> (r: Option<AttestationInfo>)
        ensures
            r == (if index < self@.attestations.len() {
                Some(self@.attestations[index as int])
            } else {
                None
            }),
    {
        if (index as usize) < self.attestations.len() {
            Some(self.attestations[index as usize])
        } else {
            None
        }
    }

    /// Whether log entry `index` exists and is revoked.
    pub fn is_attestation_revoked(&self, index: u32) -> (r: bool)
        ensures
            r == (index < self@.attestations.len() && self@.attestations[index as int].revoked),
    {
        (index as usize) < self.attestations.len() && self.attestations[index as usize].revoked
    }

    /// The SME's collateral pledge, if recorded.
    pub fn get_sme_collateral_commitment(&self) -> (r: Option<SmeCollateralCommitment>)
        ensures
            r == self@.collateral,
    {
        self.collateral
    }
}

} // verus!
