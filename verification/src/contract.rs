//! The escrow contract: its storage, the host context it runs in, and the
//! per-call effects it hands back to the host. The entrypoints live in the
//! child modules, grouped by concern.
use vstd::prelude::*;

use crate::events::EscrowEvent;
use crate::state::{
    find_investor, lemma_find_investor, lemma_find_investor_range, put_record,
    record_of, unique_investors, Effects, EscrowState,
};
use crate::types::{
    Address, AttestationInfo, Digest, FundingCloseSnapshot, InvestorEntry, InvestorRecord,
    InvoiceEscrow, Ledger, PendingAdmin, SmeCollateralCommitment, TokenTransfer, YieldTier,
};


mod admin;
mod attest;
mod funding;
mod lifecycle;
mod persist;
mod views;

verus! {

/// One invoice escrow: persistent storage, the ledger it observes, and what
/// the last call asked of its host.
pub struct LiquifactEscrow {
    contract: Address,
    ledger: Ledger,
    escrow: Option<InvoiceEscrow>,
    version: u32,
    funding_token: Option<Address>,
    treasury: Option<Address>,
    registry: Option<Address>,
    pending_admin: Option<PendingAdmin>,
    legal_hold: bool,
    legal_hold_clear_delay: u64,
    legal_hold_clearable_at: Option<u64>,
    funding_deadline: Option<u64>,
    min_contribution: i128,
    max_unique_investors: Option<u32>,
    max_per_investor: Option<i128>,
    maturity_max_horizon: Option<u64>,
    yield_tiers: Vec<YieldTier>,
    snapshot: Option<FundingCloseSnapshot>,
    unique_funder_count: u32,
    distributed_principal: i128,
    allowlist_active: bool,
    investors: Vec<InvestorEntry>,
    primary_attestation: Option<Digest>,
    attestations: Vec<AttestationInfo>,
    collateral: Option<SmeCollateralCommitment>,
    events: Vec<EscrowEvent>,
    auths: Vec<Address>,
    transfers: Vec<TokenTransfer>,
}

impl View for LiquifactEscrow {
    type V = EscrowState;

    closed spec fn view(&self) -> EscrowState {
        EscrowState {
            contract: self.contract,
            ledger: self.ledger,
            escrow: self.escrow,
            version: self.version,
            funding_token: self.funding_token,
            treasury: self.treasury,
            registry: self.registry,
            pending_admin: self.pending_admin,
            legal_hold: self.legal_hold,
            legal_hold_clear_delay: self.legal_hold_clear_delay,
            legal_hold_clearable_at: self.legal_hold_clearable_at,
            funding_deadline: self.funding_deadline,
            min_contribution: self.min_contribution,
            max_unique_investors: self.max_unique_investors,
            max_per_investor: self.max_per_investor,
            maturity_max_horizon: self.maturity_max_horizon,
            yield_tiers: self.yield_tiers@,
            snapshot: self.snapshot,
            unique_funder_count: self.unique_funder_count,
            distributed_principal: self.distributed_principal,
            allowlist_active: self.allowlist_active,
            investors: self.investors@,
            primary_attestation: self.primary_attestation,
            attestations: self.attestations@,
            collateral: self.collateral,
        }
    }
}

impl LiquifactEscrow {
    /// What the last call asked of its host.
    pub closed spec fn effects(&self) -> Effects {
        Effects { events: self.events@, auths: self.auths@, transfers: self.transfers@ }
    }

    /// A fresh, uninitialized escrow deployed at `contract`, observing a
    /// ledger at time zero.
    pub fn new(contract: Address) -> (r: Self)
        ensures
            r@ == EscrowState::fresh(contract),
            r@.valid(),
            r.effects() == crate::state::no_effects(),
    {
        let r = LiquifactEscrow {
            contract,
            ledger: Ledger { timestamp: 0, sequence: 0 },
            escrow: None,
            version: 0,
            funding_token: None,
            treasury: None,
            registry: None,
            pending_admin: None,
            legal_hold: false,
            legal_hold_clear_delay: 0,
            legal_hold_clearable_at: None,
            funding_deadline: None,
            min_contribution: 0,
            max_unique_investors: None,
            max_per_investor: None,
            maturity_max_horizon: None,
            yield_tiers: Vec::new(),
            snapshot: None,
            unique_funder_count: 0,
            distributed_principal: 0,
            allowlist_active: false,
            investors: Vec::new(),
            primary_attestation: None,
            attestations: Vec::new(),
            collateral: None,
            events: Vec::new(),
            auths: Vec::new(),
            transfers: Vec::new(),
        };
        proof {
            assert(r@ =~= EscrowState::fresh(contract));
            assert(r.effects() =~= crate::state::no_effects());
        }
        r
    }

    /// Advances (or sets) the ledger time the escrow observes.
    pub fn set_ledger(&mut self, timestamp: u64, sequence: u32)
        ensures
            final(self)@ == old(self)@.with_ledger(Ledger { timestamp, sequence }),
            final(self).effects() == old(self).effects(),
    {
        self.ledger = Ledger { timestamp, sequence };
        proof {
            assert(final(self)@ =~= old(self)@.with_ledger(Ledger { timestamp, sequence }));
        }
    }

    /// A copy of the storage and effects, for work that must be undone on failure.
    fn duplicate(&self) -> (r: Self)
        ensures
            r@ == self@,
            r.effects() == self.effects(),
    {
        let r = LiquifactEscrow {
            contract: self.contract,
            ledger: self.ledger,
            escrow: self.escrow,
            version: self.version,
            funding_token: self.funding_token,
            treasury: self.treasury,
            registry: self.registry,
            pending_admin: self.pending_admin,
            legal_hold: self.legal_hold,
            legal_hold_clear_delay: self.legal_hold_clear_delay,
            legal_hold_clearable_at: self.legal_hold_clearable_at,
            funding_deadline: self.funding_deadline,
            min_contribution: self.min_contribution,
            max_unique_investors: self.max_unique_investors,
            max_per_investor: self.max_per_investor,
            maturity_max_horizon: self.maturity_max_horizon,
            yield_tiers: copy_vec(&self.yield_tiers),
            snapshot: self.snapshot,
            unique_funder_count: self.unique_funder_count,
            distributed_principal: self.distributed_principal,
            allowlist_active: self.allowlist_active,
            investors: copy_vec(&self.investors),
            primary_attestation: self.primary_attestation,
            attestations: copy_vec(&self.attestations),
            collateral: self.collateral,
            events: copy_vec(&self.events),
            auths: copy_vec(&self.auths),
            transfers: copy_vec(&self.transfers),
        };
        proof {
            assert(r@ =~= self@);
            assert(r.effects() =~= self.effects());
        }
        r
    }

    /// Events published by the last call.
    pub fn events(&self) -> (r: Vec<EscrowEvent>)
        ensures
            r@ == self.effects().events,
    {
        copy_vec(&self.events)
    }

    /// Addresses whose authorization the last call required, in order.
    pub fn required_auths(&self) -> (r: Vec<Address>)
        ensures
            r@ == self.effects().auths,
    {
        copy_vec(&self.auths)
    }

    /// Token movements the last call asks the host to perform, in order.
    pub fn token_transfers(&self) -> (r: Vec<TokenTransfer>)
        ensures
            r@ == self.effects().transfers,
    {
        copy_vec(&self.transfers)
    }

    /// Forgets the effects of the previous call.
    fn begin_call(&mut self)
        ensures
            final(self)@ == old(self)@,
            final(self).effects() == crate::state::no_effects(),
    {
        self.events = Vec::new();
        self.auths = Vec::new();
        self.transfers = Vec::new();
        proof {
            assert(final(self)@ =~= old(self)@);
            assert(final(self).effects() =~= crate::state::no_effects());
        }
    }

    /// Position of `investor` in the investor table.
    fn investor_index(&self, investor: Address) -> (r: Option<usize>)
        requires
            unique_investors(self.investors@),
        ensures
            match r {
                Some(i) => i < self.investors@.len() && i == find_investor(
                    self.investors@,
                    investor,
                ),
                None => find_investor(self.investors@, investor) == -1,
            },
    {
        let mut i: usize = 0;
        while i < self.investors.len()
            invariant
                i <= self.investors@.len(),
                unique_investors(self.investors@),
                forall|k: int| 0 <= k < i ==> #[trigger] self.investors@[k].investor != investor,
            decreases self.investors@.len() - i,
        {
            if self.investors[i].investor == investor {
                proof {
                    lemma_find_investor(self.investors@, investor, i as int);
                }
                return Some(i);
            }
            i = i + 1;
        }
        proof {
            lemma_find_investor_range(self.investors@, investor);
        }
        None
    }

    /// The record stored for `investor`.
    fn record(&self, investor: Address) -> (r: InvestorRecord)
        requires
            unique_investors(self.investors@),
        ensures
            r == record_of(self.investors@, investor),
    {
        match self.investor_index(investor) {
            Some(i) => self.investors[i].record,
            None => InvestorRecord {
                contribution: 0,
                effective_yield_bps: None,
                claim_not_before: 0,
                claimed: false,
                refunded: false,
                allowlisted: false,
            },
        }
    }

    /// Stores `r` as the record of `investor`.
    fn put(&mut self, investor: Address, r: InvestorRecord)
        requires
            unique_investors(old(self).investors@),
        ensures
            final(self)@ == old(self)@.with_investors(put_record(old(self).investors@, investor, r)),
            final(self).effects() == old(self).effects(),
    {
        let e = InvestorEntry { investor, record: r };
        match self.investor_index(investor) {
            Some(i) => {
                self.investors.set(i, e);
            },
            None => {
                self.investors.push(e);
            },
        }
        proof {
            assert(final(self)@ =~= old(self)@.with_investors(
                put_record(old(self).investors@, investor, r),
            ));
        }
    }

    /// Publishes an event.
    fn emit(&mut self, e: EscrowEvent)
        ensures
            final(self)@ == old(self)@,
            final(self).effects() == old(self).effects().emit(e),
    {
        self.events.push(e);
        proof {
            assert(final(self)@ =~= old(self)@);
        }
    }

    /// Records that `who` must authorize this call.
    fn require_auth(&mut self, who: Address)
        ensures
            final(self)@ == old(self)@,
            final(self).effects() == old(self).effects().auth(who),
    {
        self.auths.push(who);
        proof {
            assert(final(self)@ =~= old(self)@);
        }
    }

    /// Asks the host to move `amount` of the funding token.
    fn transfer(&mut self, from: Address, to: Address, amount: i128)
        ensures
            final(self)@ == old(self)@,
            final(self).effects() == old(self).effects().pay(from, to, amount),
    {
        self.transfers.push(TokenTransfer { from, to, amount });
        proof {
            assert(final(self)@ =~= old(self)@);
        }
    }
}

/// An element-by-element copy of a vector of plain values.
pub fn copy_vec<T: Copy>(v: &Vec<T>) -> (r: Vec<T>)
    ensures
        r@ == v@,
{
    let mut r: Vec<T> = Vec::new();
    let mut i: usize = 0;
    while i < v.len()
        invariant
            i <= v@.len(),
            r@ == v@.take(i as int),
        decreases v@.len() - i,
    {
        r.push(v[i]);
        proof {
            assert(v@.take(i as int + 1) =~= v@.take(i as int).push(v@[i as int]));
        }
        i = i + 1;
    }
    proof {
        assert(v@.take(v@.len() as int) =~= v@);
    }
    r
}

} // verus!
