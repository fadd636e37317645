//! Governance entrypoints: legal hold, allowlist, caps and floors, maturity
//! and deadline changes, admin handover, beneficiary rotation, registry and
//! collateral metadata, migration and upgrade.
use vstd::prelude::*;

use super::LiquifactEscrow;
use crate::errors::EscrowError;
use crate::events::EscrowEvent;
use crate::model::governance::{
    accept_effects, accept_error, accept_state, admin_call_error, admin_effects,
    allowlist_active_effects, allowlist_active_state, allowlist_batch_error, allowlist_run,
    allowlisted_event, allowlisted_state, cancel_clear_effects, cancel_clear_error,
    cancel_clear_state, cancel_pending_effects, cancel_pending_error, cancel_pending_state,
    cap_state, clear_collateral_effects, clear_collateral_error, clear_collateral_state,
    clearable_at, collateral_effects, collateral_error, collateral_of, collateral_state,
    deadline_effects, deadline_state, deadline_update_error, floor_state, horizon_effects,
    horizon_state, lower_cap_effects, lower_cap_error, lower_floor_effects, lower_floor_error,
    maturity_effects, maturity_state, maturity_update_error, migrate_effects, migrate_error, propose_error,
    propose_state, proposed_event, raise_cap_effects, raise_cap_error, registry_effects,
    registry_state, request_clear_effects, request_clear_error, request_clear_state,
    rotate_effects, rotate_error, rotate_state, set_hold_effects, set_hold_error,
    set_hold_state, transfer_admin_effects, upgrade_effects,
};
use crate::model::{escrow_of, outcome};
use crate::state::{lemma_find_investor_range, lemma_put_record, no_effects};
use crate::symbol::ShortSymbol;
use crate::types::{
    Address, Digest, InvestorRecord, InvoiceEscrow, PendingAdmin, SmeCollateralCommitment,
    DEFAULT_MATURITY_MAX_HORIZON_SECS, MAX_INVESTOR_ALLOWLIST_BATCH, SCHEMA_VERSION,
    STATUS_FUNDED, STATUS_OPEN,
};
use crate::validation::check_maturity_bounds;

verus! {

impl LiquifactEscrow {
    /// The escrow record, or `EscrowNotInitialized`.
    fn initialized(&self) -> (r: Result<InvoiceEscrow, EscrowError>)
        ensures
            match self@.escrow {
                Some(e) => r == Ok::<InvoiceEscrow, EscrowError>(e),
                None => r == Err::<InvoiceEscrow, EscrowError>(EscrowError::EscrowNotInitialized),
            },
    {
        match self.escrow {
            Some(e) => Ok(e),
            None => Err(EscrowError::EscrowNotInitialized),
        }
    }

    // -----------------------------------------------------------------------
    // Legal hold
    // -----------------------------------------------------------------------

    /// Places (`true`) or lifts (`false`) the compliance hold. Lifting is
    /// subject to the clear delay, as for `clear_legal_hold`. The admin must
    /// authorize.
    pub fn set_legal_hold(&mut self, active: bool) -> (r: Result<(), EscrowError>)
        requires
            old(self)@.valid(),
        ensures
            final(self)@.valid(),
            outcome(
                r,
                old(self)@,
                final(self)@,
                final(self).effects(),
                set_hold_error(old(self)@, active),
                set_hold_state(old(self)@, active),
                (),
                set_hold_effects(old(self)@, active),
            ),
    {
        self.begin_call();
        let e = match self.initialized() {
            Ok(e) => e,
            Err(err) => {
                return Err(err);
            },
        };
        if !active && self.legal_hold_clear_delay > 0 {
            match self.legal_hold_clearable_at {
                None => {
                    return Err(EscrowError::LegalHoldClearRequestMissing);
                },
                Some(t) => {
                    if self.ledger.timestamp < t {
                        return Err(EscrowError::LegalHoldClearNotReady);
                    }
                },
            }
        }
        self.legal_hold = active;
        self.legal_hold_clearable_at = None;
        self.require_auth(e.admin);
        self.emit(
            EscrowEvent::LegalHoldChanged {
                invoice_id: e.invoice_id,
                active: if active {
                    1
                } else {
                    0
                },
            },
        );
        proof {
            assert(self@ =~= set_hold_state(old(self)@, active));
            assert(self.effects() =~= set_hold_effects(old(self)@, active));
        }
        Ok(())
    }

    /// Lifts the compliance hold (after the clear delay, when one is set).
    pub fn clear_legal_hold(&mut self) -> (r: Result<(), EscrowError>)
        requires
            old(self)@.valid(),
        ensures
            final(self)@.valid(),
            outcome(
                r,
                old(self)@,
                final(self)@,
                final(self).effects(),
                set_hold_error(old(self)@, false),
                set_hold_state(old(self)@, false),
                (),
                set_hold_effects(old(self)@, false),
            ),
    {
        self.set_legal_hold(false)
    }

    /// Starts the clear delay: the hold may be lifted from the returned time
    /// on. The admin must authorize.
    pub fn request_clear_legal_hold(&mut self) -> (r: Result<u64, EscrowError>)
        requires
            old(self)@.valid(),
        ensures
            final(self)@.valid(),
            outcome(
                r,
                old(self)@,
                final(self)@,
                final(self).effects(),
                request_clear_error(old(self)@),
                request_clear_state(old(self)@),
                clearable_at(old(self)@),
                request_clear_effects(old(self)@),
            ),
    {
        self.begin_call();
        let e = match self.initialized() {
            Ok(e) => e,
            Err(err) => {
                return Err(err);
            },
        };
        if self.legal_hold_clear_delay > u64::MAX - self.ledger.timestamp {
            return Err(EscrowError::LegalHoldClearDelayOverflow);
        }
        let at = self.ledger.timestamp + self.legal_hold_clear_delay;
        self.legal_hold_clearable_at = Some(at);
        self.require_auth(e.admin);
        self.emit(EscrowEvent::LegalHoldClearRequested { invoice_id: e.invoice_id, clearable_at: at });
        proof {
            assert(self@ =~= request_clear_state(old(self)@));
            assert(self.effects() =~= request_clear_effects(old(self)@));
        }
        Ok(at)
    }

    /// Withdraws a pending clear request. The admin must authorize.
    pub fn cancel_clear_legal_hold(&mut self) -> (r: Result<(), EscrowError>)
        requires
            old(self)@.valid(),
        ensures
            final(self)@.valid(),
            outcome(
                r,
                old(self)@,
                final(self)@,
                final(self).effects(),
                cancel_clear_error(old(self)@),
                cancel_clear_state(old(self)@),
                (),
                cancel_clear_effects(old(self)@),
            ),
    {
        self.begin_call();
        let e = match self.initialized() {
            Ok(e) => e,
            Err(err) => {
                return Err(err);
            },
        };
        if self.legal_hold_clearable_at.is_none() {
            return Err(EscrowError::LegalHoldClearRequestMissing);
        }
        self.legal_hold_clearable_at = None;
        self.require_auth(e.admin);
        self.emit(EscrowEvent::LegalHoldClearCancelled { invoice_id: e.invoice_id });
        proof {
            assert(self@ =~= cancel_clear_state(old(self)@));
            assert(self.effects() =~= cancel_clear_effects(old(self)@));
        }
        Ok(())
    }

    // -----------------------------------------------------------------------
    // Allowlist
    // -----------------------------------------------------------------------

    /// Switches the investor allowlist gate. The admin must authorize.
    pub fn set_allowlist_active(&mut self, active: bool) -> (r: Result<(), EscrowError>)
        requires
            old(self)@.valid(),
        ensures
            final(self)@.valid(),
            outcome(
                r,
                old(self)@,
                final(self)@,
                final(self).effects(),
                admin_call_error(old(self)@),
                allowlist_active_state(old(self)@, active),
                (),
                allowlist_active_effects(old(self)@, active),
            ),
    {
        self.begin_call();
        let e = match self.initialized() {
            Ok(e) => e,
            Err(err) => {
                return Err(err);
            },
        };
        self.allowlist_active = active;
        self.require_auth(e.admin);
        self.emit(
            EscrowEvent::AllowlistEnabledChanged {
                invoice_id: e.invoice_id,
                active: if active {
                    1
                } else {
                    0
                },
            },
        );
        proof {
            assert(self@ =~= allowlist_active_state(old(self)@, active));
            assert(self.effects() =~= allowlist_active_effects(old(self)@, active));
        }
        Ok(())
    }

    /// Sets one investor's allowlist flag and publishes the change.
    fn allowlist_step(&mut self, e: InvoiceEscrow, investor: Address, allowed: bool)
        requires
            old(self)@.valid(),
            old(self)@.escrow == Some(e),
        ensures
            final(self)@.valid(),
            final(self)@ == allowlisted_state(old(self)@, investor, allowed),
            final(self).effects() == old(self).effects().emit(
                allowlisted_event(old(self)@, investor, allowed),
            ),
    {
        let rec = self.record(investor);
        proof {
            lemma_find_investor_range(self.investors@, investor);
            lemma_put_record(self.investors@, investor, InvestorRecord { allowlisted: allowed, ..rec });
        }
        self.put(investor, InvestorRecord { allowlisted: allowed, ..rec });
        self.emit(
            EscrowEvent::InvestorAllowlistChanged {
                invoice_id: e.invoice_id,
                investor,
                allowed: if allowed {
                    1
                } else {
                    0
                },
            },
        );
    }

    /// Sets whether `investor` may deposit while the allowlist gate is on.
    /// The admin must authorize.
    pub fn set_investor_allowlisted(&mut self, investor: Address, allowed: bool) -> (r: Result<
        (),
        EscrowError,
    >)
        requires
            old(self)@.valid(),
        ensures
            final(self)@.valid(),
            outcome(
                r,
                old(self)@,
                final(self)@,
                final(self).effects(),
                admin_call_error(old(self)@),
                allowlisted_state(old(self)@, investor, allowed),
                (),
                admin_effects(old(self)@, allowlisted_event(old(self)@, investor, allowed)),
            ),
    {
        self.begin_call();
        let e = match self.initialized() {
            Ok(e) => e,
            Err(err) => {
                return Err(err);
            },
        };
        self.require_auth(e.admin);
        self.allowlist_step(e, investor, allowed);
        Ok(())
    }

    /// Sets the allowlist flag of up to 50 investors at once, with one event
    /// each. The admin must authorize.
    pub fn set_investors_allowlisted(&mut self, investors: &[Address], allowed: bool) -> (r:
        Result<(), EscrowError>)
        requires
            old(self)@.valid(),
        ensures
            final(self)@.valid(),
            outcome(
                r,
                old(self)@,
                final(self)@,
                final(self).effects(),
                allowlist_batch_error(old(self)@, investors@),
                allowlist_run(
                    old(self)@,
                    no_effects().auth(escrow_of(old(self)@).admin),
                    investors@,
                    allowed,
                ).0,
                (),
                allowlist_run(
                    old(self)@,
                    no_effects().auth(escrow_of(old(self)@).admin),
                    investors@,
                    allowed,
                ).1,
            ),
    {
        self.begin_call();
        if investors.len() == 0 {
            return Err(EscrowError::InvestorBatchEmpty);
        }
        if investors.len() > MAX_INVESTOR_ALLOWLIST_BATCH as usize {
            return Err(EscrowError::InvestorBatchTooLarge);
        }
        let e = match self.initialized() {
            Ok(e) => e,
            Err(err) => {
                return Err(err);
            },
        };
        let ghost pre = self@;
        self.require_auth(e.admin);
        let mut i: usize = 0;
        proof {
            assert(investors@.skip(0) =~= investors@);
        }
        while i < investors.len()
            invariant
                i <= investors@.len(),
                self@.valid(),
                self@.escrow == Some(e),
                pre == old(self)@,
                pre.escrow == Some(e),
                allowlist_run(pre, no_effects().auth(e.admin), investors@, allowed) == allowlist_run(
                    self@,
                    self.effects(),
                    investors@.skip(i as int),
                    allowed,
                ),
            decreases investors@.len() - i,
        {
            proof {
                assert(investors@.skip(i as int).drop_first() =~= investors@.skip(i as int + 1));
                assert(investors@.skip(i as int)[0] == investors@[i as int]);
            }
            self.allowlist_step(e, investors[i], allowed);
            i = i + 1;
        }
        proof {
            assert(investors@.skip(investors@.len() as int) =~= Seq::<Address>::empty());
        }
        Ok(())
    }

    // -----------------------------------------------------------------------
    // Caps and floors
    // -----------------------------------------------------------------------

    /// Tightens the distinct-funder cap of an open escrow, never below the
    /// funders already admitted. The admin must authorize.
    pub fn lower_max_unique_investors(&mut self, new_cap: u32) -> (r: Result<u32, EscrowError>)
        requires
            old(self)@.valid(),
        ensures
            final(self)@.valid(),
            outcome(
                r,
                old(self)@,
                final(self)@,
                final(self).effects(),
                lower_cap_error(old(self)@, new_cap),
                cap_state(old(self)@, new_cap),
                new_cap,
                lower_cap_effects(old(self)@, new_cap),
            ),
    {
        self.begin_call();
        let e = match self.initialized() {
            Ok(e) => e,
            Err(err) => {
                return Err(err);
            },
        };
        if e.status != STATUS_OPEN {
            return Err(EscrowError::CapLowerNotOpen);
        }
        let old_cap = match self.max_unique_investors {
            Some(c) => c,
            None => {
                return Err(EscrowError::NoInvestorCapConfigured);
            },
        };
        if new_cap >= old_cap {
            return Err(EscrowError::NewCapNotLower);
        }
        if new_cap < self.unique_funder_count {
            return Err(EscrowError::NewCapBelowCurrentFunderCount);
        }
        self.max_unique_investors = Some(new_cap);
        self.require_auth(e.admin);
        self.emit(
            EscrowEvent::MaxUniqueInvestorsCapLowered { invoice_id: e.invoice_id, old_cap, new_cap },
        );
        proof {
            assert(self@ =~= cap_state(old(self)@, new_cap));
            assert(self.effects() =~= lower_cap_effects(old(self)@, new_cap));
        }
        Ok(new_cap)
    }

    /// Loosens the distinct-funder cap of an open escrow. The admin must
    /// authorize.
    pub fn raise_max_unique_investors(&mut self, new_cap: u32) -> (r: Result<u32, EscrowError>)
        requires
            old(self)@.valid(),
        ensures
            final(self)@.valid(),
            outcome(
                r,
                old(self)@,
                final(self)@,
                final(self).effects(),
                raise_cap_error(old(self)@, new_cap),
                cap_state(old(self)@, new_cap),
                new_cap,
                raise_cap_effects(old(self)@, new_cap),
            ),
    {
        self.begin_call();
        let e = match self.initialized() {
            Ok(e) => e,
            Err(err) => {
                return Err(err);
            },
        };
        if e.status != STATUS_OPEN {
            return Err(EscrowError::CapRaiseNotOpen);
        }
        let old_cap = match self.max_unique_investors {
            Some(c) => c,
            None => {
                return Err(EscrowError::NoInvestorCapConfigured);
            },
        };
        if new_cap <= old_cap {
            return Err(EscrowError::NewCapNotHigher);
        }
        self.max_unique_investors = Some(new_cap);
        self.require_auth(e.admin);
        self.emit(
            EscrowEvent::MaxUniqueInvestorsCapRaised { invoice_id: e.invoice_id, old_cap, new_cap },
        );
        proof {
            assert(self@ =~= cap_state(old(self)@, new_cap));
            assert(self.effects() =~= raise_cap_effects(old(self)@, new_cap));
        }
        Ok(new_cap)
    }

    /// Lowers the per-deposit contribution floor of an open escrow; returns
    /// the new floor. The admin must authorize.
    pub fn lower_min_contribution_floor(&mut self, new_floor: i128) -> (r: Result<
        i128,
        EscrowError,
    >)
        requires
            old(self)@.valid(),
        ensures
            final(self)@.valid(),
            outcome(
                r,
                old(self)@,
                final(self)@,
                final(self).effects(),
                lower_floor_error(old(self)@, new_floor),
                floor_state(old(self)@, new_floor),
                new_floor,
                lower_floor_effects(old(self)@, new_floor),
            ),
    {
        self.begin_call();
        let e = match self.initialized() {
            Ok(e) => e,
            Err(err) => {
                return Err(err);
            },
        };
        if e.status != STATUS_OPEN {
            return Err(EscrowError::FloorLowerNotOpen);
        }
        if new_floor <= 0 {
            return Err(EscrowError::NewFloorNotPositive);
        }
        let old_floor = self.min_contribution;
        if new_floor >= old_floor {
            return Err(EscrowError::NewFloorNotLower);
        }
        self.min_contribution = new_floor;
        self.require_auth(e.admin);
        self.emit(
            EscrowEvent::MinContributionFloorLowered {
                invoice_id: e.invoice_id,
                old_floor,
                new_floor,
            },
        );
        proof {
            assert(self@ =~= floor_state(old(self)@, new_floor));
            assert(self.effects() =~= lower_floor_effects(old(self)@, new_floor));
        }
        Ok(new_floor)
    }

    // -----------------------------------------------------------------------
    // Maturity, horizon and deadline
    // -----------------------------------------------------------------------

    /// Moves the maturity of an open escrow (zero removes the maturity
    /// gate); a new maturity must lie between now and now plus the horizon.
    /// The admin must authorize.
    pub fn update_maturity(&mut self, new_maturity: u64) -> (r: Result<InvoiceEscrow, EscrowError>)
        requires
            old(self)@.valid(),
        ensures
            final(self)@.valid(),
            outcome(
                r,
                old(self)@,
                final(self)@,
                final(self).effects(),
                maturity_update_error(old(self)@, new_maturity),
                maturity_state(old(self)@, new_maturity),
                escrow_of(maturity_state(old(self)@, new_maturity)),
                maturity_effects(old(self)@, new_maturity),
            ),
    {
        self.begin_call();
        let e = match self.initialized() {
            Ok(e) => e,
            Err(err) => {
                return Err(err);
            },
        };
        if e.status != STATUS_OPEN {
            return Err(EscrowError::MaturityUpdateNotOpen);
        }
        if new_maturity == e.maturity {
            return Err(EscrowError::MaturityUnchanged);
        }
        let horizon = match self.maturity_max_horizon {
            Some(h) => h,
            None => DEFAULT_MATURITY_MAX_HORIZON_SECS,
        };
        match check_maturity_bounds(new_maturity, self.ledger.timestamp, horizon) {
            Ok(()) => {},
            Err(err) => {
                return Err(err);
            },
        }
        let updated = InvoiceEscrow { maturity: new_maturity, ..e };
        self.escrow = Some(updated);
        self.require_auth(e.admin);
        self.emit(
            EscrowEvent::MaturityUpdatedEvent {
                invoice_id: e.invoice_id,
                old_maturity: e.maturity,
                new_maturity,
            },
        );
        proof {
            assert(self@ =~= maturity_state(old(self)@, new_maturity));
            assert(self.effects() =~= maturity_effects(old(self)@, new_maturity));
        }
        Ok(updated)
    }

    /// Sets how far ahead of the ledger a maturity may be placed and returns
    /// the new horizon. An existing maturity is not revisited. The admin
    /// must authorize.
    pub fn update_maturity_max_horizon(&mut self, new_horizon: u64) -> (r: Result<u64, EscrowError>)
        requires
            old(self)@.valid(),
        ensures
            final(self)@.valid(),
            outcome(
                r,
                old(self)@,
                final(self)@,
                final(self).effects(),
                admin_call_error(old(self)@),
                horizon_state(old(self)@, new_horizon),
                new_horizon,
                horizon_effects(old(self)@, new_horizon),
            ),
    {
        self.begin_call();
        let e = match self.initialized() {
            Ok(e) => e,
            Err(err) => {
                return Err(err);
            },
        };
        let old_horizon = match self.maturity_max_horizon {
            Some(h) => h,
            None => DEFAULT_MATURITY_MAX_HORIZON_SECS,
        };
        self.maturity_max_horizon = Some(new_horizon);
        self.require_auth(e.admin);
        self.emit(
            EscrowEvent::MaturityMaxHorizonUpdated {
                invoice_id: e.invoice_id,
                old_horizon,
                new_horizon,
            },
        );
        proof {
            assert(self@ =~= horizon_state(old(self)@, new_horizon));
            assert(self.effects() =~= horizon_effects(old(self)@, new_horizon));
        }
        Ok(new_horizon)
    }

    /// Sets, moves or removes the funding deadline of an open escrow; a new
    /// deadline must lie strictly in the future. The admin must authorize.
    pub fn update_funding_deadline(&mut self, new_deadline: Option<u64>) -> (r: Result<
        (),
        EscrowError,
    >)
        requires
            old(self)@.valid(),
        ensures
            final(self)@.valid(),
            outcome(
                r,
                old(self)@,
                final(self)@,
                final(self).effects(),
                deadline_update_error(old(self)@, new_deadline),
                deadline_state(old(self)@, new_deadline),
                (),
                deadline_effects(old(self)@, new_deadline),
            ),
    {
        self.begin_call();
        let e = match self.initialized() {
            Ok(e) => e,
            Err(err) => {
                return Err(err);
            },
        };
        if e.status != STATUS_OPEN {
            return Err(EscrowError::FundingDeadlineUpdateNotOpen);
        }
        if let Some(d) = new_deadline {
            if d <= self.ledger.timestamp {
                return Err(EscrowError::FundingDeadlinePassed);
            }
        }
        let prior_deadline = self.funding_deadline;
        self.funding_deadline = new_deadline;
        self.require_auth(e.admin);
        self.emit(
            EscrowEvent::FundingDeadlineUpdated {
                invoice_id: e.invoice_id,
                prior_deadline,
                new_deadline,
            },
        );
        proof {
            assert(self@ =~= deadline_state(old(self)@, new_deadline));
            assert(self.effects() =~= deadline_effects(old(self)@, new_deadline));
        }
        Ok(())
    }

    // -----------------------------------------------------------------------
    // Admin handover and beneficiary rotation
    // -----------------------------------------------------------------------

    /// Proposes `new_admin` as successor (replacing an earlier proposal),
    /// optionally acceptable only until `expires_at`, and returns the pending
    /// admin. The admin must authorize.
    pub fn propose_admin(&mut self, new_admin: Address, expires_at: Option<u64>) -> (r: Result<
        Address,
        EscrowError,
    >)
        requires
            old(self)@.valid(),
        ensures
            final(self)@.valid(),
            outcome(
                r,
                old(self)@,
                final(self)@,
                final(self).effects(),
                propose_error(old(self)@, new_admin),
                propose_state(old(self)@, new_admin, expires_at),
                new_admin,
                admin_effects(old(self)@, proposed_event(old(self)@, new_admin)),
            ),
    {
        self.begin_call();
        let e = match self.initialized() {
            Ok(e) => e,
            Err(err) => {
                return Err(err);
            },
        };
        if new_admin == e.admin {
            return Err(EscrowError::NewAdminSameAsCurrent);
        }
        self.pending_admin = Some(PendingAdmin { address: new_admin, expires_at });
        self.require_auth(e.admin);
        self.emit(
            EscrowEvent::AdminProposedEvent {
                invoice_id: e.invoice_id,
                current_admin: e.admin,
                pending_admin: new_admin,
            },
        );
        proof {
            assert(self@ =~= propose_state(old(self)@, new_admin, expires_at));
            assert(self.effects() =~= admin_effects(old(self)@, proposed_event(old(self)@, new_admin)));
        }
        Ok(new_admin)
    }

    /// Deprecated single-step handover: only proposes `new_admin` (without
    /// expiry) and publishes a deprecation notice; the escrow record is
    /// returned unchanged.
    pub fn transfer_admin(&mut self, new_admin: Address) -> (r: Result<InvoiceEscrow, EscrowError>)
        requires
            old(self)@.valid(),
        ensures
            final(self)@.valid(),
            outcome(
                r,
                old(self)@,
                final(self)@,
                final(self).effects(),
                propose_error(old(self)@, new_admin),
                propose_state(old(self)@, new_admin, None),
                escrow_of(old(self)@),
                transfer_admin_effects(old(self)@, new_admin),
            ),
    {
        let r = self.propose_admin(new_admin, None);
        match r {
            Ok(_) => {
                let e = self.escrow.unwrap();
                self.emit(
                    EscrowEvent::DeprecatedTransferAdminUsed {
                        invoice_id: e.invoice_id,
                        proposed_address: new_admin,
                    },
                );
                Ok(e)
            },
            Err(err) => Err(err),
        }
    }

    /// The pending admin takes over (before the proposal expires). The new
    /// admin must authorize.
    pub fn accept_admin(&mut self) -> (r: Result<InvoiceEscrow, EscrowError>)
        requires
            old(self)@.valid(),
        ensures
            final(self)@.valid(),
            outcome(
                r,
                old(self)@,
                final(self)@,
                final(self).effects(),
                accept_error(old(self)@),
                accept_state(old(self)@),
                escrow_of(accept_state(old(self)@)),
                accept_effects(old(self)@),
            ),
    {
        self.begin_call();
        let e = match self.initialized() {
            Ok(e) => e,
            Err(err) => {
                return Err(err);
            },
        };
        let p = match self.pending_admin {
            Some(p) => p,
            None => {
                return Err(EscrowError::NoPendingAdmin);
            },
        };
        if let Some(t) = p.expires_at {
            if self.ledger.timestamp > t {
                return Err(EscrowError::PendingAdminExpired);
            }
        }
        let updated = InvoiceEscrow { admin: p.address, ..e };
        self.escrow = Some(updated);
        self.pending_admin = None;
        self.require_auth(p.address);
        self.emit(
            EscrowEvent::AdminTransferredEvent { invoice_id: e.invoice_id, new_admin: p.address },
        );
        self.emit(
            EscrowEvent::AdminAcceptedEvent {
                invoice_id: e.invoice_id,
                prior_admin: e.admin,
                new_admin: p.address,
            },
        );
        proof {
            assert(self@ =~= accept_state(old(self)@));
            assert(self.effects() =~= accept_effects(old(self)@));
        }
        Ok(updated)
    }

    /// Withdraws the pending proposal. The admin must authorize.
    pub fn cancel_pending_admin(&mut self) -> (r: Result<(), EscrowError>)
        requires
            old(self)@.valid(),
        ensures
            final(self)@.valid(),
            outcome(
                r,
                old(self)@,
                final(self)@,
                final(self).effects(),
                cancel_pending_error(old(self)@),
                cancel_pending_state(old(self)@),
                (),
                cancel_pending_effects(old(self)@),
            ),
    {
        self.begin_call();
        let e = match self.initialized() {
            Ok(e) => e,
            Err(err) => {
                return Err(err);
            },
        };
        let p = match self.pending_admin {
            Some(p) => p,
            None => {
                return Err(EscrowError::NoPendingAdmin);
            },
        };
        self.pending_admin = None;
        self.require_auth(e.admin);
        self.emit(
            EscrowEvent::AdminProposalCancelled {
                invoice_id: e.invoice_id,
                cancelled_pending: p.address,
            },
        );
        proof {
            assert(self@ =~= cancel_pending_state(old(self)@));
            assert(self.effects() =~= cancel_pending_effects(old(self)@));
        }
        Ok(())
    }

    /// Replaces the SME beneficiary while the escrow is open or funded. The
    /// current SME and the admin must both authorize.
    pub fn rotate_beneficiary(&mut self, new_sme: Address) -> (r: Result<InvoiceEscrow, EscrowError>)
        requires
            old(self)@.valid(),
        ensures
            final(self)@.valid(),
            outcome(
                r,
                old(self)@,
                final(self)@,
                final(self).effects(),
                rotate_error(old(self)@, new_sme),
                rotate_state(old(self)@, new_sme),
                escrow_of(rotate_state(old(self)@, new_sme)),
                rotate_effects(old(self)@, new_sme),
            ),
    {
        self.begin_call();
        let e = match self.initialized() {
            Ok(e) => e,
            Err(err) => {
                return Err(err);
            },
        };
        if self.legal_hold {
            return Err(EscrowError::LegalHoldBlocksBeneficiaryRotation);
        }
        if e.status != STATUS_OPEN && e.status != STATUS_FUNDED {
            return Err(EscrowError::RotationNotOpen);
        }
        if new_sme == e.sme_address {
            return Err(EscrowError::NewSmeSameAsCurrent);
        }
        let updated = InvoiceEscrow { sme_address: new_sme, ..e };
        self.escrow = Some(updated);
        self.require_auth(e.sme_address);
        self.require_auth(e.admin);
        self.emit(
            EscrowEvent::BeneficiaryRotated {
                invoice_id: e.invoice_id,
                prior_sme: e.sme_address,
                new_sme,
            },
        );
        proof {
            assert(self@ =~= rotate_state(old(self)@, new_sme));
            assert(self.effects() =~= rotate_effects(old(self)@, new_sme));
        }
        Ok(updated)
    }

    // -----------------------------------------------------------------------
    // Registry and collateral metadata
    // -----------------------------------------------------------------------

    /// Points the escrow at another registry (or at none). The admin must
    /// authorize.
    pub fn rebind_registry_ref(&mut self, registry: Option<Address>) -> (r: Result<(), EscrowError>)
        requires
            old(self)@.valid(),
        ensures
            final(self)@.valid(),
            outcome(
                r,
                old(self)@,
                final(self)@,
                final(self).effects(),
                admin_call_error(old(self)@),
                registry_state(old(self)@, registry),
                (),
                registry_effects(old(self)@, registry),
            ),
    {
        self.begin_call();
        let e = match self.initialized() {
            Ok(e) => e,
            Err(err) => {
                return Err(err);
            },
        };
        self.registry = registry;
        self.require_auth(e.admin);
        self.emit(EscrowEvent::RegistryRefRebound { invoice_id: e.invoice_id, registry });
        proof {
            assert(self@ =~= registry_state(old(self)@, registry));
            assert(self.effects() =~= registry_effects(old(self)@, registry));
        }
        Ok(())
    }

    /// Removes the registry reference. The admin must authorize.
    pub fn clear_registry_ref(&mut self) -> (r: Result<(), EscrowError>)
        requires
            old(self)@.valid(),
        ensures
            final(self)@.valid(),
            outcome(
                r,
                old(self)@,
                final(self)@,
                final(self).effects(),
                admin_call_error(old(self)@),
                registry_state(old(self)@, None),
                (),
                registry_effects(old(self)@, None),
            ),
    {
        self.rebind_registry_ref(None)
    }

    /// Records the SME's reported collateral pledge (metadata only; nothing
    /// is locked), replacing an earlier one. The SME must authorize.
    pub fn record_sme_collateral_commitment(&mut self, asset: ShortSymbol, amount: i128) -> (r:
        Result<SmeCollateralCommitment, EscrowError>)
        requires
            old(self)@.valid(),
        ensures
            final(self)@.valid(),
            outcome(
                r,
                old(self)@,
                final(self)@,
                final(self).effects(),
                collateral_error(old(self)@, asset, amount),
                collateral_state(old(self)@, asset, amount),
                collateral_of(old(self)@, asset, amount),
                collateral_effects(old(self)@, amount),
            ),
    {
        self.begin_call();
        let e = match self.initialized() {
            Ok(e) => e,
            Err(err) => {
                return Err(err);
            },
        };
        if amount <= 0 {
            return Err(EscrowError::CollateralAmountNotPositive);
        }
        if asset.is_empty() {
            return Err(EscrowError::CollateralAssetEmpty);
        }
        let now = self.ledger.timestamp;
        let prior_amount = match self.collateral {
            Some(c) => {
                if now < c.recorded_at {
                    return Err(EscrowError::CollateralTimestampBackwards);
                }
                c.amount
            },
            None => 0,
        };
        let c = SmeCollateralCommitment { asset, amount, recorded_at: now };
        self.collateral = Some(c);
        self.require_auth(e.sme_address);
        self.emit(EscrowEvent::CollateralRecordedEvt { invoice_id: e.invoice_id, amount, prior_amount });
        proof {
            assert(self@ =~= collateral_state(old(self)@, asset, amount));
            assert(self.effects() =~= collateral_effects(old(self)@, amount));
        }
        Ok(c)
    }

    /// Removes the collateral pledge, whatever the escrow's status. The SME
    /// must authorize; an absent pledge is reported before any
    /// authorization is asked for.
    pub fn clear_sme_collateral_commitment(&mut self) -> (r: Result<(), EscrowError>)
        requires
            old(self)@.valid(),
        ensures
            final(self)@.valid(),
            outcome(
                r,
                old(self)@,
                final(self)@,
                final(self).effects(),
                clear_collateral_error(old(self)@),
                clear_collateral_state(old(self)@),
                (),
                clear_collateral_effects(old(self)@),
            ),
    {
        self.begin_call();
        let e = match self.initialized() {
            Ok(e) => e,
            Err(err) => {
                return Err(err);
            },
        };
        let c = match self.collateral {
            Some(c) => c,
            None => {
                return Err(EscrowError::NoCollateralToClear);
            },
        };
        self.collateral = None;
        self.require_auth(e.sme_address);
        self.emit(EscrowEvent::CollateralClearedEvt { invoice_id: e.invoice_id, amount: c.amount });
        self.emit(
            EscrowEvent::CollateralCommitmentCleared {
                invoice_id: e.invoice_id,
                asset: c.asset,
                amount: c.amount,
                recorded_at: c.recorded_at,
            },
        );
        proof {
            assert(self@ =~= clear_collateral_state(old(self)@));
            assert(self.effects() =~= clear_collateral_effects(old(self)@));
        }
        Ok(())
    }

    // -----------------------------------------------------------------------
    // Migration and upgrade
    // -----------------------------------------------------------------------

    /// Schema migration entrypoint. The admin of an initialized escrow must
    /// authorize before any version is compared. No migration exists for
    /// this schema version, so every call fails: with a version mismatch, as
    /// already current, or as having no migration path; storage is unchanged.
    pub fn migrate(&mut self, from_version: u32) -> (r: Result<u32, EscrowError>)
        requires
            old(self)@.valid(),
        ensures
            final(self)@ == old(self)@,
            r == Err::<u32, EscrowError>(migrate_error(old(self)@, from_version)),
            final(self).effects() == migrate_effects(old(self)@),
    {
        self.begin_call();
        if let Some(e) = self.escrow {
            self.require_auth(e.admin);
        }
        if from_version != self.version {
            return Err(EscrowError::MigrationVersionMismatch);
        }
        if from_version >= SCHEMA_VERSION {
            return Err(EscrowError::AlreadyCurrentSchemaVersion);
        }
        Err(EscrowError::NoMigrationPath)
    }

    /// Authorizes replacing the contract code with `new_wasm_hash` and
    /// publishes the upgrade; the host installs the code. The admin must
    /// authorize.
    pub fn upgrade(&mut self, new_wasm_hash: Digest) -> (r: Result<(), EscrowError>)
        requires
            old(self)@.valid(),
        ensures
            final(self)@.valid(),
            outcome(
                r,
                old(self)@,
                final(self)@,
                final(self).effects(),
                admin_call_error(old(self)@),
                old(self)@,
                (),
                upgrade_effects(old(self)@, new_wasm_hash),
            ),
    {
        self.begin_call();
        let e = match self.initialized() {
            Ok(e) => e,
            Err(err) => {
                return Err(err);
            },
        };
        self.require_auth(e.admin);
        self.emit(EscrowEvent::ContractUpgraded { new_wasm_hash });
        proof {
            assert(self.effects() =~= upgrade_effects(old(self)@, new_wasm_hash));
        }
        Ok(())
    }
}

} // verus!
