//! Attestation entrypoints: the write-once primary digest and the bounded,
//! append-only digest log with revocation marks.
use vstd::prelude::*;

use super::LiquifactEscrow;
use crate::errors::EscrowError;
use crate::events::EscrowEvent;
use crate::model::governance::{
    admin_effects, append_effects, append_error, append_state, bind_effects, bind_error,
    bind_state, mark_state, revoke_error, revoke_many_error, revoke_run, revoked_event,
    unrevoke_effects, unrevoke_error,
};
use crate::model::{escrow_of, outcome};
use crate::state::no_effects;
use crate::types::{AttestationInfo, Digest, InvoiceEscrow, MAX_ATTESTATION_APPEND_ENTRIES};

verus! {

impl LiquifactEscrow {
    /// Binds the primary attestation digest; it can be bound only once. The
    /// admin must authorize.
    pub fn bind_primary_attestation_hash(&mut self, digest: Digest) -> (r: Result<(), EscrowError>)
        requires
            old(self)@.valid(),
        ensures
            final(self)@.valid(),
            outcome(
                r,
                old(self)@,
                final(self)@,
                final(self).effects(),
                bind_error(old(self)@),
                bind_state(old(self)@, digest),
                (),
                bind_effects(old(self)@, digest),
            ),
    {
        self.begin_call();
        let e = match self.escrow {
            Some(e) => e,
            None => {
                return Err(EscrowError::EscrowNotInitialized);
            },
        };
        if self.primary_attestation.is_some() {
            return Err(EscrowError::PrimaryAttestationAlreadyBound);
        }
        self.primary_attestation = Some(digest);
        self.require_auth(e.admin);
        self.emit(EscrowEvent::PrimaryAttestationBound { invoice_id: e.invoice_id, digest });
        proof {
            assert(self@ =~= bind_state(old(self)@, digest));
            assert(self.effects() =~= bind_effects(old(self)@, digest));
        }
        Ok(())
    }

    /// Appends a digest to the log (at most 32 entries); returns its index.
    /// The admin must authorize.
    pub fn append_attestation_digest(&mut self, digest: Digest) -> (r: Result<u32, EscrowError>)
        requires
            old(self)@.valid(),
        ensures
            final(self)@.valid(),
            outcome(
                r,
                old(self)@,
                final(self)@,
                final(self).effects(),
                append_error(old(self)@),
                append_state(old(self)@, digest),
                old(self)@.attestations.len() as u32,
                append_effects(old(self)@, digest),
            ),
    {
        self.begin_call();
        let e = match self.escrow {
            Some(e) => e,
            None => {
                return Err(EscrowError::EscrowNotInitialized);
            },
        };
        if self.attestations.len() >= MAX_ATTESTATION_APPEND_ENTRIES as usize {
            return Err(EscrowError::AttestationAppendLogCapacityReached);
        }
        let index = self.attestations.len() as u32;
        self.attestations.push(AttestationInfo { digest, revoked: false });
        self.require_auth(e.admin);
        self.emit(EscrowEvent::AttestationDigestAppended { invoice_id: e.invoice_id, index, digest });
        proof {
            assert(self@ =~= append_state(old(self)@, digest));
            assert(self.effects() =~= append_effects(old(self)@, digest));
        }
        Ok(index)
    }

    /// Sets the revocation mark of log entry `index` (after its checks).
    fn mark(&mut self, index: u32, revoked: bool)
        requires
            old(self)@.valid(),
            index < old(self)@.attestations.len(),
        ensures
            final(self)@.valid(),
            final(self)@ == mark_state(old(self)@, index, revoked),
            final(self).effects() == old(self).effects(),
    {
        let i = index as usize;
        let info = self.attestations[i];
        self.attestations.set(i, AttestationInfo { revoked, ..info });
        proof {
            assert(self@ =~= mark_state(old(self)@, index, revoked));
            assert(self.effects() =~= old(self).effects());
        }
    }

    /// One revocation, appending its event to the effects already gathered.
    fn revoke_step(&mut self, e: InvoiceEscrow, index: u32) -> (r: Result<(), EscrowError>)
        requires
            old(self)@.valid(),
            old(self)@.escrow == Some(e),
        ensures
            final(self)@.valid(),
            match revoke_error(old(self)@, index) {
                Some(err) => r == Err::<(), EscrowError>(err) && final(self)@ == old(self)@
                    && final(self).effects() == old(self).effects(),
                None => r is Ok && final(self)@ == mark_state(old(self)@, index, true)
                    && final(self).effects() == old(self).effects().emit(
                    revoked_event(old(self)@, index),
                ),
            },
    {
        if index as usize >= self.attestations.len() {
            return Err(EscrowError::AttestationIndexOutOfRange);
        }
        if self.attestations[index as usize].revoked {
            return Err(EscrowError::AttestationAlreadyRevoked);
        }
        self.mark(index, true);
        self.emit(EscrowEvent::AttestationDigestRevoked { invoice_id: e.invoice_id, index });
        Ok(())
    }

    /// Marks log entry `index` as revoked; the digest stays in the log. The
    /// admin must authorize.
    pub fn revoke_attestation_digest(&mut self, index: u32) -> (r: Result<(), EscrowError>)
        requires
            old(self)@.valid(),
        ensures
            final(self)@.valid(),
            outcome(
                r,
                old(self)@,
                final(self)@,
                final(self).effects(),
                revoke_error(old(self)@, index),
                mark_state(old(self)@, index, true),
                (),
                admin_effects(old(self)@, revoked_event(old(self)@, index)),
            ),
    {
        self.begin_call();
        let e = match self.escrow {
            Some(e) => e,
            None => {
                return Err(EscrowError::EscrowNotInitialized);
            },
        };
        if index as usize >= self.attestations.len() {
            return Err(EscrowError::AttestationIndexOutOfRange);
        }
        if self.attestations[index as usize].revoked {
            return Err(EscrowError::AttestationAlreadyRevoked);
        }
        self.require_auth(e.admin);
        let r = self.revoke_step(e, index);
        proof {
            assert(self.effects() =~= admin_effects(old(self)@, revoked_event(old(self)@, index)));
        }
        match r {
            Ok(()) => Ok(()),
            Err(err) => Err(err),
        }
    }

    /// Clears the revocation mark of log entry `index`. The admin must
    /// authorize.
    pub fn unrevoke_attestation_digest(&mut self, index: u32) -> (r: Result<(), EscrowError>)
        requires
            old(self)@.valid(),
        ensures
            final(self)@.valid(),
            outcome(
                r,
                old(self)@,
                final(self)@,
                final(self).effects(),
                unrevoke_error(old(self)@, index),
                mark_state(old(self)@, index, false),
                (),
                unrevoke_effects(old(self)@, index),
            ),
    {
        self.begin_call();
        let e = match self.escrow {
            Some(e) => e,
            None => {
                return Err(EscrowError::EscrowNotInitialized);
            },
        };
        if index as usize >= self.attestations.len() {
            return Err(EscrowError::AttestationIndexOutOfRange);
        }
        if !self.attestations[index as usize].revoked {
            return Err(EscrowError::AttestationNotRevoked);
        }
        self.mark(index, false);
        self.require_auth(e.admin);
        self.emit(EscrowEvent::AttestationDigestUnrevoked { invoice_id: e.invoice_id, index });
        proof {
            assert(self.effects() =~= unrevoke_effects(old(self)@, index));
        }
        Ok(())
    }

    /// Revokes several log entries in one atomic call, one event each. The
    /// admin must authorize.
    pub fn revoke_attestation_digests(&mut self, indices: &[u32]) -> (r: Result<(), EscrowError>)
        requires
            old(self)@.valid(),
        ensures
            final(self)@.valid(),
            outcome(
                r,
                old(self)@,
                final(self)@,
                final(self).effects(),
                revoke_many_error(old(self)@, indices@),
                revoke_run(old(self)@, no_effects().auth(escrow_of(old(self)@).admin), indices@).unwrap().0,
                (),
                revoke_run(old(self)@, no_effects().auth(escrow_of(old(self)@).admin), indices@).unwrap().1,
            ),
    {
        self.begin_call();
        let ghost pre = self@;
        let e = match self.escrow {
            Some(e) => e,
            None => {
                return Err(EscrowError::EscrowNotInitialized);
            },
        };
        let mut work = self.duplicate();
        work.require_auth(e.admin);
        let mut i: usize = 0;
        proof {
            assert(indices@.skip(0) =~= indices@);
        }
        while i < indices.len()
            invariant
                i <= indices@.len(),
                work@.valid(),
                work@.escrow == Some(e),
                self@ == pre,
                pre == old(self)@,
                pre.valid(),
                pre.escrow == Some(e),
                self.effects() == no_effects(),
                revoke_run(pre, no_effects().auth(e.admin), indices@) == revoke_run(
                    work@,
                    work.effects(),
                    indices@.skip(i as int),
                ),
            decreases indices@.len() - i,
        {
            proof {
                assert(indices@.skip(i as int).drop_first() =~= indices@.skip(i as int + 1));
                assert(indices@.skip(i as int)[0] == indices@[i as int]);
            }
            let ghost before = work@;
            let ghost before_effects = work.effects();
            let step = work.revoke_step(e, indices[i]);
            match step {
                Ok(()) => {},
                Err(err) => {
                    proof {
                        assert(revoke_run(before, before_effects, indices@.skip(i as int)) == Err::<
                            (crate::state::EscrowState, crate::state::Effects),
                            EscrowError,
                        >(err));
                    }
                    return Err(err);
                },
            }
            i = i + 1;
        }
        proof {
            assert(indices@.skip(indices@.len() as int) =~= Seq::<u32>::empty());
        }
        *self = work;
        Ok(())
    }
}

} // verus!
