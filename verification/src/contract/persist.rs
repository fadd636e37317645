//! Saving and restoring the escrow's storage. Restoring re-checks the
//! escrow's invariant, so storage that breaks it is refused rather than
//! trusted.
use vstd::prelude::*;

use super::{copy_vec, LiquifactEscrow};
use crate::state::{
    contributions_nonneg, lemma_total_prefix_le, no_effects, total_contributions,
    unique_investors, yield_in_range, yields_in_range, StorageImage,
};
use crate::types::{
    Address, InvestorEntry, Ledger, MAX_ATTESTATION_APPEND_ENTRIES, STATUS_CANCELLED,
    STATUS_FUNDED, STATUS_OPEN, STATUS_SETTLED, STATUS_WITHDRAWN,
};
use crate::validation::{lemma_tiers_error_none_iff_valid, validate_yield_tiers};

verus! {

/// Whether no address occurs twice in the table.
fn investors_unique(inv: &Vec<InvestorEntry>) -> (r: bool)
    ensures
        r == unique_investors(inv@),
{
    let n = inv.len();
    let mut j: usize = 0;
    while j < n
        invariant
            n == inv@.len(),
            j <= n,
            forall|a: int, b: int|
                0 <= a < b < j ==> #[trigger] inv@[a].investor != #[trigger] inv@[b].investor,
        decreases n - j,
    {
        let mut i: usize = 0;
        while i < j
            invariant
                n == inv@.len(),
                i <= j < n,
                forall|a: int, b: int|
                    0 <= a < b < j ==> #[trigger] inv@[a].investor != #[trigger] inv@[b].investor,
                forall|a: int| 0 <= a < i ==> #[trigger] inv@[a].investor != inv@[j as int].investor,
            decreases j - i,
        {
            if inv[i].investor == inv[j].investor {
                return false;
            }
            i = i + 1;
        }
        j = j + 1;
    }
    true
}

/// Whether every contribution is non-negative and every fixed tier yield
/// lies in range.
fn records_in_range(inv: &Vec<InvestorEntry>) -> (r: bool)
    ensures
        r == (contributions_nonneg(inv@) && yields_in_range(inv@)),
{
    let mut i: usize = 0;
    while i < inv.len()
        invariant
            i <= inv@.len(),
            forall|k: int| 0 <= k < i ==> 0 <= #[trigger] inv@[k].record.contribution,
            forall|k: int| 0 <= k < i ==> yield_in_range(#[trigger] inv@[k].record),
        decreases inv@.len() - i,
    {
        let r = inv[i].record;
        if r.contribution < 0 {
            return false;
        }
        match r.effective_yield_bps {
            Some(y) => {
                if y < 0 || y > 10_000 {
                    return false;
                }
            },
            None => {},
        }
        i = i + 1;
    }
    true
}

/// The sum of all contributions, or `None` when it exceeds `i128`.
fn contributions_total(inv: &Vec<InvestorEntry>) -> (r: Option<i128>)
    requires
        contributions_nonneg(inv@),
    ensures
        match r {
            Some(t) => t == total_contributions(inv@),
            None => total_contributions(inv@) > i128::MAX,
        },
{
    let mut acc: i128 = 0;
    let mut i: usize = 0;
    proof {
        assert(inv@.take(0) =~= Seq::<InvestorEntry>::empty());
    }
    while i < inv.len()
        invariant
            i <= inv@.len(),
            contributions_nonneg(inv@),
            acc == total_contributions(inv@.take(i as int)),
            0 <= acc,
        decreases inv@.len() - i,
    {
        let c = inv[i].record.contribution;
        proof {
            assert(inv@.take(i as int + 1).drop_last() =~= inv@.take(i as int));
            assert(0 <= inv@[i as int].record.contribution);
        }
        if acc > i128::MAX - c {
            proof {
                lemma_total_prefix_le(inv@, i as int + 1);
            }
            return None;
        }
        acc = acc + c;
        i = i + 1;
    }
    proof {
        assert(inv@.take(inv@.len() as int) =~= inv@);
    }
    Some(acc)
}

/// Whether an image satisfies the escrow's invariant.
fn image_valid(img: &StorageImage, Ghost(contract): Ghost<Address>, Ghost(ledger): Ghost<Ledger>) -> (r: bool)
    ensures
        r == img.state(contract, ledger).valid(),
{
    if img.attestations.len() > MAX_ATTESTATION_APPEND_ENTRIES as usize {
        return false;
    }
    if img.distributed_principal < 0 {
        return false;
    }
    if let Some(cap) = img.max_unique_investors {
        if img.unique_funder_count > cap {
            return false;
        }
    }
    if !investors_unique(&img.investors) {
        return false;
    }
    if !records_in_range(&img.investors) {
        return false;
    }
    let e = match img.escrow {
        None => {
            return img.investors.len() == 0 && img.snapshot.is_none() && img.distributed_principal
                == 0 && img.unique_funder_count == 0;
        },
        Some(e) => e,
    };
    if e.funding_target <= 0 || e.yield_bps < 0 || e.yield_bps > 10_000 || e.funded_amount < 0
        || e.status > STATUS_CANCELLED {
        return false;
    }
    proof {
        lemma_tiers_error_none_iff_valid(img.yield_tiers@, e.yield_bps);
    }
    if validate_yield_tiers(img.yield_tiers.as_slice(), e.yield_bps).is_err() {
        return false;
    }
    let closed = e.status == STATUS_FUNDED || e.status == STATUS_SETTLED || e.status
        == STATUS_WITHDRAWN;
    if img.snapshot.is_some() != closed {
        return false;
    }
    if e.status == STATUS_OPEN && e.funded_amount >= e.funding_target {
        return false;
    }
    let total = match contributions_total(&img.investors) {
        Some(t) => t,
        None => {
            return false;
        },
    };
    if e.status <= STATUS_SETTLED {
        total == e.funded_amount && img.distributed_principal == 0
    } else if e.status == STATUS_WITHDRAWN {
        total == e.funded_amount && img.distributed_principal == e.funded_amount
    } else {
        total <= i128::MAX - img.distributed_principal && total + img.distributed_principal
            == e.funded_amount
    }
}

impl LiquifactEscrow {
    /// The persistent storage as plain values.
    pub fn to_image(&self) -> (r: StorageImage)
        ensures
            r.state(self@.contract, self@.ledger) == self@,
    {
        let r = StorageImage {
            escrow: self.escrow,
            version: self.version,
            funding_token: self.funding_token,
            treasury: self.treasury,
            registry: self.registry,
            pending_admin: self.pending_admin,
            legal_hold: self.legal_hold,
            legal_hold_clear_delay: self.legal_hold_clear_delay,
            legal_hold_clearable_at: self.legal_hold_clearable_at,
            funding_deadline: self.funding_deadline,
            min_contribution: self.min_contribution,
            max_unique_investors: self.max_unique_investors,
            max_per_investor: self.max_per_investor,
            maturity_max_horizon: self.maturity_max_horizon,
            yield_tiers: copy_vec(&self.yield_tiers),
            snapshot: self.snapshot,
            unique_funder_count: self.unique_funder_count,
            distributed_principal: self.distributed_principal,
            allowlist_active: self.allowlist_active,
            investors: copy_vec(&self.investors),
            primary_attestation: self.primary_attestation,
            attestations: copy_vec(&self.attestations),
            collateral: self.collateral,
        };
        proof {
            assert(r.state(self@.contract, self@.ledger) =~= self@);
        }
        r
    }

    /// Restores an escrow at `contract`, observing `ledger`, from saved
    /// storage; `None` when the storage breaks the escrow's invariant.
    pub fn from_image(contract: Address, ledger: Ledger, img: StorageImage) -> (r: Option<Self>)
        ensures
            r is Some <==> img.state(contract, ledger).valid(),
            r matches Some(e) ==> e@ == img.state(contract, ledger) && e.effects()
                == no_effects(),
    {
        if !image_valid(&img, Ghost(contract), Ghost(ledger)) {
            return None;
        }
        let ghost expected = img.state(contract, ledger);
        let r = LiquifactEscrow {
            contract,
            ledger,
            escrow: img.escrow,
            version: img.version,
            funding_token: img.funding_token,
            treasury: img.treasury,
            registry: img.registry,
            pending_admin: img.pending_admin,
            legal_hold: img.legal_hold,
            legal_hold_clear_delay: img.legal_hold_clear_delay,
            legal_hold_clearable_at: img.legal_hold_clearable_at,
            funding_deadline: img.funding_deadline,
            min_contribution: img.min_contribution,
            max_unique_investors: img.max_unique_investors,
            max_per_investor: img.max_per_investor,
            maturity_max_horizon: img.maturity_max_horizon,
            yield_tiers: img.yield_tiers,
            snapshot: img.snapshot,
            unique_funder_count: img.unique_funder_count,
            distributed_principal: img.distributed_principal,
            allowlist_active: img.allowlist_active,
            investors: img.investors,
            primary_attestation: img.primary_attestation,
            attestations: img.attestations,
            collateral: img.collateral,
            events: Vec::new(),
            auths: Vec::new(),
            transfers: Vec::new(),
        };
        proof {
            assert(r@ =~= expected);
            assert(r.effects() =~= no_effects());
        }
        Some(r)
    }
}

} // verus!
