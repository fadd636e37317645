//! The escrow's storage, its abstract view, the invariant every operation
//! keeps, and the per-investor table with its lemmas.
use vstd::prelude::*;

use crate::events::EscrowEvent;
use crate::validation::valid_ladder;
use crate::types::{
    Address, AttestationInfo, Digest, FundingCloseSnapshot, InvestorEntry, InvestorRecord,
    InvoiceEscrow, Ledger, PendingAdmin, SmeCollateralCommitment, TokenTransfer, YieldTier,
    MAX_ATTESTATION_APPEND_ENTRIES, STATUS_CANCELLED, STATUS_FUNDED, STATUS_OPEN,
    STATUS_SETTLED, STATUS_WITHDRAWN,
};

verus! {

/// Abstract value of the escrow's persistent storage plus the host context
/// (contract address and ledger time).
#[verifier::ext_equal]
pub struct EscrowState {
    pub contract: Address,
    pub ledger: Ledger,
    pub escrow: Option<InvoiceEscrow>,
    pub version: u32,
    pub funding_token: Option<Address>,
    pub treasury: Option<Address>,
    pub registry: Option<Address>,
    pub pending_admin: Option<PendingAdmin>,
    pub legal_hold: bool,
    pub legal_hold_clear_delay: u64,
    pub legal_hold_clearable_at: Option<u64>,
    pub funding_deadline: Option<u64>,
    pub min_contribution: i128,
    pub max_unique_investors: Option<u32>,
    pub max_per_investor: Option<i128>,
    pub maturity_max_horizon: Option<u64>,
    pub yield_tiers: Seq<YieldTier>,
    pub snapshot: Option<FundingCloseSnapshot>,
    pub unique_funder_count: u32,
    pub distributed_principal: i128,
    pub allowlist_active: bool,
    pub investors: Seq<InvestorEntry>,
    pub primary_attestation: Option<Digest>,
    pub attestations: Seq<AttestationInfo>,
    pub collateral: Option<SmeCollateralCommitment>,
}

/// The escrow's persistent storage as plain values, for a host that keeps
/// it between calls.
#[derive(Clone, Debug, PartialEq, Eq)]
pub struct StorageImage {
    pub escrow: Option<InvoiceEscrow>,
    pub version: u32,
    pub funding_token: Option<Address>,
    pub treasury: Option<Address>,
    pub registry: Option<Address>,
    pub pending_admin: Option<PendingAdmin>,
    pub legal_hold: bool,
    pub legal_hold_clear_delay: u64,
    pub legal_hold_clearable_at: Option<u64>,
    pub funding_deadline: Option<u64>,
    pub min_contribution: i128,
    pub max_unique_investors: Option<u32>,
    pub max_per_investor: Option<i128>,
    pub maturity_max_horizon: Option<u64>,
    pub yield_tiers: Vec<YieldTier>,
    pub snapshot: Option<FundingCloseSnapshot>,
    pub unique_funder_count: u32,
    pub distributed_principal: i128,
    pub allowlist_active: bool,
    pub investors: Vec<InvestorEntry>,
    pub primary_attestation: Option<Digest>,
    pub attestations: Vec<AttestationInfo>,
    pub collateral: Option<SmeCollateralCommitment>,
}

impl StorageImage {
    /// The storage this image describes, for an escrow at `contract`
    /// observing `ledger`.
    pub open spec fn state(&self, contract: Address, ledger: Ledger) -> EscrowState {
        EscrowState {
            contract,
            ledger,
            escrow: self.escrow,
            version: self.version,
            funding_token: self.funding_token,
            treasury: self.treasury,
            registry: self.registry,
            pending_admin: self.pending_admin,
            legal_hold: self.legal_hold,
            legal_hold_clear_delay: self.legal_hold_clear_delay,
            legal_hold_clearable_at: self.legal_hold_clearable_at,
            funding_deadline: self.funding_deadline,
            min_contribution: self.min_contribution,
            max_unique_investors: self.max_unique_investors,
            max_per_investor: self.max_per_investor,
            maturity_max_horizon: self.maturity_max_horizon,
            yield_tiers: self.yield_tiers@,
            snapshot: self.snapshot,
            unique_funder_count: self.unique_funder_count,
            distributed_principal: self.distributed_principal,
            allowlist_active: self.allowlist_active,
            investors: self.investors@,
            primary_attestation: self.primary_attestation,
            attestations: self.attestations@,
            collateral: self.collateral,
        }
    }
}

/// What one call asks of its host: the events it publishes, the addresses
/// whose authorization it requires, and the token movements to perform.
#[verifier::ext_equal]
pub struct Effects {
    pub events: Seq<EscrowEvent>,
    pub auths: Seq<Address>,
    pub transfers: Seq<TokenTransfer>,
}

/// A tier yield fixed at commitment, if any, lies in `0..=10_000` bps.
pub open spec fn yield_in_range(r: InvestorRecord) -> bool {
    match r.effective_yield_bps {
        Some(y) => 0 <= y <= 10_000,
        None => true,
    }
}

/// Every record's fixed tier yield lies in range.
pub open spec fn yields_in_range(inv: Seq<InvestorEntry>) -> bool {
    forall|i: int| 0 <= i < inv.len() ==> yield_in_range(#[trigger] inv[i].record)
}

impl Effects {
    /// These effects followed by publishing `e`.
    pub open spec fn emit(self, e: EscrowEvent) -> Effects {
        Effects { events: self.events.push(e), ..self }
    }

    /// These effects followed by requiring `who` to authorize.
    pub open spec fn auth(self, who: Address) -> Effects {
        Effects { auths: self.auths.push(who), ..self }
    }

    /// These effects followed by a movement of `amount` from `from` to `to`.
    pub open spec fn pay(self, from: Address, to: Address, amount: i128) -> Effects {
        Effects { transfers: self.transfers.push(TokenTransfer { from, to, amount }), ..self }
    }
}

/// Nothing published, authorized or moved.
pub open spec fn no_effects() -> Effects {
    Effects { events: Seq::empty(), auths: Seq::empty(), transfers: Seq::empty() }
}

/// The record of an address that never interacted with the escrow.
pub open spec fn empty_record() -> InvestorRecord {
    InvestorRecord {
        contribution: 0,
        effective_yield_bps: None,
        claim_not_before: 0,
        claimed: false,
        refunded: false,
        allowlisted: false,
    }
}

/// No address occurs twice in the investor table.
pub open spec fn unique_investors(inv: Seq<InvestorEntry>) -> bool {
    forall|i: int, j: int|
        0 <= i < j < inv.len() ==> #[trigger] inv[i].investor != #[trigger] inv[j].investor
}

/// Position of `a` in the investor table, or -1 when absent.
pub open spec fn find_investor(inv: Seq<InvestorEntry>, a: Address) -> int {
    if exists|i: int| 0 <= i < inv.len() && #[trigger] inv[i].investor == a {
        choose|i: int| 0 <= i < inv.len() && #[trigger] inv[i].investor == a
    } else {
        -1
    }
}

/// The record stored for `a` (the empty record when absent).
pub open spec fn record_of(inv: Seq<InvestorEntry>, a: Address) -> InvestorRecord {
    let i = find_investor(inv, a);
    if i >= 0 {
        inv[i].record
    } else {
        empty_record()
    }
}

/// The table with `a`'s record replaced by `r` (appended when absent).
pub open spec fn put_record(inv: Seq<InvestorEntry>, a: Address, r: InvestorRecord) -> Seq<
    InvestorEntry,
> {
    let i = find_investor(inv, a);
    if i >= 0 {
        inv.update(i, InvestorEntry { investor: a, record: r })
    } else {
        inv.push(InvestorEntry { investor: a, record: r })
    }
}

/// Sum of all recorded contributions.
pub open spec fn total_contributions(inv: Seq<InvestorEntry>) -> int
    decreases inv.len(),
{
    if inv.len() == 0 {
        0
    } else {
        total_contributions(inv.drop_last()) + inv.last().record.contribution
    }
}

/// Every recorded contribution is non-negative.
pub open spec fn contributions_nonneg(inv: Seq<InvestorEntry>) -> bool {
    forall|i: int| 0 <= i < inv.len() ==> 0 <= #[trigger] inv[i].record.contribution
}

impl EscrowState {
    /// Storage of a freshly deployed, uninitialized escrow.
    pub open spec fn fresh(contract: Address) -> EscrowState {
        EscrowState {
            contract,
            ledger: Ledger { timestamp: 0, sequence: 0 },
            escrow: None,
            version: 0,
            funding_token: None,
            treasury: None,
            registry: None,
            pending_admin: None,
            legal_hold: false,
            legal_hold_clear_delay: 0,
            legal_hold_clearable_at: None,
            funding_deadline: None,
            min_contribution: 0,
            max_unique_investors: None,
            max_per_investor: None,
            maturity_max_horizon: None,
            yield_tiers: Seq::empty(),
            snapshot: None,
            unique_funder_count: 0,
            distributed_principal: 0,
            allowlist_active: false,
            investors: Seq::empty(),
            primary_attestation: None,
            attestations: Seq::empty(),
            collateral: None,
        }
    }

    /// This storage observing another ledger.
    pub open spec fn with_ledger(self, ledger: Ledger) -> EscrowState {
        EscrowState { ledger, ..self }
    }

    /// This storage with another investor table.
    pub open spec fn with_investors(self, investors: Seq<InvestorEntry>) -> EscrowState {
        EscrowState { investors, ..self }
    }

    /// The invariant that every operation of the escrow keeps.
    pub open spec fn valid(self) -> bool {
        &&& unique_investors(self.investors)
        &&& contributions_nonneg(self.investors)
        &&& yields_in_range(self.investors)
        &&& self.attestations.len() <= MAX_ATTESTATION_APPEND_ENTRIES
        &&& 0 <= self.distributed_principal
        &&& match self.max_unique_investors {
            Some(cap) => self.unique_funder_count <= cap,
            None => true,
        }
        &&& match self.escrow {
            None => {
                &&& self.investors.len() == 0
                &&& self.snapshot is None
                &&& self.distributed_principal == 0
                &&& self.unique_funder_count == 0
            },
            Some(e) => {
                &&& 0 < e.funding_target
                &&& 0 <= e.yield_bps <= 10_000
                &&& valid_ladder(self.yield_tiers, e.yield_bps)
                &&& 0 <= e.funded_amount
                &&& e.status <= STATUS_CANCELLED
                &&& (self.snapshot is Some <==> (e.status == STATUS_FUNDED || e.status
                    == STATUS_SETTLED || e.status == STATUS_WITHDRAWN))
                &&& (e.status == STATUS_OPEN ==> e.funded_amount < e.funding_target)
                &&& (e.status <= STATUS_SETTLED ==> total_contributions(self.investors)
                    == e.funded_amount && self.distributed_principal == 0)
                &&& (e.status == STATUS_WITHDRAWN ==> total_contributions(self.investors)
                    == e.funded_amount && self.distributed_principal == e.funded_amount)
                &&& (e.status == STATUS_CANCELLED ==> total_contributions(self.investors)
                    + self.distributed_principal == e.funded_amount)
            },
        }
    }
}

// ---------------------------------------------------------------------------
// Lemmas on the investor table
// ---------------------------------------------------------------------------

/// With unique addresses, an entry's position is the one `find_investor` names.
pub proof fn lemma_find_investor(inv: Seq<InvestorEntry>, a: Address, i: int)
    requires
        unique_investors(inv),
        0 <= i < inv.len(),
        inv[i].investor == a,
    ensures
        find_investor(inv, a) == i,
{
    let j = find_investor(inv, a);
    assert(0 <= j < inv.len() && inv[j].investor == a);
    if j < i {
        assert(inv[j].investor != inv[i].investor);
    } else if i < j {
        assert(inv[i].investor != inv[j].investor);
    }
}

/// `find_investor` names a matching entry, or -1 exactly when none matches.
pub proof fn lemma_find_investor_range(inv: Seq<InvestorEntry>, a: Address)
    ensures
        -1 <= find_investor(inv, a) < inv.len(),
        find_investor(inv, a) >= 0 ==> inv[find_investor(inv, a)].investor == a,
        find_investor(inv, a) == -1 ==> forall|i: int|
            0 <= i < inv.len() ==> #[trigger] inv[i].investor != a,
{
}

/// Sum after replacing one entry.
pub proof fn lemma_total_update(inv: Seq<InvestorEntry>, i: int, e: InvestorEntry)
    requires
        0 <= i < inv.len(),
    ensures
        total_contributions(inv.update(i, e)) == total_contributions(inv)
            - inv[i].record.contribution + e.record.contribution,
    decreases inv.len(),
{
    let u = inv.update(i, e);
    if i == inv.len() - 1 {
        assert(u.drop_last() =~= inv.drop_last());
    } else {
        assert(u.drop_last() =~= inv.drop_last().update(i, e));
        lemma_total_update(inv.drop_last(), i, e);
    }
}

/// Sum after appending one entry.
pub proof fn lemma_total_push(inv: Seq<InvestorEntry>, e: InvestorEntry)
    ensures
        total_contributions(inv.push(e)) == total_contributions(inv) + e.record.contribution,
{
    assert(inv.push(e).drop_last() =~= inv);
}

/// The sum of non-negative contributions is non-negative.
pub proof fn lemma_total_nonneg(inv: Seq<InvestorEntry>)
    requires
        contributions_nonneg(inv),
    ensures
        0 <= total_contributions(inv),
    decreases inv.len(),
{
    if inv.len() > 0 {
        let p = inv.drop_last();
        assert forall|i: int| 0 <= i < p.len() implies 0 <= #[trigger] p[i].record.contribution by {
            assert(inv[i].record.contribution == p[i].record.contribution);
        }
        lemma_total_nonneg(p);
        assert(0 <= inv[inv.len() - 1].record.contribution);
    }
}

/// One non-negative contribution never exceeds the sum of all of them.
pub proof fn lemma_entry_le_total(inv: Seq<InvestorEntry>, i: int)
    requires
        contributions_nonneg(inv),
        0 <= i < inv.len(),
    ensures
        inv[i].record.contribution <= total_contributions(inv),
{
    let z = InvestorEntry { investor: inv[i].investor, record: InvestorRecord { contribution: 0, ..inv[i].record } };
    lemma_total_update(inv, i, z);
    let u = inv.update(i, z);
    assert forall|k: int| 0 <= k < u.len() implies 0 <= #[trigger] u[k].record.contribution by {
        if k != i {
            assert(u[k] == inv[k]);
        }
    }
    lemma_total_nonneg(u);
}

/// What `put_record` does to the table: the record of `a` becomes `r`, every
/// other record stays, addresses stay unique, and the sum moves by the
/// difference in `a`'s contribution.
pub proof fn lemma_put_record(inv: Seq<InvestorEntry>, a: Address, r: InvestorRecord)
    requires
        unique_investors(inv),
    ensures
        unique_investors(put_record(inv, a, r)),
        record_of(put_record(inv, a, r), a) == r,
        forall|b: Address| b != a ==> record_of(put_record(inv, a, r), b) == record_of(inv, b),
        total_contributions(put_record(inv, a, r)) == total_contributions(inv) - record_of(
            inv,
            a,
        ).contribution + r.contribution,
        contributions_nonneg(inv) && 0 <= r.contribution ==> contributions_nonneg(
            put_record(inv, a, r),
        ),
        yields_in_range(inv) && yield_in_range(r) ==> yields_in_range(put_record(inv, a, r)),
        find_investor(inv, a) >= 0 ==> put_record(inv, a, r).len() == inv.len(),
        find_investor(inv, a) < 0 ==> put_record(inv, a, r).len() == inv.len() + 1,
{
    let i = find_investor(inv, a);
    let e = InvestorEntry { investor: a, record: r };
    let p = put_record(inv, a, r);
    lemma_find_investor_range(inv, a);
    if i >= 0 {
        lemma_total_update(inv, i, e);
        assert forall|x: int, y: int| 0 <= x < y < p.len() implies #[trigger] p[x].investor
            != #[trigger] p[y].investor by {
            assert(inv[x].investor != inv[y].investor);
        }
        lemma_find_investor(p, a, i);
        assert forall|b: Address| b != a implies record_of(p, b) == record_of(inv, b) by {
            lemma_find_investor_range(inv, b);
            let j = find_investor(inv, b);
            if j >= 0 {
                lemma_find_investor(p, b, j);
            } else {
                assert forall|k: int| 0 <= k < p.len() implies #[trigger] p[k].investor != b by {
                    if k != i {
                        assert(p[k] == inv[k]);
                    }
                }
            }
        }
    } else {
        lemma_total_push(inv, e);
        assert forall|x: int, y: int| 0 <= x < y < p.len() implies #[trigger] p[x].investor
            != #[trigger] p[y].investor by {
            if y < inv.len() {
                assert(inv[x].investor != inv[y].investor);
            } else {
                assert(p[x] == inv[x]);
            }
        }
        lemma_find_investor(p, a, inv.len() as int);
        assert forall|b: Address| b != a implies record_of(p, b) == record_of(inv, b) by {
            lemma_find_investor_range(inv, b);
            let j = find_investor(inv, b);
            if j >= 0 {
                lemma_find_investor(p, b, j);
            } else {
                assert forall|k: int| 0 <= k < p.len() implies #[trigger] p[k].investor != b by {
                    if k < inv.len() {
                        assert(p[k] == inv[k]);
                    }
                }
            }
        }
    }
    if yields_in_range(inv) && yield_in_range(r) {
        assert forall|k: int| 0 <= k < p.len() implies yield_in_range(#[trigger] p[k].record) by {
            if k < inv.len() && k != i {
                assert(p[k] == inv[k]);
            }
        }
    }
    if contributions_nonneg(inv) && 0 <= r.contribution {
        assert forall|k: int| 0 <= k < p.len() implies 0 <= #[trigger] p[k].record.contribution by {
            if k < inv.len() && k != i {
                assert(p[k] == inv[k]);
            }
        }
    }
}

/// A recorded contribution never exceeds the sum of all contributions.
pub proof fn lemma_record_le_total(inv: Seq<InvestorEntry>, a: Address)
    requires
        contributions_nonneg(inv),
    ensures
        0 <= record_of(inv, a).contribution <= total_contributions(inv),
{
    lemma_find_investor_range(inv, a);
    lemma_total_nonneg(inv);
    let i = find_investor(inv, a);
    if i >= 0 {
        lemma_entry_le_total(inv, i);
    }
}

/// The sum over a prefix of the table never exceeds the whole sum.
pub proof fn lemma_total_prefix_le(inv: Seq<InvestorEntry>, k: int)
    requires
        contributions_nonneg(inv),
        0 <= k <= inv.len(),
    ensures
        total_contributions(inv.take(k)) <= total_contributions(inv),
    decreases inv.len(),
{
    if k == inv.len() {
        assert(inv.take(k) =~= inv);
    } else {
        let p = inv.drop_last();
        assert forall|i: int| 0 <= i < p.len() implies 0 <= #[trigger] p[i].record.contribution by {
            assert(inv[i].record.contribution == p[i].record.contribution);
        }
        lemma_total_prefix_le(p, k);
        assert(p.take(k) =~= inv.take(k));
        assert(0 <= inv[inv.len() - 1].record.contribution);
    }
}

} // verus!
