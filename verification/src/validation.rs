//! Input validation for `init` and the admin setters: yield ladders,
//! maturity bounds, and the tier selection rule.
use vstd::prelude::*;

use crate::errors::EscrowError;
use crate::types::YieldTier;

verus! {

/// The error attached to tier `i` of a ladder, given the tiers before it.
pub open spec fn tier_error_at(tiers: Seq<YieldTier>, base: i64, i: int) -> Option<EscrowError> {
    let t = tiers[i];
    if t.yield_bps < 0 || t.yield_bps > 10_000 {
        Some(EscrowError::TierYieldOutOfRange)
    } else if t.yield_bps < base {
        Some(EscrowError::TierYieldBelowBase)
    } else if i > 0 && t.min_lock_secs <= tiers[i - 1].min_lock_secs {
        Some(EscrowError::TierLockNotIncreasing)
    } else if i > 0 && t.yield_bps < tiers[i - 1].yield_bps {
        Some(EscrowError::TierYieldNotNonDecreasing)
    } else {
        None
    }
}

/// The first error found when checking the tiers of a ladder in order.
pub open spec fn tiers_error(tiers: Seq<YieldTier>, base: i64) -> Option<EscrowError>
    decreases tiers.len(),
{
    if tiers.len() == 0 {
        None
    } else {
        match tiers_error(tiers.drop_last(), base) {
            Some(e) => Some(e),
            None => tier_error_at(tiers, base, tiers.len() - 1),
        }
    }
}

/// A well-formed yield ladder: every yield in `base..=10_000`, lock periods
/// strictly increasing and yields non-decreasing along the ladder.
pub open spec fn valid_ladder(tiers: Seq<YieldTier>, base: i64) -> bool {
    &&& forall|i: int|
        0 <= i < tiers.len() ==> 0 <= #[trigger] tiers[i].yield_bps && base <= tiers[i].yield_bps <= 10_000
    &&& forall|i: int, j: int|
        0 <= i < j < tiers.len() ==> #[trigger] tiers[i].min_lock_secs < #[trigger] tiers[j].min_lock_secs
    &&& forall|i: int, j: int|
        0 <= i < j < tiers.len() ==> #[trigger] tiers[i].yield_bps <= #[trigger] tiers[j].yield_bps
}

proof fn lemma_tier_error_prefix(tiers: Seq<YieldTier>, base: i64, n: int, i: int)
    requires
        0 <= i < n <= tiers.len(),
    ensures
        tier_error_at(tiers.take(n), base, i) == tier_error_at(tiers, base, i),
{
}

/// A ladder passes validation exactly when it is well formed.
pub proof fn lemma_tiers_error_none_iff_valid(tiers: Seq<YieldTier>, base: i64)
    ensures
        tiers_error(tiers, base) is None <==> valid_ladder(tiers, base),
    decreases tiers.len(),
{
    if tiers.len() > 0 {
        let p = tiers.drop_last();
        let n = tiers.len() - 1;
        lemma_tiers_error_none_iff_valid(p, base);
        assert(forall|i: int| 0 <= i < n ==> p[i] == tiers[i]);
        if tiers_error(tiers, base) is None {
            assert(tiers_error(p, base) is None);
            assert(tier_error_at(tiers, base, n) is None);
            assert(valid_ladder(p, base));
            assert forall|i: int, j: int| 0 <= i < j < tiers.len() implies
                #[trigger] tiers[i].min_lock_secs < #[trigger] tiers[j].min_lock_secs by {
                if j == n && i < n - 1 {
                    assert(p[i].min_lock_secs < p[n - 1].min_lock_secs);
                } else if j < n {
                    assert(p[i].min_lock_secs < p[j].min_lock_secs);
                }
            }
            assert forall|i: int, j: int| 0 <= i < j < tiers.len() implies
                #[trigger] tiers[i].yield_bps <= #[trigger] tiers[j].yield_bps by {
                if j == n && i < n - 1 {
                    assert(p[i].yield_bps <= p[n - 1].yield_bps);
                } else if j < n {
                    assert(p[i].yield_bps <= p[j].yield_bps);
                }
            }
            assert forall|i: int| 0 <= i < tiers.len() implies 0 <= #[trigger] tiers[i].yield_bps
                && base <= tiers[i].yield_bps <= 10_000 by {
                if i < n {
                    assert(0 <= p[i].yield_bps && base <= p[i].yield_bps <= 10_000);
                }
            }
        } else if valid_ladder(tiers, base) {
            assert forall|i: int, j: int| 0 <= i < j < p.len() implies
                #[trigger] p[i].min_lock_secs < #[trigger] p[j].min_lock_secs by {
                assert(tiers[i].min_lock_secs < tiers[j].min_lock_secs);
            }
            assert forall|i: int, j: int| 0 <= i < j < p.len() implies
                #[trigger] p[i].yield_bps <= #[trigger] p[j].yield_bps by {
                assert(tiers[i].yield_bps <= tiers[j].yield_bps);
            }
            assert forall|i: int| 0 <= i < p.len() implies 0 <= #[trigger] p[i].yield_bps
                && base <= p[i].yield_bps <= 10_000 by {
                assert(0 <= tiers[i].yield_bps && base <= tiers[i].yield_bps <= 10_000);
            }
            assert(valid_ladder(p, base));
            if n > 0 {
                assert(tiers[n - 1].min_lock_secs < tiers[n].min_lock_secs);
                assert(tiers[n - 1].yield_bps <= tiers[n].yield_bps);
            }
            assert(0 <= tiers[n].yield_bps && base <= tiers[n].yield_bps <= 10_000);
            assert(tier_error_at(tiers, base, n) is None);
        }
    }
}

/// Once a prefix of the ladder fails, the whole ladder fails with the same error.
proof fn lemma_tiers_error_prefix_sticks(tiers: Seq<YieldTier>, base: i64, k: int)
    requires
        0 <= k <= tiers.len(),
        tiers_error(tiers.take(k), base) is Some,
    ensures
        tiers_error(tiers, base) == tiers_error(tiers.take(k), base),
    decreases tiers.len() - k,
{
    if k < tiers.len() {
        let q = tiers.take(k + 1);
        assert(q.drop_last() =~= tiers.take(k));
        assert(q.take(k) =~= tiers.take(k));
        assert(tiers_error(q, base) == tiers_error(tiers.take(k), base));
        lemma_tiers_error_prefix_sticks(tiers, base, k + 1);
    } else {
        assert(tiers.take(k) =~= tiers);
    }
}

/// Validates a yield ladder against the base yield; reports the first
/// offending tier's error in the order range, base, lock order, yield order.
pub fn validate_yield_tiers(tiers: &[YieldTier], base: i64) -> (r: Result<(), EscrowError>)
    ensures
        match tiers_error(tiers@, base) {
            Some(e) => r == Err::<(), EscrowError>(e),
            None => r is Ok,
        },
{
    let mut i: usize = 0;
    while i < tiers.len()
        invariant
            i <= tiers@.len(),
            tiers_error(tiers@.take(i as int), base) is None,
        decreases tiers@.len() - i,
    {
        let t = tiers[i];
        let ghost pre = tiers@.take(i as int + 1);
        proof {
            assert(pre.drop_last() =~= tiers@.take(i as int));
            lemma_tier_error_prefix(tiers@, base, i as int + 1, i as int);
            if i > 0 {
                assert(pre[i as int - 1] == tiers@[i as int - 1]);
            }
        }
        proof {
            if tier_error_at(tiers@, base, i as int) is Some {
                lemma_tiers_error_prefix_sticks(tiers@, base, i as int + 1);
            }
        }
        if t.yield_bps < 0 || t.yield_bps > 10_000 {
            return Err(EscrowError::TierYieldOutOfRange);
        }
        if t.yield_bps < base {
            return Err(EscrowError::TierYieldBelowBase);
        }
        if i > 0 && t.min_lock_secs <= tiers[i - 1].min_lock_secs {
            return Err(EscrowError::TierLockNotIncreasing);
        }
        if i > 0 && t.yield_bps < tiers[i - 1].yield_bps {
            return Err(EscrowError::TierYieldNotNonDecreasing);
        }
        i = i + 1;
    }
    assert(tiers@.take(tiers@.len() as int) =~= tiers@);
    Ok(())
}

/// Yield earned by a commitment of `lock_secs`: the yield of the last tier
/// whose minimum lock the commitment meets, or `base` when it meets none.
pub open spec fn select_yield(tiers: Seq<YieldTier>, base: i64, lock_secs: u64) -> i64
    decreases tiers.len(),
{
    if tiers.len() == 0 {
        base
    } else if tiers.last().min_lock_secs <= lock_secs {
        tiers.last().yield_bps
    } else {
        select_yield(tiers.drop_last(), base, lock_secs)
    }
}

/// Selects the yield for a commitment of `lock_secs` from the ladder.
pub fn effective_yield_for_commitment(tiers: &[YieldTier], base: i64, lock_secs: u64) -> (y: i64)
    ensures
        y == select_yield(tiers@, base, lock_secs),
{
    let mut best = base;
    let mut i: usize = 0;
    while i < tiers.len()
        invariant
            i <= tiers@.len(),
            best == select_yield(tiers@.take(i as int), base, lock_secs),
        decreases tiers@.len() - i,
    {
        proof {
            assert(tiers@.take(i as int + 1).drop_last() =~= tiers@.take(i as int));
        }
        if tiers[i].min_lock_secs <= lock_secs {
            best = tiers[i].yield_bps;
        }
        i = i + 1;
    }
    assert(tiers@.take(tiers@.len() as int) =~= tiers@);
    best
}

/// Dropping the last tier of a well-formed ladder leaves a well-formed ladder.
proof fn lemma_valid_ladder_drop_last(tiers: Seq<YieldTier>, base: i64)
    requires
        valid_ladder(tiers, base),
        tiers.len() > 0,
    ensures
        valid_ladder(tiers.drop_last(), base),
{
    let p = tiers.drop_last();
    assert forall|i: int, j: int| 0 <= i < j < p.len() implies
        #[trigger] p[i].yield_bps <= #[trigger] p[j].yield_bps by {
        assert(tiers[i].yield_bps <= tiers[j].yield_bps);
    }
    assert forall|i: int, j: int| 0 <= i < j < p.len() implies
        #[trigger] p[i].min_lock_secs < #[trigger] p[j].min_lock_secs by {
        assert(tiers[i].min_lock_secs < tiers[j].min_lock_secs);
    }
    assert forall|i: int| 0 <= i < p.len() implies 0 <= #[trigger] p[i].yield_bps
        && base <= p[i].yield_bps <= 10_000 by {
        assert(0 <= tiers[i].yield_bps && base <= tiers[i].yield_bps <= 10_000);
    }
}

proof fn lemma_select_yield_bounded(tiers: Seq<YieldTier>, base: i64, lock: u64)
    requires
        valid_ladder(tiers, base),
        tiers.len() > 0,
    ensures
        select_yield(tiers, base, lock) <= tiers.last().yield_bps,
    decreases tiers.len(),
{
    let n = tiers.len() - 1;
    if tiers[n].min_lock_secs > lock && n > 0 {
        let p = tiers.drop_last();
        lemma_valid_ladder_drop_last(tiers, base);
        lemma_select_yield_bounded(p, base, lock);
        assert(p.last() == tiers[n - 1]);
        assert(tiers[n - 1].yield_bps <= tiers[n].yield_bps);
    } else if tiers[n].min_lock_secs > lock {
        assert(tiers.drop_last().len() == 0);
        assert(select_yield(tiers.drop_last(), base, lock) == base);
        assert(base <= tiers[0].yield_bps);
    } else {
        assert(select_yield(tiers, base, lock) == tiers[n].yield_bps);
    }
}

/// On a well-formed ladder the selected yield never falls below the base
/// yield, and a longer commitment never earns less.
pub proof fn lemma_select_yield_monotone(tiers: Seq<YieldTier>, base: i64, a: u64, b: u64)
    requires
        valid_ladder(tiers, base),
        a <= b,
    ensures
        base <= select_yield(tiers, base, a) <= select_yield(tiers, base, b),
    decreases tiers.len(),
{
    if tiers.len() > 0 {
        let p = tiers.drop_last();
        let n = tiers.len() - 1;
        lemma_valid_ladder_drop_last(tiers, base);
        lemma_select_yield_monotone(p, base, a, b);
        assert(base <= tiers[n].yield_bps);
        if tiers[n].min_lock_secs > a && tiers[n].min_lock_secs <= b {
            if p.len() > 0 {
                lemma_select_yield_bounded(p, base, a);
                assert(p.last() == tiers[n - 1]);
                assert(tiers[n - 1].yield_bps <= tiers[n].yield_bps);
            }
        }
    }
}

/// On a well-formed ladder over a base yield in range, the selected yield
/// lies between the base and 10_000 bps.
pub proof fn lemma_select_yield_in_range(tiers: Seq<YieldTier>, base: i64, lock: u64)
    requires
        valid_ladder(tiers, base),
        0 <= base <= 10_000,
    ensures
        base <= select_yield(tiers, base, lock) <= 10_000,
{
    lemma_select_yield_monotone(tiers, base, lock, lock);
    if tiers.len() > 0 {
        lemma_select_yield_bounded(tiers, base, lock);
        assert(tiers.last() == tiers[tiers.len() - 1]);
    }
}

/// The error for a maturity outside `[now, now + horizon]` (zero means no
/// maturity and is always accepted).
pub open spec fn maturity_error(maturity: u64, now: u64, horizon: u64) -> Option<EscrowError> {
    if maturity == 0 {
        None
    } else if maturity < now {
        Some(EscrowError::MaturityInPast)
    } else if maturity > now + horizon {
        Some(EscrowError::MaturityBeyondHorizon)
    } else {
        None
    }
}

/// Checks a maturity against the ledger time and the allowed horizon.
pub fn check_maturity_bounds(maturity: u64, now: u64, horizon: u64) -> (r: Result<(), EscrowError>)
    ensures
        match maturity_error(maturity, now, horizon) {
            Some(e) => r == Err::<(), EscrowError>(e),
            None => r is Ok,
        },
{
    if maturity == 0 {
        return Ok(());
    }
    if maturity < now {
        return Err(EscrowError::MaturityInPast);
    }
    if now <= u64::MAX - horizon && maturity > now + horizon {
        return Err(EscrowError::MaturityBeyondHorizon);
    }
    Ok(())
}

} // verus!
