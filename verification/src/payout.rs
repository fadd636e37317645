//! Pro-rata payout arithmetic: an investor's share of the settlement pool
//! (principal plus coupon), with the funding-close snapshot's principal as
//! the denominator.
use vstd::prelude::*;

use crate::errors::EscrowError;

verus! {

/// Coupon on `principal` at `yield_bps` basis points, rounded down.
pub open spec fn coupon(principal: int, yield_bps: int) -> int {
    principal * yield_bps / 10_000
}

/// Principal plus coupon: what settlement pays out in total.
pub open spec fn settle_pool(principal: int, yield_bps: int) -> int {
    principal + coupon(principal, yield_bps)
}

/// Gross payout of a `contribution` out of `principal`, rounded down.
pub open spec fn payout_share(contribution: int, principal: int, yield_bps: int) -> int {
    contribution * settle_pool(principal, yield_bps) / principal
}

/// Whether an intermediate product or sum leaves the `i128` range.
pub open spec fn payout_overflows(contribution: int, principal: int, yield_bps: int) -> bool {
    ||| principal * yield_bps > i128::MAX
    ||| settle_pool(principal, yield_bps) > i128::MAX
    ||| contribution * settle_pool(principal, yield_bps) > i128::MAX
}

/// Computes `contribution * (principal + principal * yield_bps / 10_000) /
/// principal` with every step checked; overflow is reported as
/// `ComputePayoutArithmeticOverflow`.
pub fn pro_rata_payout(contribution: i128, principal: i128, yield_bps: i64) -> (r: Result<
    i128,
    EscrowError,
>)
    requires
        0 <= contribution,
        0 < principal,
        0 <= yield_bps,
    ensures
        payout_overflows(contribution as int, principal as int, yield_bps as int) ==> r == Err::<
            i128,
            EscrowError,
        >(EscrowError::ComputePayoutArithmeticOverflow),
        !payout_overflows(contribution as int, principal as int, yield_bps as int) ==> r == Ok::<
            i128,
            EscrowError,
        >(payout_share(contribution as int, principal as int, yield_bps as int) as i128),
{
    let y = yield_bps as i128;
    proof {
        assert(0 <= principal * y) by (nonlinear_arith)
            requires
                0 < principal,
                0 <= y,
        ;
    }
    let scaled = match principal.checked_mul(y) {
        Some(v) => v,
        None => {
            return Err(EscrowError::ComputePayoutArithmeticOverflow);
        },
    };
    let coupon = scaled / 10_000;
    let pool = match principal.checked_add(coupon) {
        Some(v) => v,
        None => {
            return Err(EscrowError::ComputePayoutArithmeticOverflow);
        },
    };
    proof {
        assert(0 <= contribution * pool) by (nonlinear_arith)
            requires
                0 <= contribution,
                0 <= pool,
        ;
    }
    let gross = match contribution.checked_mul(pool) {
        Some(v) => v,
        None => {
            return Err(EscrowError::ComputePayoutArithmeticOverflow);
        },
    };
    Ok(gross / principal)
}

/// Sum of the payouts of a sequence of contributions.
pub open spec fn total_payouts(contributions: Seq<int>, principal: int, yield_bps: int) -> int
    decreases contributions.len(),
{
    if contributions.len() == 0 {
        0
    } else {
        total_payouts(contributions.drop_last(), principal, yield_bps) + payout_share(
            contributions.last(),
            principal,
            yield_bps,
        )
    }
}

/// Sum of a sequence of contributions.
pub open spec fn total_of(contributions: Seq<int>) -> int
    decreases contributions.len(),
{
    if contributions.len() == 0 {
        0
    } else {
        total_of(contributions.drop_last()) + contributions.last()
    }
}

proof fn lemma_share_times_principal(c: int, p: int, pool: int)
    requires
        0 <= c,
        0 < p,
        0 <= pool,
    ensures
        (c * pool / p) * p <= c * pool,
{
    assert((c * pool / p) * p <= c * pool) by (nonlinear_arith)
        requires
            0 <= c * pool,
            0 < p,
    ;
}

proof fn lemma_total_payouts_scaled(contributions: Seq<int>, principal: int, yield_bps: int)
    requires
        0 < principal,
        0 <= yield_bps,
        forall|i: int| 0 <= i < contributions.len() ==> 0 <= #[trigger] contributions[i],
    ensures
        total_payouts(contributions, principal, yield_bps) * principal <= total_of(contributions)
            * settle_pool(principal, yield_bps),
    decreases contributions.len(),
{
    if contributions.len() > 0 {
        let p = contributions.drop_last();
        let c = contributions.last();
        let pool = settle_pool(principal, yield_bps);
        assert(0 <= principal * yield_bps) by (nonlinear_arith)
            requires
                0 < principal,
                0 <= yield_bps,
        ;
        assert(0 <= pool);
        assert forall|i: int| 0 <= i < p.len() implies 0 <= #[trigger] p[i] by {
            assert(contributions[i] == p[i]);
        }
        lemma_total_payouts_scaled(p, principal, yield_bps);
        assert(0 <= c) by {
            assert(contributions[contributions.len() - 1] == c);
        }
        lemma_share_times_principal(c, principal, pool);
        let sp = total_payouts(p, principal, yield_bps);
        let share = payout_share(c, principal, yield_bps);
        let tp = total_of(p);
        assert((sp + share) * principal == sp * principal + share * principal) by (nonlinear_arith);
        assert((tp + c) * pool == tp * pool + c * pool) by (nonlinear_arith);
    }
}

/// One investor's payout is at most its own contribution plus the coupon on
/// that contribution at the investor's yield: the pool's rounding only ever
/// takes from the investor, never adds.
pub proof fn lemma_share_within_own_coupon(contribution: int, principal: int, yield_bps: int)
    requires
        0 <= contribution,
        0 < principal,
        0 <= yield_bps,
    ensures
        0 <= coupon(contribution, yield_bps),
        payout_share(contribution, principal, yield_bps) <= contribution + coupon(
            contribution,
            yield_bps,
        ),
{
    let c = contribution;
    let p = principal;
    let y = yield_bps;
    assert(0 <= p * y) by (nonlinear_arith)
        requires
            0 < p,
            0 <= y,
    ;
    assert(0 <= c * y) by (nonlinear_arith)
        requires
            0 <= c,
            0 <= y,
    ;
    let q = coupon(p, y);
    assert(0 <= q && 10_000 * q <= p * y) by (nonlinear_arith)
        requires
            q == p * y / 10_000,
            0 <= p * y,
    ;
    let n = c * (p + q);
    assert(n == c * p + c * q) by (nonlinear_arith)
        requires
            n == c * (p + q),
    ;
    assert(0 <= c * q) by (nonlinear_arith)
        requires
            0 <= c,
            0 <= q,
    ;
    let g = n / p;
    assert(g * p <= n) by (nonlinear_arith)
        requires
            g == n / p,
            0 < p,
            0 <= n,
    ;
    let k = g - c;
    assert(k * p <= c * q) by (nonlinear_arith)
        requires
            k == g - c,
            g * p <= c * p + c * q,
    ;
    assert(10_000 * (c * q) <= c * (p * y)) by (nonlinear_arith)
        requires
            10_000 * q <= p * y,
            0 <= c,
    ;
    assert(10_000 * k <= c * y) by (nonlinear_arith)
        requires
            k * p <= c * q,
            10_000 * (c * q) <= c * (p * y),
            0 < p,
    ;
    let m = c * y;
    assert(k <= m / 10_000) by (nonlinear_arith)
        requires
            10_000 * k <= m,
            0 <= m,
    ;
    assert(0 <= m / 10_000) by (nonlinear_arith)
        requires
            0 <= m,
    ;
}

/// Payouts never exceed the pool: when the contributions add up to at most
/// the snapshot principal, their rounded-down payouts add up to at most
/// principal plus coupon, so rounding only ever leaves dust behind.
pub proof fn lemma_payouts_within_pool(contributions: Seq<int>, principal: int, yield_bps: int)
    requires
        0 < principal,
        0 <= yield_bps,
        forall|i: int| 0 <= i < contributions.len() ==> 0 <= #[trigger] contributions[i],
        total_of(contributions) <= principal,
    ensures
        total_payouts(contributions, principal, yield_bps) <= settle_pool(principal, yield_bps),
{
    lemma_total_payouts_scaled(contributions, principal, yield_bps);
    let pool = settle_pool(principal, yield_bps);
    let s = total_payouts(contributions, principal, yield_bps);
    let t = total_of(contributions);
    assert(0 <= principal * yield_bps) by (nonlinear_arith)
        requires
            0 < principal,
            0 <= yield_bps,
    ;
    assert(s <= pool) by (nonlinear_arith)
        requires
            s * principal <= t * pool,
            t <= principal,
            0 <= pool,
            0 < principal,
    ;
}

} // verus!
