use liquifact_escrow::contract::LiquifactEscrow;
use liquifact_escrow::errors::EscrowError;
use liquifact_escrow::events::EscrowEvent;
use liquifact_escrow::types::{YieldTier, STATUS_FUNDED, STATUS_OPEN};

const CONTRACT: u64 = 1;
const ADMIN: u64 = 2;
const SME: u64 = 3;
const TOKEN: u64 = 4;
const TREASURY: u64 = 5;

fn init_with(
    amount: i128,
    yield_bps: i64,
    maturity: u64,
    tiers: Option<Vec<YieldTier>>,
    min: Option<i128>,
    max_unique: Option<u32>,
    max_per: Option<i128>,
) -> LiquifactEscrow {
    let mut c = LiquifactEscrow::new(CONTRACT);
    c.init(
        ADMIN, b"FUND01", SME, amount, yield_bps, maturity, TOKEN, None, TREASURY, tiers, min,
        max_unique, max_per, None, None, None,
    )
    .unwrap();
    c
}

fn err<T: std::fmt::Debug>(r: Result<T, EscrowError>) -> u32 {
    r.unwrap_err().code()
}

#[test]
fn test_fund_records_contribution_event_and_auth_without_moving_tokens() {
    let mut c = init_with(1000, 500, 0, None, None, None, None);
    let e = c.fund(10, 500).unwrap();
    assert_eq!(e.funded_amount, 500);
    assert_eq!(e.status, STATUS_OPEN);
    assert_eq!(c.get_contribution(10), 500);
    assert_eq!(c.get_unique_funder_count(), 1);
    assert_eq!(
        c.events(),
        vec![EscrowEvent::EscrowFunded {
            invoice_id: e.invoice_id,
            investor: 10,
            amount: 500,
            funded_amount: 500,
            status: 0,
            investor_effective_yield_bps: 500,
            tier_lock_secs: 0
        }]
    );
    assert_eq!(c.required_auths(), vec![10]);
    assert!(c.token_transfers().is_empty());
}

#[test]
fn test_fund_reaching_target_writes_snapshot_once() {
    let mut c = init_with(1000, 500, 0, None, None, None, None);
    c.set_ledger(777, 9);
    c.fund(10, 400).unwrap();
    assert_eq!(c.get_funding_close_snapshot(), None);
    let e = c.fund(11, 700).unwrap();
    assert_eq!(e.status, STATUS_FUNDED);
    assert_eq!(e.funded_amount, 1100);
    let snap = c.get_funding_close_snapshot().unwrap();
    assert_eq!(snap.total_principal, 1100);
    assert_eq!(snap.funding_target, 1000);
    assert_eq!(snap.closed_at_ledger_timestamp, 777);
    assert_eq!(snap.closed_at_ledger_sequence, 9);
    // A funded escrow refuses further deposits; the snapshot stays.
    assert_eq!(err(c.fund(12, 1)), 103);
    assert_eq!(c.get_funding_close_snapshot(), Some(snap));
    c.settle().unwrap();
    assert_eq!(c.get_funding_close_snapshot(), Some(snap));
}

#[test]
fn test_fund_error_order() {
    let mut c = LiquifactEscrow::new(CONTRACT);
    assert_eq!(err(c.fund(10, 10)), 20);
    let mut c = init_with(100_000, 800, 0, None, Some(100), Some(1), Some(1_000));
    assert_eq!(err(c.fund(10, 0)), 100);
    assert_eq!(err(c.fund(10, -5)), 100);
    assert_eq!(err(c.fund(10, 99)), 101);
    assert_eq!(err(c.fund(10, 1_001)), 106);
    c.fund(10, 600).unwrap();
    assert_eq!(err(c.fund(10, 401)), 106);
    assert_eq!(err(c.fund(11, 100)), 107);
    c.fund(10, 400).unwrap();
    assert_eq!(c.get_contribution(10), 1_000);
    c.set_legal_hold(true).unwrap();
    assert_eq!(err(c.fund(10, 100)), 102);
    assert!(c.events().is_empty());
}

#[test]
fn test_fund_contribution_overflow() {
    let mut c = init_with(1_000, 0, 0, None, None, None, None);
    c.fund(10, 10).unwrap();
    assert_eq!(err(c.fund(10, i128::MAX)), 105);
    assert_eq!(err(c.fund(11, i128::MAX)), 110);
}

#[test]
fn test_allowlist_gate() {
    let mut c = init_with(10_000, 800, 0, None, None, None, None);
    assert!(!c.is_allowlist_active());
    c.set_allowlist_active(true).unwrap();
    assert_eq!(err(c.fund(10, 100)), 104);
    c.set_investor_allowlisted(10, true).unwrap();
    assert!(c.is_investor_allowlisted(10));
    c.fund(10, 100).unwrap();
    c.set_investors_allowlisted(&[11, 12], true).unwrap();
    assert_eq!(c.events().len(), 2);
    c.fund(12, 100).unwrap();
    c.set_investor_allowlisted(10, false).unwrap();
    assert_eq!(err(c.fund(10, 100)), 104);
    c.set_allowlist_active(false).unwrap();
    c.fund(10, 100).unwrap();
    assert_eq!(c.get_contribution(10), 200);
    assert_eq!(err(c.set_investors_allowlisted(&[], true)), 70);
    let many: Vec<u64> = (100..151).collect();
    assert_eq!(err(c.set_investors_allowlisted(&many, true)), 71);
}

#[test]
fn test_fund_with_commitment_selects_tier_and_lock() {
    let tiers = vec![
        YieldTier { min_lock_secs: 100, yield_bps: 900 },
        YieldTier { min_lock_secs: 1_000, yield_bps: 1_200 },
    ];
    let mut c = init_with(10_000, 800, 0, Some(tiers), None, None, None);
    c.set_ledger(50, 1);
    let e = c.fund_with_commitment(10, 1_000, 500).unwrap();
    assert_eq!(c.get_investor_yield_bps(10).unwrap(), 900);
    assert_eq!(c.get_investor_claim_not_before(10), 550);
    assert_eq!(
        c.events()[0],
        EscrowEvent::EscrowFunded {
            invoice_id: e.invoice_id,
            investor: 10,
            amount: 1_000,
            funded_amount: 1_000,
            status: 0,
            investor_effective_yield_bps: 900,
            tier_lock_secs: 500
        }
    );
    c.fund_with_commitment(11, 1_000, 5_000).unwrap();
    assert_eq!(c.get_investor_yield_bps(11).unwrap(), 1_200);
    c.fund_with_commitment(12, 1_000, 10).unwrap();
    assert_eq!(c.get_investor_yield_bps(12).unwrap(), 800);
    assert_eq!(err(c.fund_with_commitment(10, 1_000, 500)), 108);
    c.fund(10, 1_000).unwrap();
    assert_eq!(c.get_contribution(10), 2_000);
    assert_eq!(c.get_investor_yield_bps(10).unwrap(), 900);
}

#[test]
fn test_commitment_lock_bounded_by_maturity_and_time() {
    let mut c = init_with(10_000, 800, 1_000, None, None, None, None);
    assert_eq!(err(c.fund_with_commitment(10, 100, 1_001)), 111);
    c.fund_with_commitment(10, 100, 1_000).unwrap();
    let mut c = init_with(10_000, 800, 0, None, None, None, None);
    c.set_ledger(u64::MAX - 10, 1);
    assert_eq!(err(c.fund_with_commitment(10, 100, 11)), 109);
}

#[test]
fn test_funding_deadline() {
    let mut c = LiquifactEscrow::new(CONTRACT);
    c.set_ledger(1_000_000, 10);
    assert_eq!(
        err(c.init(
            ADMIN, b"INV_DEADLINE_PAST", SME, 10_000, 800, 0, TOKEN, None, TREASURY, None,
            None, None, None, None, None, Some(1_000_000 - 10)
        )),
        164
    );
    c.init(
        ADMIN, b"INV_DEADLINE", SME, 10_000, 800, 0, TOKEN, None, TREASURY, None, None, None,
        None, None, None, Some(1_000_030),
    )
    .unwrap();
    assert_eq!(c.fund(10, 10_000).unwrap().funded_amount, 10_000);
    let mut c2 = LiquifactEscrow::new(CONTRACT);
    c2.init(
        ADMIN, b"INV_DEADLINE", SME, 10_000, 800, 0, TOKEN, None, TREASURY, None, None, None,
        None, None, None, Some(30),
    )
    .unwrap();
    c2.set_ledger(31, 20);
    assert_eq!(err(c2.fund(10, 10)), 164);
    assert!(c2.is_funding_expired());
    c2.set_ledger(30, 21);
    assert!(!c2.is_funding_expired());
    c2.update_funding_deadline(None).unwrap();
    assert_eq!(c2.get_funding_deadline(), None);
    assert_eq!(err(c2.update_funding_deadline(Some(30))), 164);
    c2.update_funding_deadline(Some(31)).unwrap();
    assert_eq!(c2.get_funding_deadline(), Some(31));
    c2.fund(10, 10_000).unwrap();
    assert_eq!(err(c2.update_funding_deadline(None)), 165);
}

#[test]
fn test_fund_batch_emits_one_event_per_entry() {
    let mut c = init_with(1000, 100, 0, None, None, Some(5), None);
    let e = c.fund_batch(&[(20, 300, 0), (21, 500, 0)]).unwrap();
    assert_eq!(e.funded_amount, 800);
    let events = c.events();
    assert_eq!(events.len(), 2);
    assert_eq!(
        events[1],
        EscrowEvent::EscrowFunded {
            invoice_id: e.invoice_id,
            investor: 21,
            amount: 500,
            funded_amount: 800,
            status: 0,
            investor_effective_yield_bps: 100,
            tier_lock_secs: 0
        }
    );
    assert_eq!(c.required_auths(), vec![20, 21]);
    assert!(c.token_transfers().is_empty());
}

#[test]
fn test_fund_batch_mid_batch_transition_snapshot_written_exactly_once() {
    let mut c = init_with(80_000, 100, 0, None, None, None, None);
    let e = c.fund_batch(&[(20, 30_000, 0), (21, 55_000, 0), (22, 10_000, 0)]).unwrap();
    assert_eq!(e.status, STATUS_FUNDED);
    assert_eq!(e.funded_amount, 95_000);
    assert_eq!(c.get_funding_close_snapshot().unwrap().total_principal, 85_000);
    assert_eq!(c.get_contribution(22), 10_000);
    assert_eq!(c.get_unique_funder_count(), 3);
    assert_eq!(err(c.fund_batch(&[(23, 1, 0)])), 103);
}

#[test]
fn test_fund_batch_matches_sequential_funds() {
    let entries = [(20u64, 300i128, 0u64), (21, 200, 0), (20, 100, 0)];
    let mut a = init_with(10_000, 100, 0, None, None, None, None);
    a.fund_batch(&entries).unwrap();
    let mut b = init_with(10_000, 100, 0, None, None, None, None);
    for (inv, amount, _) in entries {
        b.fund(inv, amount).unwrap();
    }
    assert_eq!(a.get_escrow().unwrap(), b.get_escrow().unwrap());
    assert_eq!(a.get_contribution(20), b.get_contribution(20));
    assert_eq!(a.get_contribution(21), b.get_contribution(21));
    assert_eq!(a.get_unique_funder_count(), b.get_unique_funder_count());
    assert_eq!(a.get_unique_funder_count(), 2);
}

#[test]
fn test_fund_batch_is_atomic_and_bounded() {
    let mut c = init_with(10_000, 100, 0, None, None, Some(1), None);
    assert_eq!(err(c.fund_batch(&[])), 82);
    let big: Vec<(u64, i128, u64)> = (0..51).map(|i| (100 + i, 1, 0)).collect();
    assert_eq!(err(c.fund_batch(&big)), 83);
    assert_eq!(err(c.fund_batch(&[(20, 300, 0), (21, 200, 0)])), 107);
    assert_eq!(c.get_contribution(20), 0);
    assert_eq!(c.get_escrow().unwrap().funded_amount, 0);
    assert!(c.events().is_empty());
    let ok: Vec<(u64, i128, u64)> = (0..50).map(|_| (20, 1, 0)).collect();
    c.fund_batch(&ok).unwrap();
    assert_eq!(c.get_contribution(20), 50);
}

#[test]
fn test_fund_batch_zero_amount_entry() {
    let mut c = init_with(10_000, 100, 0, None, None, None, None);
    assert_eq!(err(c.fund_batch(&[(20, 300, 0), (21, 0, 0)])), 100);
}

#[test]
fn test_tiered_payouts_stay_within_own_coupons() {
    let tiers = vec![
        YieldTier { min_lock_secs: 100, yield_bps: 900 },
        YieldTier { min_lock_secs: 1_000, yield_bps: 1_200 },
    ];
    let mut c = init_with(3_000, 800, 0, Some(tiers), None, None, None);
    c.fund_with_commitment(10, 1_001, 500).unwrap();
    c.fund_with_commitment(11, 999, 5_000).unwrap();
    c.fund(12, 1_000).unwrap();
    c.settle().unwrap();
    let payouts: Vec<i128> =
        [10u64, 11, 12].iter().map(|a| c.compute_investor_payout(*a).unwrap()).collect();
    assert_eq!(payouts, vec![1_091, 1_118, 1_080]);
    let owed: i128 = [(1_001i128, 900i128), (999, 1_200), (1_000, 800)]
        .iter()
        .map(|(amount, y)| amount + amount * y / 10_000)
        .sum();
    assert_eq!(owed, 3_289);
    assert!(payouts.iter().sum::<i128>() <= owed);
    // With mixed tiers the total exceeds the base-yield pool of 3_240.
    assert!(payouts.iter().sum::<i128>() > 3_000 + 3_000 * 800 / 10_000);
}
