use liquifact_escrow::contract::LiquifactEscrow;
use liquifact_escrow::errors::EscrowError;
use liquifact_escrow::payout::pro_rata_payout;
use liquifact_escrow::symbol::{validate_invoice_id, ShortSymbol};
use liquifact_escrow::transfer::{check_transfer_deltas, check_transfer_precondition};
use liquifact_escrow::types::YieldTier;
use liquifact_escrow::validation::{
    check_maturity_bounds, effective_yield_for_commitment, validate_yield_tiers,
};

fn t(l: u64, y: i64) -> YieldTier {
    YieldTier { min_lock_secs: l, yield_bps: y }
}

#[test]
fn test_validate_yield_tiers() {
    assert_eq!(validate_yield_tiers(&[], 800), Ok(()));
    assert_eq!(validate_yield_tiers(&[t(30, 800), t(60, 900), t(90, 900)], 800), Ok(()));
    assert_eq!(validate_yield_tiers(&[t(30, -1)], 0), Err(EscrowError::TierYieldOutOfRange));
    assert_eq!(validate_yield_tiers(&[t(30, 700)], 800), Err(EscrowError::TierYieldBelowBase));
    assert_eq!(
        validate_yield_tiers(&[t(30, 800), t(30, 900)], 800),
        Err(EscrowError::TierLockNotIncreasing)
    );
    assert_eq!(
        validate_yield_tiers(&[t(30, 900), t(60, 850)], 800),
        Err(EscrowError::TierYieldNotNonDecreasing)
    );
}

#[test]
fn test_effective_yield_picks_best_reached_tier() {
    let tiers = [t(100, 900), t(1_000, 1_200), t(5_000, 1_500)];
    assert_eq!(effective_yield_for_commitment(&tiers, 800, 0), 800);
    assert_eq!(effective_yield_for_commitment(&tiers, 800, 99), 800);
    assert_eq!(effective_yield_for_commitment(&tiers, 800, 100), 900);
    assert_eq!(effective_yield_for_commitment(&tiers, 800, 4_999), 1_200);
    assert_eq!(effective_yield_for_commitment(&tiers, 800, u64::MAX), 1_500);
    assert_eq!(effective_yield_for_commitment(&[], 800, 10_000), 800);
}

#[test]
fn test_longer_lock_never_earns_less() {
    let tiers = [t(100, 900), t(1_000, 1_200), t(5_000, 1_500)];
    let mut prev = effective_yield_for_commitment(&tiers, 800, 0);
    for lock in [1u64, 100, 500, 1_000, 2_000, 5_000, 9_999] {
        let y = effective_yield_for_commitment(&tiers, 800, lock);
        assert!(y >= prev && y >= 800);
        prev = y;
    }
}

#[test]
fn test_check_maturity_bounds() {
    assert_eq!(check_maturity_bounds(0, 1000, 10), Ok(()));
    assert_eq!(check_maturity_bounds(999, 1000, 10), Err(EscrowError::MaturityInPast));
    assert_eq!(check_maturity_bounds(1010, 1000, 10), Ok(()));
    assert_eq!(check_maturity_bounds(1011, 1000, 10), Err(EscrowError::MaturityBeyondHorizon));
    assert_eq!(check_maturity_bounds(u64::MAX, 1000, u64::MAX), Ok(()));
}

#[test]
fn test_validate_invoice_id() {
    let s = validate_invoice_id(b"INV_1023").unwrap();
    assert_eq!(s.to_bytes(), b"INV_1023".to_vec());
    assert_eq!(s.len(), 8);
    assert_eq!(validate_invoice_id(b""), Err(EscrowError::InvoiceIdInvalidLength));
    assert_eq!(validate_invoice_id(&[b'a'; 32]).unwrap().len(), 32);
    assert_eq!(validate_invoice_id(&[b'a'; 33]), Err(EscrowError::InvoiceIdInvalidLength));
    assert_eq!(validate_invoice_id(b"INV 1"), Err(EscrowError::InvoiceIdInvalidCharset));
    assert_eq!(validate_invoice_id(b"INV\xc3\xa9"), Err(EscrowError::InvoiceIdInvalidCharset));
}

#[test]
fn test_short_symbol_from_bytes() {
    assert!(ShortSymbol::from_bytes(b"").unwrap().is_empty());
    assert_eq!(ShortSymbol::from_bytes(b"GOLD").unwrap().to_bytes(), b"GOLD".to_vec());
    assert!(ShortSymbol::from_bytes(b"GO-LD").is_none());
    assert!(ShortSymbol::from_bytes(&[b'Z'; 33]).is_none());
}

#[test]
fn test_transfer_checks() {
    assert_eq!(check_transfer_precondition(0, 100), Err(EscrowError::TransferAmountNotPositive));
    assert_eq!(check_transfer_precondition(-50, 100), Err(EscrowError::TransferAmountNotPositive));
    assert_eq!(
        check_transfer_precondition(1000, 500),
        Err(EscrowError::InsufficientTokenBalanceBeforeTransfer)
    );
    assert_eq!(check_transfer_precondition(500, 500), Ok(()));
    assert_eq!(check_transfer_deltas(100, 500, 400, 0, 100), Ok(()));
    // A 1% fee token under-credits the recipient.
    assert_eq!(
        check_transfer_deltas(100, 500, 400, 0, 99),
        Err(EscrowError::RecipientBalanceDeltaMismatch)
    );
    assert_eq!(
        check_transfer_deltas(100, 500, 401, 0, 100),
        Err(EscrowError::SenderBalanceDeltaMismatch)
    );
    assert_eq!(
        check_transfer_deltas(100, i128::MIN, 1, 0, 100),
        Err(EscrowError::SenderBalanceUnderflow)
    );
    assert_eq!(
        check_transfer_deltas(100, 500, 400, i128::MIN, 1),
        Err(EscrowError::RecipientBalanceUnderflow)
    );
    let big = i128::MAX / 2;
    assert_eq!(check_transfer_deltas(big, big, 0, 0, big), Ok(()));
}

#[test]
fn test_pro_rata_payout_exact_values() {
    assert_eq!(pro_rata_payout(300, 1000, 800), Ok(324));
    assert_eq!(pro_rata_payout(1000, 1000, 800), Ok(1080));
    assert_eq!(pro_rata_payout(1, 3, 100), Ok(1));
    assert_eq!(pro_rata_payout(0, 3, 100), Ok(0));
    assert_eq!(
        pro_rata_payout(i128::MAX / 2, i128::MAX / 2, 10_000),
        Err(EscrowError::ComputePayoutArithmeticOverflow)
    );
}

#[test]
fn test_payouts_never_exceed_pool() {
    // Contributions 1, 1, 1 of principal 3 at 5000 bps: pool 4, payouts 1 each.
    let pool = 3 + 3 * 5000 / 10_000;
    let total: i128 = (0..3).map(|_| pro_rata_payout(1, 3, 5000).unwrap()).sum();
    assert!(total <= pool);
    // Uneven split leaves rounding dust.
    let p = 7i128;
    let total = pro_rata_payout(2, p, 5000).unwrap() + pro_rata_payout(5, p, 5000).unwrap();
    assert_eq!(total, 2 + 7);
    assert!(total <= p + p * 5000 / 10_000);
}

#[test]
fn test_legal_hold_blocks_risk_bearing_calls() {
    let mut c = LiquifactEscrow::new(1);
    c.init(2, b"HOLD", 3, 1000, 800, 0, 4, None, 5, None, None, None, None, None, None, None)
        .unwrap();
    c.fund(10, 1000).unwrap();
    c.set_legal_hold(true).unwrap();
    assert_eq!(c.fund(11, 10), Err(EscrowError::LegalHoldBlocksFunding));
    assert_eq!(c.settle(), Err(EscrowError::LegalHoldBlocksSettlement));
    assert_eq!(c.withdraw(), Err(EscrowError::LegalHoldBlocksWithdrawal));
    assert_eq!(c.claim_investor_payout(10), Err(EscrowError::LegalHoldBlocksInvestorClaims));
    assert_eq!(c.cancel_funding(), Err(EscrowError::LegalHoldBlocksCancelFunding));
    assert_eq!(c.sweep_terminal_dust(1, 10), Err(EscrowError::LegalHoldBlocksTreasuryDustSweep));
    assert_eq!(c.partial_settle(3), Err(EscrowError::LegalHoldBlocksPartialSettle));
    assert_eq!(c.rotate_beneficiary(9), Err(EscrowError::LegalHoldBlocksBeneficiaryRotation));
    assert_eq!(c.get_escrow().unwrap().status, 1);
}
