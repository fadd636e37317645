use liquifact_escrow::contract::LiquifactEscrow;
use liquifact_escrow::symbol::ShortSymbol;
use liquifact_escrow::types::YieldTier;

/// A small deterministic generator for call sequences.
struct Lcg(u64);

impl Lcg {
    fn next(&mut self) -> u64 {
        self.0 = self.0.wrapping_mul(6364136223846793005).wrapping_add(1442695040888963407);
        self.0 >> 33
    }
    fn below(&mut self, n: u64) -> u64 {
        self.next() % n
    }
}

fn allowed_transition(a: u32, b: u32) -> bool {
    a == b || (a == 0 && (b == 1 || b == 4)) || (a == 1 && (b == 2 || b == 3))
}

fn run_sequence(seed: u64, steps: usize) {
    let mut rng = Lcg(seed);
    let mut c = LiquifactEscrow::new(1);
    let tiers = vec![
        YieldTier { min_lock_secs: 100, yield_bps: 900 },
        YieldTier { min_lock_secs: 1_000, yield_bps: 1_100 },
    ];
    c.init(
        2, b"LAWS", 3, 5_000, 800, 0, 4, None, 5, Some(tiers), Some(10), Some(6), Some(2_000),
        Some(5), None, None,
    )
    .unwrap();
    let usdc = ShortSymbol::from_bytes(b"USDC").unwrap();
    let mut now: u64 = 0;
    for _ in 0..steps {
        let before = c.to_image();
        let investor = 10 + rng.below(8);
        let amount = rng.below(1_500) as i128 - 50;
        match rng.below(22) {
            0 | 1 | 2 => {
                let _ = c.fund(investor, amount);
            }
            3 => {
                let _ = c.fund_with_commitment(investor, amount, rng.below(2_000));
            }
            4 => {
                let entries: Vec<(u64, i128, u64)> =
                    (0..rng.below(4)).map(|_| (10 + rng.below(8), rng.below(800) as i128, 0)).collect();
                let _ = c.fund_batch(&entries);
            }
            5 => {
                let _ = c.settle();
            }
            6 => {
                let _ = c.withdraw();
            }
            7 => {
                let _ = c.claim_investor_payout(investor);
            }
            8 => {
                let _ = c.cancel_funding();
            }
            9 => {
                let _ = c.refund(investor);
            }
            10 => {
                let _ = c.refund_batch(&[investor, investor + 1]);
            }
            11 => {
                let _ = c.set_legal_hold(rng.below(3) == 0);
            }
            12 => {
                let _ = c.request_clear_legal_hold();
            }
            13 => {
                let _ = c.update_funding_target(amount * 5);
            }
            14 => {
                let _ = c.partial_settle(if rng.below(2) == 0 { 3 } else { 2 });
            }
            15 => {
                let _ = c.set_investor_allowlisted(investor, rng.below(2) == 0);
            }
            16 => {
                let _ = c.set_allowlist_active(rng.below(4) == 0);
            }
            17 => {
                let _ = c.lower_max_unique_investors(rng.below(7) as u32);
            }
            18 => {
                let _ = c.append_attestation_digest([rng.below(256) as u8; 32]);
            }
            19 => {
                let _ = c.revoke_attestation_digest(rng.below(4) as u32);
            }
            20 => {
                let _ = c.sweep_terminal_dust(amount, rng.below(3_000) as i128);
            }
            _ => {
                let _ = c.record_sme_collateral_commitment(usdc, amount);
            }
        }
        let after = c.to_image();
        // The invariant holds after every call.
        assert!(LiquifactEscrow::from_image(1, c.ledger(), after.clone()).is_some());
        let (e0, e1) = (before.escrow.unwrap(), after.escrow.unwrap());
        assert!(allowed_transition(e0.status, e1.status));
        assert!(e1.funded_amount >= e0.funded_amount);
        assert_eq!(e1.invoice_id, e0.invoice_id);
        if before.snapshot.is_some() {
            assert_eq!(after.snapshot, before.snapshot);
        }
        assert!(after.attestations.len() >= before.attestations.len());
        for (i, a) in before.attestations.iter().enumerate() {
            assert_eq!(after.attestations[i].digest, a.digest);
        }
        now += rng.below(400);
        c.set_ledger(now, now as u32);
    }
}

#[test]
fn test_invariant_and_monotonicity_hold_over_call_sequences() {
    for seed in 1..40u64 {
        run_sequence(seed, 120);
    }
}

#[test]
fn test_refunded_plus_remaining_equals_funded() {
    let mut c = LiquifactEscrow::new(1);
    c.init(2, b"BOOKS", 3, 10_000, 800, 0, 4, None, 5, None, None, None, None, None, None, None)
        .unwrap();
    c.fund(10, 700).unwrap();
    c.fund(11, 300).unwrap();
    c.cancel_funding().unwrap();
    c.refund(10).unwrap();
    let remaining = c.get_contribution(10) + c.get_contribution(11);
    assert_eq!(remaining + c.get_distributed_principal(), c.get_escrow().unwrap().funded_amount);
}
