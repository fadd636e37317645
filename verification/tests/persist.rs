use liquifact_escrow::contract::LiquifactEscrow;
use liquifact_escrow::types::{InvestorEntry, InvestorRecord, Ledger};

fn funded_escrow() -> LiquifactEscrow {
    let mut c = LiquifactEscrow::new(1);
    c.init(2, b"SAVE01", 3, 1_000, 800, 0, 4, None, 5, None, None, Some(3), None, None, None, None)
        .unwrap();
    c.fund(10, 400).unwrap();
    c.fund(11, 600).unwrap();
    c
}

#[test]
fn test_image_round_trip() {
    let c = funded_escrow();
    let img = c.to_image();
    let back = LiquifactEscrow::from_image(1, Ledger { timestamp: 50, sequence: 2 }, img.clone()).unwrap();
    assert_eq!(back.to_image(), img);
    assert_eq!(back.get_contribution(11), 600);
    assert_eq!(back.get_escrow().unwrap(), c.get_escrow().unwrap());
    assert_eq!(back.ledger(), Ledger { timestamp: 50, sequence: 2 });
    assert!(back.events().is_empty());
}

#[test]
fn test_fresh_image_round_trip() {
    let c = LiquifactEscrow::new(1);
    let back = LiquifactEscrow::from_image(1, Ledger { timestamp: 0, sequence: 0 }, c.to_image()).unwrap();
    assert!(back.get_escrow().is_err());
}

#[test]
fn test_image_breaking_accounting_refused() {
    let mut img = funded_escrow().to_image();
    img.investors[0].record.contribution += 1;
    assert!(LiquifactEscrow::from_image(1, Ledger { timestamp: 0, sequence: 0 }, img).is_none());
}

#[test]
fn test_image_with_duplicate_investor_refused() {
    let mut img = funded_escrow().to_image();
    let dup = InvestorEntry {
        investor: 10,
        record: InvestorRecord {
            contribution: 0,
            effective_yield_bps: None,
            claim_not_before: 0,
            claimed: false,
            refunded: false,
            allowlisted: true,
        },
    };
    img.investors.push(dup);
    assert!(LiquifactEscrow::from_image(1, Ledger { timestamp: 0, sequence: 0 }, img).is_none());
}

#[test]
fn test_image_breaking_cap_or_snapshot_refused() {
    let mut img = funded_escrow().to_image();
    img.max_unique_investors = Some(1);
    assert!(LiquifactEscrow::from_image(1, Ledger { timestamp: 0, sequence: 0 }, img).is_none());
    let mut img = funded_escrow().to_image();
    img.snapshot = None;
    assert!(LiquifactEscrow::from_image(1, Ledger { timestamp: 0, sequence: 0 }, img).is_none());
    let mut img = funded_escrow().to_image();
    img.investors[1].record.effective_yield_bps = Some(10_001);
    assert!(LiquifactEscrow::from_image(1, Ledger { timestamp: 0, sequence: 0 }, img).is_none());
}
