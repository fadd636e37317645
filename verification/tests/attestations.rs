use liquifact_escrow::contract::LiquifactEscrow;
use liquifact_escrow::errors::EscrowError;
use liquifact_escrow::events::EscrowEvent;
use liquifact_escrow::types::{AttestationInfo, MAX_ATTESTATION_APPEND_ENTRIES};

const TARGET: i128 = 10_000;

fn digest(seed: u8) -> [u8; 32] {
    [seed; 32]
}

fn setup_with_init() -> (LiquifactEscrow, u64) {
    let mut client = LiquifactEscrow::new(1);
    let admin = 2u64;
    client
        .init(
            admin, b"INV001", 3, TARGET, 800, 1000, 4, None, 5, None, None, None, None, None,
            None, None,
        )
        .unwrap();
    (client, admin)
}

fn assert_contract_error<T: std::fmt::Debug>(result: Result<T, EscrowError>, expected: EscrowError) {
    match result {
        Err(e) => assert_eq!(e.code(), expected.code()),
        other => panic!("expected error {}, got {:?}", expected.code(), other),
    }
}

fn attestation_log_stats(client: &LiquifactEscrow) -> (u32, u32) {
    let used = client.get_attestation_append_log().len() as u32;
    (used, MAX_ATTESTATION_APPEND_ENTRIES.saturating_sub(used))
}

#[test]
fn test_get_primary_hash_none_before_bind() {
    let (client, _) = setup_with_init();
    assert_eq!(client.get_primary_attestation_hash(), None);
}

#[test]
fn test_append_log_empty_before_first_append() {
    let (client, _) = setup_with_init();
    assert_eq!(client.get_attestation_append_log().len(), 0);
}

#[test]
fn test_attestation_log_stats_empty_before_first_append() {
    let (client, _) = setup_with_init();
    let (used, remaining) = attestation_log_stats(&client);
    assert_eq!(used, 0);
    assert_eq!(remaining, MAX_ATTESTATION_APPEND_ENTRIES);
}

#[test]
fn test_attestation_log_stats_counts_appends() {
    let (mut client, _) = setup_with_init();
    for i in 0u8..5 {
        client.append_attestation_digest(digest(i)).unwrap();
    }
    assert_eq!(attestation_log_stats(&client), (5, MAX_ATTESTATION_APPEND_ENTRIES - 5));
}

#[test]
fn test_get_attestation_digest_at_none_when_empty() {
    let (client, _) = setup_with_init();
    assert_eq!(client.get_attestation_digest_at(0), None);
    assert_eq!(client.get_attestation_digest_at(1), None);
}

#[test]
fn test_bind_primary_hash_stores_and_reads() {
    let (mut client, admin) = setup_with_init();
    let d = digest(0xAB);
    client.bind_primary_attestation_hash(d).unwrap();
    assert_eq!(client.get_primary_attestation_hash(), Some(d));
    let invoice_id = client.get_escrow().unwrap().invoice_id;
    assert_eq!(
        client.events(),
        vec![EscrowEvent::PrimaryAttestationBound { invoice_id, digest: d }]
    );
    assert_eq!(client.required_auths(), vec![admin]);
}

#[test]
fn test_bind_primary_hash_is_write_once() {
    let (mut client, _) = setup_with_init();
    let first = digest(0x01);
    client.bind_primary_attestation_hash(first).unwrap();
    assert_contract_error(
        client.bind_primary_attestation_hash(first),
        EscrowError::PrimaryAttestationAlreadyBound,
    );
    assert_contract_error(
        client.bind_primary_attestation_hash(digest(0x02)),
        EscrowError::PrimaryAttestationAlreadyBound,
    );
    assert_eq!(client.get_primary_attestation_hash(), Some(first));
    assert!(client.events().is_empty());
}

#[test]
fn test_append_log_capacity_bound() {
    let (mut client, _) = setup_with_init();
    for i in 0..MAX_ATTESTATION_APPEND_ENTRIES {
        assert_eq!(client.append_attestation_digest(digest(i as u8)).unwrap(), i);
    }
    assert_contract_error(
        client.append_attestation_digest(digest(0xFF)),
        EscrowError::AttestationAppendLogCapacityReached,
    );
    let log = client.get_attestation_append_log();
    assert_eq!(log.len(), MAX_ATTESTATION_APPEND_ENTRIES as usize);
    assert_eq!(log[31], digest(31));
}

#[test]
fn test_append_emits_index() {
    let (mut client, _) = setup_with_init();
    client.append_attestation_digest(digest(1)).unwrap();
    client.append_attestation_digest(digest(2)).unwrap();
    let invoice_id = client.get_escrow().unwrap().invoice_id;
    assert_eq!(
        client.events(),
        vec![EscrowEvent::AttestationDigestAppended { invoice_id, index: 1, digest: digest(2) }]
    );
}

#[test]
fn test_digest_info_follows_revoke_and_unrevoke() {
    let (mut client, _) = setup_with_init();
    let d = digest(0xAB);
    client.append_attestation_digest(d).unwrap();
    assert_eq!(client.get_attestation_digest_at(0), Some(AttestationInfo { digest: d, revoked: false }));
    client.revoke_attestation_digest(0).unwrap();
    assert_eq!(client.get_attestation_digest_at(0), Some(AttestationInfo { digest: d, revoked: true }));
    assert!(client.is_attestation_revoked(0));
    client.unrevoke_attestation_digest(0).unwrap();
    assert_eq!(client.get_attestation_digest_at(0), Some(AttestationInfo { digest: d, revoked: false }));
    assert!(!client.is_attestation_revoked(0));
    assert_eq!(client.get_attestation_append_log(), vec![d]);
}

#[test]
fn test_revoke_and_unrevoke_errors() {
    let (mut client, _) = setup_with_init();
    client.append_attestation_digest(digest(1)).unwrap();
    client.append_attestation_digest(digest(2)).unwrap();
    assert_contract_error(client.revoke_attestation_digest(2), EscrowError::AttestationIndexOutOfRange);
    assert_contract_error(client.revoke_attestation_digest(100), EscrowError::AttestationIndexOutOfRange);
    assert_contract_error(client.unrevoke_attestation_digest(2), EscrowError::AttestationIndexOutOfRange);
    assert_contract_error(client.unrevoke_attestation_digest(0), EscrowError::AttestationNotRevoked);
    client.revoke_attestation_digest(0).unwrap();
    assert_contract_error(client.revoke_attestation_digest(0), EscrowError::AttestationAlreadyRevoked);
    assert_contract_error(client.revoke_attestation_digest(0), EscrowError::AttestationAlreadyRevoked);
    assert_contract_error(client.unrevoke_attestation_digest(1), EscrowError::AttestationNotRevoked);
    assert!(!client.is_attestation_revoked(7));
}

#[test]
fn test_revoke_attestation_digests_batch() {
    let (mut client, admin) = setup_with_init();
    client.bind_primary_attestation_hash(digest(1)).unwrap();
    client.append_attestation_digest(digest(2)).unwrap();
    client.append_attestation_digest(digest(3)).unwrap();
    client.revoke_attestation_digests(&[0, 1]).unwrap();
    let invoice_id = client.get_escrow().unwrap().invoice_id;
    assert_eq!(
        client.events(),
        vec![
            EscrowEvent::AttestationDigestRevoked { invoice_id, index: 0 },
            EscrowEvent::AttestationDigestRevoked { invoice_id, index: 1 },
        ]
    );
    assert_eq!(client.required_auths(), vec![admin]);
    assert!(client.is_attestation_revoked(0) && client.is_attestation_revoked(1));
}

#[test]
fn test_revoke_attestation_digests_batch_is_atomic() {
    let (mut client, _) = setup_with_init();
    client.append_attestation_digest(digest(2)).unwrap();
    client.append_attestation_digest(digest(3)).unwrap();
    assert_contract_error(
        client.revoke_attestation_digests(&[0, 5]),
        EscrowError::AttestationIndexOutOfRange,
    );
    assert!(!client.is_attestation_revoked(0));
    assert!(client.events().is_empty());
}
