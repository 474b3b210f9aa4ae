use k256::ecdsa::SigningKey;
use tap_core::adapters::EscrowAdapterMock;
use tap_core::adapters::ReceiptChecksAdapterMock;
use tap_core::auditor::{AuditError, ReceiptAuditor};
use tap_core::checks::{get_full_list_of_checks, get_full_list_of_receipt_check_results, ReceiptCheck, ReceiptError};
use tap_core::receipt::{Address, Receipt, ReceiptBuildError};
use tap_core::received_receipt::{ReceiptState, ReceivedReceipt};
use tap_core::signed::{digest, signing_hash, DomainContext, SignedReceipt};
use tap_core::storage::ReceiptStorage;

fn domain() -> DomainContext {
    DomainContext {
        name: "TAP".to_string(),
        version: "1".to_string(),
        chain_id: 1,
        verifying_contract: Address::from_bytes([0x11u8; 20]),
    }
}

fn key(seed: u8) -> SigningKey {
    SigningKey::from_slice(&[seed; 32]).unwrap()
}

fn address_of(key: &SigningKey) -> Address {
    Address::from_bytes(alloy_primitives::Address::from_private_key(key).into_array())
}

fn sign(domain: &DomainContext, receipt: Receipt, key: &SigningKey) -> SignedReceipt {
    let hash = signing_hash(domain, &receipt);
    let (sig, recid) = key.sign_prehash_recoverable(&hash).unwrap();
    let mut bytes = sig.to_bytes().to_vec();
    bytes.push(27 + recid.to_byte());
    SignedReceipt::new(receipt, bytes)
}

fn address_to_alloy(a: Address) -> alloy_primitives::Address {
    alloy_primitives::Address::from(a.to_bytes())
}

fn allocation() -> Address {
    let a: alloy_primitives::Address = "0xabababababababababababababababababababab".parse().unwrap();
    Address::from_bytes(a.into_array())
}

struct Setup {
    auditor: ReceiptAuditor<EscrowAdapterMock, ReceiptChecksAdapterMock>,
    signed: SignedReceipt,
    receipt_id: u64,
    query_id: u64,
}

fn setup(value: u128, timestamp: u64, watermark: u64, appraisal: u128, balance: u128) -> Setup {
    let signer_key = key(7);
    let signer = address_of(&signer_key);
    let d = domain();
    let receipt = Receipt::new(allocation(), timestamp, value).unwrap();
    let signed = sign(&d, receipt, &signer_key);
    let query_id = 10u64;
    let mut storage = ReceiptStorage::new();
    let receipt_id = storage
        .store_receipt(ReceivedReceipt::new(signed.clone(), query_id, &get_full_list_of_checks()))
        .unwrap();
    let checks = ReceiptChecksAdapterMock::new(storage, vec![(query_id, appraisal)], vec![allocation()], vec![signer]);
    let escrow = EscrowAdapterMock::new(vec![(signer, balance)]);
    let auditor = ReceiptAuditor::new(d, escrow, checks, watermark);
    Setup { auditor, signed, receipt_id, query_id }
}

#[test]
fn full_list_of_checks_in_order() {
    let checks = get_full_list_of_checks();
    assert_eq!(
        checks,
        vec![
            ReceiptCheck::CheckUnique,
            ReceiptCheck::CheckAllocationId,
            ReceiptCheck::CheckTimestamp,
            ReceiptCheck::CheckValue,
            ReceiptCheck::CheckSignature,
            ReceiptCheck::CheckAndReserveEscrow,
        ]
    );
}

#[test]
fn full_list_of_results_all_pending() {
    let results = get_full_list_of_receipt_check_results();
    for c in get_full_list_of_checks() {
        assert_eq!(results.get(c), Some(None));
    }
}

#[test]
fn results_keep_duplicate_check_once() {
    let results = tap_core::checks::ReceiptCheckResults::new(&[ReceiptCheck::CheckValue, ReceiptCheck::CheckValue]);
    assert_eq!(results.get(ReceiptCheck::CheckValue), Some(None));
    assert_eq!(results.get(ReceiptCheck::CheckUnique), None);
}

#[test]
fn receipt_with_zero_value_is_refused() {
    assert!(matches!(Receipt::new(allocation(), 5, 0), Err(ReceiptBuildError::ZeroValue)));
    let r = Receipt::new(allocation(), 5, 1).unwrap();
    assert_eq!(r.value, 1);
    assert_eq!(r.timestamp_ns, 5);
}

#[test]
fn signing_hash_follows_eip712() {
    let d = domain();
    let receipt = Receipt::new(allocation(), 0x0102, 0x0304).unwrap();
    let type_hash = alloy_primitives::keccak256(b"Receipt(address allocation_id,uint64 timestamp_ns,uint128 value)");
    let mut enc = type_hash.to_vec();
    enc.extend_from_slice(&[0u8; 12]);
    enc.extend_from_slice(&[0xabu8; 20]);
    let mut w = [0u8; 32];
    w[30] = 0x01;
    w[31] = 0x02;
    enc.extend_from_slice(&w);
    let mut w = [0u8; 32];
    w[30] = 0x03;
    w[31] = 0x04;
    enc.extend_from_slice(&w);
    let struct_hash = alloy_primitives::keccak256(&enc);
    let dom = alloy_sol_types::Eip712Domain::new(
        Some("TAP".into()),
        Some("1".into()),
        Some(alloy_primitives::U256::from(1u64)),
        Some(alloy_primitives::Address::from([0x11u8; 20])),
        None,
    );
    let mut digest = vec![0x19u8, 0x01u8];
    digest.extend_from_slice(dom.separator().as_slice());
    digest.extend_from_slice(struct_hash.as_slice());
    let expected = alloy_primitives::keccak256(&digest);
    assert_eq!(signing_hash(&d, &receipt), expected.0);
}

#[test]
fn signer_recovers_to_signing_key() {
    let k = key(3);
    let d = domain();
    let signed = sign(&d, Receipt::new(allocation(), 42, 100).unwrap(), &k);
    let recovered = signed.recover_signer(&d).unwrap();
    assert_eq!(recovered, address_of(&k));
    let other = DomainContext { chain_id: 2, ..domain() };
    assert_ne!(signed.recover_signer(&other).ok(), Some(address_of(&k)));
    let bad = SignedReceipt::new(signed.message, signed.signature[..64].to_vec());
    assert!(bad.recover_signer(&d).is_err());
}

#[test]
fn end_to_end_all_checks_pass_then_duplicate_fails() {
    let t = 1_000u64;
    let mut s = setup(100, t, t - 1, 100, 1_000);
    let mut received = ReceivedReceipt::new(s.signed.clone(), s.query_id, &get_full_list_of_checks());
    assert_eq!(received.state(), ReceiptState::Checking);
    for c in get_full_list_of_checks() {
        let r = s.auditor.run_check(&mut received, c, s.receipt_id);
        assert!(matches!(r, Some(Ok(()))), "{:?} gave {:?}", c, r);
    }
    assert!(received.is_eligible_for_aggregation());
    assert_eq!(received.state(), ReceiptState::EscrowReserved);
    let signer = address_of(&key(7));
    assert_eq!(s.auditor.escrow_adapter().balance(&signer), Some(900));
    let again = s.auditor.check(ReceiptCheck::CheckUnique, &s.signed, s.query_id, s.receipt_id + 1);
    assert!(matches!(again, Err(ReceiptError::NonUniqueReceipt)));
}

#[test]
fn uniqueness_excludes_the_receipt_itself() {
    let mut s = setup(100, 50, 0, 100, 1_000);
    let r = s.auditor.check(ReceiptCheck::CheckUnique, &s.signed, s.query_id, s.receipt_id);
    assert!(r.is_ok());
    assert!(s.auditor.receipt_checks_adapter().unique_receipt(&s.signed, s.receipt_id));
    assert!(!s.auditor.receipt_checks_adapter().unique_receipt(&s.signed, s.receipt_id + 5));
}

#[test]
fn receipt_stored_after_provider_is_built_is_seen() {
    let signer_key = key(7);
    let d = domain();
    let signed = sign(&d, Receipt::new(allocation(), 70, 100).unwrap(), &signer_key);
    let mut checks = ReceiptChecksAdapterMock::new(ReceiptStorage::new(), vec![], vec![], vec![]);
    let id = checks
        .store_receipt(ReceivedReceipt::new(signed.clone(), 1, &get_full_list_of_checks()))
        .unwrap();
    assert!(checks.unique_receipt(&signed, id));
    assert!(!checks.unique_receipt(&signed, id + 1));
}

#[test]
fn recheck_gives_same_result() {
    let mut s = setup(100, 50, 0, 100, 1_000);
    for c in [
        ReceiptCheck::CheckUnique,
        ReceiptCheck::CheckAllocationId,
        ReceiptCheck::CheckTimestamp,
        ReceiptCheck::CheckValue,
        ReceiptCheck::CheckSignature,
    ] {
        let first = s.auditor.check(c, &s.signed, s.query_id, s.receipt_id);
        let second = s.auditor.check(c, &s.signed, s.query_id, s.receipt_id);
        assert_eq!(first, second);
    }
    let mut s = setup(100, 50, 60, 99, 1_000);
    let first = s.auditor.check(ReceiptCheck::CheckValue, &s.signed, s.query_id, s.receipt_id);
    let second = s.auditor.check(ReceiptCheck::CheckValue, &s.signed, s.query_id, s.receipt_id);
    assert_eq!(first, second);
    let first = s.auditor.check(ReceiptCheck::CheckTimestamp, &s.signed, s.query_id, s.receipt_id);
    let second = s.auditor.check(ReceiptCheck::CheckTimestamp, &s.signed, s.query_id, s.receipt_id);
    assert_eq!(first, second);
}

#[test]
fn timestamp_must_be_after_watermark() {
    let mut s = setup(100, 500, 500, 100, 1_000);
    let r = s.auditor.check(ReceiptCheck::CheckTimestamp, &s.signed, s.query_id, s.receipt_id);
    assert_eq!(r, Err(ReceiptError::InvalidTimestamp { received_timestamp: 500, timestamp_min: 500 }));
    s.auditor.update_min_timestamp_ns(499);
    assert_eq!(s.auditor.min_timestamp_ns(), 499);
    assert_eq!(s.auditor.check_timestamp(&s.signed), Ok(()));
    s.auditor.update_min_timestamp_ns(501);
    assert_eq!(
        s.auditor.check_timestamp(&s.signed),
        Err(ReceiptError::InvalidTimestamp { received_timestamp: 500, timestamp_min: 501 })
    );
}

#[test]
fn value_must_match_appraisal_exactly() {
    for appraisal in [99u128, 101u128] {
        let mut s = setup(100, 50, 0, appraisal, 1_000);
        let r = s.auditor.check(ReceiptCheck::CheckValue, &s.signed, s.query_id, s.receipt_id);
        assert_eq!(r, Err(ReceiptError::InvalidValue { received_value: 100 }));
    }
    let mut s = setup(100, 50, 0, 100, 1_000);
    assert_eq!(s.auditor.check(ReceiptCheck::CheckValue, &s.signed, s.query_id, s.receipt_id), Ok(()));
}

#[test]
fn missing_appraisal_fails_to_complete() {
    let mut s = setup(100, 50, 0, 100, 1_000);
    let r = s.auditor.check(ReceiptCheck::CheckValue, &s.signed, s.query_id + 1, s.receipt_id);
    assert!(matches!(r, Err(ReceiptError::CheckFailedToComplete { .. })));
}

#[test]
fn unknown_allocation_is_invalid() {
    let signer_key = key(7);
    let d = domain();
    let other = Address::from_bytes([0x22u8; 20]);
    let signed = sign(&d, Receipt::new(other, 50, 100).unwrap(), &signer_key);
    let mut s = setup(100, 50, 0, 100, 1_000);
    let r = s.auditor.check(ReceiptCheck::CheckAllocationId, &signed, s.query_id, s.receipt_id);
    assert_eq!(r, Err(ReceiptError::InvalidAllocationID { received_allocation_id: other }));
}

#[test]
fn unknown_signer_fails_signature_check() {
    let d = domain();
    let signed = sign(&d, Receipt::new(allocation(), 50, 100).unwrap(), &key(9));
    let mut s = setup(100, 50, 0, 100, 1_000);
    let r = s.auditor.check(ReceiptCheck::CheckSignature, &signed, s.query_id, s.receipt_id);
    let expected = format!("Recovered gateway id is not valid: {}", address_to_alloy(address_of(&key(9))));
    assert_eq!(r, Err(ReceiptError::InvalidSignature { source_error_message: expected }));
    let r = s.auditor.check(ReceiptCheck::CheckAndReserveEscrow, &signed, s.query_id, s.receipt_id);
    assert_eq!(r, Err(ReceiptError::SubtractEscrowFailed));
    let broken = SignedReceipt::new(s.signed.message, vec![0u8; 10]);
    let r = s.auditor.check(ReceiptCheck::CheckSignature, &broken, s.query_id, s.receipt_id);
    match r {
        Err(ReceiptError::InvalidSignature { source_error_message }) => assert!(!source_error_message.is_empty()),
        other => panic!("unexpected {:?}", other),
    }
    let signer = address_of(&key(7));
    let before = s.auditor.escrow_adapter().balance(&signer);
    let r = s.auditor.check(ReceiptCheck::CheckAndReserveEscrow, &broken, s.query_id, s.receipt_id);
    assert!(matches!(r, Err(ReceiptError::InvalidSignature { .. })));
    assert_eq!(s.auditor.escrow_adapter().balance(&signer), before);
}

#[test]
fn escrow_is_reserved_once() {
    let mut s = setup(100, 50, 0, 100, 250);
    let signer = address_of(&key(7));
    let mut received = ReceivedReceipt::new(s.signed.clone(), s.query_id, &get_full_list_of_checks());
    let r = s.auditor.run_check(&mut received, ReceiptCheck::CheckAndReserveEscrow, s.receipt_id);
    assert!(matches!(r, Some(Ok(()))));
    assert_eq!(s.auditor.escrow_adapter().balance(&signer), Some(150));
    let r = s.auditor.run_check(&mut received, ReceiptCheck::CheckAndReserveEscrow, s.receipt_id);
    assert!(r.is_none());
    assert_eq!(s.auditor.escrow_adapter().balance(&signer), Some(150));
}

#[test]
fn escrow_mock_refuses_overdraft() {
    let a = Address::from_bytes([1u8; 20]);
    let mut escrow = EscrowAdapterMock::new(vec![(a, 100)]);
    assert!(escrow.reserve(&a, 101).is_err());
    assert_eq!(escrow.balance(&a), Some(100));
    assert!(escrow.reserve(&a, 100).is_ok());
    assert_eq!(escrow.balance(&a), Some(0));
    let b = Address::from_bytes([2u8; 20]);
    assert!(escrow.reserve(&b, 1).is_err());
    assert_eq!(escrow.balance(&b), None);
}

#[test]
fn failed_receipt_stays_failed() {
    let mut s = setup(100, 50, 60, 100, 1_000);
    let mut received = ReceivedReceipt::new(s.signed.clone(), s.query_id, &get_full_list_of_checks());
    let r = s.auditor.run_check(&mut received, ReceiptCheck::CheckTimestamp, s.receipt_id);
    assert!(matches!(r, Some(Err(ReceiptError::InvalidTimestamp { .. }))));
    assert_eq!(received.state(), ReceiptState::Failed);
    assert!(s.auditor.run_check(&mut received, ReceiptCheck::CheckValue, s.receipt_id).is_none());
    assert!(!received.record_check_result(ReceiptCheck::CheckTimestamp, Ok(())));
    assert!(!received.is_eligible_for_aggregation());
    assert!(!received.mark_included());
}

#[test]
fn receipt_lifecycle_reaches_included() {
    let d = domain();
    let signed = sign(&d, Receipt::new(allocation(), 50, 100).unwrap(), &key(7));
    let checks = [ReceiptCheck::CheckUnique, ReceiptCheck::CheckAndReserveEscrow];
    let mut received = ReceivedReceipt::new(signed, 3, &checks);
    assert_eq!(received.query_id(), 3);
    assert_eq!(received.check_outcome(ReceiptCheck::CheckValue), None);
    assert_eq!(received.check_outcome(ReceiptCheck::CheckUnique), Some(None));
    assert!(!received.record_check_result(ReceiptCheck::CheckValue, Ok(())));
    assert!(received.record_check_result(ReceiptCheck::CheckUnique, Ok(())));
    assert_eq!(received.state(), ReceiptState::Checked);
    assert!(!received.mark_included());
    assert!(received.record_check_result(ReceiptCheck::CheckAndReserveEscrow, Ok(())));
    assert_eq!(received.state(), ReceiptState::EscrowReserved);
    assert!(!received.record_check_result(ReceiptCheck::CheckAndReserveEscrow, Ok(())));
    assert!(received.mark_included());
    assert_eq!(received.state(), ReceiptState::Included);
    assert!(!received.record_check_result(ReceiptCheck::CheckUnique, Ok(())));
}

#[test]
fn rav_signature_must_come_from_known_gateway() {
    let s = setup(100, 50, 0, 100, 1_000);
    let struct_hash = [0x5au8; 32];
    let hash = digest(&domain(), &struct_hash);
    let (sig, recid) = key(7).sign_prehash_recoverable(&hash).unwrap();
    let mut bytes = sig.to_bytes().to_vec();
    bytes.push(27 + recid.to_byte());
    assert_eq!(s.auditor.check_rav_signature(&struct_hash, &bytes), Ok(()));
    let (sig, recid) = key(8).sign_prehash_recoverable(&hash).unwrap();
    let mut bytes = sig.to_bytes().to_vec();
    bytes.push(27 + recid.to_byte());
    assert_eq!(
        s.auditor.check_rav_signature(&struct_hash, &bytes),
        Err(AuditError::InvalidRecoveredSigner { address: address_of(&key(8)) })
    );
    assert_eq!(s.auditor.check_rav_signature(&struct_hash, &bytes[..64]), Err(AuditError::SignerRecoveryFailed));
    let (sig, recid) = key(7).sign_prehash_recoverable(&struct_hash).unwrap();
    let mut raw = sig.to_bytes().to_vec();
    raw.push(27 + recid.to_byte());
    assert_ne!(s.auditor.check_rav_signature(&struct_hash, &raw), Ok(()));
}
