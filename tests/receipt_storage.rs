use k256::ecdsa::SigningKey;
use tap_core::checks::get_full_list_of_checks;
use tap_core::receipt::{Address, Receipt};
use tap_core::received_receipt::ReceivedReceipt;
use tap_core::signed::{signing_hash, DomainContext, SignedReceipt};
use tap_core::storage::{ReceiptStorage, StorageError};

fn domain_separator() -> DomainContext {
    DomainContext {
        name: "TAP".to_string(),
        version: "1".to_string(),
        chain_id: 1,
        verifying_contract: Address::from_bytes([0x11u8; 20]),
    }
}

fn wallet() -> SigningKey {
    SigningKey::from_slice(&[0x42u8; 32]).unwrap()
}

fn signed(domain: &DomainContext, receipt: Receipt, key: &SigningKey) -> SignedReceipt {
    let hash = signing_hash(domain, &receipt);
    let (sig, recid) = key.sign_prehash_recoverable(&hash).unwrap();
    let mut bytes = sig.to_bytes().to_vec();
    bytes.push(27 + recid.to_byte());
    SignedReceipt::new(receipt, bytes)
}

fn allocation_id() -> Address {
    let a: alloy_primitives::Address = "0xabababababababababababababababababababab".parse().unwrap();
    Address::from_bytes(a.into_array())
}

#[test]
fn receipt_adapter_test() {
    let domain_separator = domain_separator();
    let mut receipt_adapter = ReceiptStorage::new();
    let wallet = wallet();
    let allocation_id = allocation_id();

    let query_id = 10u64;
    let value = 100u128;
    let received_receipt = ReceivedReceipt::new(
        signed(&domain_separator, Receipt::new(allocation_id, 1_000, value).unwrap(), &wallet),
        query_id,
        &get_full_list_of_checks(),
    );

    let receipt_store_result = receipt_adapter.store_receipt(received_receipt);
    assert!(receipt_store_result.is_ok());
    let receipt_id = receipt_store_result.unwrap();

    assert!(receipt_adapter.retrieve_receipt_by_id(receipt_id).is_ok());
    assert!(receipt_adapter.retrieve_receipt_by_id(999).is_err());

    assert!(receipt_adapter.remove_receipt_by_id(receipt_id).is_ok());
    assert!(receipt_adapter.remove_receipt_by_id(999).is_err());

    assert!(receipt_adapter.retrieve_receipt_by_id(receipt_id).is_err());

    assert!(receipt_adapter.remove_receipt_by_id(receipt_id).is_err());
}

#[test]
fn multi_receipt_adapter_test() {
    let domain_separator = domain_separator();
    let mut receipt_adapter = ReceiptStorage::new();
    let wallet = wallet();
    let allocation_id = allocation_id();

    let mut received_receipts = Vec::new();
    for (query_id, value) in (50..60).enumerate() {
        let timestamp = 1_000 + query_id as u64;
        received_receipts.push(ReceivedReceipt::new(
            signed(&domain_separator, Receipt::new(allocation_id, timestamp, value).unwrap(), &wallet),
            query_id as u64,
            &get_full_list_of_checks(),
        ));
    }
    let mut receipt_ids = Vec::new();
    let mut receipt_timestamps = Vec::new();
    for received_receipt in received_receipts {
        receipt_timestamps.push(received_receipt.signed_receipt().message.timestamp_ns);
        receipt_ids.push(receipt_adapter.store_receipt(received_receipt).unwrap());
    }

    assert!(!receipt_adapter.retrieve_receipts_by_timestamp(receipt_timestamps[0]).is_empty());
    assert!(receipt_adapter.retrieve_receipts_upto_timestamp(receipt_timestamps[3]).len() >= 4);

    assert!(receipt_adapter.remove_receipts_by_ids(receipt_ids.as_slice()).is_ok());
    assert!(receipt_adapter.remove_receipts_by_ids(receipt_ids.as_slice()).is_err());
    for receipt_id in receipt_ids {
        assert!(receipt_adapter.retrieve_receipt_by_id(receipt_id).is_err());
    }
}

#[test]
fn timestamp_queries_are_exact() {
    let d = domain_separator();
    let w = wallet();
    let mut store = ReceiptStorage::new();
    let mut ids = Vec::new();
    for t in [10u64, 20, 20, 30] {
        let rr = ReceivedReceipt::new(signed(&d, Receipt::new(allocation_id(), t, 5).unwrap(), &w), 1, &get_full_list_of_checks());
        ids.push(store.store_receipt(rr).unwrap());
    }
    let at = store.retrieve_receipts_by_timestamp(20);
    assert_eq!(at.iter().map(|e| e.0).collect::<Vec<_>>(), vec![ids[1], ids[2]]);
    assert_eq!(store.retrieve_receipts_upto_timestamp(20).len(), 3);
    assert_eq!(store.retrieve_receipts_upto_timestamp(9).len(), 0);
    assert!(store.retrieve_receipts_by_timestamp(25).is_empty());
}

#[test]
fn removing_with_an_unknown_id_removes_nothing() {
    let d = domain_separator();
    let w = wallet();
    let mut store = ReceiptStorage::new();
    let rr = ReceivedReceipt::new(signed(&d, Receipt::new(allocation_id(), 7, 5).unwrap(), &w), 1, &get_full_list_of_checks());
    let id = store.store_receipt(rr).unwrap();
    assert_eq!(store.remove_receipts_by_ids(&[id, id + 100]), Err(StorageError::UnknownId { id: id + 100 }));
    assert!(store.retrieve_receipt_by_id(id).is_ok());
    assert_eq!(store.remove_receipt_by_id(id + 1), Err(StorageError::UnknownId { id: id + 1 }));
    let stored = store.retrieve_receipt_by_id(id).unwrap();
    assert_eq!(stored.signed_receipt().message.timestamp_ns, 7);
}
