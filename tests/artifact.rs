use anon_holder::codec::{bytes_to_words, text_to_words, words_to_bytes, words_to_text};
use anon_holder::holders::all_balances_nonzero;
use anon_holder::types::{ErrorKind, ProgramIdentity};
use anon_holder::zk::{accept_journal, decode_receipt, encode_receipt, verify_and_extract_data};
use ethers_core::types::H160;
use risc0_zkvm::{FakeReceipt, InnerReceipt, Receipt, ReceiptClaim};

fn fake_receipt(identity: [u32; 8], owners: &[[u8; 20]], collection: [u8; 20]) -> Receipt {
    let owners: Vec<H160> = owners.iter().map(|b| H160(*b)).collect();
    let mut words = risc0_zkvm::serde::to_vec(&owners).unwrap();
    words.extend(risc0_zkvm::serde::to_vec(&H160(collection)).unwrap());
    let journal: Vec<u8> = words.iter().flat_map(|w| w.to_le_bytes()).collect();
    let claim = ReceiptClaim::ok(risc0_zkvm::sha::Digest::from(identity), journal.clone());
    Receipt::new(InnerReceipt::Fake(FakeReceipt::new(claim)), journal)
}

#[test]
fn words_become_little_endian_bytes() {
    assert_eq!(words_to_bytes(&vec![0x04030201, 0xddccbbaa]), vec![1, 2, 3, 4, 0xaa, 0xbb, 0xcc, 0xdd]);
    assert_eq!(words_to_bytes(&vec![]), Vec::<u8>::new());
}

#[test]
fn bytes_become_words_dropping_a_partial_tail() {
    assert_eq!(bytes_to_words(&vec![1, 2, 3, 4, 5, 6]), vec![0x04030201]);
    assert_eq!(bytes_to_words(&vec![0xff, 0xff, 0xff, 0xff]), vec![u32::MAX]);
}

#[test]
fn words_round_trip_through_text() {
    let text = words_to_text(&vec![0x04030201]);
    assert_eq!(text, "AQIDBA==");
    assert_eq!(text_to_words(&text).unwrap(), vec![0x04030201]);
    let words = vec![0, 1, u32::MAX, 0x8000_0000, 12345];
    assert_eq!(words_to_text(&words).len(), 4 * ((4 * words.len() + 2) / 3));
    assert_eq!(text_to_words(&words_to_text(&words)).unwrap(), words);
}

#[test]
fn bad_text_is_a_malformed_artifact() {
    assert!(matches!(text_to_words("not base64!"), Err(ErrorKind::MalformedArtifact)));
    assert!(matches!(text_to_words(""), Err(ErrorKind::MalformedArtifact)));
    assert!(matches!(text_to_words("AQID"), Err(ErrorKind::MalformedArtifact)));
    assert!(matches!(decode_receipt("AQIDBA=="), Err(ErrorKind::MalformedArtifact)));
    assert!(matches!(decode_receipt(""), Err(ErrorKind::MalformedArtifact)));
}

#[test]
fn receipt_round_trips_through_text() {
    let receipt = fake_receipt([1; 8], &[[0xaa; 20], [0xbb; 20]], [0xdd; 20]);
    let text = encode_receipt(&receipt).unwrap();
    let back = decode_receipt(&text).unwrap();
    assert_eq!(back.journal.bytes, receipt.journal.bytes);
    assert_eq!(encode_receipt(&back).unwrap(), text);
}

#[test]
fn unverified_receipt_is_refused() {
    let receipt = fake_receipt([1; 8], &[[0xaa; 20]], [0xdd; 20]);
    let identity = ProgramIdentity { words: [1; 8] };
    assert!(matches!(
        verify_and_extract_data(&receipt, &identity),
        Err(ErrorKind::VerificationFailed)
    ));
    let other = ProgramIdentity { words: [2; 8] };
    assert!(matches!(
        verify_and_extract_data(&receipt, &other),
        Err(ErrorKind::VerificationFailed)
    ));
}

#[test]
fn undecodable_journal_is_malformed() {
    let journal = vec![1u8, 2, 3];
    let claim = ReceiptClaim::ok(risc0_zkvm::sha::Digest::from([1u32; 8]), journal.clone());
    let receipt = Receipt::new(InnerReceipt::Fake(FakeReceipt::new(claim)), journal);
    let identity = ProgramIdentity { words: [1; 8] };
    assert!(matches!(
        verify_and_extract_data(&receipt, &identity),
        Err(ErrorKind::MalformedArtifact)
    ));
}

#[test]
fn journal_is_handed_out_only_when_verified() {
    let mut words = risc0_zkvm::serde::to_vec(&vec![H160([0xaa; 20])]).unwrap();
    words.extend(risc0_zkvm::serde::to_vec(&H160([0xdd; 20])).unwrap());
    let bytes: Vec<u8> = words.iter().flat_map(|w| w.to_le_bytes()).collect();
    let (owners, collection) = accept_journal(&bytes, true).unwrap();
    assert_eq!(owners.len(), 1);
    assert_eq!(owners[0].bytes, [0xaa; 20]);
    assert_eq!(collection.bytes, [0xdd; 20]);
    assert!(matches!(accept_journal(&bytes, false), Err(ErrorKind::VerificationFailed)));
    assert!(matches!(accept_journal(&vec![1, 2, 3], true), Err(ErrorKind::MalformedArtifact)));
    assert!(matches!(accept_journal(&vec![], true), Err(ErrorKind::MalformedArtifact)));
}

#[test]
fn balances_all_nonzero() {
    assert!(all_balances_nonzero(&vec![]));
    assert!(all_balances_nonzero(&vec![[1, 0, 0, 0], [0, 0, 0, 1]]));
    assert!(!all_balances_nonzero(&vec![[1, 0, 0, 0], [0, 0, 0, 0]]));
}
