use global_main_chain::digest::digest_hex;
use global_main_chain::place::{Location, ProofOfPlace};
use global_main_chain::timestamp::Timestamp;
use global_main_chain::transaction::Transaction;

fn coordinates(latitude: f64, longitude: f64) -> Location {
    Location::new(format!("{:?}", latitude), format!("{:?}", longitude))
}

fn transfer_at(sender: &str, timestamp: Timestamp) -> Transaction {
    Transaction::at(
        sender.to_string(),
        "B".to_string(),
        format!("{:?}", 10.0f64),
        "credential".to_string(),
        coordinates(1.0, 2.0),
        timestamp,
    )
}

#[test]
fn transaction_at_fills_every_field() {
    let t = Timestamp::new(1_700_000_000, 0).unwrap();
    let tx = transfer_at("A", t);
    assert_eq!(tx.sender, "A");
    assert_eq!(tx.receiver, "B");
    assert_eq!(tx.amount, "10.0");
    assert_eq!(tx.verifiable_credential, "credential");
    assert_eq!(tx.signature, Vec::<u8>::new());
    assert_eq!(tx.location, coordinates(1.0, 2.0));
    assert_eq!(tx.timestamp, t);
    assert_eq!(tx.transaction_id, "0");
    assert_eq!(
        tx.proof_of_place,
        "bbdd90e5a38def1ca2f3730e028ce2dd6cce7c34125e03e35633b61a93e70118"
    );
}

#[test]
fn transaction_proof_of_place_verifies_against_its_location_and_time() {
    let tx = transfer_at("A", Timestamp::new(1_700_000_000, 250_000_000).unwrap());
    assert!(ProofOfPlace::verify_proof(&tx.proof_of_place, &tx.location, tx.timestamp));
    let later = Timestamp::new(1_700_000_000, 250_000_001).unwrap();
    assert!(!ProofOfPlace::verify_proof(&tx.proof_of_place, &tx.location, later));
}

#[test]
fn transaction_new_is_made_now() {
    let before = Timestamp::now();
    let tx = Transaction::new(
        "A".to_string(),
        "B".to_string(),
        "10.0".to_string(),
        "credential".to_string(),
        coordinates(1.0, 2.0),
    );
    let after = Timestamp::now();
    assert!(before.seconds() <= tx.timestamp.seconds());
    assert!(tx.timestamp.seconds() <= after.seconds());
    assert_eq!(tx.sender, "A");
    assert_eq!(tx.receiver, "B");
    assert_eq!(tx.amount, "10.0");
    assert_eq!(tx.verifiable_credential, "credential");
    assert!(tx.signature.is_empty());
    assert_eq!(tx.transaction_id, "0");
    assert_eq!(tx.proof_of_place.len(), 64);
    assert!(ProofOfPlace::verify_proof(&tx.proof_of_place, &tx.location, tx.timestamp));
}

#[test]
fn transaction_clone_is_equal() {
    let mut tx = transfer_at("A", Timestamp::new(1_700_000_000, 0).unwrap());
    tx.signature = vec![1, 2, 3];
    assert_eq!(tx.clone(), tx);
}

#[test]
fn history_event_is_the_digest_of_quoted_sender_and_time() {
    let tx = transfer_at("A", Timestamp::new(1_700_000_000, 0).unwrap());
    assert_eq!(
        tx.generate_proof_of_history(),
        "ee729e9b27f10802d6347e5ef117906ee99ef46eebb8ce775786c717896531e7"
    );
}

#[test]
fn history_event_escapes_the_sender() {
    let tx = transfer_at("a\"b\n", Timestamp::new(1_700_000_000, 0).unwrap());
    assert_eq!(
        tx.generate_proof_of_history(),
        "76d155c151e46e72c01a4e4bec1aff23f216c99feb14358a5f20dbc671d26f93"
    );
}

#[test]
fn history_event_keeps_letters_beyond_ascii() {
    let tx = transfer_at("Zo\u{eb}", Timestamp::new(1_700_000_000, 500_000_000).unwrap());
    assert_eq!(
        tx.generate_proof_of_history(),
        "00c94ed4016e468e73a4c92f18cec443d458502d4944acee26dee79bdc99f6d0"
    );
}

#[test]
fn history_event_does_not_depend_on_the_other_fields() {
    let t = Timestamp::new(1_700_000_000, 0).unwrap();
    let mut tx = transfer_at("A", t);
    let event = tx.generate_proof_of_history();
    tx.receiver = "C".to_string();
    tx.amount = "11.5".to_string();
    tx.signature = vec![7];
    assert_eq!(tx.generate_proof_of_history(), event);
    let other_sender = transfer_at("B", t);
    assert_ne!(other_sender.generate_proof_of_history(), event);
}

#[test]
fn signature_is_verified_against_the_digest_of_the_rendering() {
    let mut tx = transfer_at("A", Timestamp::new(1_700_000_000, 0).unwrap());
    assert!(!tx.verify_signature("rendering of a transaction"));
    tx.signature =
        b"c8a14939be02529590ca1ad6f88e214584faf220ef4bd6518755e3d01f19987c".to_vec();
    assert!(tx.verify_signature("rendering of a transaction"));
    assert!(!tx.verify_signature("rendering of another transaction"));
    tx.signature = digest_hex("x").into_bytes();
    assert!(tx.verify_signature("x"));
    tx.signature.pop();
    assert!(!tx.verify_signature("x"));
}

#[test]
fn error_marker_has_errors_and_zeros() {
    let t = Timestamp::new(1_700_000_000, 0).unwrap();
    let marker = Transaction::error_marker_at(t);
    assert_eq!(marker.sender, "error");
    assert_eq!(marker.receiver, "error");
    assert_eq!(marker.amount, format!("{:?}", 0.0f64));
    assert_eq!(marker.verifiable_credential, "error");
    assert!(marker.signature.is_empty());
    assert_eq!(marker.location, coordinates(0.0, 0.0));
    assert_eq!(marker.timestamp, t);
    assert_eq!(marker.proof_of_place, "error");
    assert_eq!(marker.transaction_id, "error");
}

#[test]
fn error_marker_is_stamped_now() {
    let before = Timestamp::now();
    let marker = Transaction::error_marker();
    let after = Timestamp::now();
    assert!(before.seconds() <= marker.timestamp.seconds());
    assert!(marker.timestamp.seconds() <= after.seconds());
    assert_eq!(marker, Transaction::error_marker_at(marker.timestamp));
}
