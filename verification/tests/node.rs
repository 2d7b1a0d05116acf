use global_main_chain::index;
use global_main_chain::node::{candidates, process_submission, submission_response};
use global_main_chain::place::{Location, ProofOfPlace};
use global_main_chain::timestamp::Timestamp;
use global_main_chain::transaction::Transaction;

#[test]
fn index_is_the_greeting() {
    assert_eq!(index(), "Welcome to the Global Main Chain!");
}

#[test]
fn node_has_two_candidates() {
    assert_eq!(candidates(), vec!["Municipality1".to_string(), "Municipality2".to_string()]);
}

#[test]
fn submitted_transaction_is_approved_by_the_elected_candidate() {
    let tx = Transaction::new(
        "A".to_string(),
        "B".to_string(),
        format!("{:?}", 10.0f64),
        String::new(),
        Location::new(format!("{:?}", 1.0f64), format!("{:?}", 2.0f64)),
    );
    let submitted = tx.clone();
    let response = submission_response(process_submission(tx), true);
    assert!(!response.proof_of_place.is_empty());
    assert!(ProofOfPlace::verify_proof(
        &response.proof_of_place,
        &response.location,
        response.timestamp
    ));
    let by_first = b"approved_by_Municipality1".to_vec();
    let by_second = b"approved_by_Municipality2".to_vec();
    assert!(response.signature == by_first || response.signature == by_second);
    let mut unsigned = response.clone();
    unsigned.signature = Vec::new();
    assert_eq!(unsigned, submitted);
}

#[test]
fn submission_reaches_both_candidates() {
    let mut seen_first = false;
    let mut seen_second = false;
    for _ in 0..400 {
        let tx = Transaction::at(
            "A".to_string(),
            "B".to_string(),
            "10.0".to_string(),
            String::new(),
            Location::origin(),
            Timestamp::new(1_700_000_000, 0).unwrap(),
        );
        let outcome = process_submission(tx);
        if outcome.signature == b"approved_by_Municipality1".to_vec() {
            seen_first = true;
        } else {
            assert_eq!(outcome.signature, b"approved_by_Municipality2".to_vec());
            seen_second = true;
        }
    }
    assert!(seen_first && seen_second);
}

#[test]
fn response_is_the_transaction_where_forwarding_went_through() {
    let tx = Transaction::at(
        "A".to_string(),
        "B".to_string(),
        "10.0".to_string(),
        String::new(),
        Location::origin(),
        Timestamp::new(1_700_000_000, 0).unwrap(),
    );
    assert_eq!(submission_response(tx.clone(), true), tx);
}

#[test]
fn response_is_the_error_marker_where_forwarding_failed() {
    let tx = Transaction::at(
        "A".to_string(),
        "B".to_string(),
        "10.0".to_string(),
        String::new(),
        Location::new("1.0".to_string(), "2.0".to_string()),
        Timestamp::new(1_700_000_000, 0).unwrap(),
    );
    let response = submission_response(tx, false);
    assert_eq!(response, Transaction::error_marker_at(response.timestamp));
    assert_eq!(response.sender, "error");
    assert_eq!(response.amount, "0.0");
    assert_eq!(response.location, Location::origin());
}
