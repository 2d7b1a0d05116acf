//! Transactions: a transfer of value between two parties, bound to a place
//! and a time.

use vstd::prelude::*;
use vstd::string::*;
use vstd::slice::slice_to_vec;
use vstd::utf8::encode_utf8;
use crate::digest::{digest_hex, digest_text};
use crate::place::{accepts, place_proof, Location, LocationView, ProofOfPlace};
use crate::timestamp::Timestamp;

verus! {

/// The text that Rust writes for a string under `{:?}`: the string between
/// double quotes, with quotes, backslashes and unprintable characters
/// escaped.
pub uninterp spec fn quoted_text(text: Seq<char>) -> Seq<char>;

/// Formats the string with `{:?}`, which is `<str as Debug>::fmt`. The text
/// is named `quoted_text`.
#[verifier::external_body]
fn quote(text: &str) -> (quoted: String)
    ensures
        quoted@ == quoted_text(text@),
{
    format!("{:?}", text)
}

/// A transfer of value from a sender to a receiver.
///
/// The amount is held as the decimal text of the number, as the coordinates
/// of the location are. The proof of place is computed when the transaction
/// is made, from its location and its time; the signature is empty until a
/// representative approves the transaction.
#[derive(Debug, PartialEq, Eq)]
pub struct Transaction {
    pub sender: String,
    pub receiver: String,
    pub amount: String,
    pub verifiable_credential: String,
    pub signature: Vec<u8>,
    pub location: Location,
    pub timestamp: Timestamp,
    pub proof_of_place: String,
    pub transaction_id: String,
}

/// The mathematical content of a `Transaction`.
pub struct TransactionView {
    pub sender: Seq<char>,
    pub receiver: Seq<char>,
    pub amount: Seq<char>,
    pub verifiable_credential: Seq<char>,
    pub signature: Seq<u8>,
    pub location: LocationView,
    pub timestamp: Timestamp,
    pub proof_of_place: Seq<char>,
    pub transaction_id: Seq<char>,
}

impl View for Transaction {
    type V = TransactionView;

    open spec fn view(&self) -> TransactionView {
        TransactionView {
            sender: self.sender@,
            receiver: self.receiver@,
            amount: self.amount@,
            verifiable_credential: self.verifiable_credential@,
            signature: self.signature@,
            location: self.location@,
            timestamp: self.timestamp,
            proof_of_place: self.proof_of_place@,
            transaction_id: self.transaction_id@,
        }
    }
}

/// The transaction that `Transaction::at` makes from its arguments.
pub open spec fn fresh_transaction(
    sender: Seq<char>,
    receiver: Seq<char>,
    amount: Seq<char>,
    verifiable_credential: Seq<char>,
    location: LocationView,
    timestamp: Timestamp,
) -> TransactionView {
    TransactionView {
        sender,
        receiver,
        amount,
        verifiable_credential,
        signature: Seq::empty(),
        location,
        timestamp,
        proof_of_place: place_proof(location, timestamp),
        transaction_id: seq!['0'],
    }
}

/// The transaction that stands for a failed forwarding at the given time:
/// every text is `error`, the amount and the coordinates are zero, the
/// signature is empty.
pub open spec fn error_transaction(timestamp: Timestamp) -> TransactionView {
    TransactionView {
        sender: "error"@,
        receiver: "error"@,
        amount: "0.0"@,
        verifiable_credential: "error"@,
        signature: Seq::empty(),
        location: LocationView { latitude: "0.0"@, longitude: "0.0"@ },
        timestamp,
        proof_of_place: "error"@,
        transaction_id: "error"@,
    }
}

/// The history event of a transaction: the digest of the sender, quoted,
/// followed by the text of the time.
pub open spec fn history_event(sender: Seq<char>, timestamp: Timestamp) -> Seq<char> {
    digest_text(quoted_text(sender) + timestamp.text())
}

/// The signature that matches a rendering of a transaction: the UTF-8 bytes
/// of the digest of the rendering.
pub open spec fn rendering_signature(rendering: Seq<char>) -> Seq<u8> {
    encode_utf8(digest_text(rendering))
}

impl Clone for Transaction {
    fn clone(&self) -> (copy: Self)
        ensures
            copy@ == self@,
    {
        Transaction {
            sender: self.sender.clone(),
            receiver: self.receiver.clone(),
            amount: self.amount.clone(),
            verifiable_credential: self.verifiable_credential.clone(),
            signature: self.signature.clone(),
            location: self.location.clone(),
            timestamp: self.timestamp,
            proof_of_place: self.proof_of_place.clone(),
            transaction_id: self.transaction_id.clone(),
        }
    }
}

impl Transaction {
    /// A transaction made now: its time is the present time, and its proof
    /// of place commits to its location and that time.
    pub fn new(
        sender: String,
        receiver: String,
        amount: String,
        verifiable_credential: String,
        location: Location,
    ) -> (transaction: Transaction)
        ensures
            transaction@ == fresh_transaction(
                sender@,
                receiver@,
                amount@,
                verifiable_credential@,
                location@,
                transaction.timestamp,
            ),
            transaction.proof_of_place@.len() == 64,
    {
        Transaction::at(sender, receiver, amount, verifiable_credential, location, Timestamp::now())
    }

    /// A transaction made at the given time.
    pub fn at(
        sender: String,
        receiver: String,
        amount: String,
        verifiable_credential: String,
        location: Location,
        timestamp: Timestamp,
    ) -> (transaction: Transaction)
        ensures
            transaction@ == fresh_transaction(
                sender@,
                receiver@,
                amount@,
                verifiable_credential@,
                location@,
                timestamp,
            ),
            transaction.proof_of_place@.len() == 64,
    {
        let claim = ProofOfPlace::at(location, timestamp);
        let proof_of_place = claim.generate_proof();
        let transaction_id = String::from_str("0");
        proof {
            reveal_strlit("0");
            assert(transaction_id@ =~= seq!['0']);
        }
        Transaction {
            sender,
            receiver,
            amount,
            verifiable_credential,
            signature: Vec::new(),
            location: claim.location,
            timestamp,
            proof_of_place,
            transaction_id,
        }
    }

    /// The transaction that is handed back when forwarding failed, stamped
    /// with the present time.
    pub fn error_marker() -> (marker: Transaction)
        ensures
            marker@ == error_transaction(marker.timestamp),
    {
        Transaction::error_marker_at(Timestamp::now())
    }

    /// The transaction that is handed back when forwarding failed, stamped
    /// with the given time.
    pub fn error_marker_at(timestamp: Timestamp) -> (marker: Transaction)
        ensures
            marker@ == error_transaction(timestamp),
    {
        Transaction {
            sender: String::from_str("error"),
            receiver: String::from_str("error"),
            amount: String::from_str("0.0"),
            verifiable_credential: String::from_str("error"),
            signature: Vec::new(),
            location: Location::origin(),
            timestamp,
            proof_of_place: String::from_str("error"),
            transaction_id: String::from_str("error"),
        }
    }

    /// The event that records the transaction in a proof of history.
    pub fn generate_proof_of_history(&self) -> (event: String)
        ensures
            event@ == history_event(self.sender@, self.timestamp),
            event@.len() == 64,
    {
        let mut text = quote(self.sender.as_str());
        let time = self.timestamp.to_text();
        text.append(time.as_str());
        digest_hex(text.as_str())
    }

    /// Whether the signature is the one that matches the given rendering of
    /// the transaction.
    pub fn verify_signature(&self, rendering: &str) -> (matches: bool)
        ensures
            matches == (self.signature@ == rendering_signature(rendering@)),
    {
        let digest = digest_hex(rendering);
        let expected = slice_to_vec(digest.as_str().as_bytes());
        let matches = self.signature == expected;
        proof {
            if self.signature@ == expected@ {
                assert forall|i: int| 0 <= i < self.signature.len() implies self.signature[i]
                    == expected[i] by {
                    assert(self.signature@[i] == expected@[i]);
                }
            } else if matches {
                assert(self.signature@ =~= expected@);
            }
        }
        matches
    }
}

/// The proof of place of a transaction is made with the transaction, from
/// its location and its time: it is accepted for them.
pub proof fn lemma_fresh_transaction_proves_its_place(
    sender: Seq<char>,
    receiver: Seq<char>,
    amount: Seq<char>,
    verifiable_credential: Seq<char>,
    location: LocationView,
    timestamp: Timestamp,
)
    ensures
        accepts(
            fresh_transaction(
                sender,
                receiver,
                amount,
                verifiable_credential,
                location,
                timestamp,
            ).proof_of_place,
            location,
            timestamp,
        ),
{
}

} // verus!
