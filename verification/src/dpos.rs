//! The delegated elector and approver: one representative, picked from a
//! fixed set of candidates, stamps its approval onto transactions.

use vstd::prelude::*;
use vstd::string::*;
use vstd::slice::slice_to_vec;
use vstd::utf8::encode_utf8;
use crate::error::ChainError;
use crate::transaction::{Transaction, TransactionView};

verus! {

/// The candidates and, once one was elected, the representative.
pub struct DPoS {
    pub municipalities: Vec<String>,
    pub approved_representative: Option<String>,
}

/// The mathematical content of a `DPoS`: no representative, or the one that
/// was elected last.
pub struct DPoSView {
    pub municipalities: Seq<Seq<char>>,
    pub approved_representative: Option<Seq<char>>,
}

impl View for DPoS {
    type V = DPoSView;

    open spec fn view(&self) -> DPoSView {
        DPoSView {
            municipalities: self.municipalities@.map_values(|name: String| name@),
            approved_representative: match self.approved_representative {
                Some(name) => Some(name@),
                None => None,
            },
        }
    }
}

/// The state before any election.
pub open spec fn initial_state(municipalities: Seq<Seq<char>>) -> DPoSView {
    DPoSView { municipalities, approved_representative: None }
}

/// The state after the election of a representative.
pub open spec fn elected(state: DPoSView, representative: Seq<char>) -> DPoSView {
    DPoSView {
        municipalities: state.municipalities,
        approved_representative: Some(representative),
    }
}

/// The signature that a representative leaves on a transaction: the UTF-8
/// bytes of `approved_by_` followed by its name.
pub open spec fn approval_signature(representative: Seq<char>) -> Seq<u8> {
    encode_utf8("approved_by_"@ + representative)
}

/// A transaction with the approval of a representative: only the signature
/// differs.
pub open spec fn approved(transaction: TransactionView, representative: Seq<char>) -> TransactionView {
    TransactionView {
        sender: transaction.sender,
        receiver: transaction.receiver,
        amount: transaction.amount,
        verifiable_credential: transaction.verifiable_credential,
        signature: approval_signature(representative),
        location: transaction.location,
        timestamp: transaction.timestamp,
        proof_of_place: transaction.proof_of_place,
        transaction_id: transaction.transaction_id,
    }
}

/// What approval gives in a state: the approved transaction, or the error
/// where no representative was elected. What the transaction holds plays no
/// part.
pub open spec fn approval_outcome(state: DPoSView, transaction: TransactionView) -> Result<
    TransactionView,
    ChainError,
> {
    match state.approved_representative {
        Some(representative) => Ok(approved(transaction, representative)),
        None => Err(ChainError::NoRepresentativeElected),
    }
}

/// The word that a successful approval returns.
pub open spec fn approval_text() -> Seq<char> {
    "Transaction approved"@
}

/// Draws one of the names with `rand`'s `SliceRandom::choose`, on the
/// generator of the thread. The crate returns nothing for an empty slice and
/// a reference to one of the elements otherwise; which one is left open. The
/// generator panics where the system gives it no seed.
#[verifier::external_body]
fn pick_one(names: &Vec<String>) -> (picked: Option<&String>)
    ensures
        names@.len() == 0 ==> picked is None,
        names@.len() > 0 ==> picked is Some && names@.contains(*picked.unwrap()),
{
    rand::seq::SliceRandom::choose(names.as_slice(), &mut rand::thread_rng())
}

impl DPoS {
    /// The elector over the given candidates, with no representative yet.
    pub fn new(municipalities: Vec<String>) -> (elector: DPoS)
        ensures
            elector.municipalities == municipalities,
            elector@ == initial_state(municipalities@.map_values(|name: String| name@)),
    {
        DPoS { municipalities, approved_representative: None }
    }

    /// Makes the given name the representative.
    pub fn appoint(&mut self, representative: String)
        ensures
            final(self).municipalities == old(self).municipalities,
            final(self).approved_representative == Some(representative),
            final(self)@ == elected(old(self)@, representative@),
    {
        self.approved_representative = Some(representative);
    }

    /// Elects one of the candidates at random and returns its name. Any
    /// earlier representative is replaced.
    pub fn elect_representative(&mut self) -> (representative: String)
        requires
            old(self).municipalities.len() > 0,
        ensures
            final(self).municipalities == old(self).municipalities,
            old(self).municipalities@.contains(representative),
            old(self)@.municipalities.contains(representative@),
            final(self)@ == elected(old(self)@, representative@),
    {
        let representative = match pick_one(&self.municipalities) {
            Some(name) => name.clone(),
            None => unreached(),
        };
        proof {
            let i = choose|i: int|
                0 <= i < self.municipalities@.len() && self.municipalities@[i] == representative;
            assert(self@.municipalities[i] == representative@);
        }
        self.appoint(representative.clone());
        representative
    }

    /// Stamps the approval of the representative onto the transaction. Where
    /// no representative was elected, the transaction is left as it is.
    pub fn approve_transaction(&self, transaction: &mut Transaction) -> (outcome: Result<
        &'static str,
        ChainError,
    >)
        ensures
            match approval_outcome(self@, old(transaction)@) {
                Ok(stamped) => {
                    &&& outcome is Ok
                    &&& outcome.unwrap()@ == approval_text()
                    &&& final(transaction)@ == stamped
                },
                Err(error) => {
                    &&& outcome == Err::<&'static str, ChainError>(error)
                    &&& *final(transaction) == *old(transaction)
                },
            },
    {
        match &self.approved_representative {
            Some(representative) => {
                let mut marker = String::from_str("approved_by_");
                marker.append(representative.as_str());
                transaction.signature = slice_to_vec(marker.as_str().as_bytes());
                Ok("Transaction approved")
            },
            None => Err(ChainError::NoRepresentativeElected),
        }
    }
}

/// Before any election, approval fails for want of a representative.
pub proof fn lemma_no_approval_before_election(
    municipalities: Seq<Seq<char>>,
    transaction: TransactionView,
)
    ensures
        approval_outcome(initial_state(municipalities), transaction) == Err::<
            TransactionView,
            ChainError,
        >(ChainError::NoRepresentativeElected),
{
}

/// After one election, approval succeeds whatever the transaction holds, and
/// the signature names the representative that was elected.
pub proof fn lemma_approval_after_election(
    municipalities: Seq<Seq<char>>,
    representative: Seq<char>,
    transaction: TransactionView,
)
    ensures
        approval_outcome(elected(initial_state(municipalities), representative), transaction)
            == Ok::<TransactionView, ChainError>(approved(transaction, representative)),
{
}

} // verus!
