//! What a node decides when a transaction is submitted to it.

use vstd::prelude::*;
use vstd::string::*;
use crate::consensus::Consensus;
use crate::dpos::approved;
use crate::timestamp::Timestamp;
use crate::transaction::{error_transaction, Transaction, TransactionView};

verus! {

/// The candidates of a node: two municipalities.
pub open spec fn node_candidates() -> Seq<Seq<char>> {
    seq!["Municipality1"@, "Municipality2"@]
}

/// The response to a submission: the processed transaction where it was
/// forwarded to the peer, the error marker otherwise.
pub open spec fn is_response(
    response: TransactionView,
    processed: TransactionView,
    forwarded: bool,
    answered_at: Timestamp,
) -> bool {
    if forwarded {
        response == processed
    } else {
        response == error_transaction(answered_at)
    }
}

/// The candidates of a node.
pub fn candidates() -> (names: Vec<String>)
    ensures
        names@.map_values(|name: String| name@) == node_candidates(),
{
    let mut names: Vec<String> = Vec::new();
    names.push(String::from_str("Municipality1"));
    names.push(String::from_str("Municipality2"));
    assert(names@.map_values(|name: String| name@) =~= node_candidates());
    names
}

/// Runs a submitted transaction through a fresh orchestrator over the
/// candidates of the node: a representative is elected, then the transaction
/// is processed. The outcome carries the approval of whichever candidate was
/// elected, and is the submitted transaction otherwise.
pub fn process_submission(transaction: Transaction) -> (outcome: Transaction)
    ensures
        exists|representative: Seq<char>|
            #[trigger] node_candidates().contains(representative) && outcome@ == approved(
                transaction@,
                representative,
            ),
{
    let mut consensus = Consensus::new(candidates());
    let representative = consensus.dpos.elect_representative();
    let outcome = consensus.submit(transaction);
    proof {
        assert(node_candidates().contains(representative@));
        assert(outcome@ == approved(transaction@, representative@));
    }
    outcome
}

/// The response to the submitter, once forwarding to the peer was tried: the
/// processed transaction where it went through, and otherwise the error
/// marker, stamped with the present time.
pub fn submission_response(outcome: Transaction, forwarded: bool) -> (response: Transaction)
    ensures
        is_response(response@, outcome@, forwarded, response.timestamp),
{
    if forwarded {
        outcome
    } else {
        Transaction::error_marker()
    }
}

} // verus!
