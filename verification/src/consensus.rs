//! The consensus orchestrator: an elector, a proof of history and a batch of
//! pending transactions.

use vstd::prelude::*;
use crate::dpos::{approved, initial_state, DPoS, DPoSView};
use crate::history::{history_digest, ProofOfHistory};
use crate::transaction::{history_event, Transaction, TransactionView};

verus! {

/// One elector, one history and the transactions that wait to be processed,
/// in the order in which they were added.
pub struct Consensus {
    pub dpos: DPoS,
    pub poh: ProofOfHistory,
    pub transactions: Vec<Transaction>,
}

/// The mathematical content of a `Consensus`.
pub struct ConsensusView {
    pub dpos: DPoSView,
    pub history: Seq<Seq<char>>,
    pub transactions: Seq<TransactionView>,
}

impl View for Consensus {
    type V = ConsensusView;

    open spec fn view(&self) -> ConsensusView {
        ConsensusView {
            dpos: self.dpos@,
            history: self.poh@,
            transactions: self.transactions@.map_values(|transaction: Transaction| transaction@),
        }
    }
}

/// The orchestrator after one more transaction was added.
pub open spec fn with_transaction(state: ConsensusView, transaction: TransactionView) -> ConsensusView {
    ConsensusView {
        dpos: state.dpos,
        history: state.history,
        transactions: state.transactions.push(transaction),
    }
}

/// The orchestrator after its batch was processed. With a representative,
/// every pending transaction carries its approval and has left its event in
/// the history, in the order of the batch. Without one, nothing changes.
pub open spec fn processed(state: ConsensusView) -> ConsensusView {
    match state.dpos.approved_representative {
        Some(representative) => ConsensusView {
            dpos: state.dpos,
            history: state.history + state.transactions.map_values(
                |transaction: TransactionView|
                    history_event(transaction.sender, transaction.timestamp),
            ),
            transactions: state.transactions.map_values(
                |transaction: TransactionView| approved(transaction, representative),
            ),
        },
        None => state,
    }
}

/// For each pending transaction, whether processing approves it: all of them
/// with a representative, none without.
pub open spec fn processing_marks(state: ConsensusView) -> Seq<bool> {
    Seq::new(state.transactions.len(), |i: int| state.dpos.approved_representative is Some)
}

impl Consensus {
    /// An orchestrator over the given candidates, with no representative, an
    /// empty history and no pending transaction.
    pub fn new(municipalities: Vec<String>) -> (consensus: Consensus)
        ensures
            consensus.dpos.municipalities == municipalities,
            consensus@ == (ConsensusView {
                dpos: initial_state(municipalities@.map_values(|name: String| name@)),
                history: Seq::empty(),
                transactions: Seq::empty(),
            }),
    {
        let consensus = Consensus {
            dpos: DPoS::new(municipalities),
            poh: ProofOfHistory::new(),
            transactions: Vec::new(),
        };
        assert(consensus@.transactions =~= Seq::<TransactionView>::empty());
        consensus
    }

    /// Adds the transaction at the end of the pending batch, as it is.
    pub fn add_transaction(&mut self, transaction: Transaction)
        ensures
            final(self).dpos == old(self).dpos,
            final(self)@ == with_transaction(old(self)@, transaction@),
    {
        self.transactions.push(transaction);
        assert(self@.transactions =~= old(self)@.transactions.push(transaction@));
    }

    /// Processes the pending batch once, in the order in which it was filled,
    /// and tells for each transaction whether it was approved.
    pub fn process_transactions(&mut self) -> (marks: Vec<bool>)
        ensures
            final(self).dpos == old(self).dpos,
            final(self)@ == processed(old(self)@),
            marks@ == processing_marks(old(self)@),
    {
        let mut marks: Vec<bool> = Vec::new();
        let mut i: usize = 0;
        let ghost before = self@;
        let ghost elected = before.dpos.approved_representative is Some;
        while i < self.transactions.len()
            invariant
                i <= self.transactions.len(),
                self.dpos == old(self).dpos,
                before == old(self)@,
                elected == (before.dpos.approved_representative is Some),
                self.transactions.len() == before.transactions.len(),
                forall|k: int|
                    0 <= k < i ==> #[trigger] self.transactions[k]@ == if elected {
                        approved(
                            before.transactions[k],
                            before.dpos.approved_representative.unwrap(),
                        )
                    } else {
                        before.transactions[k]
                    },
                forall|k: int|
                    i <= k < self.transactions.len() ==> #[trigger] self.transactions[k]@
                        == before.transactions[k],
                self.poh@ == if elected {
                    before.history + before.transactions.take(i as int).map_values(
                        |transaction: TransactionView|
                            history_event(transaction.sender, transaction.timestamp),
                    )
                } else {
                    before.history
                },
                marks@ == Seq::new(i as nat, |k: int| elected),
            decreases self.transactions.len() - i,
        {
            let ghost history_so_far = self.poh@;
            let approval = self.dpos.approve_transaction(&mut self.transactions[i]);
            if approval.is_ok() {
                let event = self.transactions[i].generate_proof_of_history();
                self.poh.add_event(event.as_str());
                marks.push(true);
                proof {
                    let events = |transaction: TransactionView|
                        history_event(transaction.sender, transaction.timestamp);
                    assert(before.transactions.take(i as int + 1).map_values(events)
                        =~= before.transactions.take(i as int).map_values(events).push(
                        events(before.transactions[i as int]),
                    ));
                }
            } else {
                marks.push(false);
            }
            assert(marks@ =~= Seq::new((i + 1) as nat, |k: int| elected));
            i += 1;
        }
        proof {
            assert(before.transactions.take(i as int) =~= before.transactions);
            assert(self@.transactions =~= processed(before).transactions);
            assert(marks@ =~= processing_marks(before));
        }
        marks
    }

    /// Adds the transaction to the pending batch, processes the batch and
    /// hands back a copy of the transaction as processing left it.
    pub fn submit(&mut self, transaction: Transaction) -> (outcome: Transaction)
        ensures
            final(self).dpos == old(self).dpos,
            final(self)@ == processed(with_transaction(old(self)@, transaction@)),
            outcome@ == final(self)@.transactions.last(),
    {
        self.add_transaction(transaction);
        let _ = self.process_transactions();
        let last = self.transactions.len() - 1;
        self.transactions[last].clone()
    }

    /// The digest of the history of the batches processed so far.
    pub fn generate_poh_hash(&self) -> (digest: String)
        ensures
            digest@ == history_digest(self@.history),
            digest@.len() == 64,
    {
        self.poh.generate_hash()
    }
}

} // verus!
