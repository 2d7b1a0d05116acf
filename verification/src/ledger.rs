//! The ledger: the ordered, append-only sequence of blocks of one node.

use vstd::prelude::*;
use crate::block::{Block, BlockView};
use crate::error::ChainError;

verus! {

/// The blocks of a node, in the order in which they were appended. Whoever
/// shares a ledger between concurrent callers guards it with a lock; each
/// operation here is one critical section.
pub struct Ledger {
    blocks: Vec<Block>,
}

impl View for Ledger {
    type V = Seq<BlockView>;

    closed spec fn view(&self) -> Seq<BlockView> {
        self.blocks@.map_values(|block: Block| block@)
    }
}

/// The ledger after the blocks have been appended one after the other.
pub open spec fn appended_in_turn(ledger: Seq<BlockView>, blocks: Seq<BlockView>) -> Seq<BlockView>
    decreases blocks.len(),
{
    if blocks.len() == 0 {
        ledger
    } else {
        appended_in_turn(ledger.push(blocks.first()), blocks.drop_first())
    }
}

/// What the submitter of a block is told: the block is accepted where it was
/// forwarded to the peer, and a forwarding failure otherwise. Either way the
/// block stays in the ledger.
pub open spec fn submission_outcome(forwarded: bool) -> Result<(), ChainError> {
    if forwarded {
        Ok(())
    } else {
        Err(ChainError::ForwardingFailure)
    }
}

impl Ledger {
    /// The empty ledger.
    pub fn new() -> (ledger: Ledger)
        ensures
            ledger@ == Seq::<BlockView>::empty(),
    {
        let ledger = Ledger { blocks: Vec::new() };
        assert(ledger@ =~= Seq::<BlockView>::empty());
        ledger
    }

    /// Appends the block at the end of the ledger.
    pub fn append(&mut self, block: Block)
        ensures
            final(self)@ == old(self)@.push(block@),
    {
        self.blocks.push(block);
        assert(self@ =~= old(self)@.push(block@));
    }

    /// Appends the block at the end of the ledger and hands back a copy of
    /// it, to be forwarded to the peer.
    pub fn submit_block(&mut self, block: Block) -> (copy: Block)
        ensures
            final(self)@ == old(self)@.push(block@),
            copy@ == block@,
    {
        let copy = block.clone();
        self.append(block);
        copy
    }

    /// The number of blocks in the ledger.
    pub fn len(&self) -> (count: usize)
        ensures
            count == self@.len(),
    {
        self.blocks.len()
    }

    /// A copy of all the blocks, in the order in which they were appended.
    pub fn snapshot(&self) -> (blocks: Vec<Block>)
        ensures
            blocks@.map_values(|block: Block| block@) == self@,
    {
        let mut blocks: Vec<Block> = Vec::new();
        let mut i: usize = 0;
        while i < self.blocks.len()
            invariant
                i <= self.blocks.len(),
                blocks.len() == i,
                forall|k: int| 0 <= k < i ==> blocks[k]@ == self.blocks[k]@,
            decreases self.blocks.len() - i,
        {
            blocks.push(self.blocks[i].clone());
            i += 1;
        }
        assert(blocks@.map_values(|block: Block| block@) =~= self@);
        blocks
    }

    /// What the submitter of a block is told, once forwarding was tried.
    pub fn submission_status(forwarded: bool) -> (status: Result<(), ChainError>)
        ensures
            status == submission_outcome(forwarded),
    {
        if forwarded {
            Ok(())
        } else {
            Err(ChainError::ForwardingFailure)
        }
    }
}

/// Blocks appended one after the other stand at the end of the ledger, in
/// the order of the appends: the ledger grows by their number, what was in
/// it stays where it was, and no block is lost, repeated or moved.
pub proof fn lemma_appends_keep_order(ledger: Seq<BlockView>, blocks: Seq<BlockView>)
    ensures
        appended_in_turn(ledger, blocks) == ledger + blocks,
        appended_in_turn(ledger, blocks).len() == ledger.len() + blocks.len(),
        forall|i: int| 0 <= i < ledger.len() ==> appended_in_turn(ledger, blocks)[i] == ledger[i],
        forall|i: int|
            0 <= i < blocks.len() ==> appended_in_turn(ledger, blocks)[ledger.len() + i]
                == blocks[i],
    decreases blocks.len(),
{
    if blocks.len() > 0 {
        lemma_appends_keep_order(ledger.push(blocks.first()), blocks.drop_first());
        assert(ledger.push(blocks.first()) + blocks.drop_first() =~= ledger + blocks);
    } else {
        assert(ledger + blocks =~= ledger);
    }
}

} // verus!
