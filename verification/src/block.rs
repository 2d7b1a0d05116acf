//! Blocks: the entries of the ledger.

use vstd::prelude::*;
use crate::timestamp::Timestamp;

verus! {

/// An entry of the ledger. A block is taken as it is submitted: neither its
/// own hash nor its link to the block before it is checked.
#[derive(Debug, PartialEq, Eq)]
pub struct Block {
    pub index: u64,
    pub timestamp: Timestamp,
    pub data: String,
    pub prev_hash: String,
    pub hash: String,
    pub verifiable_credential: String,
    pub signature: Vec<u8>,
}

/// The mathematical content of a `Block`.
pub struct BlockView {
    pub index: u64,
    pub timestamp: Timestamp,
    pub data: Seq<char>,
    pub prev_hash: Seq<char>,
    pub hash: Seq<char>,
    pub verifiable_credential: Seq<char>,
    pub signature: Seq<u8>,
}

impl View for Block {
    type V = BlockView;

    open spec fn view(&self) -> BlockView {
        BlockView {
            index: self.index,
            timestamp: self.timestamp,
            data: self.data@,
            prev_hash: self.prev_hash@,
            hash: self.hash@,
            verifiable_credential: self.verifiable_credential@,
            signature: self.signature@,
        }
    }
}

impl Clone for Block {
    fn clone(&self) -> (copy: Self)
        ensures
            copy@ == self@,
    {
        Block {
            index: self.index,
            timestamp: self.timestamp,
            data: self.data.clone(),
            prev_hash: self.prev_hash.clone(),
            hash: self.hash.clone(),
            verifiable_credential: self.verifiable_credential.clone(),
            signature: self.signature.clone(),
        }
    }
}

} // verus!
