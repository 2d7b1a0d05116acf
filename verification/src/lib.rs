use vstd::prelude::*;

pub mod digest;
pub mod timestamp;
pub mod place;
pub mod transaction;
pub mod error;
pub mod block;
pub mod ledger;
pub mod history;
pub mod dpos;
pub mod consensus;
pub mod node;

verus! {

/// The greeting served at the root of the node's interface.
pub open spec fn welcome_text() -> Seq<char> {
    "Welcome to the Global Main Chain!"@
}

/// Returns the greeting of the node.
pub fn index() -> (greeting: &'static str)
    ensures
        greeting@ == welcome_text(),
{
    "Welcome to the Global Main Chain!"
}

} // verus!
