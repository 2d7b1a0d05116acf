//! The ways in which an operation of the chain can fail.

use vstd::prelude::*;

verus! {

/// Why an operation did not go through.
#[derive(Clone, Copy, Debug, PartialEq, Eq, Structural)]
pub enum ChainError {
    /// Approval was asked for before any representative was elected.
    NoRepresentativeElected,
    /// The call that forwards to the peer node did not complete.
    ForwardingFailure,
}

impl ChainError {
    /// The wording of each error.
    pub open spec fn message_text(self) -> Seq<char> {
        match self {
            ChainError::NoRepresentativeElected => "No representative elected"@,
            ChainError::ForwardingFailure => "Failed to send to global chain"@,
        }
    }

    /// A sentence that describes the error.
    pub fn message(&self) -> (text: &'static str)
        ensures
            text@ == self.message_text(),
    {
        match self {
            ChainError::NoRepresentativeElected => "No representative elected",
            ChainError::ForwardingFailure => "Failed to send to global chain",
        }
    }
}

} // verus!
