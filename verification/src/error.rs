//! The closed set of reasons for which one resolution attempt can fail.

use vstd::prelude::*;

verus! {

/// Why a single attempt to learn a domain's status failed.
#[derive(Debug, Clone, Copy, PartialEq, Eq, Structural)]
pub enum KnockKnockError {
    /// The response body could not be decoded.
    CouldntParseData,
    /// The server answered that it knows no such domain.
    DomainNotFound,
    /// The request did not reach the server or no answer came back.
    NetworkRequestGlitch,
    /// The bootstrap data covers the domain but lists no server for it.
    NoServersFound,
    /// The response decoded but did not meet the protocol.
    RdapProblem,
    /// The server answered with a failure status other than "not found".
    BadServer,
    /// The bootstrap data does not cover the domain at all.
    UnableToRetrieveListOfServers,
}

impl KnockKnockError {
    /// Whether another attempt may be made after this failure.
    pub open spec fn retryable(self) -> bool {
        self != KnockKnockError::DomainNotFound
    }

    /// Tells whether another attempt may be made after this failure.
    pub fn is_retryable(&self) -> (r: bool)
        ensures
            r == self.retryable(),
    {
        !matches!(self, KnockKnockError::DomainNotFound)
    }
}

} // verus!
