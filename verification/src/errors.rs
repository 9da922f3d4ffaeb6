//! Failure kinds shared by every operation of the engine.

use vstd::prelude::*;

verus! {

/// Every rejected precondition maps to exactly one of these kinds; no failure
/// is silently absorbed and no partial state is committed on failure.
#[derive(Debug, Clone, Copy, PartialEq, Eq, Structural)]
pub enum Error {
    /// An id-keyed operation named an unknown proposal id.
    ProposalNotFound,
    /// A vote was attempted on a proposal that is no longer active.
    ProposalNotActive,
    /// A vote was attempted after the proposal's voting window closed.
    VotingPeriodEnded,
    /// A voter attempted a second vote on the same proposal.
    AlreadyVoted,
    /// A vote was attempted by an identity that is not registered.
    NotAuthorized,
    /// Finalize was attempted before the voting window closed, or execute was
    /// attempted on a proposal that has not passed or before its execution time.
    ProposalNotReadyForExecution,
    /// Bad option count or content at creation, an out-of-range option index
    /// at vote time, or timestamp arithmetic overflow at creation.
    InvalidProposal,
    /// A duplicate voter registration.
    AlreadyRegistered,
}

} // verus!
