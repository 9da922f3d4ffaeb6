//! Outbound notifications. The engine's host forwards one of these to its
//! notification channel after each successful mutating call; they carry
//! plain values and no behaviour of their own.

use vstd::prelude::*;
use crate::types::{AccountId, ProposalStatus};

verus! {

/// A proposal was created and stored under `proposal_id`.
#[derive(Debug)]
pub struct ProposalCreated {
    pub proposal_id: u32,
    pub proposer: AccountId,
    pub title: String,
}

/// A ballot was accepted on `proposal_id`.
#[derive(Debug)]
pub struct VoteCast {
    pub proposal_id: u32,
    pub voter: AccountId,
    pub option_index: u32,
    pub option_text: String,
    pub weight: u128,
}

/// A proposal reached a terminal status: `Rejected` or `Passed` at
/// finalization, or `Executed` at execution. One notification type serves
/// all three transitions.
#[derive(Debug, Clone, Copy, PartialEq, Eq, Structural)]
pub struct ProposalExecuted {
    pub proposal_id: u32,
    pub status: ProposalStatus,
}

} // verus!
