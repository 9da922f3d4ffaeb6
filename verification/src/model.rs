//! The mathematical model of the engine: a ghost state value, the
//! well-formedness predicate every reachable state satisfies, and the
//! transition functions the executable operations are proved to refine.

use vstd::prelude::*;
use crate::errors::Error;
use crate::tally::{decided_status, required_votes};
use crate::text::spec_blank;
use crate::types::{
    AccountId, ChoiceView, GovernanceParameters, ProposalStatus, ProposalType, ProposalView,
    VoteView,
};

verus! {

/// The mathematical state of the engine: the append-only proposal table, the
/// vote table keyed by (proposal id, voter), the roll of registered voters,
/// and the scalar counters.
#[verifier::ext_equal]
pub struct GovView {
    pub proposals: Seq<ProposalView>,
    pub votes: Seq<(u32, VoteView)>,
    pub registered: Set<AccountId>,
    pub next_proposal_id: u32,
    pub proposal_count: u32,
    pub total_voters: u32,
    pub owner: AccountId,
}

/// Whether `id` names a stored proposal. Ids are assigned densely from 1.
pub open spec fn has_proposal(g: GovView, id: u32) -> bool {
    1 <= id <= g.proposals.len()
}

/// The stored proposal named by `id`.
pub open spec fn proposal_of(g: GovView, id: u32) -> ProposalView
    recommends
        has_proposal(g, id),
{
    g.proposals[id - 1]
}

/// Whether `voter` has a recorded ballot on proposal `id`.
pub open spec fn has_voted(g: GovView, id: u32, voter: AccountId) -> bool {
    exists|i: int| 0 <= i < g.votes.len() && g.votes[i].0 == id && g.votes[i].1.voter == voter
}

/// The ballot `voter` cast on proposal `id`, if any.
pub open spec fn user_vote(g: GovView, id: u32, voter: AccountId) -> Option<VoteView> {
    if has_voted(g, id, voter) {
        let i = choose|i: int|
            0 <= i < g.votes.len() && g.votes[i].0 == id && g.votes[i].1.voter == voter;
        Some(g.votes[i].1)
    } else {
        None
    }
}

/// The set of identities with a recorded ballot on proposal `id`.
pub open spec fn voters_on(g: GovView, id: u32) -> Set<AccountId> {
    Set::new(|a: AccountId| has_voted(g, id, a))
}

/// Whether a stored proposal has reached quorum against the current roll of
/// registered voters.
pub open spec fn quorum_met(g: GovView, p: ProposalView) -> bool {
    p.total_voters >= required_votes(g.total_voters, p.governance_params.quorum_threshold)
}

/// Well-formedness of a single stored proposal: one count per option, between
/// one and ten options, every count bounded by the number of voters on the
/// proposal, a forward-ordered time line, and a status the engine produces.
pub open spec fn proposal_wf(p: ProposalView) -> bool {
    &&& p.vote_counts.len() == p.options.len()
    &&& 1 <= p.options.len() <= 10
    &&& (forall|j: int| 0 <= j < p.vote_counts.len() ==> p.vote_counts[j] <= p.total_voters)
    &&& p.status != ProposalStatus::Expired
    &&& p.created_at <= p.voting_end
    &&& p.voting_end <= p.execution_time
}

/// A stored vote record is keyed by an existing proposal, cast by a
/// registered voter, and carries weight one.
pub open spec fn vote_rec_wf(g: GovView, r: (u32, VoteView)) -> bool {
    &&& 1 <= r.0 <= g.proposals.len()
    &&& g.registered.contains(r.1.voter)
    &&& r.1.weight == 1
}

/// The invariant of every reachable state.
pub open spec fn view_wf(g: GovView) -> bool {
    &&& g.next_proposal_id == g.proposals.len() + 1
    &&& g.proposal_count == g.proposals.len()
    &&& (forall|i: int| 0 <= i < g.proposals.len() ==> #[trigger] g.proposals[i].id == i + 1)
    &&& (forall|i: int| 0 <= i < g.proposals.len() ==> proposal_wf(#[trigger] g.proposals[i]))
    &&& g.registered.finite()
    &&& g.registered.len() == g.total_voters
    &&& (forall|i: int| 0 <= i < g.votes.len() ==> vote_rec_wf(g, #[trigger] g.votes[i]))
    &&& (forall|i: int, j: int|
        0 <= i < j < g.votes.len() ==> !(#[trigger] g.votes[i].0 == #[trigger] g.votes[j].0
            && g.votes[i].1.voter == g.votes[j].1.voter))
    &&& (forall|i: int|
        0 <= i < g.proposals.len() ==> (#[trigger] g.proposals[i]).total_voters == voters_on(
            g,
            (i + 1) as u32,
        ).len())
}

/// Whether a creation request is rejected: no options, more than ten options,
/// a blank-after-trim option, or timestamp arithmetic that would overflow.
pub open spec fn create_rejected(
    options: Seq<Seq<char>>,
    params: GovernanceParameters,
    now: u32,
) -> bool {
    ||| options.len() == 0
    ||| options.len() > 10
    ||| (exists|i: int| 0 <= i < options.len() && spec_blank(#[trigger] options[i]))
    ||| now + params.voting_period.spec_seconds() > u32::MAX
    ||| now + params.voting_period.spec_seconds() + params.execution_delay.spec_seconds()
        > u32::MAX
}

/// The proposal a successful creation stores: tallies sized to the options
/// and all zero, no voters yet, status active, and the computed time line.
pub open spec fn fresh_proposal(
    id: u32,
    title: Seq<char>,
    description: Seq<char>,
    proposal_type: ProposalType,
    params: GovernanceParameters,
    options: Seq<Seq<char>>,
    proposer: AccountId,
    now: u32,
) -> ProposalView {
    ProposalView {
        id,
        title,
        description,
        proposal_type,
        governance_params: params,
        options,
        proposer,
        created_at: now,
        voting_end: (now + params.voting_period.spec_seconds()) as u32,
        execution_time: (now + params.voting_period.spec_seconds()
            + params.execution_delay.spec_seconds()) as u32,
        status: ProposalStatus::Active,
        vote_counts: Seq::new(options.len(), |i: int| 0u128),
        total_voters: 0,
    }
}

/// The state after a successful creation: the fresh proposal appended under
/// the next id, and both counters advanced by one.
pub open spec fn create_applied(
    g: GovView,
    title: Seq<char>,
    description: Seq<char>,
    proposal_type: ProposalType,
    params: GovernanceParameters,
    options: Seq<Seq<char>>,
    proposer: AccountId,
    now: u32,
) -> GovView {
    GovView {
        proposals: g.proposals.push(
            fresh_proposal(
                g.next_proposal_id,
                title,
                description,
                proposal_type,
                params,
                options,
                proposer,
                now,
            ),
        ),
        next_proposal_id: (g.next_proposal_id + 1) as u32,
        proposal_count: (g.proposal_count + 1) as u32,
        ..g
    }
}

/// The outcome of a vote request: the first failing check, in this exact
/// order, determines the error.
pub open spec fn vote_result(
    g: GovView,
    proposal_id: u32,
    choice: ChoiceView,
    caller: AccountId,
    now: u32,
) -> Result<(), Error> {
    if !has_proposal(g, proposal_id) {
        Err(Error::ProposalNotFound)
    } else {
        let p = proposal_of(g, proposal_id);
        if p.status != ProposalStatus::Active {
            Err(Error::ProposalNotActive)
        } else if now > p.voting_end {
            Err(Error::VotingPeriodEnded)
        } else if !g.registered.contains(caller) {
            Err(Error::NotAuthorized)
        } else if has_voted(g, proposal_id, caller) {
            Err(Error::AlreadyVoted)
        } else if choice.option_index >= p.options.len() {
            Err(Error::InvalidProposal)
        } else {
            Ok(())
        }
    }
}

/// The state after an accepted vote: the ballot appended to the vote table,
/// the chosen option's count and the proposal's voter count each one higher,
/// and everything else unchanged.
pub open spec fn vote_applied(
    g: GovView,
    proposal_id: u32,
    choice: ChoiceView,
    caller: AccountId,
    now: u32,
) -> GovView
    recommends
        vote_result(g, proposal_id, choice, caller, now) is Ok,
{
    let p = proposal_of(g, proposal_id);
    let idx = choice.option_index as int;
    let p2 = ProposalView {
        vote_counts: p.vote_counts.update(idx, (p.vote_counts[idx] + 1) as u128),
        total_voters: (p.total_voters + 1) as u32,
        ..p
    };
    GovView {
        proposals: g.proposals.update(proposal_id - 1, p2),
        votes: g.votes.push(
            (proposal_id, VoteView { voter: caller, choice, timestamp: now, weight: 1 }),
        ),
        ..g
    }
}

/// Whether a finalize request moves the proposal out of `Active`: it exists,
/// is still active, and its voting window has elapsed.
pub open spec fn finalize_transitions(g: GovView, proposal_id: u32, now: u32) -> bool {
    &&& has_proposal(g, proposal_id)
    &&& proposal_of(g, proposal_id).status == ProposalStatus::Active
    &&& now > proposal_of(g, proposal_id).voting_end
}

/// The outcome of a finalize request. A proposal that already left `Active`
/// reports its stored status unchanged; a premature request fails; otherwise
/// the tally resolves under the quorum read at this moment.
pub open spec fn finalize_result(g: GovView, proposal_id: u32, now: u32) -> Result<
    ProposalStatus,
    Error,
> {
    if !has_proposal(g, proposal_id) {
        Err(Error::ProposalNotFound)
    } else {
        let p = proposal_of(g, proposal_id);
        if p.status != ProposalStatus::Active {
            Ok(p.status)
        } else if now <= p.voting_end {
            Err(Error::ProposalNotReadyForExecution)
        } else {
            Ok(decided_status(p.vote_counts, quorum_met(g, p)))
        }
    }
}

/// The state with the status of proposal `id` replaced and all else unchanged.
pub open spec fn with_status(g: GovView, proposal_id: u32, status: ProposalStatus) -> GovView
    recommends
        has_proposal(g, proposal_id),
{
    GovView {
        proposals: g.proposals.update(
            proposal_id - 1,
            ProposalView { status, ..proposal_of(g, proposal_id) },
        ),
        ..g
    }
}

/// The outcome of an execute request: only a passed proposal whose execution
/// time has arrived may be executed.
pub open spec fn execute_result(g: GovView, proposal_id: u32, now: u32) -> Result<(), Error> {
    if !has_proposal(g, proposal_id) {
        Err(Error::ProposalNotFound)
    } else {
        let p = proposal_of(g, proposal_id);
        if p.status != ProposalStatus::Passed {
            Err(Error::ProposalNotReadyForExecution)
        } else if now < p.execution_time {
            Err(Error::ProposalNotReadyForExecution)
        } else {
            Ok(())
        }
    }
}

/// The outcome of a registration request.
pub open spec fn register_result(g: GovView, caller: AccountId) -> Result<(), Error> {
    if g.registered.contains(caller) {
        Err(Error::AlreadyRegistered)
    } else {
        Ok(())
    }
}

/// The state after a successful registration: the identity added to the roll
/// and the global voter count one higher.
pub open spec fn register_applied(g: GovView, caller: AccountId) -> GovView {
    GovView {
        registered: g.registered.insert(caller),
        total_voters: (g.total_voters + 1) as u32,
        ..g
    }
}

/// Appending a vote record adds its voter to the voters of its proposal and
/// leaves the voters of every other proposal unchanged.
pub proof fn lemma_voters_on_push(g0: GovView, g1: GovView, rec: (u32, VoteView), id: u32)
    requires
        g1.votes == g0.votes.push(rec),
    ensures
        rec.0 == id ==> voters_on(g1, id) == voters_on(g0, id).insert(rec.1.voter),
        rec.0 != id ==> voters_on(g1, id) == voters_on(g0, id),
{
    assert forall|a: AccountId| #[trigger] has_voted(g1, id, a) implies (has_voted(g0, id, a) || (
    rec.0 == id && a == rec.1.voter)) by {
        let v = choose|v: int|
            0 <= v < g1.votes.len() && g1.votes[v].0 == id && g1.votes[v].1.voter == a;
        if v < g0.votes.len() {
            assert(g0.votes[v].0 == id && g0.votes[v].1.voter == a);
        }
    }
    assert forall|a: AccountId| #[trigger] has_voted(g0, id, a) implies has_voted(g1, id, a) by {
        let v = choose|v: int|
            0 <= v < g0.votes.len() && g0.votes[v].0 == id && g0.votes[v].1.voter == a;
        assert(g1.votes[v].0 == id && g1.votes[v].1.voter == a);
    }
    if rec.0 == id {
        let n = g0.votes.len() as int;
        assert(g1.votes[n].0 == id && g1.votes[n].1.voter == rec.1.voter);
        assert(has_voted(g1, id, rec.1.voter));
        assert(voters_on(g1, id) =~= voters_on(g0, id).insert(rec.1.voter));
    } else {
        assert(voters_on(g1, id) =~= voters_on(g0, id));
    }
}

/// In a well-formed state, a vote request that passes every check targets a
/// proposal whose voters are a proper subset of the registered roll: every
/// voter on it is registered and the caller is not yet among them. Its voter
/// count is therefore strictly below the global count.
pub proof fn lemma_vote_ok_headroom(
    g: GovView,
    proposal_id: u32,
    choice: ChoiceView,
    caller: AccountId,
    now: u32,
)
    requires
        view_wf(g),
        vote_result(g, proposal_id, choice, caller, now) is Ok,
    ensures
        proposal_of(g, proposal_id).total_voters < g.total_voters,
{
    let on = voters_on(g, proposal_id);
    assert forall|a: AccountId| on.contains(a) implies g.registered.contains(a) by {
        let v = choose|v: int|
            0 <= v < g.votes.len() && g.votes[v].0 == proposal_id && g.votes[v].1.voter == a;
        assert(vote_rec_wf(g, g.votes[v]));
    }
    on.lemma_subset_not_in_lt(g.registered, caller);
}

/// How many stored proposals hold the given status.
pub open spec fn count_with_status(ps: Seq<ProposalView>, status: ProposalStatus) -> nat
    decreases ps.len(),
{
    if ps.len() == 0 {
        0
    } else {
        count_with_status(ps.drop_last(), status) + if ps.last().status == status {
            1nat
        } else {
            0nat
        }
    }
}

} // verus!
