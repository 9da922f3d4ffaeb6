//! The engine-wide laws, each proved once over the model of
//! [`crate::model`] and [`crate::tally`].

use vstd::prelude::*;
use crate::errors::Error;
use crate::model::{
    create_applied, create_rejected, has_voted, lemma_vote_ok_headroom, proposal_of, view_wf,
    vote_applied, vote_result, GovView,
};
use crate::tally::{
    decided_status, lemma_count_of_ge_one, lemma_count_of_ge_two, lemma_seq_max_attained, seq_max,
    winner_index, winning,
};
use crate::types::{
    AccountId, ChoiceView, GovernanceParameters, ProposalStatus, ProposalType,
};

verus! {

/// Proposal ids are assigned 1, 2, 3, ... in creation order, with no gaps and
/// no reuse: in every reachable state the proposal stored at position `i` of
/// the table carries id `i + 1`.
pub proof fn law_proposal_ids_dense(g: GovView)
    requires
        view_wf(g),
    ensures
        forall|i: int| 0 <= i < g.proposals.len() ==> #[trigger] g.proposals[i].id == i + 1,
{
}

/// Every creation that is not rejected stores one new proposal whose tallies
/// number one per option and are all zero, with no voters yet and status
/// `Active`, and advances the id counter by exactly one.
pub proof fn law_created_proposal_shape(
    g: GovView,
    title: Seq<char>,
    description: Seq<char>,
    proposal_type: ProposalType,
    params: GovernanceParameters,
    options: Seq<Seq<char>>,
    proposer: AccountId,
    now: u32,
)
    requires
        g.next_proposal_id < u32::MAX,
        !create_rejected(options, params, now),
    ensures
        ({
            let g1 = create_applied(
                g,
                title,
                description,
                proposal_type,
                params,
                options,
                proposer,
                now,
            );
            let p = g1.proposals.last();
            &&& g1.proposals.len() == g.proposals.len() + 1
            &&& g1.next_proposal_id == g.next_proposal_id + 1
            &&& p.id == g.next_proposal_id
            &&& p.vote_counts.len() == options.len()
            &&& (forall|j: int| 0 <= j < p.vote_counts.len() ==> #[trigger] p.vote_counts[j] == 0)
            &&& p.total_voters == 0
            &&& p.status == ProposalStatus::Active
        }),
{
}

/// A voter casts at most one ballot per proposal: after an accepted vote, a
/// second request by the same caller on the same proposal — while it is
/// still open — fails with `AlreadyVoted`, whatever option it names.
pub proof fn law_no_double_vote(
    g: GovView,
    proposal_id: u32,
    choice1: ChoiceView,
    choice2: ChoiceView,
    caller: AccountId,
    now1: u32,
    now2: u32,
)
    requires
        vote_result(g, proposal_id, choice1, caller, now1) is Ok,
        now2 <= proposal_of(g, proposal_id).voting_end,
    ensures
        vote_result(
            vote_applied(g, proposal_id, choice1, caller, now1),
            proposal_id,
            choice2,
            caller,
            now2,
        ) == Err::<(), Error>(Error::AlreadyVoted),
{
    let g1 = vote_applied(g, proposal_id, choice1, caller, now1);
    let n = g.votes.len() as int;
    assert(g1.votes[n].0 == proposal_id && g1.votes[n].1.voter == caller);
    assert(has_voted(g1, proposal_id, caller));
}

/// An accepted vote moves exactly one tally of exactly one proposal up by
/// exactly one, and raises that proposal's voter count by one.
pub proof fn law_vote_changes_one_tally(
    g: GovView,
    proposal_id: u32,
    choice: ChoiceView,
    caller: AccountId,
    now: u32,
)
    requires
        view_wf(g),
        vote_result(g, proposal_id, choice, caller, now) is Ok,
    ensures
        ({
            let g1 = vote_applied(g, proposal_id, choice, caller, now);
            let p0 = proposal_of(g, proposal_id);
            let p1 = proposal_of(g1, proposal_id);
            &&& p1.vote_counts.len() == p0.vote_counts.len()
            &&& p1.vote_counts[choice.option_index as int] == p0.vote_counts[choice.option_index as int]
                + 1
            &&& (forall|j: int|
                0 <= j < p0.vote_counts.len() && j != choice.option_index ==> #[trigger] p1.vote_counts[j]
                    == p0.vote_counts[j])
            &&& p1.total_voters == p0.total_voters + 1
            &&& p1.status == p0.status
            &&& p1.options == p0.options
            &&& p1.voting_end == p0.voting_end
            &&& p1.execution_time == p0.execution_time
            &&& (forall|k: int|
                0 <= k < g.proposals.len() && k != proposal_id - 1 ==> #[trigger] g1.proposals[k]
                    == g.proposals[k])
            &&& g1.registered == g.registered
            &&& g1.total_voters == g.total_voters
            &&& g1.next_proposal_id == g.next_proposal_id
        }),
{
    lemma_vote_ok_headroom(g, proposal_id, choice, caller, now);
    let p0 = proposal_of(g, proposal_id);
    assert(p0.vote_counts[choice.option_index as int] <= p0.total_voters);
}

/// A tie for a positive maximum always finalizes to `Rejected`, never to an
/// arbitrary winner, whether or not quorum was reached.
pub proof fn law_tie_rejected(counts: Seq<u128>, quorum_ok: bool, i: int, j: int)
    requires
        0 <= i < counts.len(),
        0 <= j < counts.len(),
        i != j,
        counts[i] == counts[j],
        counts[i] == seq_max(counts),
        counts[i] > 0,
    ensures
        decided_status(counts, quorum_ok) == ProposalStatus::Rejected,
{
    if i < j {
        lemma_count_of_ge_two(counts, counts[i], i, j);
    } else {
        lemma_count_of_ge_two(counts, counts[i], j, i);
    }
}

/// A proposal on which no vote was cast finalizes to `Rejected`, whatever
/// the quorum threshold and however large the voter roll.
pub proof fn law_zero_votes_rejected(counts: Seq<u128>, quorum_ok: bool)
    requires
        forall|i: int| 0 <= i < counts.len() ==> #[trigger] counts[i] == 0,
    ensures
        decided_status(counts, quorum_ok) == ProposalStatus::Rejected,
{
    if seq_max(counts) > 0 {
        lemma_seq_max_attained(counts);
    }
}

/// The winning-option projection agrees with finalization: it is `None`
/// exactly when a tally that meets quorum would still finalize to `Rejected`
/// — a tie or no votes — and otherwise names the same option and count a
/// passing finalization is decided by.
pub proof fn law_winning_matches_finalize(counts: Seq<u128>, options: Seq<Seq<char>>)
    ensures
        (winning(counts, options) is None) <==> decided_status(counts, true)
            == ProposalStatus::Rejected,
        winning(counts, options) matches Some(t) ==> decided_status(counts, true)
            == ProposalStatus::Passed && t.1 == seq_max(counts) && 0 <= winner_index(counts)
            < counts.len() && counts[winner_index(counts)] == seq_max(counts) && t.0
            == options[winner_index(counts)],
{
    if seq_max(counts) > 0 {
        lemma_seq_max_attained(counts);
        let i = choose|i: int| 0 <= i < counts.len() && counts[i] == seq_max(counts);
        lemma_count_of_ge_one(counts, seq_max(counts), i);
    }
}

} // verus!
