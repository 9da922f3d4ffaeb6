//! The engine itself: the owned state object and every operation the host
//! dispatches to it. Each operation is proved to refine the corresponding
//! transition function of [`crate::model`].

use vstd::prelude::*;
use crate::errors::Error;
use crate::model::{
    create_applied, create_rejected, execute_result, finalize_result, finalize_transitions,
    fresh_proposal, has_proposal, has_voted, lemma_vote_ok_headroom, lemma_voters_on_push,
    proposal_of, quorum_met, register_applied,
    register_result, user_vote, view_wf, vote_applied, vote_rec_wf, vote_result, voters_on,
    with_status, GovView, count_with_status,
};
use crate::tally::{
    count_of, decided_status, lemma_count_of_ge_one, lemma_count_of_one_unique, required_votes,
    scan_tally, seq_max, winner_index, winning,
};
use crate::text::{is_blank, spec_blank};
use crate::types::{
    clone_strings, AccountId, GovernanceParameters, Proposal, ProposalStatus, ProposalType,
    ProposalView, QuorumThreshold, Vote, VoteChoice, VoteView, VotingOptions,
};

verus! {

/// The complete governance state: proposal table, vote table, voter roll,
/// and the scalar counters. The hosting environment persists one value of
/// this type and serializes every call against it.
pub struct TreasuryGovernance {
    proposals: Vec<Proposal>,
    votes: Vec<(u32, Vote)>,
    voters: Vec<AccountId>,
    next_proposal_id: u32,
    proposal_count: u32,
    total_voters: u32,
    owner: AccountId,
}

impl View for TreasuryGovernance {
    type V = GovView;

    closed spec fn view(&self) -> GovView {
        GovView {
            proposals: self.proposals@.map_values(|p: Proposal| p@),
            votes: self.votes@.map_values(|r: (u32, Vote)| (r.0, r.1@)),
            registered: self.voters@.to_set(),
            next_proposal_id: self.next_proposal_id,
            proposal_count: self.proposal_count,
            total_voters: self.total_voters,
            owner: self.owner,
        }
    }
}

impl TreasuryGovernance {
    /// The representation invariant: the view is well formed and the voter
    /// roll lists each identity once.
    pub closed spec fn inv(&self) -> bool {
        &&& view_wf(self@)
        &&& self.voters@.no_duplicates()
    }

    /// Every invariant-respecting state has a well-formed view.
    pub proof fn lemma_inv_view_wf(&self)
        requires
            self.inv(),
        ensures
            view_wf(self@),
    {
    }

    /// Initializes an empty governance state owned by the caller.
    pub fn new(caller: AccountId) -> (r: TreasuryGovernance)
        ensures
            r.inv(),
            r@.proposals == Seq::<ProposalView>::empty(),
            r@.votes == Seq::<(u32, VoteView)>::empty(),
            r@.registered == Set::<AccountId>::empty(),
            r@.next_proposal_id == 1,
            r@.proposal_count == 0,
            r@.total_voters == 0,
            r@.owner == caller,
    {
        let r = TreasuryGovernance {
            proposals: Vec::new(),
            votes: Vec::new(),
            voters: Vec::new(),
            next_proposal_id: 1,
            proposal_count: 0,
            total_voters: 0,
            owner: caller,
        };
        proof {
            assert(r@.proposals =~= Seq::<ProposalView>::empty());
            assert(r@.votes =~= Seq::<(u32, VoteView)>::empty());
            assert(r@.registered =~= Set::<AccountId>::empty());
        }
        r
    }

    /// Whether `user` is on the global voter roll.
    pub fn is_voter_registered(&self, user: AccountId) -> (r: bool)
        ensures
            r == self@.registered.contains(user),
    {
        let mut i: usize = 0;
        while i < self.voters.len()
            invariant
                i <= self.voters@.len(),
                forall|j: int| 0 <= j < i ==> self.voters@[j] != user,
            decreases self.voters@.len() - i,
        {
            if self.voters[i] == user {
                return true;
            }
            i = i + 1;
        }
        assert(!self.voters@.contains(user));
        false
    }

    /// Registers the caller on the global voter roll.
    ///
    /// Fails with `AlreadyRegistered` when the identity is already on the
    /// roll; otherwise records it and advances the global voter count used by
    /// all subsequent quorum computations. On failure nothing changes.
    ///
    /// The caller must leave the voter count headroom: the roll's size is
    /// kept as a `u32`.
    pub fn register_voter(&mut self, caller: AccountId) -> (r: Result<(), Error>)
        requires
            old(self).inv(),
            old(self)@.total_voters < u32::MAX,
        ensures
            final(self).inv(),
            r == register_result(old(self)@, caller),
            r is Ok ==> final(self)@ == register_applied(old(self)@, caller),
            r is Err ==> *final(self) == *old(self),
    {
        if self.is_voter_registered(caller) {
            return Err(Error::AlreadyRegistered);
        }
        assert(!old(self).voters@.contains(caller));
        self.voters.push(caller);
        self.total_voters = self.total_voters + 1;
        proof {
            let g0 = old(self)@;
            let g1 = self@;
            assert(self.voters@.no_duplicates());
            Seq::<AccountId>::lemma_to_set_insert_commutes(old(self).voters@, caller);
            assert(old(self).voters@ + seq![caller] =~= self.voters@);
            assert(g1.registered =~= g0.registered.insert(caller));
            assert(g1.votes =~= g0.votes);
            assert(g1.proposals =~= g0.proposals);
            vstd::set::axiom_set_insert_len(g0.registered, caller);
            assert forall|i: int| 0 <= i < g1.votes.len() implies vote_rec_wf(
                g1,
                #[trigger] g1.votes[i],
            ) by {
                assert(vote_rec_wf(g0, g0.votes[i]));
            }
            assert forall|i: int|
                0 <= i < g1.proposals.len() implies (#[trigger] g1.proposals[i]).total_voters
                == voters_on(g1, (i + 1) as u32).len() by {
                assert(voters_on(g1, (i + 1) as u32) =~= voters_on(g0, (i + 1) as u32));
            }
            assert(g1 =~= register_applied(g0, caller));
        }
        Ok(())
    }

    /// Creates a new proposal from `proposer` at time `now`.
    ///
    /// The request is rejected with `InvalidProposal` — leaving the state,
    /// and in particular the id counter, unchanged — when the option list is
    /// empty or longer than ten, when any option is blank after trimming, or
    /// when the voting-end or execution-time computation would overflow.
    /// Otherwise the proposal is stored under the next id with every tally at
    /// zero and status `Active`, and both counters advance by one.
    ///
    /// The caller must leave the id counter headroom: ids are `u32` and the
    /// counter advances by one per successful creation.
    pub fn create_proposal(
        &mut self,
        title: String,
        description: String,
        proposal_type: ProposalType,
        governance_params: GovernanceParameters,
        voting_options: VotingOptions,
        proposer: AccountId,
        now: u32,
    ) -> (r: Result<u32, Error>)
        requires
            old(self).inv(),
            old(self)@.next_proposal_id < u32::MAX,
        ensures
            final(self).inv(),
            create_rejected(voting_options@, governance_params, now) ==> r == Err::<u32, Error>(
                Error::InvalidProposal,
            ) && *final(self) == *old(self),
            !create_rejected(voting_options@, governance_params, now) ==> r == Ok::<u32, Error>(
                old(self)@.next_proposal_id,
            ) && final(self)@ == create_applied(
                old(self)@,
                title@,
                description@,
                proposal_type,
                governance_params,
                voting_options@,
                proposer,
                now,
            ),
    {
        let n_opts = voting_options.options.len();
        if n_opts == 0 || n_opts > 10 {
            return Err(Error::InvalidProposal);
        }
        let mut i: usize = 0;
        while i < voting_options.options.len()
            invariant
                *self == *old(self),
                self.inv(),
                i <= voting_options@.len(),
                forall|j: int| 0 <= j < i ==> !spec_blank(#[trigger] voting_options@[j]),
            decreases voting_options@.len() - i,
        {
            if is_blank(voting_options.options[i].as_str()) {
                proof {
                    assert(spec_blank(voting_options@[i as int]));
                }
                return Err(Error::InvalidProposal);
            }
            i = i + 1;
        }
        let duration = governance_params.voting_period.seconds();
        if now > u32::MAX - duration {
            return Err(Error::InvalidProposal);
        }
        let voting_end = now + duration;
        let delay = governance_params.execution_delay.seconds();
        if voting_end > u32::MAX - delay {
            return Err(Error::InvalidProposal);
        }
        let execution_time = voting_end + delay;

        let mut vote_counts: Vec<u128> = Vec::new();
        let mut k: usize = 0;
        while k < n_opts
            invariant
                *self == *old(self),
                k <= n_opts,
                vote_counts@ == Seq::new(k as nat, |j: int| 0u128),
            decreases n_opts - k,
        {
            vote_counts.push(0);
            proof {
                assert(vote_counts@ =~= Seq::new((k + 1) as nat, |j: int| 0u128));
            }
            k = k + 1;
        }

        let proposal_id = self.next_proposal_id;
        let proposal = Proposal {
            id: proposal_id,
            title,
            description,
            proposal_type,
            governance_params,
            voting_options,
            proposer,
            created_at: now,
            voting_end,
            execution_time,
            status: ProposalStatus::Active,
            vote_counts,
            total_voters: 0,
        };
        self.proposals.push(proposal);
        self.next_proposal_id = self.next_proposal_id + 1;
        self.proposal_count = self.proposal_count + 1;
        proof {
            let g0 = old(self)@;
            let g1 = self@;
            let fresh = fresh_proposal(
                g0.next_proposal_id,
                title@,
                description@,
                proposal_type,
                governance_params,
                voting_options@,
                proposer,
                now,
            );
            assert(self.proposals@[g0.proposals.len() as int]@ =~~= fresh);
            assert(g1.proposals =~= g0.proposals.push(fresh));
            assert(g1.votes =~= g0.votes);
            assert(g1 =~~= create_applied(
                g0,
                title@,
                description@,
                proposal_type,
                governance_params,
                voting_options@,
                proposer,
                now,
            ));
            assert forall|i2: int|
                0 <= i2 < g1.proposals.len() implies (#[trigger] g1.proposals[i2]).total_voters
                == voters_on(g1, (i2 + 1) as u32).len() by {
                if i2 < g0.proposals.len() {
                    assert(voters_on(g1, (i2 + 1) as u32) =~= voters_on(g0, (i2 + 1) as u32));
                } else {
                    assert forall|a: AccountId| !(#[trigger] voters_on(
                        g1,
                        (i2 + 1) as u32,
                    ).contains(a)) by {
                        if has_voted(g1, (i2 + 1) as u32, a) {
                            let v = choose|v: int|
                                0 <= v < g1.votes.len() && g1.votes[v].0 == (i2 + 1) as u32
                                    && g1.votes[v].1.voter == a;
                            assert(vote_rec_wf(g0, g0.votes[v]));
                        }
                    }
                    assert(voters_on(g1, (i2 + 1) as u32) =~= Set::<AccountId>::empty());
                }
            }
            assert forall|i2: int| 0 <= i2 < g1.votes.len() implies vote_rec_wf(
                g1,
                #[trigger] g1.votes[i2],
            ) by {
                assert(vote_rec_wf(g0, g0.votes[i2]));
            }
        }
        Ok(proposal_id)
    }

    /// Looks a ballot up by (proposal id, voter).
    fn find_vote(&self, proposal_id: u32, voter: AccountId) -> (r: Option<usize>)
        ensures
            match r {
                Some(i) => i < self.votes@.len() && self@.votes[i as int].0 == proposal_id
                    && self@.votes[i as int].1.voter == voter,
                None => !has_voted(self@, proposal_id, voter),
            },
    {
        let mut i: usize = 0;
        while i < self.votes.len()
            invariant
                i <= self.votes@.len(),
                forall|j: int|
                    0 <= j < i ==> !(#[trigger] self@.votes[j].0 == proposal_id
                        && self@.votes[j].1.voter == voter),
            decreases self.votes@.len() - i,
        {
            if self.votes[i].0 == proposal_id && self.votes[i].1.voter == voter {
                return Some(i);
            }
            i = i + 1;
        }
        None
    }

    /// Casts `caller`'s ballot on a proposal at time `now`.
    ///
    /// The checks run in this exact order and the first failure determines
    /// the error: the proposal must exist (`ProposalNotFound`), be active
    /// (`ProposalNotActive`), its voting window must still be open
    /// (`VotingPeriodEnded`), the caller must be registered (`NotAuthorized`)
    /// and must not have voted on this proposal before (`AlreadyVoted`), and
    /// the chosen index must name an option (`InvalidProposal`). On failure
    /// nothing changes; on success exactly one ballot is recorded, the chosen
    /// option's count and the proposal's voter count each rise by one.
    pub fn vote(
        &mut self,
        proposal_id: u32,
        choice: VoteChoice,
        caller: AccountId,
        now: u32,
    ) -> (r: Result<(), Error>)
        requires
            old(self).inv(),
        ensures
            final(self).inv(),
            r == vote_result(old(self)@, proposal_id, choice@, caller, now),
            r is Ok ==> final(self)@ == vote_applied(old(self)@, proposal_id, choice@, caller, now),
            r is Err ==> *final(self) == *old(self),
    {
        if proposal_id == 0 || proposal_id as usize > self.proposals.len() {
            return Err(Error::ProposalNotFound);
        }
        let idx = (proposal_id - 1) as usize;
        if self.proposals[idx].status != ProposalStatus::Active {
            return Err(Error::ProposalNotActive);
        }
        if now > self.proposals[idx].voting_end {
            return Err(Error::VotingPeriodEnded);
        }
        if !self.is_voter_registered(caller) {
            return Err(Error::NotAuthorized);
        }
        match self.find_vote(proposal_id, caller) {
            Some(_) => {
                return Err(Error::AlreadyVoted);
            },
            None => {},
        }
        if choice.option_index as usize >= self.proposals[idx].voting_options.options.len() {
            return Err(Error::InvalidProposal);
        }

        let ghost g0 = old(self)@;
        proof {
            // the proposal's voter count has headroom, so it cannot overflow
            lemma_vote_ok_headroom(g0, proposal_id, choice@, caller, now);
        }
        let option_index = choice.option_index as usize;
        let mut p = self.proposals[idx].clone();
        let c = p.vote_counts[option_index];
        p.vote_counts[option_index] = c + 1;
        p.total_voters = p.total_voters + 1;
        self.votes.push((proposal_id, Vote { voter: caller, choice, timestamp: now, weight: 1 }));
        self.proposals[idx] = p;
        proof {
            let g1 = self@;
            let va = vote_applied(g0, proposal_id, choice@, caller, now);
            assert(g1.votes =~= va.votes);
            assert(self.proposals@[idx as int]@ =~~= va.proposals[idx as int]);
            assert(g1.proposals =~= va.proposals);
            assert(g1 =~~= va);

            // the invariant is preserved
            assert forall|i2: int| 0 <= i2 < g1.votes.len() implies vote_rec_wf(
                g1,
                #[trigger] g1.votes[i2],
            ) by {
                if i2 < g0.votes.len() {
                    assert(vote_rec_wf(g0, g0.votes[i2]));
                }
            }
            assert forall|i2: int, j2: int|
                0 <= i2 < j2 < g1.votes.len() implies !(#[trigger] g1.votes[i2].0
                == #[trigger] g1.votes[j2].0 && g1.votes[i2].1.voter == g1.votes[j2].1.voter) by {
                if j2 < g0.votes.len() {
                    assert(!(g0.votes[i2].0 == g0.votes[j2].0 && g0.votes[i2].1.voter
                        == g0.votes[j2].1.voter));
                } else {
                    assert(!has_voted(g0, proposal_id, caller));
                }
            }
            assert forall|i2: int|
                0 <= i2 < g1.proposals.len() implies (#[trigger] g1.proposals[i2]).total_voters
                == voters_on(g1, (i2 + 1) as u32).len() by {
                let ghost rec = g1.votes.last();
                lemma_voters_on_push(g0, g1, rec, (i2 + 1) as u32);
                if i2 == idx as int {
                    let on0 = voters_on(g0, proposal_id);
                    assert forall|a: AccountId| on0.contains(a) implies g0.registered.contains(
                        a,
                    ) by {
                        let v = choose|v: int|
                            0 <= v < g0.votes.len() && g0.votes[v].0 == proposal_id
                                && g0.votes[v].1.voter == a;
                        assert(vote_rec_wf(g0, g0.votes[v]));
                    }
                    vstd::set_lib::lemma_set_subset_finite(g0.registered, on0);
                    vstd::set::axiom_set_insert_len(on0, caller);
                }
            }
        }
        Ok(())
    }

    /// Replaces the status of an existing proposal, leaving all else as it is.
    fn store_status(&mut self, proposal_id: u32, status: ProposalStatus)
        requires
            old(self).inv(),
            has_proposal(old(self)@, proposal_id),
            status != ProposalStatus::Expired,
        ensures
            final(self).inv(),
            final(self)@ == with_status(old(self)@, proposal_id, status),
    {
        let idx = (proposal_id - 1) as usize;
        let mut p = self.proposals[idx].clone();
        p.status = status;
        self.proposals[idx] = p;
        proof {
            let g0 = old(self)@;
            let g1 = self@;
            assert(self.proposals@[idx as int]@ =~~= with_status(
                g0,
                proposal_id,
                status,
            ).proposals[idx as int]);
            assert(g1.proposals =~= with_status(g0, proposal_id, status).proposals);
            assert(g1 =~~= with_status(g0, proposal_id, status));
            assert forall|i2: int| 0 <= i2 < g1.votes.len() implies vote_rec_wf(
                g1,
                #[trigger] g1.votes[i2],
            ) by {
                assert(vote_rec_wf(g0, g0.votes[i2]));
            }
            assert forall|i2: int|
                0 <= i2 < g1.proposals.len() implies (#[trigger] g1.proposals[i2]).total_voters
                == voters_on(g1, (i2 + 1) as u32).len() by {
                assert(voters_on(g1, (i2 + 1) as u32) =~= voters_on(g0, (i2 + 1) as u32));
            }
        }
    }

    /// The number of votes needed to reach quorum, read against the current
    /// roll of registered voters with truncating division.
    fn required_quorum_votes(&self, threshold: &QuorumThreshold) -> (r: u32)
        ensures
            r == required_votes(self@.total_voters, *threshold),
    {
        let pct = threshold.percent();
        let wide = (self.total_voters as u64) * (pct as u64);
        proof {
            assert((self.total_voters as int) * (pct as int) <= 0xFFFF_FFFFu64 * 100) by (nonlinear_arith)
                requires
                    0 <= self.total_voters as int <= 0xFFFF_FFFFu64,
                    0 <= pct as int <= 25,
            ;
            assert(wide as int / 100 <= 0xFFFF_FFFFu64);
        }
        (wide / 100) as u32
    }

    /// Finalizes a proposal at time `now`.
    ///
    /// A missing id fails with `ProposalNotFound`. A proposal that already
    /// left `Active` reports its stored status unchanged — an idempotent read,
    /// not an error. While the voting window is still open the call fails
    /// with `ProposalNotReadyForExecution`. Otherwise the proposal moves to
    /// `Rejected` when quorum — the threshold percentage of the voter roll as
    /// read now, with truncating division — was missed, when the positive
    /// maximum tally is shared by more than one option, or when no votes were
    /// cast at all; it moves to `Passed` exactly when a unique option holds a
    /// positive maximum.
    pub fn update_proposal_status(&mut self, proposal_id: u32, now: u32) -> (r: Result<
        ProposalStatus,
        Error,
    >)
        requires
            old(self).inv(),
        ensures
            final(self).inv(),
            r == finalize_result(old(self)@, proposal_id, now),
            finalize_transitions(old(self)@, proposal_id, now) ==> final(self)@ == with_status(
                old(self)@,
                proposal_id,
                decided_status(
                    proposal_of(old(self)@, proposal_id).vote_counts,
                    quorum_met(old(self)@, proposal_of(old(self)@, proposal_id)),
                ),
            ),
            !finalize_transitions(old(self)@, proposal_id, now) ==> *final(self) == *old(self),
    {
        if proposal_id == 0 || proposal_id as usize > self.proposals.len() {
            return Err(Error::ProposalNotFound);
        }
        let idx = (proposal_id - 1) as usize;
        let status = self.proposals[idx].status;
        if status != ProposalStatus::Active {
            return Ok(status);
        }
        if now <= self.proposals[idx].voting_end {
            return Err(Error::ProposalNotReadyForExecution);
        }
        let required = self.required_quorum_votes(
            &self.proposals[idx].governance_params.quorum_threshold,
        );
        let has_quorum = self.proposals[idx].total_voters >= required;
        let (max_votes, tie_count, _) = scan_tally(&self.proposals[idx].vote_counts);
        let new_status = if !has_quorum {
            ProposalStatus::Rejected
        } else if max_votes > 0 && tie_count > 1 {
            ProposalStatus::Rejected
        } else if max_votes > 0 {
            ProposalStatus::Passed
        } else {
            ProposalStatus::Rejected
        };
        self.store_status(proposal_id, new_status);
        Ok(new_status)
    }

    /// Executes a passed proposal at time `now`.
    ///
    /// A missing id fails with `ProposalNotFound`; a proposal in any status
    /// but `Passed`, or one whose execution time has not yet arrived, fails
    /// with `ProposalNotReadyForExecution`. Otherwise the proposal moves to
    /// `Executed` and nothing else changes.
    pub fn execute_proposal(&mut self, proposal_id: u32, now: u32) -> (r: Result<(), Error>)
        requires
            old(self).inv(),
        ensures
            final(self).inv(),
            r == execute_result(old(self)@, proposal_id, now),
            r is Ok ==> final(self)@ == with_status(
                old(self)@,
                proposal_id,
                ProposalStatus::Executed,
            ),
            r is Err ==> *final(self) == *old(self),
    {
        if proposal_id == 0 || proposal_id as usize > self.proposals.len() {
            return Err(Error::ProposalNotFound);
        }
        let idx = (proposal_id - 1) as usize;
        if self.proposals[idx].status != ProposalStatus::Passed {
            return Err(Error::ProposalNotReadyForExecution);
        }
        if now < self.proposals[idx].execution_time {
            return Err(Error::ProposalNotReadyForExecution);
        }
        self.store_status(proposal_id, ProposalStatus::Executed);
        Ok(())
    }

    /// The stored proposal named by `proposal_id`, if any.
    pub fn get_proposal(&self, proposal_id: u32) -> (r: Option<Proposal>)
        ensures
            match r {
                Some(p) => has_proposal(self@, proposal_id) && p@ == proposal_of(
                    self@,
                    proposal_id,
                ),
                None => !has_proposal(self@, proposal_id),
            },
    {
        if proposal_id == 0 || proposal_id as usize > self.proposals.len() {
            return None;
        }
        Some(self.proposals[(proposal_id - 1) as usize].clone())
    }

    /// The ballot `user` cast on a proposal, if any.
    pub fn get_user_vote(&self, proposal_id: u32, user: AccountId) -> (r: Option<Vote>)
        requires
            self.inv(),
        ensures
            match r {
                Some(v) => user_vote(self@, proposal_id, user) == Some(v@),
                None => user_vote(self@, proposal_id, user) is None,
            },
    {
        match self.find_vote(proposal_id, user) {
            Some(i) => {
                let v = self.votes[i].1.clone();
                proof {
                    let c = choose|c: int|
                        0 <= c < self@.votes.len() && self@.votes[c].0 == proposal_id
                            && self@.votes[c].1.voter == user;
                    assert(has_voted(self@, proposal_id, user));
                    if c != i as int {
                        assert(false);
                    }
                }
                Some(v)
            },
            None => None,
        }
    }

    /// Total, active and executed proposal counts.
    pub fn get_stats(&self) -> (r: (u32, u32, u32))
        requires
            self.inv(),
        ensures
            r.0 == self@.proposal_count,
            r.1 == count_with_status(self@.proposals, ProposalStatus::Active),
            r.2 == count_with_status(self@.proposals, ProposalStatus::Executed),
    {
        let mut active: u32 = 0;
        let mut executed: u32 = 0;
        let mut i: usize = 0;
        while i < self.proposals.len()
            invariant
                i <= self.proposals@.len(),
                self@.proposals.len() < u32::MAX,
                self@.proposals.len() == self.proposals@.len(),
                active <= i,
                executed <= i,
                active == count_with_status(self@.proposals.take(i as int), ProposalStatus::Active),
                executed == count_with_status(
                    self@.proposals.take(i as int),
                    ProposalStatus::Executed,
                ),
            decreases self.proposals@.len() - i,
        {
            proof {
                assert(self@.proposals.take(i + 1 as int).drop_last() =~= self@.proposals.take(
                    i as int,
                ));
                assert(self@.proposals.take(i + 1 as int).last() == self@.proposals[i as int]);
            }
            match self.proposals[i].status {
                ProposalStatus::Active => {
                    active = active + 1;
                },
                ProposalStatus::Executed => {
                    executed = executed + 1;
                },
                _ => {},
            }
            i = i + 1;
        }
        proof {
            assert(self@.proposals.take(self.proposals@.len() as int) =~= self@.proposals);
        }
        (self.proposal_count, active, executed)
    }

    /// Whether a proposal has reached quorum against the current voter roll.
    pub fn has_reached_quorum(&self, proposal_id: u32) -> (r: Result<bool, Error>)
        ensures
            match r {
                Ok(b) => has_proposal(self@, proposal_id) && b == quorum_met(
                    self@,
                    proposal_of(self@, proposal_id),
                ),
                Err(e) => e == Error::ProposalNotFound && !has_proposal(self@, proposal_id),
            },
    {
        if proposal_id == 0 || proposal_id as usize > self.proposals.len() {
            return Err(Error::ProposalNotFound);
        }
        let idx = (proposal_id - 1) as usize;
        let required = self.required_quorum_votes(
            &self.proposals[idx].governance_params.quorum_threshold,
        );
        Ok(self.proposals[idx].total_voters >= required)
    }

    /// The raw tallies of a proposal, its quorum status, its voter count, and
    /// the number of votes quorum requires.
    pub fn get_proposal_results(&self, proposal_id: u32) -> (r: Result<
        (Vec<u128>, bool, u32, u32),
        Error,
    >)
        ensures
            match r {
                Ok(t) => has_proposal(self@, proposal_id) && t.0@ == proposal_of(
                    self@,
                    proposal_id,
                ).vote_counts && t.1 == quorum_met(self@, proposal_of(self@, proposal_id)) && t.2
                    == proposal_of(self@, proposal_id).total_voters && t.3 == required_votes(
                    self@.total_voters,
                    proposal_of(self@, proposal_id).governance_params.quorum_threshold,
                ),
                Err(e) => e == Error::ProposalNotFound && !has_proposal(self@, proposal_id),
            },
    {
        if proposal_id == 0 || proposal_id as usize > self.proposals.len() {
            return Err(Error::ProposalNotFound);
        }
        let idx = (proposal_id - 1) as usize;
        let required = self.required_quorum_votes(
            &self.proposals[idx].governance_params.quorum_threshold,
        );
        let has_quorum = self.proposals[idx].total_voters >= required;
        let counts = crate::types::clone_counts(&self.proposals[idx].vote_counts);
        Ok((counts, has_quorum, self.proposals[idx].total_voters, required))
    }

    /// The option labels of a proposal.
    pub fn get_voting_options(&self, proposal_id: u32) -> (r: Result<Vec<String>, Error>)
        ensures
            match r {
                Ok(v) => has_proposal(self@, proposal_id) && v.deep_view() == proposal_of(
                    self@,
                    proposal_id,
                ).options,
                Err(e) => e == Error::ProposalNotFound && !has_proposal(self@, proposal_id),
            },
    {
        if proposal_id == 0 || proposal_id as usize > self.proposals.len() {
            return Err(Error::ProposalNotFound);
        }
        let idx = (proposal_id - 1) as usize;
        let v = clone_strings(&self.proposals[idx].voting_options.options);
        proof {
            assert(v.deep_view() =~~= proposal_of(self@, proposal_id).options);
        }
        Ok(v)
    }

    /// Each option label of a proposal paired with its tally.
    pub fn get_detailed_results(&self, proposal_id: u32) -> (r: Result<Vec<(String, u128)>, Error>)
        requires
            self.inv(),
        ensures
            match r {
                Ok(v) => has_proposal(self@, proposal_id) && v@.len() == proposal_of(
                    self@,
                    proposal_id,
                ).options.len() && (forall|i: int|
                    0 <= i < v@.len() ==> (#[trigger] v@[i]).0@ == proposal_of(
                        self@,
                        proposal_id,
                    ).options[i] && v@[i].1 == proposal_of(self@, proposal_id).vote_counts[i]),
                Err(e) => e == Error::ProposalNotFound && !has_proposal(self@, proposal_id),
            },
    {
        if proposal_id == 0 || proposal_id as usize > self.proposals.len() {
            return Err(Error::ProposalNotFound);
        }
        let idx = (proposal_id - 1) as usize;
        let p = &self.proposals[idx];
        let mut v: Vec<(String, u128)> = Vec::new();
        let mut i: usize = 0;
        while i < p.vote_counts.len()
            invariant
                i <= p.vote_counts@.len(),
                p.vote_counts@.len() == p.voting_options.options@.len(),
                v@.len() == i,
                forall|j: int|
                    0 <= j < i ==> (#[trigger] v@[j]).0@ == p.voting_options.options@[j]@
                        && v@[j].1 == p.vote_counts@[j],
            decreases p.vote_counts@.len() - i,
        {
            v.push((p.voting_options.options[i].clone(), p.vote_counts[i]));
            i = i + 1;
        }
        Ok(v)
    }

    /// The winning option label and its tally, or `None` on a tie or when no
    /// votes were cast — exactly the cases finalization resolves to
    /// `Rejected` once quorum is met.
    pub fn get_winning_option(&self, proposal_id: u32) -> (r: Result<
        Option<(String, u128)>,
        Error,
    >)
        requires
            self.inv(),
        ensures
            match r {
                Ok(w) => has_proposal(self@, proposal_id) && (match w {
                    Some(t) => winning(
                        proposal_of(self@, proposal_id).vote_counts,
                        proposal_of(self@, proposal_id).options,
                    ) == Some((t.0@, t.1)),
                    None => winning(
                        proposal_of(self@, proposal_id).vote_counts,
                        proposal_of(self@, proposal_id).options,
                    ) is None,
                }),
                Err(e) => e == Error::ProposalNotFound && !has_proposal(self@, proposal_id),
            },
    {
        if proposal_id == 0 || proposal_id as usize > self.proposals.len() {
            return Err(Error::ProposalNotFound);
        }
        let idx = (proposal_id - 1) as usize;
        let (max_votes, tie_count, win_idx) = scan_tally(&self.proposals[idx].vote_counts);
        if tie_count > 1 || max_votes == 0 {
            return Ok(None);
        }
        proof {
            let counts = proposal_of(self@, proposal_id).vote_counts;
            assert(max_votes == seq_max(counts));
            assert((win_idx as int) < counts.len() && counts[win_idx as int] == seq_max(counts));
            lemma_count_of_ge_one(counts, max_votes, win_idx as int);
            assert(count_of(counts, seq_max(counts)) == 1);
            let w = winner_index(counts);
            assert(0 <= w < counts.len() && counts[w] == seq_max(counts));
            lemma_count_of_one_unique(counts, seq_max(counts), w, win_idx as int);
            assert(w == win_idx as int);
        }
        let text = self.proposals[idx].voting_options.options[win_idx].clone();
        Ok(Some((text, max_votes)))
    }

    /// The total number of registered voters.
    pub fn get_total_voters(&self) -> (r: u32)
        ensures
            r == self@.total_voters,
    {
        self.total_voters
    }

    /// The id the next successful creation will be assigned.
    pub fn get_next_proposal_id(&self) -> (r: u32)
        ensures
            r == self@.next_proposal_id,
    {
        self.next_proposal_id
    }

    /// The total number of proposals ever created.
    pub fn get_proposal_count(&self) -> (r: u32)
        ensures
            r == self@.proposal_count,
    {
        self.proposal_count
    }
}

} // verus!
