//! The data model: identities, governance parameters, proposals and votes,
//! together with the ghost views the contracts are stated over.

use vstd::prelude::*;

verus! {

/// An opaque voter identity. The hosting environment authenticates callers
/// and hands every call an identity token; the engine only ever compares
/// tokens for equality.
#[derive(Debug, Clone, Copy, PartialEq, Eq, Hash, Structural)]
pub struct AccountId(pub u64);

/// The closed set of proposal categories.
#[derive(Debug, Clone, Copy, PartialEq, Eq, Structural)]
pub enum ProposalType {
    Treasury,
    Governance,
    Technical,
    Other,
}

/// How long the voting window stays open, as a closed enumeration.
#[derive(Debug, Clone, Copy, PartialEq, Eq, Structural)]
pub enum VotingPeriod {
    ThreeDays,
    SevenDays,
    FourteenDays,
    ThirtyDays,
}

/// The minimum fraction of all registered voters that must have voted for a
/// proposal to be eligible to pass, as a closed enumeration of percentages.
#[derive(Debug, Clone, Copy, PartialEq, Eq, Structural)]
pub enum QuorumThreshold {
    Five,
    Ten,
    Twenty,
    TwentyFive,
}

/// The delay between the end of voting and the earliest execution time.
#[derive(Debug, Clone, Copy, PartialEq, Eq, Structural)]
pub enum ExecutionDelay {
    Immediately,
    OneDay,
    TwoDays,
    SevenDays,
}

/// The governance parameters fixed at proposal creation.
#[derive(Debug, Clone, Copy, PartialEq, Eq, Structural)]
pub struct GovernanceParameters {
    pub voting_period: VotingPeriod,
    pub quorum_threshold: QuorumThreshold,
    pub execution_delay: ExecutionDelay,
}

/// The lifecycle states of a proposal. A proposal only ever moves forward:
/// `Active` to `Passed` or `Rejected`, and `Passed` to `Executed`.
/// `Expired` is reserved; the engine never produces it.
#[derive(Debug, Clone, Copy, PartialEq, Eq, Structural)]
pub enum ProposalStatus {
    Active,
    Passed,
    Rejected,
    Executed,
    Expired,
}

impl VotingPeriod {
    /// The length of the voting window in seconds.
    pub open spec fn spec_seconds(self) -> u32 {
        match self {
            VotingPeriod::ThreeDays => 259200,
            VotingPeriod::SevenDays => 604800,
            VotingPeriod::FourteenDays => 1209600,
            VotingPeriod::ThirtyDays => 2592000,
        }
    }

    pub fn seconds(&self) -> (r: u32)
        ensures
            r == self.spec_seconds(),
    {
        match self {
            VotingPeriod::ThreeDays => 259200,
            VotingPeriod::SevenDays => 604800,
            VotingPeriod::FourteenDays => 1209600,
            VotingPeriod::ThirtyDays => 2592000,
        }
    }
}

impl ExecutionDelay {
    /// The delay before execution in seconds.
    pub open spec fn spec_seconds(self) -> u32 {
        match self {
            ExecutionDelay::Immediately => 0,
            ExecutionDelay::OneDay => 86400,
            ExecutionDelay::TwoDays => 172800,
            ExecutionDelay::SevenDays => 604800,
        }
    }

    pub fn seconds(&self) -> (r: u32)
        ensures
            r == self.spec_seconds(),
    {
        match self {
            ExecutionDelay::Immediately => 0,
            ExecutionDelay::OneDay => 86400,
            ExecutionDelay::TwoDays => 172800,
            ExecutionDelay::SevenDays => 604800,
        }
    }
}

impl QuorumThreshold {
    /// The quorum threshold as a percentage of all registered voters.
    pub open spec fn spec_percent(self) -> u32 {
        match self {
            QuorumThreshold::Five => 5,
            QuorumThreshold::Ten => 10,
            QuorumThreshold::Twenty => 20,
            QuorumThreshold::TwentyFive => 25,
        }
    }

    pub fn percent(&self) -> (r: u32)
        ensures
            r == self.spec_percent(),
    {
        match self {
            QuorumThreshold::Five => 5,
            QuorumThreshold::Ten => 10,
            QuorumThreshold::Twenty => 20,
            QuorumThreshold::TwentyFive => 25,
        }
    }
}

/// The ordered list of option labels a proposal is voted on.
#[derive(Debug)]
pub struct VotingOptions {
    pub options: Vec<String>,
}

impl View for VotingOptions {
    type V = Seq<Seq<char>>;

    open spec fn view(&self) -> Seq<Seq<char>> {
        self.options.deep_view()
    }
}

/// A ballot: the index of the chosen option and the label the voter saw.
#[derive(Debug)]
pub struct VoteChoice {
    pub option_index: u32,
    pub option_text: String,
}

/// The mathematical value of a [`VoteChoice`].
#[verifier::ext_equal]
pub struct ChoiceView {
    pub option_index: u32,
    pub option_text: Seq<char>,
}

impl View for VoteChoice {
    type V = ChoiceView;

    open spec fn view(&self) -> ChoiceView {
        ChoiceView { option_index: self.option_index, option_text: self.option_text@ }
    }
}

/// One recorded ballot. The design is uniform weight-one voting, so `weight`
/// is always 1.
#[derive(Debug)]
pub struct Vote {
    pub voter: AccountId,
    pub choice: VoteChoice,
    pub timestamp: u32,
    pub weight: u128,
}

/// The mathematical value of a [`Vote`].
#[verifier::ext_equal]
pub struct VoteView {
    pub voter: AccountId,
    pub choice: ChoiceView,
    pub timestamp: u32,
    pub weight: u128,
}

impl View for Vote {
    type V = VoteView;

    open spec fn view(&self) -> VoteView {
        VoteView {
            voter: self.voter,
            choice: self.choice@,
            timestamp: self.timestamp,
            weight: self.weight,
        }
    }
}

/// A single governance decision request: a bounded set of options, a voting
/// window, an execution window, and the tallies accumulated so far.
#[derive(Debug)]
pub struct Proposal {
    pub id: u32,
    pub title: String,
    pub description: String,
    pub proposal_type: ProposalType,
    pub governance_params: GovernanceParameters,
    pub voting_options: VotingOptions,
    pub proposer: AccountId,
    pub created_at: u32,
    pub voting_end: u32,
    pub execution_time: u32,
    pub status: ProposalStatus,
    pub vote_counts: Vec<u128>,
    pub total_voters: u32,
}

/// The mathematical value of a [`Proposal`].
#[verifier::ext_equal]
pub struct ProposalView {
    pub id: u32,
    pub title: Seq<char>,
    pub description: Seq<char>,
    pub proposal_type: ProposalType,
    pub governance_params: GovernanceParameters,
    pub options: Seq<Seq<char>>,
    pub proposer: AccountId,
    pub created_at: u32,
    pub voting_end: u32,
    pub execution_time: u32,
    pub status: ProposalStatus,
    pub vote_counts: Seq<u128>,
    pub total_voters: u32,
}

impl View for Proposal {
    type V = ProposalView;

    open spec fn view(&self) -> ProposalView {
        ProposalView {
            id: self.id,
            title: self.title@,
            description: self.description@,
            proposal_type: self.proposal_type,
            governance_params: self.governance_params,
            options: self.voting_options@,
            proposer: self.proposer,
            created_at: self.created_at,
            voting_end: self.voting_end,
            execution_time: self.execution_time,
            status: self.status,
            vote_counts: self.vote_counts@,
            total_voters: self.total_voters,
        }
    }
}

/// Copies a list of labels; the copy has the same sequence of strings.
pub fn clone_strings(v: &Vec<String>) -> (r: Vec<String>)
    ensures
        r@ == v@,
{
    let mut r: Vec<String> = Vec::new();
    let mut i: usize = 0;
    while i < v.len()
        invariant
            i <= v@.len(),
            r@ == v@.subrange(0, i as int),
        decreases v@.len() - i,
    {
        r.push(v[i].clone());
        assert(r@ =~= v@.subrange(0, i + 1 as int));
        i = i + 1;
    }
    assert(r@ =~= v@);
    r
}

/// Copies a list of tallies; the copy has the same sequence of counts.
pub fn clone_counts(v: &Vec<u128>) -> (r: Vec<u128>)
    ensures
        r@ == v@,
{
    let mut r: Vec<u128> = Vec::new();
    let mut i: usize = 0;
    while i < v.len()
        invariant
            i <= v@.len(),
            r@ == v@.subrange(0, i as int),
        decreases v@.len() - i,
    {
        r.push(v[i]);
        assert(r@ =~= v@.subrange(0, i + 1 as int));
        i = i + 1;
    }
    assert(r@ =~= v@);
    r
}

impl Clone for VotingOptions {
    /// The copy carries the same labels.
    fn clone(&self) -> (res: Self)
        ensures
            res@ == self@,
    {
        VotingOptions { options: clone_strings(&self.options) }
    }
}

impl Clone for VoteChoice {
    /// The copy is the same ballot.
    fn clone(&self) -> (res: Self)
        ensures
            res == *self,
    {
        VoteChoice {
            option_index: self.option_index,
            option_text: self.option_text.clone(),
        }
    }
}

impl Clone for Vote {
    /// The copy is the same record.
    fn clone(&self) -> (res: Self)
        ensures
            res == *self,
    {
        Vote {
            voter: self.voter,
            choice: self.choice.clone(),
            timestamp: self.timestamp,
            weight: self.weight,
        }
    }
}

impl Clone for Proposal {
    /// The copy has the same mathematical value.
    fn clone(&self) -> (res: Self)
        ensures
            res@ == self@,
    {
        let res = Proposal {
            id: self.id,
            title: self.title.clone(),
            description: self.description.clone(),
            proposal_type: self.proposal_type,
            governance_params: self.governance_params,
            voting_options: self.voting_options.clone(),
            proposer: self.proposer,
            created_at: self.created_at,
            voting_end: self.voting_end,
            execution_time: self.execution_time,
            status: self.status,
            vote_counts: clone_counts(&self.vote_counts),
            total_voters: self.total_voters,
        };
        assert(res@ =~~= self@);
        res
    }
}

} // verus!
