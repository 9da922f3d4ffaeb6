use treasury_governance::errors::Error;
use treasury_governance::governance::TreasuryGovernance;
use treasury_governance::types::{
    AccountId, ExecutionDelay, GovernanceParameters, ProposalStatus, ProposalType,
    QuorumThreshold, VoteChoice, VotingOptions, VotingPeriod,
};

fn alice() -> AccountId {
    AccountId(1)
}

fn bob() -> AccountId {
    AccountId(2)
}

fn charlie() -> AccountId {
    AccountId(3)
}

fn now0() -> u32 {
    1_000
}

fn create_test_proposal_params() -> (String, String, ProposalType, GovernanceParameters, VotingOptions) {
    let title = "Test Proposal".to_string();
    let description = "This is a test proposal".to_string();
    let proposal_type = ProposalType::Treasury;
    let governance_params = GovernanceParameters {
        voting_period: VotingPeriod::SevenDays,
        quorum_threshold: QuorumThreshold::Ten,
        execution_delay: ExecutionDelay::OneDay,
    };
    let voting_options = VotingOptions {
        options: vec!["Yes".to_string(), "No".to_string()],
    };
    (title, description, proposal_type, governance_params, voting_options)
}

#[test]
fn valid_proposal_creation() {
    let mut contract = TreasuryGovernance::new(alice());
    let (title, description, proposal_type, governance_params, voting_options) =
        create_test_proposal_params();

    let result = contract.create_proposal(
        title.clone(),
        description,
        proposal_type,
        governance_params,
        voting_options,
        alice(),
        now0(),
    );
    assert!(result.is_ok());

    let proposal_id = result.unwrap();
    assert_eq!(proposal_id, 1);

    let proposal = contract.get_proposal(proposal_id).unwrap();
    assert_eq!(proposal.title, title);
    assert_eq!(proposal.status, ProposalStatus::Active);
    assert_eq!(proposal.vote_counts.len(), 2);
    assert_eq!(proposal.vote_counts[0], 0);
    assert_eq!(proposal.vote_counts[1], 0);
}

#[test]
fn invalid_voting_options_empty() {
    let mut contract = TreasuryGovernance::new(alice());
    let (title, description, proposal_type, governance_params, _) = create_test_proposal_params();
    let voting_options = VotingOptions { options: vec![] };

    let result = contract.create_proposal(
        title,
        description,
        proposal_type,
        governance_params,
        voting_options,
        alice(),
        now0(),
    );
    assert!(result.is_err());
    assert_eq!(result.unwrap_err(), Error::InvalidProposal);
}

#[test]
fn invalid_voting_options_too_many() {
    let mut contract = TreasuryGovernance::new(alice());
    let (title, description, proposal_type, governance_params, _) = create_test_proposal_params();
    let voting_options = VotingOptions {
        options: (1..=11).map(|i| format!("Option {}", i)).collect(),
    };

    let result = contract.create_proposal(
        title,
        description,
        proposal_type,
        governance_params,
        voting_options,
        alice(),
        now0(),
    );
    assert!(result.is_err());
    assert_eq!(result.unwrap_err(), Error::InvalidProposal);
}

#[test]
fn invalid_voting_options_empty_strings() {
    let mut contract = TreasuryGovernance::new(alice());
    let (title, description, proposal_type, governance_params, _) = create_test_proposal_params();
    let voting_options = VotingOptions {
        options: vec!["Valid Option".to_string(), "".to_string()],
    };

    let result = contract.create_proposal(
        title,
        description,
        proposal_type,
        governance_params,
        voting_options,
        alice(),
        now0(),
    );
    assert!(result.is_err());
    assert_eq!(result.unwrap_err(), Error::InvalidProposal);
}

#[test]
fn time_calculations_voting_period() {
    let mut contract = TreasuryGovernance::new(alice());
    let (title, description, proposal_type, mut governance_params, voting_options) =
        create_test_proposal_params();

    governance_params.voting_period = VotingPeriod::ThreeDays;
    let result = contract.create_proposal(
        title.clone(),
        description.clone(),
        proposal_type.clone(),
        governance_params.clone(),
        voting_options.clone(),
        alice(),
        now0(),
    );
    assert!(result.is_ok());

    let proposal = contract.get_proposal(1).unwrap();
    let expected_end = proposal.created_at + (3 * 24 * 60 * 60);
    assert_eq!(proposal.voting_end, expected_end);
}

#[test]
fn time_calculations_execution_delay() {
    let mut contract = TreasuryGovernance::new(alice());
    let (title, description, proposal_type, mut governance_params, voting_options) =
        create_test_proposal_params();

    governance_params.execution_delay = ExecutionDelay::TwoDays;
    let result = contract.create_proposal(
        title,
        description,
        proposal_type,
        governance_params,
        voting_options,
        alice(),
        now0(),
    );
    assert!(result.is_ok());

    let proposal = contract.get_proposal(1).unwrap();
    let expected_execution = proposal.voting_end + (2 * 24 * 60 * 60);
    assert_eq!(proposal.execution_time, expected_execution);
}

#[test]
fn successful_voting() {
    let mut contract = TreasuryGovernance::new(alice());

    contract.register_voter(alice()).unwrap();

    let (title, description, proposal_type, governance_params, voting_options) =
        create_test_proposal_params();
    let proposal_id = contract
        .create_proposal(
            title,
            description,
            proposal_type,
            governance_params,
            voting_options,
            alice(),
            now0(),
        )
        .unwrap();

    let vote_choice = VoteChoice {
        option_index: 0,
        option_text: "Yes".to_string(),
    };

    let result = contract.vote(proposal_id, vote_choice, alice(), now0());
    assert!(result.is_ok());

    let user_vote = contract.get_user_vote(proposal_id, alice());
    assert!(user_vote.is_some());
    assert_eq!(user_vote.unwrap().choice.option_index, 0);

    let proposal = contract.get_proposal(proposal_id).unwrap();
    assert_eq!(proposal.vote_counts[0], 1);
    assert_eq!(proposal.vote_counts[1], 0);
    assert_eq!(proposal.total_voters, 1);
}

#[test]
fn double_voting_prevention() {
    let mut contract = TreasuryGovernance::new(alice());

    contract.register_voter(alice()).unwrap();

    let (title, description, proposal_type, governance_params, voting_options) =
        create_test_proposal_params();
    let proposal_id = contract
        .create_proposal(
            title,
            description,
            proposal_type,
            governance_params,
            voting_options,
            alice(),
            now0(),
        )
        .unwrap();

    let vote_choice = VoteChoice {
        option_index: 0,
        option_text: "Yes".to_string(),
    };
    contract
        .vote(proposal_id, vote_choice.clone(), alice(), now0())
        .unwrap();

    let result = contract.vote(proposal_id, vote_choice, alice(), now0());
    assert!(result.is_err());
    assert_eq!(result.unwrap_err(), Error::AlreadyVoted);
}

#[test]
fn invalid_option_index() {
    let mut contract = TreasuryGovernance::new(alice());

    contract.register_voter(alice()).unwrap();

    let (title, description, proposal_type, governance_params, voting_options) =
        create_test_proposal_params();
    let proposal_id = contract
        .create_proposal(
            title,
            description,
            proposal_type,
            governance_params,
            voting_options,
            alice(),
            now0(),
        )
        .unwrap();

    let vote_choice = VoteChoice {
        option_index: 5,
        option_text: "Invalid".to_string(),
    };

    let result = contract.vote(proposal_id, vote_choice, alice(), now0());
    assert!(result.is_err());
    assert_eq!(result.unwrap_err(), Error::InvalidProposal);
}

#[test]
fn voting_period_validation() {
    let mut contract = TreasuryGovernance::new(alice());

    contract.register_voter(alice()).unwrap();

    let (title, description, proposal_type, governance_params, voting_options) =
        create_test_proposal_params();
    let proposal_id = contract
        .create_proposal(
            title,
            description,
            proposal_type,
            governance_params,
            voting_options,
            alice(),
            now0(),
        )
        .unwrap();

    let proposal = contract.get_proposal(proposal_id).unwrap();
    let late = proposal.voting_end + 1;

    let vote_choice = VoteChoice {
        option_index: 0,
        option_text: "Yes".to_string(),
    };

    let result = contract.vote(proposal_id, vote_choice, alice(), late);
    assert!(result.is_err());
    assert_eq!(result.unwrap_err(), Error::VotingPeriodEnded);
}

#[test]
fn unregistered_voter_cannot_vote() {
    let mut contract = TreasuryGovernance::new(alice());

    let (title, description, proposal_type, governance_params, voting_options) =
        create_test_proposal_params();
    let proposal_id = contract
        .create_proposal(
            title,
            description,
            proposal_type,
            governance_params,
            voting_options,
            alice(),
            now0(),
        )
        .unwrap();

    let vote_choice = VoteChoice {
        option_index: 0,
        option_text: "Yes".to_string(),
    };

    let result = contract.vote(proposal_id, vote_choice, alice(), now0());
    assert!(result.is_err());
    assert_eq!(result.unwrap_err(), Error::NotAuthorized);
}

#[test]
fn automatic_status_updates_quorum_met() {
    let mut contract = TreasuryGovernance::new(alice());

    contract.register_voter(alice()).unwrap();
    contract.register_voter(bob()).unwrap();
    contract.register_voter(charlie()).unwrap();

    let (title, description, proposal_type, governance_params, voting_options) =
        create_test_proposal_params();
    let proposal_id = contract
        .create_proposal(
            title,
            description,
            proposal_type,
            governance_params,
            voting_options,
            alice(),
            now0(),
        )
        .unwrap();

    // 10% of 3 voters, truncated, is 0 votes needed; 1 vote meets quorum
    let vote_choice = VoteChoice {
        option_index: 0,
        option_text: "Yes".to_string(),
    };
    contract
        .vote(proposal_id, vote_choice, alice(), now0())
        .unwrap();

    let proposal = contract.get_proposal(proposal_id).unwrap();
    let late = proposal.voting_end + 1;

    let result = contract.update_proposal_status(proposal_id, late);
    assert!(result.is_ok());
    assert_eq!(result.unwrap(), ProposalStatus::Passed);

    let proposal = contract.get_proposal(proposal_id).unwrap();
    assert_eq!(proposal.status, ProposalStatus::Passed);
}

#[test]
fn automatic_status_updates_quorum_not_met() {
    let mut contract = TreasuryGovernance::new(alice());

    contract.register_voter(alice()).unwrap();

    let (title, description, proposal_type, mut governance_params, voting_options) =
        create_test_proposal_params();
    governance_params.quorum_threshold = QuorumThreshold::Twenty;
    let proposal_id = contract
        .create_proposal(
            title,
            description,
            proposal_type,
            governance_params,
            voting_options,
            alice(),
            now0(),
        )
        .unwrap();

    let proposal = contract.get_proposal(proposal_id).unwrap();
    let late = proposal.voting_end + 1;

    let result = contract.update_proposal_status(proposal_id, late);
    assert!(result.is_ok());
    assert_eq!(result.unwrap(), ProposalStatus::Rejected);

    let proposal = contract.get_proposal(proposal_id).unwrap();
    assert_eq!(proposal.status, ProposalStatus::Rejected);
}

#[test]
fn tie_handling() {
    let mut contract = TreasuryGovernance::new(alice());

    contract.register_voter(alice()).unwrap();
    contract.register_voter(bob()).unwrap();

    let (title, description, proposal_type, governance_params, voting_options) =
        create_test_proposal_params();
    let proposal_id = contract
        .create_proposal(
            title,
            description,
            proposal_type,
            governance_params,
            voting_options,
            alice(),
            now0(),
        )
        .unwrap();

    let vote_choice_1 = VoteChoice {
        option_index: 0,
        option_text: "Yes".to_string(),
    };
    contract
        .vote(proposal_id, vote_choice_1, alice(), now0())
        .unwrap();

    let vote_choice_2 = VoteChoice {
        option_index: 1,
        option_text: "No".to_string(),
    };
    contract
        .vote(proposal_id, vote_choice_2, bob(), now0())
        .unwrap();

    let proposal = contract.get_proposal(proposal_id).unwrap();
    let late = proposal.voting_end + 1;

    let result = contract.update_proposal_status(proposal_id, late);
    assert!(result.is_ok());
    assert_eq!(result.unwrap(), ProposalStatus::Rejected);

    let proposal = contract.get_proposal(proposal_id).unwrap();
    assert_eq!(proposal.status, ProposalStatus::Rejected);
}

#[test]
fn execution_timing() {
    let mut contract = TreasuryGovernance::new(alice());

    contract.register_voter(alice()).unwrap();

    let (title, description, proposal_type, governance_params, voting_options) =
        create_test_proposal_params();
    let proposal_id = contract
        .create_proposal(
            title,
            description,
            proposal_type,
            governance_params,
            voting_options,
            alice(),
            now0(),
        )
        .unwrap();

    let vote_choice = VoteChoice {
        option_index: 0,
        option_text: "Yes".to_string(),
    };
    contract
        .vote(proposal_id, vote_choice, alice(), now0())
        .unwrap();

    let proposal = contract.get_proposal(proposal_id).unwrap();
    let after_voting = proposal.voting_end + 1;
    contract
        .update_proposal_status(proposal_id, after_voting)
        .unwrap();

    // too early to execute: the execution delay has not elapsed
    let result = contract.execute_proposal(proposal_id, after_voting);
    assert!(result.is_err());
    assert_eq!(result.unwrap_err(), Error::ProposalNotReadyForExecution);

    let proposal = contract.get_proposal(proposal_id).unwrap();
    let after_delay = proposal.execution_time + 1;

    let result = contract.execute_proposal(proposal_id, after_delay);
    assert!(result.is_ok());

    let proposal = contract.get_proposal(proposal_id).unwrap();
    assert_eq!(proposal.status, ProposalStatus::Executed);
}

#[test]
fn maximum_voting_options() {
    let mut contract = TreasuryGovernance::new(alice());
    let (title, description, proposal_type, governance_params, _) = create_test_proposal_params();
    let voting_options = VotingOptions {
        options: (1..=10).map(|i| format!("Option {}", i)).collect(),
    };

    let result = contract.create_proposal(
        title,
        description,
        proposal_type,
        governance_params,
        voting_options,
        alice(),
        now0(),
    );
    assert!(result.is_ok());

    let proposal = contract.get_proposal(1).unwrap();
    assert_eq!(proposal.vote_counts.len(), 10);
}

#[test]
fn non_existent_proposal_handling() {
    let mut contract = TreasuryGovernance::new(alice());

    let proposal = contract.get_proposal(999);
    assert!(proposal.is_none());

    contract.register_voter(alice()).unwrap();
    let vote_choice = VoteChoice {
        option_index: 0,
        option_text: "Yes".to_string(),
    };

    let result = contract.vote(999, vote_choice, alice(), now0());
    assert!(result.is_err());
    assert_eq!(result.unwrap_err(), Error::ProposalNotFound);
}

#[test]
fn integer_overflow_prevention() {
    let mut contract = TreasuryGovernance::new(alice());
    let (title, description, proposal_type, mut governance_params, voting_options) =
        create_test_proposal_params();

    governance_params.voting_period = VotingPeriod::ThirtyDays;
    governance_params.execution_delay = ExecutionDelay::SevenDays;

    // a timestamp near u32::MAX makes the voting-end computation overflow
    let near_max = u32::MAX - 1000;

    let result = contract.create_proposal(
        title,
        description,
        proposal_type,
        governance_params,
        voting_options,
        alice(),
        near_max,
    );
    if result.is_err() {
        assert_eq!(result.unwrap_err(), Error::InvalidProposal);
    }
}

#[test]
fn voter_registration_edge_cases() {
    let mut contract = TreasuryGovernance::new(alice());

    let result = contract.register_voter(alice());
    assert!(result.is_ok());
    assert_eq!(contract.get_total_voters(), 1);
    assert!(contract.is_voter_registered(alice()));

    let result = contract.register_voter(alice());
    assert!(result.is_err());
    assert_eq!(result.unwrap_err(), Error::AlreadyRegistered);

    assert!(!contract.is_voter_registered(bob()));
}

#[test]
fn quorum_calculations_edge_cases() {
    let mut contract = TreasuryGovernance::new(alice());

    let (title, description, proposal_type, governance_params, voting_options) =
        create_test_proposal_params();
    let proposal_id = contract
        .create_proposal(
            title,
            description,
            proposal_type,
            governance_params,
            voting_options,
            alice(),
            now0(),
        )
        .unwrap();

    // no registered voters: 0 votes needed, so quorum is trivially met
    let has_quorum = contract.has_reached_quorum(proposal_id).unwrap();
    assert!(has_quorum);

    contract.register_voter(alice()).unwrap();

    // 10% of 1 voter truncates to 0 votes needed
    let has_quorum = contract.has_reached_quorum(proposal_id).unwrap();
    assert!(has_quorum);
}

#[test]
fn winning_option_edge_cases() {
    let mut contract = TreasuryGovernance::new(alice());

    let (title, description, proposal_type, governance_params, voting_options) =
        create_test_proposal_params();
    let proposal_id = contract
        .create_proposal(
            title,
            description,
            proposal_type,
            governance_params,
            voting_options,
            alice(),
            now0(),
        )
        .unwrap();

    let winner = contract.get_winning_option(proposal_id).unwrap();
    assert!(winner.is_none());

    contract.register_voter(alice()).unwrap();
    let vote_choice = VoteChoice {
        option_index: 0,
        option_text: "Yes".to_string(),
    };
    contract
        .vote(proposal_id, vote_choice, alice(), now0())
        .unwrap();

    let winner = contract.get_winning_option(proposal_id).unwrap();
    assert!(winner.is_some());
    let (option_text, vote_count) = winner.unwrap();
    assert_eq!(option_text, "Yes");
    assert_eq!(vote_count, 1);
}
