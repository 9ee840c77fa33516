use orbitpay::governance::auth::{asks_authorization, GovernanceEntry};
use orbitpay::governance::contract::GovernanceContract;
use orbitpay::governance::errors::GovernanceError;
use orbitpay::governance::storage::{get_voting_weight, GovernanceStorage};
use orbitpay::governance::types::{ProposalStatus, VoteChoice};

fn s(x: &str) -> String {
    x.to_string()
}

fn setup(members: &[&str], quorum: u32) -> GovernanceStorage {
    let mut store = GovernanceStorage::new();
    let list: Vec<String> = members.iter().map(|x| x.to_string()).collect();
    GovernanceContract::initialize(&mut store, s("admin"), list, quorum, 1000, 500).unwrap();
    store
}

fn propose(store: &mut GovernanceStorage, who: &str, now: u64) -> u32 {
    GovernanceContract::create_proposal(store, s(who), s("t"), s("tok"), 10, s("r"), now).unwrap()
}

#[test]
fn governance_error_codes_are_numbered_in_declaration_order() {
    let all = [
        GovernanceError::AlreadyInitialized,
        GovernanceError::NotInitialized,
        GovernanceError::Unauthorized,
        GovernanceError::ProposalNotFound,
        GovernanceError::VotingNotActive,
        GovernanceError::AlreadyVoted,
        GovernanceError::NotAMember,
        GovernanceError::QuorumNotReached,
        GovernanceError::ProposalNotApproved,
        GovernanceError::ProposalAlreadyExecuted,
        GovernanceError::InvalidAmount,
        GovernanceError::VotingPeriodExpired,
        GovernanceError::ProposalStillActive,
        GovernanceError::NoPendingUpgrade,
        GovernanceError::TimelockNotExpired,
    ];
    for (i, e) in all.iter().enumerate() {
        assert_eq!(e.code(), i as u32 + 1);
    }
}

#[test]
fn governance_initializes_once() {
    let mut store = setup(&["m1"], 51);
    assert_eq!(
        GovernanceContract::initialize(&mut store, s("other"), vec![], 10, 1, 1),
        Err(GovernanceError::AlreadyInitialized)
    );
    assert_eq!(GovernanceContract::get_admin(&store).unwrap(), "admin");
}

#[test]
fn uninitialized_governance_refuses_calls() {
    let mut store = GovernanceStorage::new();
    assert_eq!(GovernanceContract::get_config(&store), Err(GovernanceError::NotInitialized));
    assert_eq!(GovernanceContract::get_admin(&store), Err(GovernanceError::NotInitialized));
    assert_eq!(
        GovernanceContract::create_proposal(&mut store, s("m"), s("t"), s("tok"), 1, s("r"), 0),
        Err(GovernanceError::NotInitialized)
    );
    assert_eq!(GovernanceContract::get_proposal_count(&store), 0);
    assert!(GovernanceContract::get_members(&store).is_empty());
}

#[test]
fn proposal_creation_checks_membership_and_amount() {
    let mut store = setup(&["m1"], 51);
    assert_eq!(
        GovernanceContract::create_proposal(&mut store, s("x"), s("t"), s("tok"), 1, s("r"), 0),
        Err(GovernanceError::NotAMember)
    );
    assert_eq!(
        GovernanceContract::create_proposal(&mut store, s("m1"), s("t"), s("tok"), 0, s("r"), 0),
        Err(GovernanceError::InvalidAmount)
    );
    let id = propose(&mut store, "m1", 50);
    let p = GovernanceContract::get_proposal(&store, id).unwrap();
    assert_eq!((p.start_time, p.end_time), (50, 1050));
    assert_eq!(p.snapshot.grace_period, 500);
    assert_eq!(GovernanceContract::get_proposal_count(&store), 1);
}

#[test]
fn each_member_votes_once_within_the_window() {
    let mut store = setup(&["m1", "m2"], 51);
    let id = propose(&mut store, "m1", 0);
    GovernanceContract::vote(&mut store, s("m1"), id, VoteChoice::Abstain, 10).unwrap();
    assert_eq!(
        GovernanceContract::vote(&mut store, s("m1"), id, VoteChoice::Yes, 11),
        Err(GovernanceError::AlreadyVoted)
    );
    assert_eq!(
        GovernanceContract::vote(&mut store, s("m2"), id, VoteChoice::Yes, 1001),
        Err(GovernanceError::VotingPeriodExpired)
    );
    assert_eq!(
        GovernanceContract::vote(&mut store, s("m2"), 7, VoteChoice::Yes, 5),
        Err(GovernanceError::ProposalNotFound)
    );
    GovernanceContract::vote(&mut store, s("m2"), id, VoteChoice::No, 1000).unwrap();
    let p = GovernanceContract::get_proposal(&store, id).unwrap();
    assert_eq!((p.yes_votes, p.no_votes, p.abstain_votes), (0, 1, 1));
    assert_eq!(p.votes.len(), 2);
    assert_eq!(p.votes[0].voter, "m1");
    assert_eq!(p.votes[0].timestamp, 10);
}

#[test]
fn finalize_waits_for_the_end_of_voting() {
    let mut store = setup(&["m1"], 51);
    let id = propose(&mut store, "m1", 0);
    GovernanceContract::vote(&mut store, s("m1"), id, VoteChoice::Yes, 1).unwrap();
    assert_eq!(
        GovernanceContract::finalize(&mut store, s("c"), id, 1000),
        Err(GovernanceError::ProposalStillActive)
    );
    assert_eq!(GovernanceContract::finalize(&mut store, s("c"), id, 1001), Ok(ProposalStatus::Approved));
    assert_eq!(
        GovernanceContract::finalize(&mut store, s("c"), id, 1002),
        Err(GovernanceError::VotingNotActive)
    );
    assert_eq!(
        GovernanceContract::vote(&mut store, s("m1"), id, VoteChoice::No, 2),
        Err(GovernanceError::VotingNotActive)
    );
    assert_eq!(
        GovernanceContract::cancel_proposal(&mut store, s("m1"), id),
        Err(GovernanceError::VotingNotActive)
    );
}

#[test]
fn finalize_after_grace_period_rejects() {
    let mut store = setup(&["m1"], 51);
    let id = propose(&mut store, "m1", 0);
    GovernanceContract::vote(&mut store, s("m1"), id, VoteChoice::Yes, 1).unwrap();
    assert_eq!(GovernanceContract::finalize(&mut store, s("c"), id, 1501), Ok(ProposalStatus::Rejected));
}

#[test]
fn quorum_threshold_rounds_down() {
    // four members, 51%: the threshold is floor(4 * 51 / 100) = 2
    let mut store = setup(&["m1", "m2", "m3", "m4"], 51);
    let id = propose(&mut store, "m1", 0);
    GovernanceContract::vote(&mut store, s("m1"), id, VoteChoice::Yes, 1).unwrap();
    GovernanceContract::vote(&mut store, s("m2"), id, VoteChoice::Abstain, 1).unwrap();
    assert_eq!(GovernanceContract::finalize(&mut store, s("c"), id, 1001), Ok(ProposalStatus::Approved));
    let id2 = propose(&mut store, "m1", 0);
    GovernanceContract::vote(&mut store, s("m1"), id2, VoteChoice::Yes, 1).unwrap();
    assert_eq!(GovernanceContract::finalize(&mut store, s("c"), id2, 1001), Ok(ProposalStatus::Rejected));
}

#[test]
fn tie_is_rejected() {
    let mut store = setup(&["m1", "m2"], 0);
    let id = propose(&mut store, "m1", 0);
    GovernanceContract::vote(&mut store, s("m1"), id, VoteChoice::Yes, 1).unwrap();
    GovernanceContract::vote(&mut store, s("m2"), id, VoteChoice::No, 1).unwrap();
    assert_eq!(GovernanceContract::finalize(&mut store, s("c"), id, 1001), Ok(ProposalStatus::Rejected));
}

#[test]
fn execute_needs_admin_and_approval() {
    let mut store = setup(&["m1"], 51);
    let id = propose(&mut store, "m1", 0);
    assert_eq!(
        GovernanceContract::execute(&mut store, s("admin"), id).unwrap_err(),
        GovernanceError::ProposalNotApproved
    );
    GovernanceContract::vote(&mut store, s("m1"), id, VoteChoice::Yes, 1).unwrap();
    GovernanceContract::finalize(&mut store, s("c"), id, 1001).unwrap();
    assert_eq!(GovernanceContract::execute(&mut store, s("m1"), id).unwrap_err(), GovernanceError::Unauthorized);
    let d = GovernanceContract::execute(&mut store, s("admin"), id).unwrap();
    assert_eq!((d.token.as_str(), d.to.as_str(), d.amount), ("tok", "r", 10));
    assert_eq!(
        GovernanceContract::execute(&mut store, s("admin"), id).unwrap_err(),
        GovernanceError::ProposalNotApproved
    );
    assert_eq!(
        GovernanceContract::cancel_proposal(&mut store, s("m1"), id),
        Err(GovernanceError::VotingNotActive)
    );
}

#[test]
fn member_management_checks() {
    let mut store = setup(&["m1"], 51);
    assert_eq!(GovernanceContract::add_member(&mut store, s("m1"), s("m2")), Err(GovernanceError::Unauthorized));
    assert_eq!(GovernanceContract::add_member(&mut store, s("admin"), s("m1")), Err(GovernanceError::AlreadyVoted));
    assert_eq!(
        GovernanceContract::remove_member(&mut store, s("admin"), s("zz")),
        Err(GovernanceError::NotAMember)
    );
    assert_eq!(
        GovernanceContract::set_voting_weight(&mut store, s("admin"), s("zz"), 3),
        Err(GovernanceError::NotAMember)
    );
    GovernanceContract::add_member(&mut store, s("admin"), s("m2")).unwrap();
    assert_eq!(GovernanceContract::get_config(&store).unwrap().member_count, 2);
    assert_eq!(GovernanceContract::get_config(&store).unwrap().total_weight, 2);
    GovernanceContract::set_voting_weight(&mut store, s("admin"), s("m2"), 5).unwrap();
    GovernanceContract::set_voting_weight(&mut store, s("admin"), s("m2"), 7).unwrap();
    assert_eq!(get_voting_weight(&store, &s("m2")), 7);
    assert_eq!(get_voting_weight(&store, &s("m1")), 1);
    assert_eq!(GovernanceContract::get_config(&store).unwrap().total_weight, 8);
}

#[test]
fn upgrade_timelock_then_install_once() {
    let mut store = setup(&[], 51);
    assert_eq!(
        GovernanceContract::execute_upgrade(&mut store, s("x"), 0),
        Err(GovernanceError::NoPendingUpgrade)
    );
    assert_eq!(
        GovernanceContract::propose_upgrade(&mut store, s("mallory"), [3; 32], s("d"), 10),
        Err(GovernanceError::Unauthorized)
    );
    GovernanceContract::propose_upgrade(&mut store, s("admin"), [3; 32], s("d"), 10).unwrap();
    assert_eq!(
        GovernanceContract::execute_upgrade(&mut store, s("x"), 86409),
        Err(GovernanceError::TimelockNotExpired)
    );
    assert_eq!(GovernanceContract::execute_upgrade(&mut store, s("x"), 86410), Ok([3; 32]));
    assert!(GovernanceContract::get_pending_upgrade(&store).is_none());
    assert_eq!(
        GovernanceContract::execute_upgrade(&mut store, s("x"), 90000),
        Err(GovernanceError::NoPendingUpgrade)
    );
}

#[test]
fn live_status_reports_final_states() {
    let mut store = setup(&["m1"], 51);
    let id = propose(&mut store, "m1", 0);
    GovernanceContract::cancel_proposal(&mut store, s("m1"), id).unwrap();
    assert_eq!(
        GovernanceContract::get_proposal_status(&store, id, 99999).unwrap(),
        ProposalStatus::Cancelled
    );
    assert_eq!(
        GovernanceContract::get_proposal_status(&store, 3, 0),
        Err(GovernanceError::ProposalNotFound)
    );
}

#[test]
fn re_added_member_starts_at_weight_one() {
    let mut store = setup(&["m1", "m2"], 51);
    GovernanceContract::set_voting_weight(&mut store, s("admin"), s("m2"), 10).unwrap();
    assert_eq!(GovernanceContract::get_config(&store).unwrap().total_weight, 11);
    GovernanceContract::remove_member(&mut store, s("admin"), s("m2")).unwrap();
    assert_eq!(GovernanceContract::get_config(&store).unwrap().total_weight, 1);
    GovernanceContract::add_member(&mut store, s("admin"), s("m2")).unwrap();
    assert_eq!(get_voting_weight(&store, &s("m2")), 1);
    assert_eq!(GovernanceContract::get_config(&store).unwrap().total_weight, 2);
}

#[test]
fn member_change_error_matches_the_operations() {
    let store = setup(&["m1"], 51);
    assert_eq!(
        GovernanceContract::member_change_error(&store, &s("x"), &s("m1"), true),
        Some(GovernanceError::Unauthorized)
    );
    assert_eq!(
        GovernanceContract::member_change_error(&store, &s("admin"), &s("m2"), true),
        Some(GovernanceError::NotAMember)
    );
    assert_eq!(
        GovernanceContract::member_change_error(&store, &s("admin"), &s("m1"), false),
        Some(GovernanceError::AlreadyVoted)
    );
    assert_eq!(GovernanceContract::member_change_error(&store, &s("admin"), &s("m1"), true), None);
    assert!(!asks_authorization(GovernanceEntry::RemoveMember, Some(GovernanceError::Unauthorized)));
    assert!(asks_authorization(GovernanceEntry::RemoveMember, Some(GovernanceError::NotAMember)));
    assert!(asks_authorization(GovernanceEntry::ExecuteUpgrade, Some(GovernanceError::NoPendingUpgrade)));
    assert!(!asks_authorization(GovernanceEntry::Initialize, Some(GovernanceError::AlreadyInitialized)));
}
