use orbitpay::treasury::auth::{asks_authorization, TreasuryEntry};
use orbitpay::treasury::contract::TreasuryContract;
use orbitpay::treasury::errors::TreasuryError;
use orbitpay::treasury::storage::{
    get_signer_change_delay, get_upgrade_count, increment_signer_set_version, is_paused,
    TreasuryStorage, DEFAULT_SIGNER_CHANGE_DELAY, MIN_SIGNER_CHANGE_DELAY,
};
use orbitpay::treasury::types::{PauseState, UpgradeStatus, WithdrawalStatus};

fn s(x: &str) -> String {
    x.to_string()
}

fn setup(signers: &[&str], threshold: u32) -> TreasuryStorage {
    let mut store = TreasuryStorage::new();
    let list: Vec<String> = signers.iter().map(|x| x.to_string()).collect();
    TreasuryContract::initialize(&mut store, s("admin"), list, threshold).unwrap();
    store
}

fn pause(store: &mut TreasuryStorage) {
    let p = TreasuryContract::propose_pause(store, s("a"), s("incident"), 0).unwrap();
    TreasuryContract::approve_pause(store, s("b"), p).unwrap();
    assert!(is_paused(store));
}

#[test]
fn error_codes_are_numbered_in_declaration_order() {
    let all = [
        TreasuryError::AlreadyInitialized,
        TreasuryError::NotInitialized,
        TreasuryError::Unauthorized,
        TreasuryError::InvalidThreshold,
        TreasuryError::NotASigner,
        TreasuryError::InvalidAmount,
        TreasuryError::ProposalNotFound,
        TreasuryError::ProposalNotPending,
        TreasuryError::ProposalNotApproved,
        TreasuryError::AlreadyApproved,
        TreasuryError::AlreadyASigner,
        TreasuryError::InsufficientBalance,
        TreasuryError::ProposalExpired,
        TreasuryError::DuplicateSigner,
        TreasuryError::Paused,
        TreasuryError::UpgradeProposalNotFound,
        TreasuryError::UpgradeProposalNotPending,
        TreasuryError::UpgradeAlreadyExecuted,
        TreasuryError::TimelockNotExpired,
        TreasuryError::InvalidTimelock,
        TreasuryError::NoPendingAdminChange,
        TreasuryError::UpgradeProposalExecuted,
    ];
    for (i, e) in all.iter().enumerate() {
        assert_eq!(e.code(), i as u32 + 1);
    }
}

#[test]
fn uninitialized_treasury_refuses_calls() {
    let mut store = TreasuryStorage::new();
    assert_eq!(TreasuryContract::get_admin(&store), Err(TreasuryError::NotInitialized));
    assert_eq!(TreasuryContract::deposit(&store, s("x"), s("t"), 10), Err(TreasuryError::NotInitialized));
    assert_eq!(
        TreasuryContract::create_withdrawal(&mut store, s("a"), s("t"), s("r"), 1, s("m"), 0),
        Err(TreasuryError::NotInitialized)
    );
    assert_eq!(TreasuryContract::get_withdrawal(&store, 0).unwrap_err(), TreasuryError::ProposalNotFound);
    assert_eq!(TreasuryContract::execute_admin_change(&mut store, 0), Err(TreasuryError::NotInitialized));
}

#[test]
fn initialize_sets_defaults() {
    let store = setup(&["a", "b"], 2);
    assert_eq!(TreasuryContract::get_pause_state(&store).unwrap(), PauseState::Unpaused);
    assert_eq!(TreasuryContract::get_signer_change_delay(&store).unwrap(), 604800);
    assert_eq!(get_signer_change_delay(&store), DEFAULT_SIGNER_CHANGE_DELAY);
    assert_eq!(TreasuryContract::get_proposal_count(&store).unwrap(), 0);
    assert_eq!(TreasuryContract::get_upgrade_count(&store).unwrap(), 0);
    assert_eq!(get_upgrade_count(&store), 0);
    assert_eq!(store.signer_set_version, Some(0));
}

#[test]
fn failed_calls_leave_storage_unchanged() {
    let mut store = setup(&["a", "b"], 2);
    let id = TreasuryContract::create_withdrawal(&mut store, s("a"), s("t"), s("r"), 5, s("m"), 7).unwrap();
    let before = TreasuryContract::get_withdrawal(&store, id).unwrap();
    assert_eq!(TreasuryContract::approve_withdrawal(&mut store, s("a"), id), Err(TreasuryError::AlreadyApproved));
    assert_eq!(TreasuryContract::get_withdrawal(&store, id).unwrap(), before);
    assert_eq!(TreasuryContract::add_signer(&mut store, s("mallory"), s("c")), Err(TreasuryError::Unauthorized));
    assert_eq!(TreasuryContract::get_signers(&store).unwrap().len(), 2);
}

#[test]
fn deposit_requires_positive_amount() {
    let store = setup(&["a"], 1);
    assert_eq!(TreasuryContract::deposit(&store, s("x"), s("t"), 0), Err(TreasuryError::InvalidAmount));
    assert_eq!(TreasuryContract::deposit(&store, s("x"), s("t"), -5), Err(TreasuryError::InvalidAmount));
    let d = TreasuryContract::deposit(&store, s("x"), s("t"), 1).unwrap();
    assert_eq!((d.token, d.from, d.amount), (s("t"), s("x"), 1));
}

#[test]
fn create_withdrawal_records_terms() {
    let mut store = setup(&["a", "b", "c"], 2);
    let id = TreasuryContract::create_withdrawal(&mut store, s("b"), s("usdc"), s("r"), 42, s("rent"), 99).unwrap();
    let w = TreasuryContract::get_withdrawal(&store, id).unwrap();
    assert_eq!(w.id, 0);
    assert_eq!(w.proposer, "b");
    assert_eq!(w.token, "usdc");
    assert_eq!(w.recipient, "r");
    assert_eq!(w.amount, 42);
    assert_eq!(w.memo, "rent");
    assert_eq!(w.approvals, vec![s("b")]);
    assert_eq!(w.status, WithdrawalStatus::Pending);
    assert_eq!(w.created_at, 99);
    assert_eq!(
        TreasuryContract::create_withdrawal(&mut store, s("b"), s("usdc"), s("r"), 0, s("rent"), 99),
        Err(TreasuryError::InvalidAmount)
    );
    assert_eq!(TreasuryContract::create_withdrawal(&mut store, s("c"), s("usdc"), s("r"), 1, s("x"), 0), Ok(1));
}

#[test]
fn approvals_reach_threshold_in_order() {
    let mut store = setup(&["a", "b", "c"], 3);
    let id = TreasuryContract::create_withdrawal(&mut store, s("a"), s("t"), s("r"), 10, s("m"), 0).unwrap();
    TreasuryContract::approve_withdrawal(&mut store, s("b"), id).unwrap();
    assert_eq!(TreasuryContract::get_withdrawal(&store, id).unwrap().status, WithdrawalStatus::Pending);
    TreasuryContract::approve_withdrawal(&mut store, s("c"), id).unwrap();
    let w = TreasuryContract::get_withdrawal(&store, id).unwrap();
    assert_eq!(w.status, WithdrawalStatus::Approved);
    assert_eq!(w.approvals, vec![s("a"), s("b"), s("c")]);
    assert_eq!(TreasuryContract::approve_withdrawal(&mut store, s("a"), id), Err(TreasuryError::ProposalNotPending));
    assert_eq!(TreasuryContract::approve_withdrawal(&mut store, s("a"), 9), Err(TreasuryError::ProposalNotFound));
    assert_eq!(TreasuryContract::approve_withdrawal(&mut store, s("z"), id), Err(TreasuryError::NotASigner));
}

#[test]
fn execute_withdrawal_returns_transfer_and_executes_once() {
    let mut store = setup(&["a"], 1);
    let id = TreasuryContract::create_withdrawal(&mut store, s("a"), s("t"), s("r"), 300, s("m"), 0).unwrap();
    assert_eq!(
        TreasuryContract::execute_withdrawal(&mut store, s("x"), id, 299).unwrap_err(),
        TreasuryError::InsufficientBalance
    );
    let t = TreasuryContract::execute_withdrawal(&mut store, s("x"), id, 300).unwrap();
    assert_eq!((t.token.as_str(), t.to.as_str(), t.amount), ("t", "r", 300));
    assert_eq!(TreasuryContract::get_withdrawal(&store, id).unwrap().status, WithdrawalStatus::Executed);
    assert_eq!(
        TreasuryContract::execute_withdrawal(&mut store, s("x"), id, 1000).unwrap_err(),
        TreasuryError::ProposalNotApproved
    );
}

#[test]
fn pause_blocks_every_withdrawal_step() {
    let mut store = setup(&["a", "b"], 1);
    let id = TreasuryContract::create_withdrawal(&mut store, s("a"), s("t"), s("r"), 1, s("m"), 0).unwrap();
    let mut store2 = setup(&["a", "b"], 2);
    let id2 = TreasuryContract::create_withdrawal(&mut store2, s("a"), s("t"), s("r"), 1, s("m"), 0).unwrap();
    let p = TreasuryContract::propose_pause(&mut store, s("a"), s("x"), 0).unwrap();
    assert!(is_paused(&store));
    TreasuryContract::approve_pause(&mut store, s("b"), p).unwrap_err();
    let p2 = TreasuryContract::propose_pause(&mut store2, s("a"), s("x"), 0).unwrap();
    TreasuryContract::approve_pause(&mut store2, s("b"), p2).unwrap();
    assert!(is_paused(&store2));
    assert_eq!(TreasuryContract::deposit(&store2, s("x"), s("t"), 5), Err(TreasuryError::Paused));
    assert_eq!(
        TreasuryContract::create_withdrawal(&mut store2, s("a"), s("t"), s("r"), 1, s("m"), 0),
        Err(TreasuryError::Paused)
    );
    assert_eq!(TreasuryContract::approve_withdrawal(&mut store2, s("b"), id2), Err(TreasuryError::Paused));
    assert_eq!(TreasuryContract::execute_withdrawal(&mut store2, s("x"), id2, 100).unwrap_err(), TreasuryError::Paused);
    assert_eq!(TreasuryContract::get_withdrawal(&store, id).unwrap().status, WithdrawalStatus::Approved);
}

#[test]
fn pause_keeps_signer_management_open() {
    let mut store = setup(&["a", "b"], 2);
    pause(&mut store);
    TreasuryContract::add_signer(&mut store, s("admin"), s("c")).unwrap();
    TreasuryContract::update_threshold(&mut store, s("admin"), 3).unwrap();
    assert_eq!(TreasuryContract::get_threshold(&store).unwrap(), 3);
}

#[test]
fn pause_approval_requires_a_signer() {
    let mut store = setup(&["a", "b"], 2);
    let p = TreasuryContract::propose_pause(&mut store, s("a"), s("x"), 0).unwrap();
    assert_eq!(TreasuryContract::approve_pause(&mut store, s("outsider"), p), Err(TreasuryError::NotASigner));
    assert_eq!(TreasuryContract::approve_pause(&mut store, s("a"), p), Err(TreasuryError::AlreadyApproved));
    assert_eq!(TreasuryContract::approve_unpause(&mut store, s("b"), 5), Err(TreasuryError::UpgradeProposalNotFound));
    assert_eq!(
        TreasuryContract::propose_pause(&mut store, s("outsider"), s("x"), 0),
        Err(TreasuryError::NotASigner)
    );
    assert!(!is_paused(&store));
}

#[test]
fn signer_versions_advance_on_each_change() {
    let mut store = setup(&["a", "b"], 1);
    TreasuryContract::add_signer(&mut store, s("admin"), s("c")).unwrap();
    assert_eq!(store.signer_set_version, Some(1));
    TreasuryContract::remove_signer(&mut store, s("admin"), s("a")).unwrap();
    assert_eq!(store.signer_set_version, Some(2));
    assert_eq!(TreasuryContract::get_signers(&store).unwrap(), vec![s("b"), s("c")]);
    assert_eq!(increment_signer_set_version(&mut store), 3);
    assert_eq!(TreasuryContract::add_signer(&mut store, s("admin"), s("b")), Err(TreasuryError::AlreadyASigner));
    assert_eq!(TreasuryContract::remove_signer(&mut store, s("admin"), s("zz")), Err(TreasuryError::NotASigner));
    let id = TreasuryContract::create_withdrawal(&mut store, s("b"), s("t"), s("r"), 1, s("m"), 0).unwrap();
    assert_eq!(TreasuryContract::get_withdrawal(&store, id).unwrap().signer_set_version, 3);
}

#[test]
fn upgrade_execution_needs_approval() {
    let mut store = setup(&["a", "b"], 2);
    let id = TreasuryContract::propose_upgrade(&mut store, s("a"), [7; 32], s("v3"), 0).unwrap();
    assert_eq!(TreasuryContract::execute_upgrade(&store, s("x"), id), Err(TreasuryError::UpgradeProposalNotPending));
    assert_eq!(TreasuryContract::execute_upgrade(&store, s("x"), 4), Err(TreasuryError::UpgradeProposalNotFound));
    TreasuryContract::approve_upgrade(&mut store, s("b"), id).unwrap();
    assert_eq!(TreasuryContract::execute_upgrade(&store, s("x"), id), Ok([7; 32]));
    assert_eq!(TreasuryContract::approve_upgrade(&mut store, s("a"), id), Err(TreasuryError::UpgradeProposalNotPending));
}

#[test]
fn admin_change_waits_for_the_delay() {
    let mut store = setup(&["a"], 1);
    assert_eq!(TreasuryContract::execute_admin_change(&mut store, 5), Err(TreasuryError::NoPendingAdminChange));
    TreasuryContract::propose_admin_change(&mut store, s("admin"), s("new"), 1000).unwrap();
    let p = TreasuryContract::get_pending_admin_change(&store).unwrap();
    assert_eq!(p.effective_at, 1000 + DEFAULT_SIGNER_CHANGE_DELAY);
    assert_eq!(
        TreasuryContract::execute_admin_change(&mut store, 1000 + DEFAULT_SIGNER_CHANGE_DELAY - 1),
        Err(TreasuryError::TimelockNotExpired)
    );
    assert_eq!(TreasuryContract::execute_admin_change(&mut store, 1000 + DEFAULT_SIGNER_CHANGE_DELAY), Ok(s("new")));
    assert_eq!(TreasuryContract::get_admin(&store).unwrap(), "new");
    assert_eq!(TreasuryContract::get_pending_admin_change(&store), Err(TreasuryError::NoPendingAdminChange));
    assert_eq!(
        TreasuryContract::propose_admin_change(&mut store, s("admin"), s("x"), 0),
        Err(TreasuryError::Unauthorized)
    );
}

#[test]
fn signer_change_delay_has_a_floor() {
    let mut store = setup(&["a"], 1);
    assert_eq!(
        TreasuryContract::update_signer_change_delay(&mut store, s("admin"), MIN_SIGNER_CHANGE_DELAY - 1),
        Err(TreasuryError::InvalidTimelock)
    );
    TreasuryContract::update_signer_change_delay(&mut store, s("admin"), MIN_SIGNER_CHANGE_DELAY).unwrap();
    let id = TreasuryContract::propose_signer_add(&mut store, s("admin"), s("n"), 500).unwrap();
    assert_eq!(
        TreasuryContract::execute_signer_change(&store, s("x"), id, 500 + MIN_SIGNER_CHANGE_DELAY - 1),
        Err(TreasuryError::TimelockNotExpired)
    );
    assert_eq!(TreasuryContract::execute_signer_change(&store, s("x"), id, 500 + MIN_SIGNER_CHANGE_DELAY), Ok(()));
}

#[test]
fn signer_change_proposals_are_not_executable_upgrades() {
    let mut store = setup(&["a", "b"], 1);
    let id = TreasuryContract::schedule_signer_remove(&mut store, s("admin"), s("b"), 0).unwrap();
    let p = TreasuryContract::get_upgrade_proposal(&store, id).unwrap();
    assert_eq!(p.wasm_hash, [0; 32]);
    assert_eq!(p.approvals, vec![s("admin")]);
    assert_eq!(TreasuryContract::execute_upgrade(&store, s("x"), id), Err(TreasuryError::UpgradeProposalNotPending));
    let up = TreasuryContract::propose_upgrade(&mut store, s("a"), [9; 32], s("v"), 0).unwrap();
    assert_eq!(
        TreasuryContract::execute_signer_change(&store, s("x"), up, u64::MAX - 1),
        Err(TreasuryError::UpgradeProposalNotPending)
    );
    let mut store2 = setup(&["a", "b"], 2);
    assert_eq!(
        TreasuryContract::schedule_signer_remove(&mut store2, s("admin"), s("b"), 0),
        Err(TreasuryError::InvalidThreshold)
    );
}

#[test]
fn emergency_admin_change_needs_a_current_signer_proposer() {
    let mut store = setup(&["a", "b", "c"], 1);
    let id = TreasuryContract::propose_emergency_admin_change(&mut store, s("c"), s("n"), 0).unwrap();
    let p = TreasuryContract::get_upgrade_proposal(&store, id).unwrap();
    assert_eq!(p.status, UpgradeStatus::Approved);
    assert_eq!(p.description, "eac");
    TreasuryContract::remove_signer(&mut store, s("admin"), s("c")).unwrap();
    assert_eq!(
        TreasuryContract::execute_emergency_admin_change(&mut store, s("b"), id),
        Err(TreasuryError::Unauthorized)
    );
    assert_eq!(TreasuryContract::get_admin(&store).unwrap(), "admin");
}

#[test]
fn unpause_restores_operation() {
    let mut store = setup(&["a", "b"], 2);
    pause(&mut store);
    let u = TreasuryContract::propose_unpause(&mut store, s("a"), s("ok"), 0).unwrap();
    assert!(is_paused(&store));
    TreasuryContract::approve_unpause(&mut store, s("b"), u).unwrap();
    assert!(!is_paused(&store));
    assert!(TreasuryContract::deposit(&store, s("x"), s("t"), 5).is_ok());
}

#[test]
fn upgrade_proposals_keep_their_terms() {
    let mut store = setup(&["a", "b", "c"], 3);
    let id = TreasuryContract::propose_upgrade(&mut store, s("a"), [9; 32], s("v4"), 42).unwrap();
    let before = TreasuryContract::get_upgrade_proposal(&store, id).unwrap();
    TreasuryContract::approve_upgrade(&mut store, s("b"), id).unwrap();
    TreasuryContract::add_signer(&mut store, s("admin"), s("d")).unwrap();
    TreasuryContract::propose_pause(&mut store, s("c"), s("p"), 50).unwrap();
    let mid = TreasuryContract::get_upgrade_proposal(&store, id).unwrap();
    assert_eq!(mid.status, UpgradeStatus::Pending);
    assert_eq!(mid.approvals, vec![s("a"), s("b")]);
    TreasuryContract::approve_upgrade(&mut store, s("c"), id).unwrap();
    let after = TreasuryContract::get_upgrade_proposal(&store, id).unwrap();
    assert_eq!(after.status, UpgradeStatus::Approved);
    assert_eq!(after.approvals, vec![s("a"), s("b"), s("c")]);
    assert_eq!(after.id, before.id);
    assert_eq!(after.proposer, before.proposer);
    assert_eq!(after.wasm_hash, [9; 32]);
    assert_eq!(after.description, s("v4"));
    assert_eq!(after.created_at, 42);
    assert_eq!(after.signer_set_version, before.signer_set_version);
}

#[test]
fn single_signer_cannot_withdraw_alone() {
    let mut store = setup(&["a", "b"], 2);
    let id = TreasuryContract::create_withdrawal(&mut store, s("a"), s("t"), s("r"), 10, s("m"), 0).unwrap();
    assert_eq!(TreasuryContract::get_withdrawal(&store, id).unwrap().status, WithdrawalStatus::Pending);
    assert_eq!(
        TreasuryContract::execute_withdrawal(&mut store, s("a"), id, 1000),
        Err(TreasuryError::ProposalNotApproved)
    );
    assert_eq!(TreasuryContract::approve_withdrawal(&mut store, s("a"), id), Err(TreasuryError::AlreadyApproved));
}

#[test]
fn approval_uses_the_signer_set_of_the_request() {
    let mut store = setup(&["s1", "s2", "s3"], 2);
    let id = TreasuryContract::create_withdrawal(&mut store, s("s1"), s("t"), s("r"), 1000, s("salary"), 0).unwrap();
    TreasuryContract::remove_signer(&mut store, s("admin"), s("s2")).unwrap();
    TreasuryContract::add_signer(&mut store, s("admin"), s("s4")).unwrap();
    assert_eq!(TreasuryContract::approve_withdrawal(&mut store, s("s4"), id), Err(TreasuryError::NotASigner));
    TreasuryContract::approve_withdrawal(&mut store, s("s2"), id).unwrap();
    assert_eq!(TreasuryContract::get_withdrawal(&store, id).unwrap().status, WithdrawalStatus::Approved);
    let id2 = TreasuryContract::create_withdrawal(&mut store, s("s1"), s("t"), s("r"), 5, s("later"), 0).unwrap();
    assert_eq!(TreasuryContract::approve_withdrawal(&mut store, s("s2"), id2), Err(TreasuryError::NotASigner));
    TreasuryContract::approve_withdrawal(&mut store, s("s4"), id2).unwrap();
}

#[test]
fn single_approval_pause_and_unpause_take_effect_at_once() {
    let mut store = setup(&["a"], 1);
    let p = TreasuryContract::propose_pause(&mut store, s("a"), s("incident"), 0).unwrap();
    assert!(is_paused(&store));
    assert_eq!(TreasuryContract::get_upgrade_proposal(&store, p).unwrap().status, UpgradeStatus::Approved);
    assert_eq!(TreasuryContract::deposit(&store, s("x"), s("t"), 5), Err(TreasuryError::Paused));
    let u = TreasuryContract::propose_unpause(&mut store, s("a"), s("fixed"), 1).unwrap();
    assert!(!is_paused(&store));
    assert_eq!(TreasuryContract::get_upgrade_proposal(&store, u).unwrap().status, UpgradeStatus::Approved);
    assert!(TreasuryContract::deposit(&store, s("x"), s("t"), 5).is_ok());
}

#[test]
fn missing_request_refuses_outsiders_first() {
    let mut store = setup(&["a", "b"], 2);
    assert_eq!(TreasuryContract::approve_withdrawal(&mut store, s("zz"), 9), Err(TreasuryError::NotASigner));
    assert_eq!(TreasuryContract::approve_withdrawal(&mut store, s("b"), 9), Err(TreasuryError::ProposalNotFound));
}

#[test]
fn authorization_point_of_each_entry() {
    assert!(asks_authorization(TreasuryEntry::Initialize, None));
    assert!(!asks_authorization(TreasuryEntry::Initialize, Some(TreasuryError::DuplicateSigner)));
    assert!(!asks_authorization(TreasuryEntry::Deposit, Some(TreasuryError::InvalidAmount)));
    assert!(!asks_authorization(TreasuryEntry::CreateWithdrawal, Some(TreasuryError::Paused)));
    assert!(asks_authorization(TreasuryEntry::CreateWithdrawal, Some(TreasuryError::NotASigner)));
    assert!(!asks_authorization(TreasuryEntry::AddSigner, Some(TreasuryError::Unauthorized)));
    assert!(asks_authorization(TreasuryEntry::AddSigner, Some(TreasuryError::AlreadyASigner)));
    assert!(!asks_authorization(TreasuryEntry::ApprovePause, Some(TreasuryError::NotInitialized)));
    assert!(asks_authorization(TreasuryEntry::ApprovePause, Some(TreasuryError::NotASigner)));
}
