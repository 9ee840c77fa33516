use std::collections::HashMap;

use orbitpay::treasury::contract::TreasuryContract;
use orbitpay::treasury::errors::TreasuryError;
use orbitpay::treasury::storage::TreasuryStorage;
use orbitpay::treasury::types::{PauseState, UpgradeStatus, WithdrawalStatus};

const TREASURY: &str = "treasury-contract";

/// A treasury with a ledger clock and token balances, standing in for the host.
struct Ledger {
    store: TreasuryStorage,
    now: u64,
    balances: HashMap<(String, String), i128>,
}

fn s(x: &str) -> String {
    x.to_string()
}

fn list(xs: &[&str]) -> Vec<String> {
    xs.iter().map(|x| x.to_string()).collect()
}

impl Ledger {
    fn new() -> Self {
        Ledger { store: TreasuryStorage::new(), now: 0, balances: HashMap::new() }
    }

    fn init(&mut self, admin: &str, signers: &[&str], threshold: u32) -> Result<(), TreasuryError> {
        TreasuryContract::initialize(&mut self.store, s(admin), list(signers), threshold)
    }

    fn balance(&self, token: &str, who: &str) -> i128 {
        *self.balances.get(&(s(token), s(who))).unwrap_or(&0)
    }

    fn mint(&mut self, token: &str, to: &str, amount: i128) {
        *self.balances.entry((s(token), s(to))).or_insert(0) += amount;
    }

    fn transfer(&mut self, token: &str, from: &str, to: &str, amount: i128) {
        let have = self.balance(token, from);
        if have < amount {
            panic!("balance is not sufficient to spend");
        }
        *self.balances.entry((s(token), s(from))).or_insert(0) -= amount;
        *self.balances.entry((s(token), s(to))).or_insert(0) += amount;
    }

    fn deposit(&mut self, from: &str, token: &str, amount: i128) -> Result<(), TreasuryError> {
        let d = TreasuryContract::deposit(&self.store, s(from), s(token), amount)?;
        self.transfer(&d.token, &d.from, TREASURY, d.amount);
        Ok(())
    }

    fn create_withdrawal(
        &mut self,
        proposer: &str,
        token: &str,
        recipient: &str,
        amount: i128,
        memo: &str,
    ) -> Result<u32, TreasuryError> {
        TreasuryContract::create_withdrawal(
            &mut self.store,
            s(proposer),
            s(token),
            s(recipient),
            amount,
            s(memo),
            self.now,
        )
    }

    fn approve_withdrawal(&mut self, signer: &str, id: u32) -> Result<(), TreasuryError> {
        TreasuryContract::approve_withdrawal(&mut self.store, s(signer), id)
    }

    fn execute_withdrawal(&mut self, executor: &str, id: u32) -> Result<(), TreasuryError> {
        let balance = match TreasuryContract::get_withdrawal(&self.store, id) {
            Ok(w) => self.balance(&w.token, TREASURY),
            Err(_) => 0,
        };
        let t = TreasuryContract::execute_withdrawal(&mut self.store, s(executor), id, balance)?;
        self.transfer(&t.token, TREASURY, &t.to, t.amount);
        Ok(())
    }

    fn propose_pause(&mut self, proposer: &str, reason: &str) -> Result<u32, TreasuryError> {
        TreasuryContract::propose_pause(&mut self.store, s(proposer), s(reason), self.now)
    }

    fn propose_unpause(&mut self, proposer: &str, reason: &str) -> Result<u32, TreasuryError> {
        TreasuryContract::propose_unpause(&mut self.store, s(proposer), s(reason), self.now)
    }
}

#[test]
fn test_initialize() {
    let mut l = Ledger::new();
    l.init("admin", &["signer1", "signer2"], 2).unwrap();
    assert_eq!(TreasuryContract::get_admin(&l.store).unwrap(), "admin");
    assert_eq!(TreasuryContract::get_threshold(&l.store).unwrap(), 2);
    assert_eq!(TreasuryContract::get_signers(&l.store).unwrap().len(), 2);
}

#[test]
fn test_get_config() {
    let mut l = Ledger::new();
    l.init("admin", &["signer1", "signer2"], 2).unwrap();
    let config = TreasuryContract::get_config(&l.store).unwrap();
    assert_eq!(config.admin, "admin");
    assert_eq!(config.signers, list(&["signer1", "signer2"]));
    assert_eq!(config.threshold, 2);
    assert_eq!(config.proposal_count, 0);
}

#[test]
fn test_double_initialize() {
    let mut l = Ledger::new();
    l.init("admin", &["signer1"], 1).unwrap();
    let r = l.init("admin", &["signer1"], 1);
    assert_eq!(r, Err(TreasuryError::AlreadyInitialized));
    assert_eq!(r.unwrap_err().code(), 1);
}

#[test]
fn test_create_and_approve_withdrawal() {
    let mut l = Ledger::new();
    l.init("admin", &["signer1", "signer2"], 2).unwrap();
    let id = l.create_withdrawal("signer1", "token", "recipient", 1000, "salary").unwrap();
    assert_eq!(id, 0);
    let request = TreasuryContract::get_withdrawal(&l.store, id).unwrap();
    assert_eq!(request.approvals.len(), 1);
    assert_eq!(request.signer_set_version, 0);
    l.approve_withdrawal("signer2", id).unwrap();
    let request = TreasuryContract::get_withdrawal(&l.store, id).unwrap();
    assert_eq!(request.status, WithdrawalStatus::Approved);
}

#[test]
fn test_add_and_remove_signer() {
    let mut l = Ledger::new();
    l.init("admin", &["signer1", "signer2"], 1).unwrap();
    TreasuryContract::add_signer(&mut l.store, s("admin"), s("signer3")).unwrap();
    assert_eq!(TreasuryContract::get_signers(&l.store).unwrap().len(), 3);
    TreasuryContract::remove_signer(&mut l.store, s("admin"), s("signer2")).unwrap();
    assert_eq!(TreasuryContract::get_signers(&l.store).unwrap().len(), 2);
}

#[test]
fn test_unauthorized_withdrawal_attempt_non_signer() {
    let mut l = Ledger::new();
    l.init("admin", &["signer1"], 1).unwrap();
    let r = l.create_withdrawal("non_signer", "token", "recipient", 1000, "salary");
    assert_eq!(r.unwrap_err().code(), 5);
}

#[test]
fn test_threshold_update_boundary_values() {
    let mut l = Ledger::new();
    l.init("admin", &["signer1", "signer2", "signer3"], 2).unwrap();
    assert_eq!(TreasuryContract::get_threshold(&l.store).unwrap(), 2);
    TreasuryContract::update_threshold(&mut l.store, s("admin"), 1).unwrap();
    assert_eq!(TreasuryContract::get_threshold(&l.store).unwrap(), 1);
    TreasuryContract::update_threshold(&mut l.store, s("admin"), 3).unwrap();
    assert_eq!(TreasuryContract::get_threshold(&l.store).unwrap(), 3);
}

#[test]
fn test_threshold_update_zero_rejected() {
    let mut l = Ledger::new();
    l.init("admin", &["signer1"], 1).unwrap();
    let r = TreasuryContract::update_threshold(&mut l.store, s("admin"), 0);
    assert_eq!(r.unwrap_err().code(), 4);
}

#[test]
fn test_threshold_update_exceeds_signers_rejected() {
    let mut l = Ledger::new();
    l.init("admin", &["signer1", "signer2"], 2).unwrap();
    let r = TreasuryContract::update_threshold(&mut l.store, s("admin"), 3);
    assert_eq!(r.unwrap_err().code(), 4);
}

#[test]
fn test_remove_signer_at_threshold_minimum() {
    let mut l = Ledger::new();
    l.init("admin", &["signer1", "signer2"], 2).unwrap();
    let r = TreasuryContract::remove_signer(&mut l.store, s("admin"), s("signer1"));
    assert_eq!(r.unwrap_err().code(), 4);
}

#[test]
fn test_double_approval_by_same_signer_rejected() {
    let mut l = Ledger::new();
    l.init("admin", &["signer1", "signer2"], 2).unwrap();
    let id = l.create_withdrawal("signer1", "token", "recipient", 1000, "salary").unwrap();
    let r = l.approve_withdrawal("signer1", id);
    assert_eq!(r.unwrap_err().code(), 10);
}

#[test]
fn test_execute_before_approval_threshold_met() {
    let mut l = Ledger::new();
    l.init("admin", &["signer1", "signer2", "signer3"], 3).unwrap();
    let id = l.create_withdrawal("signer1", "token", "recipient", 1000, "salary").unwrap();
    let r = l.execute_withdrawal("signer1", id);
    assert_eq!(r.unwrap_err().code(), 9);
}

#[test]
fn test_invalid_threshold_zero_at_init() {
    let mut l = Ledger::new();
    assert_eq!(l.init("admin", &["signer1"], 0).unwrap_err().code(), 4);
}

#[test]
fn test_invalid_threshold_exceeds_signers_at_init() {
    let mut l = Ledger::new();
    assert_eq!(l.init("admin", &["signer1", "signer2"], 3).unwrap_err().code(), 4);
}

#[test]
fn test_execute_withdrawal_full_flow() {
    let mut l = Ledger::new();
    l.init("admin", &["signer1", "signer2"], 2).unwrap();
    let deposit_amount: i128 = 10000;
    l.mint("token", TREASURY, deposit_amount);
    assert_eq!(l.balance("token", TREASURY), deposit_amount);
    assert_eq!(l.balance("token", "recipient"), 0);
    let withdrawal_amount: i128 = 5000;
    let id = l.create_withdrawal("signer1", "token", "recipient", withdrawal_amount, "salary").unwrap();
    l.approve_withdrawal("signer2", id).unwrap();
    let request = TreasuryContract::get_withdrawal(&l.store, id).unwrap();
    assert_eq!(request.status, WithdrawalStatus::Approved);
    assert_eq!(request.signer_set_version, 0);
    l.execute_withdrawal("signer1", id).unwrap();
    let request = TreasuryContract::get_withdrawal(&l.store, id).unwrap();
    assert_eq!(request.status, WithdrawalStatus::Executed);
    assert_eq!(l.balance("token", "recipient"), withdrawal_amount);
    assert_eq!(l.balance("token", TREASURY), deposit_amount - withdrawal_amount);
}

#[test]
fn test_execute_withdrawal_insufficient_balance() {
    let mut l = Ledger::new();
    l.init("admin", &["signer1", "signer2"], 2).unwrap();
    let id = l.create_withdrawal("signer1", "token", "recipient", 5000, "salary").unwrap();
    l.approve_withdrawal("signer2", id).unwrap();
    let r = l.execute_withdrawal("signer1", id);
    assert_eq!(r.unwrap_err().code(), 12);
}

#[test]
fn test_duplicate_signers_at_init_rejected() {
    let mut l = Ledger::new();
    assert_eq!(l.init("admin", &["signer1", "signer1"], 2).unwrap_err().code(), 14);
}

#[test]
fn test_threshold_one_immediate_approval() {
    let mut l = Ledger::new();
    l.init("admin", &["signer1"], 1).unwrap();
    let id = l.create_withdrawal("signer1", "token", "recipient", 1000, "salary").unwrap();
    let request = TreasuryContract::get_withdrawal(&l.store, id).unwrap();
    assert_eq!(request.status, WithdrawalStatus::Approved);
    assert_eq!(request.approvals.len(), 1);
    assert_eq!(request.signer_set_version, 0);
}

#[test]
fn test_signer_rotation_with_pending_withdrawal() {
    let mut l = Ledger::new();
    l.init("admin", &["signer1", "signer2"], 2).unwrap();
    let id = l.create_withdrawal("signer1", "token", "recipient", 1000, "salary").unwrap();
    let request = TreasuryContract::get_withdrawal(&l.store, id).unwrap();
    assert_eq!(request.status, WithdrawalStatus::Pending);
    assert_eq!(request.signer_set_version, 0);
    TreasuryContract::add_signer(&mut l.store, s("admin"), s("signer3")).unwrap();
    assert_eq!(TreasuryContract::get_signers(&l.store).unwrap().len(), 3);
    let request = TreasuryContract::get_withdrawal(&l.store, id).unwrap();
    assert_eq!(request.signer_set_version, 0);
    l.approve_withdrawal("signer2", id).unwrap();
    let request = TreasuryContract::get_withdrawal(&l.store, id).unwrap();
    assert_eq!(request.status, WithdrawalStatus::Approved);
}

#[test]
fn test_signer_removal_does_not_invalidate_pending_withdrawal() {
    let mut l = Ledger::new();
    l.init("admin", &["signer1", "signer2", "signer3"], 2).unwrap();
    let id = l.create_withdrawal("signer1", "token", "recipient", 1000, "salary").unwrap();
    let request = TreasuryContract::get_withdrawal(&l.store, id).unwrap();
    assert_eq!(request.status, WithdrawalStatus::Pending);
    assert_eq!(request.signer_set_version, 0);
    TreasuryContract::remove_signer(&mut l.store, s("admin"), s("signer3")).unwrap();
    assert_eq!(TreasuryContract::get_signers(&l.store).unwrap().len(), 2);
    let request = TreasuryContract::get_withdrawal(&l.store, id).unwrap();
    assert_eq!(request.signer_set_version, 0);
    l.approve_withdrawal("signer2", id).unwrap();
    let request = TreasuryContract::get_withdrawal(&l.store, id).unwrap();
    assert_eq!(request.status, WithdrawalStatus::Approved);
}

#[test]
fn test_deposit() {
    let mut l = Ledger::new();
    l.init("admin", &["signer1"], 1).unwrap();
    let initial_balance = 50000;
    l.mint("token", "depositor", initial_balance);
    let deposit_amount = 15000;
    l.deposit("depositor", "token", deposit_amount).unwrap();
    assert_eq!(l.balance("token", "depositor"), initial_balance - deposit_amount);
    assert_eq!(l.balance("token", TREASURY), deposit_amount);
}

#[test]
fn test_pause_and_unpause_flow() {
    let mut l = Ledger::new();
    l.init("admin", &["signer1", "signer2"], 2).unwrap();
    assert_eq!(TreasuryContract::get_pause_state(&l.store).unwrap(), PauseState::Unpaused);
    let p = l.propose_pause("signer1", "sec_inc").unwrap();
    TreasuryContract::approve_pause(&mut l.store, s("signer2"), p).unwrap();
    assert_eq!(TreasuryContract::get_pause_state(&l.store).unwrap(), PauseState::Paused);
}

#[test]
fn test_deposit_blocked_when_paused() {
    let mut l = Ledger::new();
    l.init("admin", &["signer1", "signer2"], 2).unwrap();
    let p = l.propose_pause("signer1", "incident").unwrap();
    TreasuryContract::approve_pause(&mut l.store, s("signer2"), p).unwrap();
    let result = l.deposit("depositor", "token", 1000);
    assert!(result.is_err());
}

#[test]
fn test_unpause_after_pause() {
    let mut l = Ledger::new();
    l.init("admin", &["signer1", "signer2"], 2).unwrap();
    let p = l.propose_pause("signer1", "incident").unwrap();
    TreasuryContract::approve_pause(&mut l.store, s("signer2"), p).unwrap();
    let u = l.propose_unpause("signer1", "resolved").unwrap();
    TreasuryContract::approve_unpause(&mut l.store, s("signer2"), u).unwrap();
    assert_eq!(TreasuryContract::get_pause_state(&l.store).unwrap(), PauseState::Unpaused);
}

#[test]
fn test_upgrade_proposal_flow() {
    let mut l = Ledger::new();
    l.init("admin", &["signer1", "signer2"], 2).unwrap();
    let id = TreasuryContract::propose_upgrade(&mut l.store, s("signer1"), [1; 32], s("v2"), l.now).unwrap();
    assert_eq!(id, 0);
    TreasuryContract::approve_upgrade(&mut l.store, s("signer2"), id).unwrap();
    assert_eq!(TreasuryContract::get_upgrade_count(&l.store).unwrap(), 1);
}

#[test]
fn test_admin_change_timelock() {
    let mut l = Ledger::new();
    l.init("admin", &["signer1", "signer2"], 2).unwrap();
    TreasuryContract::propose_admin_change(&mut l.store, s("admin"), s("new_admin"), l.now).unwrap();
    let pending = TreasuryContract::get_pending_admin_change(&l.store).unwrap();
    assert_eq!(pending.new_admin, "new_admin");
    TreasuryContract::cancel_admin_change(&mut l.store, s("admin")).unwrap();
}

#[test]
fn test_signer_change_delay_minimum() {
    let mut l = Ledger::new();
    l.init("admin", &["signer1"], 1).unwrap();
    let result = TreasuryContract::update_signer_change_delay(&mut l.store, s("admin"), 1000);
    assert!(result.is_err());
}

#[test]
fn test_signer_change_delay_valid_update() {
    let mut l = Ledger::new();
    l.init("admin", &["signer1"], 1).unwrap();
    let valid_delay: u64 = 8 * 24 * 60 * 60;
    TreasuryContract::update_signer_change_delay(&mut l.store, s("admin"), valid_delay).unwrap();
    assert_eq!(TreasuryContract::get_signer_change_delay(&l.store).unwrap(), valid_delay);
}

#[test]
fn test_emergency_admin_change_flow() {
    let mut l = Ledger::new();
    l.init("admin", &["signer1", "signer2"], 2).unwrap();
    let id = TreasuryContract::propose_emergency_admin_change(&mut l.store, s("signer1"), s("new_admin"), l.now)
        .unwrap();
    TreasuryContract::approve_upgrade(&mut l.store, s("signer2"), id).unwrap();
    TreasuryContract::execute_emergency_admin_change(&mut l.store, s("signer1"), id).unwrap();
    assert_eq!(TreasuryContract::get_admin(&l.store).unwrap(), "signer1");
}

#[test]
fn test_pause_emits_events() {
    let mut l = Ledger::new();
    l.init("admin", &["signer1", "signer2"], 2).unwrap();
    let p = l.propose_pause("signer1", "pause").unwrap();
    TreasuryContract::approve_pause(&mut l.store, s("signer2"), p).unwrap();
    assert_eq!(TreasuryContract::get_pause_state(&l.store).unwrap(), PauseState::Paused);
}

#[test]
fn test_migration_preserves_balances_and_state() {
    let mut l = Ledger::new();
    l.init("admin", &["signer1", "signer2"], 2).unwrap();
    let deposit_amount: i128 = 10_000;
    l.mint("token", TREASURY, deposit_amount);
    assert_eq!(l.balance("token", TREASURY), deposit_amount);
    let id = l.create_withdrawal("signer1", "token", "recipient", 2000, "migration").unwrap();
    assert_eq!(id, 0);
    l.approve_withdrawal("signer2", id).unwrap();
    let config = TreasuryContract::get_config(&l.store).unwrap();
    assert_eq!(config.admin, "admin");
    assert_eq!(config.signers.len(), 2);
    assert_eq!(config.threshold, 2);
    assert_eq!(config.proposal_count, 1);
    assert_eq!(l.balance("token", TREASURY), deposit_amount);
    let request = TreasuryContract::get_withdrawal(&l.store, id).unwrap();
    assert_eq!(request.status, WithdrawalStatus::Approved);
}

#[test]
fn test_migration_with_multiple_approvals() {
    let mut l = Ledger::new();
    l.init("admin", &["signer1", "signer2", "signer3"], 2).unwrap();
    l.mint("token", TREASURY, 20_000);
    let id1 = l.create_withdrawal("signer1", "token", "recipient1", 1000, "w1").unwrap();
    l.approve_withdrawal("signer2", id1).unwrap();
    let id2 = l.create_withdrawal("signer3", "token", "recipient2", 2000, "w2").unwrap();
    l.approve_withdrawal("signer1", id2).unwrap();
    let w1 = TreasuryContract::get_withdrawal(&l.store, id1).unwrap();
    let w2 = TreasuryContract::get_withdrawal(&l.store, id2).unwrap();
    assert_eq!(w1.status, WithdrawalStatus::Approved);
    assert_eq!(w2.status, WithdrawalStatus::Approved);
    assert_eq!(w1.amount, 1000);
    assert_eq!(w2.amount, 2000);
    assert_eq!(TreasuryContract::get_proposal_count(&l.store).unwrap(), 2);
}

#[test]
fn testnet_drill_full_lifecycle() {
    let mut l = Ledger::new();
    l.init("admin", &["signer1", "signer2", "signer3"], 2).unwrap();
    let deposit_amount: i128 = 50_000;
    l.mint("token", TREASURY, deposit_amount);
    assert_eq!(TreasuryContract::get_pause_state(&l.store).unwrap(), PauseState::Unpaused);
    assert_eq!(l.balance("token", TREASURY), deposit_amount);

    let pause_id = l.propose_pause("signer1", "sec_inc").unwrap();
    l.mint("token", "pre_pause_depositor", 1000);
    assert!(l.deposit("pre_pause_depositor", "token", 1000).is_ok());
    let balance_after_pre_pause_deposit = deposit_amount + 1000;

    TreasuryContract::approve_pause(&mut l.store, s("signer2"), pause_id).unwrap();
    assert_eq!(TreasuryContract::get_pause_state(&l.store).unwrap(), PauseState::Paused);

    assert!(l.deposit("depositor", "token", 1000).is_err());
    assert!(l.create_withdrawal("signer3", "token", "recipient", 5000, "blocked").is_err());

    assert_eq!(l.balance("token", TREASURY), balance_after_pre_pause_deposit);
    assert_eq!(l.balance("token", "recipient"), 0);

    let unpause_id = l.propose_unpause("signer1", "patched").unwrap();
    assert_eq!(TreasuryContract::get_pause_state(&l.store).unwrap(), PauseState::Paused);

    TreasuryContract::approve_unpause(&mut l.store, s("signer2"), unpause_id).unwrap();
    assert_eq!(TreasuryContract::get_pause_state(&l.store).unwrap(), PauseState::Unpaused);

    l.mint("token", "depositor2", 1000);
    l.deposit("depositor2", "token", 1000).unwrap();
    assert_eq!(l.balance("token", TREASURY), balance_after_pre_pause_deposit + 1000);

    let w_id = l.create_withdrawal("signer1", "token", "recipient", 1000, "rec").unwrap();
    l.approve_withdrawal("signer2", w_id).unwrap();
    l.execute_withdrawal("signer3", w_id).unwrap();
    assert_eq!(l.balance("token", "recipient"), 1000);
}

#[test]
fn test_upgrade_proposed_emits_event_with_actor() {
    let mut l = Ledger::new();
    l.init("admin", &["signer1", "signer2"], 2).unwrap();
    let id = TreasuryContract::propose_upgrade(&mut l.store, s("signer1"), [3; 32], s("upgrade"), l.now).unwrap();
    let proposal = TreasuryContract::get_upgrade_proposal(&l.store, id).unwrap();
    assert_eq!(proposal.id, id);
    assert_eq!(proposal.proposer, "signer1");
    assert_eq!(proposal.wasm_hash, [3; 32]);
}

#[test]
fn test_all_privileged_actions_emit_identifying_events() {
    let mut l = Ledger::new();
    l.init("admin", &["signer1", "signer2"], 2).unwrap();
    TreasuryContract::add_signer(&mut l.store, s("admin"), s("new_signer")).unwrap();
    TreasuryContract::remove_signer(&mut l.store, s("admin"), s("new_signer")).unwrap();
    TreasuryContract::update_threshold(&mut l.store, s("admin"), 1).unwrap();
    TreasuryContract::propose_admin_change(&mut l.store, s("admin"), s("new_admin"), l.now).unwrap();
    let new_delay: u64 = 8 * 24 * 60 * 60;
    TreasuryContract::update_signer_change_delay(&mut l.store, s("admin"), new_delay).unwrap();
    let _pause_id = l.propose_pause("signer1", "test").unwrap();
    let upgrade_id = TreasuryContract::propose_upgrade(&mut l.store, s("signer1"), [4; 32], s("upg"), l.now).unwrap();
    TreasuryContract::execute_emergency_admin_change(&mut l.store, s("signer1"), upgrade_id).unwrap();
    let _unpause_id = l.propose_unpause("signer1", "unp").unwrap();
}

#[test]
fn test_propose_signer_add_records_proposal() {
    let mut l = Ledger::new();
    l.init("admin", &["signer1"], 1).unwrap();
    let id = TreasuryContract::propose_signer_add(&mut l.store, s("admin"), s("new_signer"), l.now).unwrap();
    let proposal = TreasuryContract::get_upgrade_proposal(&l.store, id).unwrap();
    assert_eq!(proposal.proposer, "admin");
    assert_eq!(proposal.description, "sa");
    assert_eq!(proposal.status, UpgradeStatus::PendingSignerChange);
}

#[test]
fn test_execute_signer_change_rejected_before_delay() {
    let mut l = Ledger::new();
    l.init("admin", &["signer1"], 1).unwrap();
    let id = TreasuryContract::propose_signer_add(&mut l.store, s("admin"), s("new_signer"), l.now).unwrap();
    let r = TreasuryContract::execute_signer_change(&l.store, s("executor"), id, l.now);
    assert_eq!(r.unwrap_err().code(), 19);
}

#[test]
fn test_execute_signer_change_succeeds_after_delay() {
    let mut l = Ledger::new();
    l.init("admin", &["signer1"], 1).unwrap();
    let id = TreasuryContract::propose_signer_add(&mut l.store, s("admin"), s("new_signer"), l.now).unwrap();
    l.now = 7 * 24 * 60 * 60 + 1;
    TreasuryContract::execute_signer_change(&l.store, s("executor"), id, l.now).unwrap();
}

#[test]
fn test_schedule_signer_remove_records_proposal() {
    let mut l = Ledger::new();
    l.init("admin", &["signer1", "signer2"], 1).unwrap();
    let id = TreasuryContract::schedule_signer_remove(&mut l.store, s("admin"), s("signer2"), l.now).unwrap();
    let proposal = TreasuryContract::get_upgrade_proposal(&l.store, id).unwrap();
    assert_eq!(proposal.proposer, "admin");
    assert_eq!(proposal.description, "sr");
    assert_eq!(proposal.status, UpgradeStatus::PendingSignerChange);
}

#[test]
fn test_execute_signer_remove_rejected_before_delay() {
    let mut l = Ledger::new();
    l.init("admin", &["signer1", "signer2"], 1).unwrap();
    let id = TreasuryContract::schedule_signer_remove(&mut l.store, s("admin"), s("signer2"), l.now).unwrap();
    let r = TreasuryContract::execute_signer_change(&l.store, s("executor"), id, l.now);
    assert_eq!(r.unwrap_err().code(), 19);
}

#[test]
fn test_execute_signer_remove_succeeds_after_delay() {
    let mut l = Ledger::new();
    l.init("admin", &["signer1", "signer2"], 1).unwrap();
    let id = TreasuryContract::schedule_signer_remove(&mut l.store, s("admin"), s("signer2"), l.now).unwrap();
    l.now = 7 * 24 * 60 * 60 + 1;
    TreasuryContract::execute_signer_change(&l.store, s("executor"), id, l.now).unwrap();
}

#[test]
fn test_role_rotation_add_then_remove() {
    let mut l = Ledger::new();
    l.init("admin", &["signer1", "signer2"], 1).unwrap();
    TreasuryContract::add_signer(&mut l.store, s("admin"), s("replacement")).unwrap();
    assert_eq!(TreasuryContract::get_signers(&l.store).unwrap().len(), 3);
    TreasuryContract::remove_signer(&mut l.store, s("admin"), s("signer2")).unwrap();
    assert_eq!(TreasuryContract::get_signers(&l.store).unwrap().len(), 2);
    let config = TreasuryContract::get_config(&l.store).unwrap();
    assert!(!config.paused);
    let id = l.create_withdrawal("replacement", "token", "recipient", 500, "rotation").unwrap();
    let request = TreasuryContract::get_withdrawal(&l.store, id).unwrap();
    assert_eq!(request.proposer, "replacement");
}

#[test]
fn test_propose_signer_add_duplicate_rejected() {
    let mut l = Ledger::new();
    l.init("admin", &["signer1"], 1).unwrap();
    let result = TreasuryContract::propose_signer_add(&mut l.store, s("admin"), s("signer1"), l.now);
    assert!(result.is_err());
}

#[test]
fn test_schedule_signer_remove_nonexistent_rejected() {
    let mut l = Ledger::new();
    l.init("admin", &["signer1"], 1).unwrap();
    TreasuryContract::add_signer(&mut l.store, s("admin"), s("signer2")).unwrap();
    let result = TreasuryContract::schedule_signer_remove(&mut l.store, s("admin"), s("non_signer"), l.now);
    assert!(result.is_err());
}
