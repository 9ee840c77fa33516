use orbitpay::keyed::{AddressIds, IdStore};
use orbitpay::payroll_stream::{self as payroll, PayrollStorage};
use orbitpay::upgrade::{timelock_expired, PendingUpgrade, MIN_UPGRADE_DELAY};
use orbitpay::vesting::{self, ClaimRecord, VestingStorage};

fn s(x: &str) -> String {
    x.to_string()
}

#[test]
fn id_store_keeps_latest_value() {
    let mut st: IdStore<u64> = IdStore::new();
    assert_eq!(st.get(3), None);
    st.set(3, 10);
    st.set(4, 20);
    st.set(3, 30);
    assert_eq!(st.get(3), Some(&30));
    assert_eq!(st.get(4), Some(&20));
    assert_eq!(st.get(5), None);
}

#[test]
fn address_ids_keep_latest_list() {
    let mut st = AddressIds::new();
    assert!(st.get(&s("a")).is_empty());
    st.set(&s("a"), vec![1, 2]);
    st.set(&s("b"), vec![9]);
    st.set(&s("a"), vec![1, 2, 3]);
    assert_eq!(st.get(&s("a")), vec![1, 2, 3]);
    assert_eq!(st.get(&s("b")), vec![9]);
}

#[test]
fn payroll_indexes_append_ids() {
    let mut st: PayrollStorage<u64> = PayrollStorage::new();
    assert!(!payroll::has_admin(&st));
    payroll::set_admin(&mut st, &s("admin"));
    assert_eq!(payroll::get_admin(&st), "admin");
    assert_eq!(payroll::get_stream_count(&st), 0);
    payroll::set_stream_count(&mut st, 2);
    assert_eq!(payroll::get_stream_count(&st), 2);
    payroll::set_stream(&mut st, 0, 500);
    assert_eq!(payroll::get_stream(&st, 0), Some(&500));
    assert_eq!(payroll::get_stream(&st, 1), None);
    payroll::add_sender_stream(&mut st, &s("alice"), 0);
    payroll::add_sender_stream(&mut st, &s("alice"), 1);
    payroll::add_recipient_stream(&mut st, &s("bob"), 1);
    assert_eq!(payroll::get_sender_streams(&st, &s("alice")), vec![0, 1]);
    assert_eq!(payroll::get_recipient_streams(&st, &s("bob")), vec![1]);
    assert!(payroll::get_recipient_streams(&st, &s("alice")).is_empty());
}

#[test]
fn pending_upgrade_needs_both_entries() {
    let mut st: PayrollStorage<u64> = PayrollStorage::new();
    assert_eq!(payroll::get_pending_upgrade(&st), None);
    st.pending_upgrade_wasm = Some([1; 32]);
    assert_eq!(payroll::get_pending_upgrade(&st), None);
    payroll::set_pending_upgrade(&mut st, &PendingUpgrade { wasm_hash: [2; 32], proposed_at: 77 });
    assert_eq!(payroll::get_pending_upgrade(&st), Some(PendingUpgrade { wasm_hash: [2; 32], proposed_at: 77 }));
    payroll::clear_pending_upgrade(&mut st);
    assert_eq!(payroll::get_pending_upgrade(&st), None);
    assert!(st.pending_upgrade_wasm.is_none() && st.pending_upgrade_proposed_at.is_none());
}

#[test]
fn vesting_claim_history_appends() {
    let mut st: VestingStorage<u64> = VestingStorage::new();
    assert!(vesting::get_claim_history(&st, 4).is_empty());
    vesting::add_claim_record(&mut st, 4, 100, 10);
    vesting::add_claim_record(&mut st, 4, 50, 20);
    vesting::add_claim_record(&mut st, 5, 7, 30);
    assert_eq!(
        vesting::get_claim_history(&st, 4),
        vec![ClaimRecord { amount: 100, timestamp: 10 }, ClaimRecord { amount: 50, timestamp: 20 }]
    );
    assert_eq!(vesting::get_claim_history(&st, 5), vec![ClaimRecord { amount: 7, timestamp: 30 }]);
    vesting::add_grantor_schedule(&mut st, &s("g"), 4);
    vesting::add_beneficiary_schedule(&mut st, &s("b"), 4);
    vesting::add_beneficiary_schedule(&mut st, &s("b"), 5);
    assert_eq!(vesting::get_grantor_schedules(&st, &s("g")), vec![4]);
    assert_eq!(vesting::get_beneficiary_schedules(&st, &s("b")), vec![4, 5]);
    assert_eq!(vesting::get_schedule_count(&st), 0);
    vesting::set_schedule(&mut st, 4, 999);
    assert_eq!(vesting::get_schedule(&st, 4), Some(&999));
}

#[test]
fn upgrade_timelock_boundary() {
    assert_eq!(MIN_UPGRADE_DELAY, 86400);
    assert!(!timelock_expired(100, 100 + 86399));
    assert!(timelock_expired(100, 100 + 86400));
}
