use agent_wallet::authority::{intent_address, le_bytes, wallet_address};
use agent_wallet::error::ErrorCode;
use agent_wallet::identity::{same_identity, Identity};
use agent_wallet::intent::{authorize_execution, create_spend_intent, execute_spend_intent, SpendIntent};
use agent_wallet::policy::check_admissible;
use agent_wallet::wallet::{
    add_operator, initialize, remove_operator, rollover_if_due, update_limits, AgentWallet,
};

const T0: i64 = 1_700_000_000;

fn id(b: u8) -> Identity {
    Identity { bytes: [b; 32] }
}

fn program() -> Identity {
    id(200)
}

fn new_wallet(spending: u64, daily: u64, now: i64) -> (AgentWallet, Identity) {
    let (w, ev) = initialize(id(1), id(2), spending, daily, now, &program()).expect("address");
    (w, ev.wallet)
}

fn create(w: &mut AgentWallet, key: Identity, amount: u64, now: i64) -> Result<SpendIntent, ErrorCode> {
    create_spend_intent(w, key, amount, id(9), now, &program()).map(|(i, _)| i)
}

fn execute(w: &mut AgentWallet, i: &mut SpendIntent, now: i64) -> Result<(), ErrorCode> {
    authorize_execution(w, i, now, &program())?;
    execute_spend_intent(w, i, id(77), now, true).map(|_| ())
}

#[test]
fn initialize_sets_fresh_state() {
    let (w, key) = new_wallet(1000, 2000, T0);
    assert!(same_identity(&w.owner, &id(1)));
    assert!(same_identity(&w.agent_authority, &id(2)));
    assert_eq!(w.spending_limit, 1000);
    assert_eq!(w.daily_limit, 2000);
    assert_eq!(w.daily_spent, 0);
    assert_eq!(w.nonce, 0);
    assert_eq!(w.last_reset_timestamp, T0);
    assert!(w.operators.is_empty());
    let (again, bump) = wallet_address(&id(1), &program()).unwrap();
    assert_eq!(again.bytes, key.bytes);
    assert_eq!(bump, w.bump);
    assert_ne!(key.bytes, id(1).bytes);
    assert_ne!(key.bytes, program().bytes);
}

#[test]
fn wallet_addresses_differ_by_owner() {
    let (a, _) = wallet_address(&id(1), &program()).unwrap();
    let (b, _) = wallet_address(&id(3), &program()).unwrap();
    assert_ne!(a.bytes, b.bytes);
}

#[test]
fn intent_address_follows_nonce() {
    let (key, _) = wallet_address(&id(1), &program()).unwrap();
    let (a, _) = intent_address(&key, 0, &program()).unwrap();
    let (b, _) = intent_address(&key, 1, &program()).unwrap();
    let (a2, _) = intent_address(&key, 0, &program()).unwrap();
    assert_ne!(a.bytes, b.bytes);
    assert_eq!(a.bytes, a2.bytes);
}

#[test]
fn le_bytes_is_little_endian() {
    assert_eq!(le_bytes(0x0102_0304_0506_0708), vec![8, 7, 6, 5, 4, 3, 2, 1]);
    assert_eq!(le_bytes(1), vec![1, 0, 0, 0, 0, 0, 0, 0]);
}

#[test]
fn scenario_sequential_spends_hit_daily_limit() {
    let (mut w, key) = new_wallet(1000, 2000, T0);
    let mut i1 = create(&mut w, key, 500, T0).unwrap();
    assert_eq!(w.nonce, 1);
    execute(&mut w, &mut i1, T0 + 10).unwrap();
    assert!(i1.executed);
    assert_eq!(w.daily_spent, 500);
    let mut i2 = create(&mut w, key, 600, T0 + 20).unwrap();
    assert_eq!(w.nonce, 2);
    execute(&mut w, &mut i2, T0 + 30).unwrap();
    assert_eq!(w.daily_spent, 1100);
    assert_eq!(create(&mut w, key, 1000, T0 + 40).unwrap_err(), ErrorCode::ExceedsDailyLimit);
    assert_eq!(w.nonce, 2);
}

#[test]
fn scenario_expired_intent_is_refused() {
    let (mut w, key) = new_wallet(1000, 2000, T0);
    let mut i = create(&mut w, key, 500, T0).unwrap();
    assert_eq!(execute(&mut w, &mut i, T0 + 3601).unwrap_err(), ErrorCode::IntentExpired);
    assert_eq!(
        execute_spend_intent(&mut w, &mut i, id(77), T0 + 3601, true).unwrap_err(),
        ErrorCode::IntentExpired
    );
    assert_eq!(w.daily_spent, 0);
    assert!(!i.executed);
}

#[test]
fn execution_at_last_valid_second_succeeds() {
    let (mut w, key) = new_wallet(1000, 2000, T0);
    let mut i = create(&mut w, key, 500, T0).unwrap();
    execute(&mut w, &mut i, T0 + 3600).unwrap();
    assert_eq!(w.daily_spent, 500);
}

#[test]
fn scenario_rollover_before_limit_check() {
    let (mut w, key) = new_wallet(1000, 1000, T0);
    w.daily_spent = 900;
    let i = create(&mut w, key, 950, T0 + 86400).unwrap();
    assert_eq!(i.amount, 950);
    assert_eq!(i.timestamp, T0 + 86400);
    assert_eq!(w.daily_spent, 0);
    assert_eq!(w.last_reset_timestamp, T0 + 86400);
}

#[test]
fn no_rollover_one_second_early() {
    let (mut w, key) = new_wallet(1000, 1000, T0);
    w.daily_spent = 900;
    assert_eq!(create(&mut w, key, 950, T0 + 86399).unwrap_err(), ErrorCode::ExceedsDailyLimit);
    assert_eq!(w.daily_spent, 900);
    assert_eq!(w.last_reset_timestamp, T0);
    rollover_if_due(&mut w, T0 + 86399);
    assert_eq!(w.daily_spent, 900);
    rollover_if_due(&mut w, T0 + 86400);
    assert_eq!(w.daily_spent, 0);
    assert_eq!(w.last_reset_timestamp, T0 + 86400);
    rollover_if_due(&mut w, T0 + 86400);
    assert_eq!(w.last_reset_timestamp, T0 + 86400);
}

#[test]
fn second_execution_is_refused() {
    let (mut w, key) = new_wallet(1000, 2000, T0);
    let mut i = create(&mut w, key, 500, T0).unwrap();
    execute(&mut w, &mut i, T0 + 5).unwrap();
    assert_eq!(execute(&mut w, &mut i, T0 + 6).unwrap_err(), ErrorCode::AlreadyExecuted);
    assert_eq!(
        execute_spend_intent(&mut w, &mut i, id(77), T0 + 6, true).unwrap_err(),
        ErrorCode::AlreadyExecuted
    );
    assert_eq!(w.daily_spent, 500);
}

#[test]
fn failed_transfer_changes_nothing() {
    let (mut w, key) = new_wallet(1000, 2000, T0);
    let mut i = create(&mut w, key, 500, T0).unwrap();
    let before = w.clone();
    assert_eq!(
        execute_spend_intent(&mut w, &mut i, id(77), T0 + 5, false).unwrap_err(),
        ErrorCode::TransferFailed
    );
    assert_eq!(w.daily_spent, before.daily_spent);
    assert!(!i.executed);
}

#[test]
fn execution_rechecks_daily_limit() {
    let (mut w, key) = new_wallet(1000, 1000, T0);
    let mut a = create(&mut w, key, 600, T0).unwrap();
    let mut b = create(&mut w, key, 600, T0).unwrap();
    execute(&mut w, &mut a, T0 + 1).unwrap();
    assert_eq!(execute(&mut w, &mut b, T0 + 2).unwrap_err(), ErrorCode::ExceedsDailyLimit);
    assert_eq!(w.daily_spent, 600);
}

#[test]
fn signed_transfer_uses_wallet_authority() {
    let (mut w, key) = new_wallet(1000, 2000, T0);
    let i = create(&mut w, key, 500, T0).unwrap();
    let t = authorize_execution(&w, &i, T0 + 1, &program()).unwrap();
    assert_eq!(t.authority().bytes, key.bytes);
    assert_eq!(t.recipient().bytes, id(9).bytes);
    assert_eq!(t.amount(), 500);
    let seeds = t.signer_seeds();
    assert_eq!(seeds.len(), 3);
    assert_eq!(seeds[0], b"agent_wallet".to_vec());
    assert_eq!(seeds[1], vec![1u8; 32]);
    assert_eq!(seeds[2], vec![w.bump]);
}

#[test]
fn created_intent_is_stored_at_derived_address() {
    let (mut w, key) = new_wallet(1000, 2000, T0);
    let (expected, bump) = intent_address(&key, 0, &program()).unwrap();
    let (i, ev) = create_spend_intent(&mut w, key, 500, id(9), T0, &program()).unwrap();
    assert_eq!(ev.intent.bytes, expected.bytes);
    assert_eq!(i.bump, bump);
    assert_eq!(ev.amount, 500);
    assert!(!i.executed);
}

#[test]
fn spending_limit_is_checked_at_creation() {
    let (mut w, key) = new_wallet(1000, 5000, T0);
    assert_eq!(create(&mut w, key, 1001, T0).unwrap_err(), ErrorCode::ExceedsSpendingLimit);
    assert_eq!(w.nonce, 0);
    assert_eq!(check_admissible(&w, 1000), Ok(()));
    assert_eq!(check_admissible(&w, 1001), Err(ErrorCode::ExceedsSpendingLimit));
}

#[test]
fn operators_are_unique() {
    let (mut w, key) = new_wallet(1000, 2000, T0);
    let owner = id(1);
    add_operator(&mut w, key, &owner, id(5)).unwrap();
    assert_eq!(add_operator(&mut w, key, &owner, id(5)).unwrap_err(), ErrorCode::OperatorAlreadyExists);
    assert_eq!(w.operators.len(), 1);
}

#[test]
fn removing_a_non_member_is_a_no_op() {
    let (mut w, key) = new_wallet(1000, 2000, T0);
    let owner = id(1);
    add_operator(&mut w, key, &owner, id(5)).unwrap();
    let ev = remove_operator(&mut w, key, &owner, id(6)).unwrap();
    assert_eq!(ev.operator.bytes, id(6).bytes);
    assert_eq!(w.operators.len(), 1);
    remove_operator(&mut w, key, &owner, id(5)).unwrap();
    assert!(w.operators.is_empty());
}

#[test]
fn only_owner_manages_the_wallet() {
    let (mut w, key) = new_wallet(1000, 2000, T0);
    let stranger = id(3);
    assert_eq!(add_operator(&mut w, key, &stranger, id(5)).unwrap_err(), ErrorCode::NotAuthorized);
    assert_eq!(remove_operator(&mut w, key, &stranger, id(5)).unwrap_err(), ErrorCode::NotAuthorized);
    assert_eq!(update_limits(&mut w, &stranger, Some(1), None).unwrap_err(), ErrorCode::NotAuthorized);
    assert_eq!(w.spending_limit, 1000);
}

#[test]
fn operator_set_is_bounded() {
    let (mut w, key) = new_wallet(1000, 2000, T0);
    let owner = id(1);
    for b in 10..20u8 {
        add_operator(&mut w, key, &owner, id(b)).unwrap();
    }
    assert_eq!(add_operator(&mut w, key, &owner, id(30)).unwrap_err(), ErrorCode::TooManyOperators);
    assert_eq!(w.operators.len(), 10);
}

#[test]
fn update_limits_changes_only_given_values() {
    let (mut w, _) = new_wallet(1000, 2000, T0);
    let owner = id(1);
    update_limits(&mut w, &owner, None, Some(3000)).unwrap();
    assert_eq!((w.spending_limit, w.daily_limit), (1000, 3000));
    update_limits(&mut w, &owner, Some(0), None).unwrap();
    assert_eq!((w.spending_limit, w.daily_limit), (0, 3000));
}

#[test]
fn identities_compare_by_bytes() {
    let mut a = id(4);
    assert!(same_identity(&a, &id(4)));
    a.bytes[31] = 5;
    assert!(!same_identity(&a, &id(4)));
}
