//! Tests of the engine through its public API: host identities are plain
//! account numbers and the clock is passed in with each call.

use subscription_escrow::{SubscriptionEscrow, SubscriptionStatus, WithdrawOutcome};

const ADMIN: u64 = 0xAA;
const USER_ADDR: u64 = 0x01;
const PROVIDER_ADDR: u64 = 0x02;
const OTHER_ADDR: u64 = 0x03;

fn setup_contract() -> SubscriptionEscrow {
    SubscriptionEscrow::new(ADMIN, OTHER_ADDR)
}

/// A contract whose plan bounds admit short test intervals (at least 60
/// seconds instead of the default hour).
fn setup_with_short_intervals() -> SubscriptionEscrow {
    let mut contract = setup_contract();
    contract
        .update_plan_bounds(ADMIN, 60, 31_536_000, 1_000_000_000_000_000_000)
        .unwrap();
    contract
}

#[test]
fn test_initialization() {
    let contract = setup_contract();
    assert_eq!(contract.get_admin(), ADMIN);
    assert_eq!(contract.is_paused(), false);
    assert_eq!(contract.get_total_subscriptions(), 0);
}

#[test]
fn test_subscription_creation_validation() {
    let mut contract = setup_with_short_intervals();

    // Caller without a provider registration
    let result = contract.create_plan(PROVIDER_ADDR, 100, 300, 0);
    assert!(result.is_err());

    contract
        .register_provider(PROVIDER_ADDR, String::from("provider"))
        .unwrap();

    // Zero amount
    let result = contract.create_plan(PROVIDER_ADDR, 0, 300, 0);
    assert!(result.is_err());

    // Interval too short (less than 60 seconds)
    let result = contract.create_plan(PROVIDER_ADDR, 100, 30, 0);
    assert!(result.is_err());
}

#[test]
fn test_subscription_status_conversion() {
    let status = SubscriptionStatus::from(0u8);
    assert_eq!(status, SubscriptionStatus::Active);

    let status = SubscriptionStatus::from(1u8);
    assert_eq!(status, SubscriptionStatus::PastDue);

    let status = SubscriptionStatus::from(2u8);
    assert_eq!(status, SubscriptionStatus::CancelledByUser);

    let status = SubscriptionStatus::from(3u8);
    assert_eq!(status, SubscriptionStatus::CancelledByProvider);

    let status = SubscriptionStatus::from(4u8);
    assert_eq!(status, SubscriptionStatus::Expired);

    // Test fallback
    let status = SubscriptionStatus::from(99u8);
    assert_eq!(status, SubscriptionStatus::Active);
}

#[test]
fn test_subscription_data_storage() {
    let mut contract = setup_with_short_intervals();
    contract
        .register_provider(PROVIDER_ADDR, String::from("provider"))
        .unwrap();
    let plan_id = contract.create_plan(PROVIDER_ADDR, 1000, 300, 0).unwrap();

    // Subscribe with 1500 attached: the first period is charged at once
    let sub_id = contract.subscribe(USER_ADDR, plan_id, false, 1500, 0).unwrap();
    assert_eq!(sub_id, 1);

    let sub = contract.get_subscription_info(sub_id).unwrap();
    assert_eq!(sub.subscriber, USER_ADDR);
    assert_eq!(sub.plan_id, plan_id);
    assert_eq!(sub.payment_count, 1);
    assert_eq!(sub.status, SubscriptionStatus::Active);

    let plan = contract.get_plan_info(plan_id).unwrap();
    assert_eq!(plan.price, 1000);
    assert_eq!(plan.interval_seconds, 300);

    // 1500 deposited minus the 1000 first charge
    assert_eq!(contract.get_user_balance(USER_ADDR), 500);
}

#[test]
fn test_provider_balance_tracking() {
    let mut contract = setup_contract();
    contract
        .register_provider(PROVIDER_ADDR, String::from("provider"))
        .unwrap();
    let plan_id = contract.create_plan(PROVIDER_ADDR, 5000, 3600, 0).unwrap();

    // A first charge of 5000 with no protocol fee lands with the provider
    contract.subscribe(USER_ADDR, plan_id, false, 5000, 0).unwrap();
    let balance = contract.get_provider_earnings(PROVIDER_ADDR);
    assert_eq!(balance, 5000);

    // Zero balance for an unknown provider
    let balance = contract.get_provider_earnings(OTHER_ADDR);
    assert_eq!(balance, 0);
}

#[test]
fn test_subscription_arrays() {
    let mut contract = setup_contract();
    contract
        .register_provider(PROVIDER_ADDR, String::from("provider"))
        .unwrap();
    let plan_a = contract.create_plan(PROVIDER_ADDR, 100, 3600, 0).unwrap();
    let plan_b = contract.create_plan(PROVIDER_ADDR, 200, 3600, 0).unwrap();

    let first = contract.subscribe(USER_ADDR, plan_a, false, 400, 0).unwrap();
    let second = contract.subscribe(USER_ADDR, plan_b, false, 0, 0).unwrap();

    assert_eq!(contract.get_user_subscription_count(USER_ADDR), 2);
    assert_eq!(contract.get_user_subscription(USER_ADDR, 0), first);
    assert_eq!(contract.get_user_subscription(USER_ADDR, 1), second);

    assert_eq!(contract.get_provider_plan(PROVIDER_ADDR, 0), plan_a);
    assert_eq!(contract.get_provider_plan(PROVIDER_ADDR, 1), plan_b);
    assert_eq!(contract.get_provider_plan(PROVIDER_ADDR, 2), 0);
}

#[test]
fn test_admin_functions() {
    let mut contract = setup_contract();

    // Pausing (admin)
    contract.emergency_pause(ADMIN).unwrap();
    assert_eq!(contract.is_paused(), true);

    // The emergency admin can toggle it back
    contract.emergency_pause(OTHER_ADDR).unwrap();
    assert_eq!(contract.is_paused(), false);
}

#[test]
fn test_payment_due_logic() {
    let mut contract = setup_with_short_intervals();
    contract
        .register_provider(PROVIDER_ADDR, String::from("provider"))
        .unwrap();
    let current_time = 1_700_000_000u64; // Mock timestamp
    let plan_id = contract.create_plan(PROVIDER_ADDR, 100, 600, current_time).unwrap();
    let sub_id = contract
        .subscribe(USER_ADDR, plan_id, true, 1000, current_time)
        .unwrap();

    // Next payment lies in the future
    assert!(!contract.needs_payment(sub_id, current_time));
    assert!(!contract.needs_payment(sub_id, current_time + 599));

    // One full interval later the payment is due
    assert!(contract.needs_payment(sub_id, current_time + 600));
    assert!(contract.is_payment_due(sub_id, current_time + 600));
}

#[test]
fn test_withdraw_outcome_shapes() {
    let mut contract = setup_contract();
    contract.deposit(USER_ADDR, 1000).unwrap();
    let outcome = contract.withdraw_funds(USER_ADDR, 0, 400).unwrap();
    assert_eq!(outcome, WithdrawOutcome::Debited);
    contract.withdraw_funds_finish(USER_ADDR, 400, true);
    assert_eq!(contract.get_user_balance(USER_ADDR), 600);
}
