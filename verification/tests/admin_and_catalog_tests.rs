//! Tests of the administrative operations, the provider profile and the
//! plan catalog, plus the remaining read-only views.

use subscription_escrow::{SubscriptionError, SubscriptionEscrow, WithdrawOutcome};

const ADMIN: u64 = 0xAA;
const EMERGENCY: u64 = 0xEE;
const PROVIDER: u64 = 2;
const SUBSCRIBER: u64 = 5;
const STRANGER: u64 = 6;

fn fresh() -> SubscriptionEscrow {
    SubscriptionEscrow::new(ADMIN, EMERGENCY)
}

#[test]
fn test_admin_rotation() {
    let mut contract = fresh();
    assert_eq!(
        contract.update_admin(STRANGER, STRANGER),
        Err(SubscriptionError::Unauthorized)
    );
    assert_eq!(contract.update_admin(ADMIN, 0), Err(SubscriptionError::InvalidInput));
    contract.update_admin(ADMIN, STRANGER).unwrap();
    assert_eq!(contract.get_admin(), STRANGER);
    // The old admin lost the role
    assert_eq!(
        contract.update_admin(ADMIN, ADMIN),
        Err(SubscriptionError::Unauthorized)
    );
    contract.set_emergency_admin(STRANGER, PROVIDER).unwrap();
    assert_eq!(contract.get_system_config().1, PROVIDER);
}

#[test]
fn test_fee_parameter_validation() {
    let mut contract = fresh();
    // Rates summing over 100% are rejected
    assert_eq!(
        contract.update_system_parameters(ADMIN, 6000, 5000, 0, 0),
        Err(SubscriptionError::InvalidInput)
    );
    // An inverted clamp band is rejected
    assert_eq!(
        contract.update_system_parameters(ADMIN, 0, 100, 80, 50),
        Err(SubscriptionError::InvalidInput)
    );
    // A bound above the absolute ceiling is rejected
    assert_eq!(
        contract.update_system_parameters(ADMIN, 0, 100, 0, 200_000_000_000_000_000),
        Err(SubscriptionError::InvalidInput)
    );
    contract.update_system_parameters(ADMIN, 250, 100, 5, 20).unwrap();
    let (_, _, _, _, kbps, min_fee, max_fee, _) = contract.get_system_config();
    assert_eq!((kbps, min_fee, max_fee), (100, 5, 20));
    assert_eq!(contract.get_protocol_fee(), 250);
}

#[test]
fn test_plan_bounds_validation() {
    let mut contract = fresh();
    assert_eq!(
        contract.update_plan_bounds(ADMIN, 100, 50, 1000),
        Err(SubscriptionError::InvalidInput)
    );
    contract.update_plan_bounds(ADMIN, 60, 600, 1000).unwrap();
    contract
        .register_provider(PROVIDER, String::from("studio"))
        .unwrap();
    // Price above the configured maximum
    assert_eq!(
        contract.create_plan(PROVIDER, 1001, 120, 0),
        Err(SubscriptionError::InvalidInput)
    );
    // Interval above the configured maximum
    assert_eq!(
        contract.create_plan(PROVIDER, 1000, 601, 0),
        Err(SubscriptionError::InvalidInput)
    );
    assert!(contract.create_plan(PROVIDER, 1000, 600, 0).is_ok());
}

#[test]
fn test_provider_profile_updates() {
    let mut contract = fresh();
    contract
        .register_provider(PROVIDER, String::from("first name"))
        .unwrap();
    let (id, name, active, _, _, _, _) = contract.get_provider_info(PROVIDER);
    assert_eq!(id, 1);
    assert_eq!(name, "first name");
    assert!(active);

    // An empty name keeps the stored one; the active flag always applies
    contract.update_provider(PROVIDER, String::new(), false).unwrap();
    let (_, name, active, _, _, _, _) = contract.get_provider_info(PROVIDER);
    assert_eq!(name, "first name");
    assert!(!active);

    contract
        .update_provider(PROVIDER, String::from("second name"), true)
        .unwrap();
    let (_, name, active, _, _, _, _) = contract.get_provider_info(PROVIDER);
    assert_eq!(name, "second name");
    assert!(active);

    // An unknown account is all defaults
    let (id, name, active, plans, earnings, lifetime, subs) =
        contract.get_provider_info(STRANGER);
    assert_eq!((id, active, plans, earnings, lifetime, subs), (0, false, 0, 0, 0, 0));
    assert_eq!(name, "");
}

#[test]
fn test_unregister_blocks_new_plans() {
    let mut contract = fresh();
    contract
        .register_provider(PROVIDER, String::from("studio"))
        .unwrap();
    let plan = contract.create_plan(PROVIDER, 100, 3600, 0).unwrap();
    contract.unregister_provider(PROVIDER).unwrap();

    // No new plans while inactive
    assert_eq!(
        contract.create_plan(PROVIDER, 100, 3600, 0),
        Err(SubscriptionError::Unauthorized)
    );
    // Existing plans keep accepting subscriptions
    assert!(contract.subscribe(SUBSCRIBER, plan, false, 100, 0).is_ok());
}

#[test]
fn test_plan_updates_and_deactivation() {
    let mut contract = fresh();
    contract
        .register_provider(PROVIDER, String::from("studio"))
        .unwrap();
    let plan = contract.create_plan(PROVIDER, 100, 3600, 0).unwrap();

    // Only the owner updates a plan
    assert_eq!(
        contract.update_plan(STRANGER, plan, 200, 0, true),
        Err(SubscriptionError::Unauthorized)
    );
    assert_eq!(
        contract.update_plan(PROVIDER, 99, 200, 0, true),
        Err(SubscriptionError::NotFound)
    );
    // An out-of-bounds new value fails before anything is applied
    assert_eq!(
        contract.update_plan(PROVIDER, plan, 0, 10, true),
        Err(SubscriptionError::InvalidInput)
    );
    let record = contract.get_plan_info(plan).unwrap();
    assert_eq!((record.price, record.interval_seconds), (100, 3600));

    // Zero keeps a value, nonzero replaces it
    contract.update_plan(PROVIDER, plan, 250, 0, true).unwrap();
    let record = contract.get_plan_info(plan).unwrap();
    assert_eq!((record.price, record.interval_seconds), (250, 3600));

    // Deactivation stops new subscriptions, existing state stays
    contract.deactivate_plan(PROVIDER, plan).unwrap();
    assert!(!contract.get_plan_info(plan).unwrap().active);
    assert_eq!(
        contract.subscribe(SUBSCRIBER, plan, false, 1000, 0),
        Err(SubscriptionError::InvalidInput)
    );
    contract.update_plan_status(PROVIDER, plan, true).unwrap();
    assert!(contract.get_plan_info(plan).unwrap().active);
}

#[test]
fn test_pause_blocks_mutating_operations() {
    let mut contract = fresh();
    contract
        .register_provider(PROVIDER, String::from("studio"))
        .unwrap();
    let plan = contract.create_plan(PROVIDER, 100, 3600, 0).unwrap();
    let sub = contract.subscribe(SUBSCRIBER, plan, true, 500, 0).unwrap();

    contract.emergency_pause(EMERGENCY).unwrap();
    let paused = Err::<u64, SubscriptionError>(SubscriptionError::PausedState);
    assert_eq!(contract.create_plan(PROVIDER, 100, 3600, 0), paused);
    assert_eq!(contract.subscribe(SUBSCRIBER, plan, true, 100, 0), paused);
    assert_eq!(
        contract.process_subscription_payment(SUBSCRIBER, sub, 3600),
        paused
    );
    assert_eq!(
        contract.withdraw_funds(SUBSCRIBER, 0, 10),
        Err(SubscriptionError::PausedState)
    );
    assert_eq!(
        contract.cancel_subscription(SUBSCRIBER, sub),
        Err(SubscriptionError::PausedState)
    );
    // Read-only queries stay available
    assert_eq!(contract.get_user_balance(SUBSCRIBER), 400);

    contract.emergency_pause(ADMIN).unwrap();
    assert!(contract.cancel_subscription(SUBSCRIBER, sub).is_ok());
}

#[test]
fn test_withdraw_provider_earnings_all() {
    let mut contract = fresh();
    contract
        .register_provider(PROVIDER, String::from("studio"))
        .unwrap();
    // Nothing to withdraw yet
    assert_eq!(
        contract.withdraw_provider_earnings(PROVIDER),
        Err(SubscriptionError::InvalidInput)
    );
    let plan = contract.create_plan(PROVIDER, 300, 3600, 0).unwrap();
    contract.subscribe(SUBSCRIBER, plan, false, 300, 0).unwrap();

    let amount = contract.withdraw_provider_earnings(PROVIDER).unwrap();
    assert_eq!(amount, 300);
    assert_eq!(contract.get_provider_earnings(PROVIDER), 0);
    contract.withdraw_earnings_finish(PROVIDER, amount, true);
    assert_eq!(contract.get_platform_stats().0, 0);
}

#[test]
fn test_lost_keeper_fee_stays_with_protocol() {
    let mut contract = fresh();
    const KEEPER: u64 = 7;
    contract.set_keeper(ADMIN, KEEPER).unwrap();
    contract.update_system_parameters(ADMIN, 0, 100, 50, 80).unwrap();
    contract
        .register_provider(PROVIDER, String::from("studio"))
        .unwrap();
    let plan = contract.create_plan(PROVIDER, 1000, 3600, 0).unwrap();
    let sub = contract.subscribe(SUBSCRIBER, plan, true, 2000, 0).unwrap();

    let fee = contract.process_subscription_payment(KEEPER, sub, 3600).unwrap();
    assert_eq!(fee, 50);
    let tvl_before = contract.get_platform_stats().0;

    // The payout failed: the fee stays collected, the charge stays settled
    contract.settle_keeper_payout(fee, false);
    assert_eq!(contract.get_protocol_fees_collected(), 50);
    assert_eq!(contract.get_platform_stats().0, tvl_before);
    assert_eq!(contract.get_subscription_info(sub).unwrap().payment_count, 2);
}

#[test]
fn test_platform_statistics() {
    let mut contract = fresh();
    assert!(contract.is_initialized());
    assert_eq!(contract.get_version(), 1);

    contract
        .register_provider(PROVIDER, String::from("studio"))
        .unwrap();
    let plan = contract.create_plan(PROVIDER, 100, 3600, 0).unwrap();
    let s1 = contract.subscribe(SUBSCRIBER, plan, true, 500, 0).unwrap();
    contract.subscribe(STRANGER, plan, true, 500, 0).unwrap();
    contract.cancel_subscription(SUBSCRIBER, s1).unwrap();

    let (tvl, revenue, total_subs, live_subs, providers, plans) =
        contract.get_platform_stats();
    assert_eq!(tvl, 1000);
    assert_eq!(revenue, 200);
    assert_eq!(total_subs, 2);
    assert_eq!(live_subs, 1);
    assert_eq!(providers, 1);
    assert_eq!(plans, 1);

    let (tvl2, next_plan, next_sub) = contract.get_stats();
    assert_eq!((tvl2, next_plan, next_sub), (1000, 2, 3));

    let (balance, deposited, spent, created) = contract.get_user_info(SUBSCRIBER);
    assert_eq!((balance, deposited, spent, created), (400, 500, 100, 1));

    // The cancelled subscription no longer counts as live for its owner
    assert_eq!(contract.get_user_subscription_count(SUBSCRIBER), 0);
    assert_eq!(contract.get_user_subscription_count(STRANGER), 1);
}

#[test]
fn test_toggle_auto_payment_flag() {
    let mut contract = fresh();
    contract
        .register_provider(PROVIDER, String::from("studio"))
        .unwrap();
    let plan = contract.create_plan(PROVIDER, 100, 3600, 0).unwrap();
    let sub = contract.subscribe(SUBSCRIBER, plan, false, 200, 0).unwrap();
    assert!(!contract.get_subscription_info(sub).unwrap().auto_pay);

    assert_eq!(
        contract.toggle_auto_payment(STRANGER, sub, true),
        Err(SubscriptionError::Unauthorized)
    );
    contract.toggle_auto_payment(SUBSCRIBER, sub, true).unwrap();
    assert!(contract.get_subscription_info(sub).unwrap().auto_pay);
}

#[test]
fn test_withdraw_request_survives_failed_transfer() {
    let mut contract = fresh();
    contract.set_withdrawal_delay(ADMIN, 1000).unwrap();
    let big: u64 = 12_000_000_000_000_000_000;
    let amount: u64 = 11_000_000_000_000_000_000;
    contract.deposit(SUBSCRIBER, big).unwrap();

    assert_eq!(
        contract.withdraw_funds(SUBSCRIBER, 100, amount).unwrap(),
        WithdrawOutcome::Requested
    );
    assert_eq!(
        contract.withdraw_funds(SUBSCRIBER, 1100, amount).unwrap(),
        WithdrawOutcome::Debited
    );
    // The transfer failed: balance restored, and the pending request was
    // never cleared, so the retry executes at once
    contract.withdraw_funds_finish(SUBSCRIBER, amount, false);
    assert_eq!(contract.get_user_balance(SUBSCRIBER), big);
    assert_eq!(
        contract.withdraw_funds(SUBSCRIBER, 1200, amount).unwrap(),
        WithdrawOutcome::Debited
    );
    contract.withdraw_funds_finish(SUBSCRIBER, amount, true);
    assert_eq!(contract.get_user_balance(SUBSCRIBER), big - amount);
}
