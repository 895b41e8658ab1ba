//! Scenario tests for the ledger's stated guarantees: conservation,
//! monotonic ids, due gating, the fee clamp, rollback on transfer failure,
//! the suspension path, the full subscription lifecycle and double
//! registration, plus one input for every error variant.

use subscription_escrow::{
    SubscriptionError, SubscriptionEscrow, SubscriptionStatus, SystemConfig, WithdrawOutcome,
};

const ADMIN: u64 = 1;
const EMERGENCY: u64 = 9;
const PROVIDER: u64 = 2;
const SUBSCRIBER: u64 = 5;
const KEEPER: u64 = 7;

fn fresh() -> SubscriptionEscrow {
    SubscriptionEscrow::new(ADMIN, EMERGENCY)
}

/// Conservation holds after each step: balances plus earnings plus the
/// collected fees equal the total value locked.
fn assert_conserved(contract: &SubscriptionEscrow, accounts: &[u64], providers: &[u64]) {
    let (tvl, _, _, _, _, _) = contract.get_platform_stats();
    let mut total: u64 = contract.get_protocol_fees_collected();
    for a in accounts {
        total += contract.get_user_balance(*a);
    }
    for p in providers {
        total += contract.get_provider_earnings(*p);
    }
    assert_eq!(total, tvl);
}

#[test]
fn test_conservation_across_operations() {
    let mut contract = fresh();
    let accounts = [SUBSCRIBER, KEEPER];
    let providers = [PROVIDER];
    contract
        .update_system_parameters(ADMIN, 250, 100, 5, 20)
        .unwrap();
    contract
        .register_provider(PROVIDER, String::from("studio"))
        .unwrap();
    assert_conserved(&contract, &accounts, &providers);

    let plan = contract.create_plan(PROVIDER, 1000, 3600, 0).unwrap();
    contract.deposit(SUBSCRIBER, 5000).unwrap();
    assert_conserved(&contract, &accounts, &providers);
    assert_eq!(contract.get_platform_stats().0, 5000);

    let sub = contract.subscribe(SUBSCRIBER, plan, true, 0, 0).unwrap();
    // 1000 left the balance: 975 to the provider, 25 to the protocol
    assert_eq!(contract.get_user_balance(SUBSCRIBER), 4000);
    assert_eq!(contract.get_provider_earnings(PROVIDER), 975);
    assert_eq!(contract.get_platform_stats().0, 5000);
    assert_conserved(&contract, &accounts, &providers);

    contract
        .process_subscription_payment(SUBSCRIBER, sub, 3600)
        .unwrap();
    assert_eq!(contract.get_platform_stats().0, 5000);
    assert_conserved(&contract, &accounts, &providers);

    let outcome = contract.withdraw_funds(SUBSCRIBER, 7200, 500).unwrap();
    assert_eq!(outcome, WithdrawOutcome::Debited);
    contract.withdraw_funds_finish(SUBSCRIBER, 500, true);
    assert_eq!(contract.get_platform_stats().0, 4500);
    assert_conserved(&contract, &accounts, &providers);

    contract.withdraw_earnings(PROVIDER, 950).unwrap();
    contract.withdraw_earnings_finish(PROVIDER, 950, true);
    assert_eq!(contract.get_platform_stats().0, 3550);
    assert_conserved(&contract, &accounts, &providers);
}

#[test]
fn test_monotonic_ids() {
    let mut contract = fresh();
    assert_eq!(contract.get_next_ids(), (1, 1, 1));
    let p1 = contract
        .register_provider(PROVIDER, String::from("one"))
        .unwrap();
    let p2 = contract
        .register_provider(KEEPER, String::from("two"))
        .unwrap();
    assert_eq!((p1, p2), (1, 2));
    assert!(p2 > p1);

    let plan1 = contract.create_plan(PROVIDER, 10, 3600, 0).unwrap();
    let plan2 = contract.create_plan(KEEPER, 20, 3600, 0).unwrap();
    assert_eq!((plan1, plan2), (1, 2));

    let s1 = contract.subscribe(SUBSCRIBER, plan1, false, 100, 0).unwrap();
    let s2 = contract.subscribe(SUBSCRIBER, plan2, false, 0, 0).unwrap();
    assert_eq!((s1, s2), (1, 2));
    assert_eq!(contract.get_next_ids(), (3, 3, 3));
}

#[test]
fn test_due_gating_idempotent() {
    let mut contract = fresh();
    contract
        .register_provider(PROVIDER, String::from("studio"))
        .unwrap();
    let plan = contract.create_plan(PROVIDER, 100, 3600, 0).unwrap();
    let sub = contract.subscribe(SUBSCRIBER, plan, true, 1000, 0).unwrap();

    // Not due yet: a typed error, and no state moved
    let early = contract.process_subscription_payment(SUBSCRIBER, sub, 3599);
    assert_eq!(early, Err(SubscriptionError::InvalidInput));
    assert_eq!(contract.get_user_balance(SUBSCRIBER), 900);
    assert_eq!(contract.get_subscription_info(sub).unwrap().payment_count, 1);

    // Due: exactly one charge goes through
    contract
        .process_subscription_payment(SUBSCRIBER, sub, 3600)
        .unwrap();
    assert_eq!(contract.get_user_balance(SUBSCRIBER), 800);
    assert_eq!(contract.get_subscription_info(sub).unwrap().payment_count, 2);

    // Any repetition in the same instant is refused without a double charge
    for _ in 0..3 {
        let again = contract.process_subscription_payment(SUBSCRIBER, sub, 3600);
        assert_eq!(again, Err(SubscriptionError::InvalidInput));
    }
    assert_eq!(contract.get_user_balance(SUBSCRIBER), 800);
    assert_eq!(contract.get_subscription_info(sub).unwrap().payment_count, 2);
}

#[test]
fn test_keeper_fee_clamp() {
    // price 1000 at 100 bps rates a raw fee of 10; the clamp lifts it into
    // the configured band [50, 80], to its lower bound
    let cfg = SystemConfig {
        admin: ADMIN,
        emergency_admin: EMERGENCY,
        paused: false,
        keeper: KEEPER,
        keeper_fee_bps: 100,
        min_keeper_fee: 50,
        max_keeper_fee: 80,
        grace_period_seconds: 86_400,
        protocol_fee_bps: 0,
        max_plan_price: 1_000_000_000_000_000_000,
        min_plan_interval: 3_600,
        max_plan_interval: 31_536_000,
        withdrawal_delay_seconds: 0,
    };
    let fee = subscription_escrow::keeper_fee_for(1000, &cfg);
    assert_ne!(fee, 10);
    assert!(50 <= fee && fee <= 80);
    assert_eq!(fee, 50);
}

#[test]
fn test_keeper_fee_paid_on_charge() {
    let mut contract = fresh();
    contract.set_keeper(ADMIN, KEEPER).unwrap();
    contract.update_system_parameters(ADMIN, 0, 100, 50, 80).unwrap();
    contract
        .register_provider(PROVIDER, String::from("studio"))
        .unwrap();
    let plan = contract.create_plan(PROVIDER, 1000, 3600, 0).unwrap();
    let sub = contract.subscribe(SUBSCRIBER, plan, true, 2000, 0).unwrap();

    let fee = contract.process_subscription_payment(KEEPER, sub, 3600).unwrap();
    assert_eq!(fee, 50);
    // The provider got the price minus the keeper fee
    assert_eq!(contract.get_provider_earnings(PROVIDER), 1000 + 950);
    // Paying the keeper out moves the fee off the ledger
    let before = contract.get_platform_stats().0;
    contract.settle_keeper_payout(fee, true);
    assert_eq!(contract.get_platform_stats().0, before - 50);
}

#[test]
fn test_withdraw_rollback_on_transfer_failure() {
    let mut contract = fresh();
    contract.deposit(SUBSCRIBER, 1000).unwrap();
    let balance_before = contract.get_user_balance(SUBSCRIBER);
    let tvl_before = contract.get_platform_stats().0;

    let outcome = contract.withdraw_funds(SUBSCRIBER, 50, 400).unwrap();
    assert_eq!(outcome, WithdrawOutcome::Debited);
    assert_eq!(contract.get_user_balance(SUBSCRIBER), 600);

    // The native transfer failed: the debit is reversed exactly
    contract.withdraw_funds_finish(SUBSCRIBER, 400, false);
    assert_eq!(contract.get_user_balance(SUBSCRIBER), balance_before);
    assert_eq!(contract.get_platform_stats().0, tvl_before);
}

#[test]
fn test_withdraw_earnings_rollback_on_transfer_failure() {
    let mut contract = fresh();
    contract
        .register_provider(PROVIDER, String::from("studio"))
        .unwrap();
    let plan = contract.create_plan(PROVIDER, 700, 3600, 0).unwrap();
    contract.subscribe(SUBSCRIBER, plan, false, 700, 0).unwrap();
    assert_eq!(contract.get_provider_earnings(PROVIDER), 700);
    let tvl_before = contract.get_platform_stats().0;

    contract.withdraw_earnings(PROVIDER, 700).unwrap();
    assert_eq!(contract.get_provider_earnings(PROVIDER), 0);
    contract.withdraw_earnings_finish(PROVIDER, 700, false);
    assert_eq!(contract.get_provider_earnings(PROVIDER), 700);
    assert_eq!(contract.get_platform_stats().0, tvl_before);
}

#[test]
fn test_suspension_on_insufficient_funds() {
    let mut contract = fresh();
    contract
        .register_provider(PROVIDER, String::from("studio"))
        .unwrap();
    let plan = contract.create_plan(PROVIDER, 500, 3600, 0).unwrap();
    // The first charge consumes the whole deposit: balance 0
    let sub = contract.subscribe(SUBSCRIBER, plan, true, 500, 0).unwrap();
    assert_eq!(contract.get_user_balance(SUBSCRIBER), 0);

    let now = 3600;
    let result = contract.process_subscription_payment(SUBSCRIBER, sub, now);
    assert_eq!(result, Err(SubscriptionError::InsufficientFunds));
    let record = contract.get_subscription_info(sub).unwrap();
    assert_eq!(record.status, SubscriptionStatus::PastDue);
    assert_eq!(record.grace_deadline, now + 86_400);

    // Topping up and reactivating returns the subscription to Active
    contract.deposit(SUBSCRIBER, 500).unwrap();
    contract.reactivate_subscription(SUBSCRIBER, sub).unwrap();
    let record = contract.get_subscription_info(sub).unwrap();
    assert_eq!(record.status, SubscriptionStatus::Active);
    assert_eq!(record.grace_deadline, 0);
}

#[test]
fn test_end_to_end_lifecycle() {
    let mut contract = fresh();
    contract.set_keeper(ADMIN, KEEPER).unwrap();
    // Zero fees for the whole run
    contract.update_system_parameters(ADMIN, 0, 0, 0, 0).unwrap();
    contract
        .register_provider(PROVIDER, String::from("studio"))
        .unwrap();
    let plan = contract.create_plan(PROVIDER, 100, 3600, 0).unwrap();

    contract.deposit(SUBSCRIBER, 250).unwrap();
    let sub = contract.subscribe(SUBSCRIBER, plan, true, 0, 0).unwrap();
    let record = contract.get_subscription_info(sub).unwrap();
    assert_eq!(record.status, SubscriptionStatus::Active);
    assert_eq!(record.payment_count, 1);
    assert!(record.auto_pay);
    assert_eq!(contract.get_user_balance(SUBSCRIBER), 150);
    assert_eq!(contract.get_provider_earnings(PROVIDER), 100);

    // One interval later the keeper triggers the charge
    let fee = contract.process_subscription_payment(KEEPER, sub, 3600).unwrap();
    assert_eq!(fee, 0);
    let record = contract.get_subscription_info(sub).unwrap();
    assert_eq!(record.payment_count, 2);
    assert_eq!(record.last_payment_time, 3600);
    assert_eq!(contract.get_user_balance(SUBSCRIBER), 50);
    assert_eq!(contract.get_provider_earnings(PROVIDER), 200);
}

#[test]
fn test_double_registration_rejected() {
    let mut contract = fresh();
    contract
        .register_provider(PROVIDER, String::from("studio"))
        .unwrap();
    let second = contract.register_provider(PROVIDER, String::from("studio"));
    assert_eq!(second, Err(SubscriptionError::InvalidInput));
}

#[test]
fn test_error_variants() {
    let mut contract = fresh();

    // NotFound: subscribing to a plan that does not exist
    assert_eq!(
        contract.subscribe(SUBSCRIBER, 42, false, 100, 0),
        Err(SubscriptionError::NotFound)
    );

    // Unauthorized: creating a plan without registering
    assert_eq!(
        contract.create_plan(PROVIDER, 100, 3600, 0),
        Err(SubscriptionError::Unauthorized)
    );

    // InvalidInput: a zero deposit
    assert_eq!(contract.deposit(SUBSCRIBER, 0), Err(SubscriptionError::InvalidInput));

    // InsufficientFunds: withdrawing more than the balance
    contract.deposit(SUBSCRIBER, 10).unwrap();
    assert_eq!(
        contract.withdraw_funds(SUBSCRIBER, 0, 11),
        Err(SubscriptionError::InsufficientFunds)
    );

    // PausedState: any mutating call while paused
    contract.emergency_pause(ADMIN).unwrap();
    assert_eq!(contract.deposit(SUBSCRIBER, 10), Err(SubscriptionError::PausedState));
    assert_eq!(
        contract.register_provider(PROVIDER, String::from("x")),
        Err(SubscriptionError::PausedState)
    );
}

#[test]
fn test_protocol_fee_formula() {
    // 250 basis points of 1000 is exactly 25
    assert_eq!(subscription_escrow::protocol_fee_for(1000, 250), 25);
    assert_eq!(subscription_escrow::protocol_fee_for(1000, 0), 0);
    assert_eq!(subscription_escrow::protocol_fee_for(39, 250), 0);
}

#[test]
fn test_register_name_bounds() {
    let mut contract = fresh();
    assert_eq!(
        contract.register_provider(PROVIDER, String::new()),
        Err(SubscriptionError::InvalidInput)
    );
    let long = "x".repeat(101);
    assert_eq!(
        contract.register_provider(PROVIDER, long),
        Err(SubscriptionError::InvalidInput)
    );
    let just_fits = "x".repeat(100);
    assert!(contract.register_provider(PROVIDER, just_fits).is_ok());
}

#[test]
fn test_withdrawal_delay_gate() {
    let mut contract = fresh();
    contract.set_withdrawal_delay(ADMIN, 1000).unwrap();
    let big: u64 = 12_000_000_000_000_000_000;
    let amount: u64 = 11_000_000_000_000_000_000;
    contract.deposit(SUBSCRIBER, big).unwrap();

    // First call only records the request
    let outcome = contract.withdraw_funds(SUBSCRIBER, 500, amount).unwrap();
    assert_eq!(outcome, WithdrawOutcome::Requested);
    assert_eq!(contract.get_user_balance(SUBSCRIBER), big);

    // Before the delay has elapsed the withdrawal is refused
    assert_eq!(
        contract.withdraw_funds(SUBSCRIBER, 1200, amount),
        Err(SubscriptionError::InvalidInput)
    );

    // After the delay the funds move
    let outcome = contract.withdraw_funds(SUBSCRIBER, 1500, amount).unwrap();
    assert_eq!(outcome, WithdrawOutcome::Debited);
    contract.withdraw_funds_finish(SUBSCRIBER, amount, true);
    assert_eq!(contract.get_user_balance(SUBSCRIBER), big - amount);
    assert_eq!(contract.get_platform_stats().0, big - amount);
}

#[test]
fn test_cancel_and_terminal_state() {
    let mut contract = fresh();
    contract
        .register_provider(PROVIDER, String::from("studio"))
        .unwrap();
    let plan = contract.create_plan(PROVIDER, 100, 3600, 0).unwrap();
    let sub = contract.subscribe(SUBSCRIBER, plan, true, 300, 0).unwrap();

    contract.cancel_subscription(SUBSCRIBER, sub).unwrap();
    let record = contract.get_subscription_info(sub).unwrap();
    assert_eq!(record.status, SubscriptionStatus::CancelledByUser);
    assert!(!record.auto_pay);
    // The remaining balance stays withdrawable
    assert_eq!(contract.get_user_balance(SUBSCRIBER), 200);

    // Cancelled is terminal
    assert!(contract.cancel_subscription(SUBSCRIBER, sub).is_err());
    assert!(contract.toggle_auto_payment(SUBSCRIBER, sub, true).is_err());
    assert!(contract.reactivate_subscription(SUBSCRIBER, sub).is_err());
    assert_eq!(
        contract.process_subscription_payment(SUBSCRIBER, sub, 9000),
        Err(SubscriptionError::InvalidInput)
    );
}

#[test]
fn test_checker_finds_first_due_subscription() {
    let mut contract = fresh();
    contract
        .register_provider(PROVIDER, String::from("studio"))
        .unwrap();
    let plan_short = contract.create_plan(PROVIDER, 100, 3600, 0).unwrap();
    let plan_long = contract.create_plan(PROVIDER, 100, 7200, 0).unwrap();
    let s1 = contract.subscribe(SUBSCRIBER, plan_long, true, 1000, 0).unwrap();
    let s2 = contract.subscribe(SUBSCRIBER, plan_short, true, 0, 0).unwrap();

    assert_eq!(contract.checker(SUBSCRIBER, 0), None);
    // Only the short-interval subscription is due after one hour
    assert_eq!(contract.checker(SUBSCRIBER, 3600), Some(s2));
    // After two hours the earlier id wins
    assert_eq!(contract.checker(SUBSCRIBER, 7200), Some(s1));
}
