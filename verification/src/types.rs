//! Core data model: accounts, providers, plans, subscriptions, the system
//! configuration, and the error taxonomy shared by every operation.
//!
//! All amounts are unsigned integers in the smallest currency unit; all times
//! are seconds; accounts are opaque numeric identities supplied by the host,
//! with `0` reserved as "no account" (an unset keeper, an unset admin).

use vstd::prelude::*;

verus! {

/// Longest accepted provider display name, in characters.
pub const MAX_NAME_LEN: u64 = 100;

/// A withdrawal above this amount is gated by the configured delay.
pub const LARGE_WITHDRAWAL_THRESHOLD: u64 = 10_000_000_000_000_000_000;

/// Absolute ceiling on the configurable keeper fee bounds.
pub const KEEPER_FEE_CEILING: u64 = 100_000_000_000_000_000;

/// Fee percentages are expressed in basis points; 10000 bps = 100%.
pub const BPS_DENOMINATOR: u64 = 10000;

/// Why an operation was refused.  Every failure is reported before any state
/// is mutated, except the documented transfer-failure rollbacks.
#[derive(Clone, Copy, Debug, PartialEq, Eq, Structural)]
pub enum SubscriptionError {
    /// The caller lacks the required role or ownership.
    Unauthorized,
    /// A malformed or out-of-bounds argument; also "not yet due" and
    /// "already exists".
    InvalidInput,
    /// A balance or earnings total is too low.
    InsufficientFunds,
    /// The referenced id does not exist.
    NotFound,
    /// The system-wide pause is in effect.
    PausedState,
}

/// Lifecycle state of a subscription.
///
/// `Active` subscriptions are charged each interval.  `PastDue` is the
/// suspended state: a charge found the escrow balance short, and the
/// subscription waits out its grace period until the subscriber reactivates
/// it.  The remaining three variants are all terminal cancelled states; once
/// a subscription reaches one of them no further transition happens.
#[derive(Clone, Copy, Debug, PartialEq, Eq, Structural)]
pub enum SubscriptionStatus {
    Active,
    PastDue,
    CancelledByUser,
    CancelledByProvider,
    Expired,
}

/// The status a stored status code decodes to: an unknown code falls back to
/// `Active`.
pub open spec fn status_from_code(v: u8) -> SubscriptionStatus {
    if v == 0 {
        SubscriptionStatus::Active
    } else if v == 1 {
        SubscriptionStatus::PastDue
    } else if v == 2 {
        SubscriptionStatus::CancelledByUser
    } else if v == 3 {
        SubscriptionStatus::CancelledByProvider
    } else if v == 4 {
        SubscriptionStatus::Expired
    } else {
        SubscriptionStatus::Active
    }
}

impl SubscriptionStatus {
    /// True of the three terminal cancelled states.
    pub open spec fn is_cancelled(self) -> bool {
        match self {
            SubscriptionStatus::CancelledByUser => true,
            SubscriptionStatus::CancelledByProvider => true,
            SubscriptionStatus::Expired => true,
            _ => false,
        }
    }
}

impl From<u8> for SubscriptionStatus {
    fn from(v: u8) -> (r: Self) {
        match v {
            0 => SubscriptionStatus::Active,
            1 => SubscriptionStatus::PastDue,
            2 => SubscriptionStatus::CancelledByUser,
            3 => SubscriptionStatus::CancelledByProvider,
            4 => SubscriptionStatus::Expired,
            _ => SubscriptionStatus::Active,
        }
    }
}

impl vstd::std_specs::convert::FromSpecImpl<u8> for SubscriptionStatus {
    open spec fn obeys_from_spec() -> bool {
        true
    }

    open spec fn from_spec(v: u8) -> Self {
        status_from_code(v)
    }
}

/// What a successful withdrawal call did.
#[derive(Clone, Copy, Debug, PartialEq, Eq, Structural)]
pub enum WithdrawOutcome {
    /// A large withdrawal was only recorded; a second call after the
    /// configured delay will move the funds.
    Requested,
    /// The amount was debited from the ledger; the host must now attempt the
    /// native transfer and report its outcome to the matching finish call.
    Debited,
}

/// System-wide parameters, mutated only through the admin operations.
#[derive(Clone, Copy, Debug, PartialEq, Eq, Structural)]
pub struct SystemConfig {
    /// Administrator account; never `0`.
    pub admin: u64,
    /// Account allowed to toggle the emergency pause besides the admin.
    pub emergency_admin: u64,
    /// While set, every non-admin mutating operation is refused.
    pub paused: bool,
    /// The authorized keeper account; `0` when none is set.
    pub keeper: u64,
    /// Keeper fee rate in basis points.
    pub keeper_fee_bps: u64,
    /// Lower clamp bound of the keeper fee.
    pub min_keeper_fee: u64,
    /// Upper clamp bound of the keeper fee.
    pub max_keeper_fee: u64,
    /// How long a suspended subscription stays in grace.
    pub grace_period_seconds: u64,
    /// Protocol fee rate in basis points.
    pub protocol_fee_bps: u64,
    /// Upper bound on a plan's price.
    pub max_plan_price: u64,
    /// Lower bound on a plan's charge interval.
    pub min_plan_interval: u64,
    /// Upper bound on a plan's charge interval.
    pub max_plan_interval: u64,
    /// Delay imposed on large withdrawals; `0` imposes none.
    pub withdrawal_delay_seconds: u64,
}

impl SystemConfig {
    /// Bounds that every reachable configuration satisfies: the admin is a
    /// real account, the fee rates together never exceed the whole price,
    /// and the clamp bounds are ordered and sanely capped.
    pub open spec fn wf(self) -> bool {
        &&& self.admin != 0
        &&& self.protocol_fee_bps + self.keeper_fee_bps <= BPS_DENOMINATOR
        &&& self.min_keeper_fee <= self.max_keeper_fee
        &&& self.max_keeper_fee <= KEEPER_FEE_CEILING
        &&& self.min_plan_interval <= self.max_plan_interval
    }
}

/// A registered provider.  Its id is its position in the provider table plus
/// one; the record is never deleted.
#[verifier::ext_equal]
pub struct Provider {
    /// The account that registered; unique across providers.
    pub owner: u64,
    /// Display name; non-empty and at most [`MAX_NAME_LEN`] characters when
    /// registered, freely updatable afterwards.
    pub name: String,
    /// While false the provider cannot create plans.
    pub active: bool,
    /// Earnings available for withdrawal; part of the conservation law.
    pub earnings_available: u64,
    /// Lifetime earnings ever credited; statistic only.
    pub earnings_lifetime: u64,
    /// Number of not-cancelled subscriptions across this provider's plans.
    pub active_subscriber_count: u64,
    /// Ids of the plans this provider created, in creation order.
    pub plan_ids: Vec<u64>,
}

/// A published plan.  Its id is its position in the plan table plus one; the
/// record is never deleted.
#[derive(Clone, Copy, Debug, PartialEq, Eq, Structural)]
pub struct Plan {
    /// Id of the owning provider.
    pub provider_id: u64,
    /// Charge per interval; never `0`.
    pub price: u64,
    /// Seconds between charges; never `0`.
    pub interval_seconds: u64,
    /// While false the plan accepts no new subscriptions.
    pub active: bool,
    /// Number of not-cancelled subscriptions on this plan.
    pub subscriber_count: u64,
    /// Lifetime revenue charged through this plan; statistic only.
    pub revenue_lifetime: u64,
    /// Time the plan was created.
    pub created_at: u64,
}

/// A subscriber's enrollment in a plan.  Its id is its position in the
/// subscription table plus one; the record is never deleted.
#[derive(Clone, Copy, Debug, PartialEq, Eq, Structural)]
pub struct Subscription {
    /// Id of the plan subscribed to.
    pub plan_id: u64,
    /// The subscribing account.
    pub subscriber: u64,
    /// Time the subscription was created.
    pub start_time: u64,
    /// Time of the most recent successful charge; non-decreasing.
    pub last_payment_time: u64,
    /// Number of successful charges, the first one included.
    pub payment_count: u64,
    /// Lifecycle state.
    pub status: SubscriptionStatus,
    /// Whether the subscriber asked for automatic charging.
    pub auto_pay: bool,
    /// End of the grace window; nonzero only while the status is `PastDue`.
    pub grace_deadline: u64,
}

/// A per-account escrow record, created on first deposit and never deleted.
#[verifier::ext_equal]
pub struct EscrowAccount {
    /// The owning account; unique across the table.
    pub owner: u64,
    /// Funds available for charges and withdrawal; part of the conservation
    /// law.
    pub balance: u64,
    /// Lifetime deposits; statistic only.
    pub total_deposited: u64,
    /// Lifetime spending through charges; statistic only.
    pub total_spent: u64,
    /// Time a pending large-withdrawal request was recorded; `0` when none.
    pub withdrawal_request_time: u64,
    /// Ids of the subscriptions this account created, in creation order.
    pub subscription_ids: Vec<u64>,
}

} // verus!
