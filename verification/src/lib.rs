//! A recurring-payment escrow ledger.
//!
//! Providers publish subscription plans, subscribers pre-fund an escrow
//! balance and are charged once per plan interval, and a third-party keeper
//! may trigger due charges in exchange for a small fee.  The whole engine is
//! a single state value, [`SubscriptionEscrow`]: the hosting environment
//! supplies the caller's identity, the current time, any attached payment and
//! the outcome of native-currency transfers as plain arguments, and the
//! library computes every state change and proves that money is never
//! created, destroyed or double-counted while doing so.

pub mod admin;
pub mod escrow;
pub mod fees;
pub mod laws;
pub mod ledger;
pub mod lifecycle;
pub mod payment;
pub mod plans;
pub mod queries;
pub mod registry;
pub mod state;
pub mod types;

pub use fees::{keeper_fee_for, protocol_fee_for};
pub use state::SubscriptionEscrow;
pub use types::status_from_code;
pub use types::{
    EscrowAccount, Plan, Provider, Subscription, SubscriptionError, SubscriptionStatus,
    SystemConfig, WithdrawOutcome, BPS_DENOMINATOR, KEEPER_FEE_CEILING,
    LARGE_WITHDRAWAL_THRESHOLD, MAX_NAME_LEN,
};
