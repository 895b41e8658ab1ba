//! The library's global guarantees, stated once and proved from the
//! operations' contracts: conservation of money, monotonic id issue, the
//! due-time idempotency gate, the keeper fee clamp, and exact rollback of a
//! withdrawal whose transfer failed.

use vstd::prelude::*;

use crate::fees::{keeper_fee_of, protocol_fee_of};
use crate::ledger::{
    accts_distinct, acct_idx, lemma_acct_idx, lemma_acct_idx_update, lemma_prov_idx,
    lemma_prov_idx_update, prov_idx, provs_distinct, sum_balances, sum_earnings,
};
use crate::state::SubscriptionEscrow;
use crate::types::{EscrowAccount, Provider, SystemConfig};

verus! {

/// Conservation: in every well-formed ledger the money is exactly accounted
/// for — the sum of all escrow balances plus the sum of all withdrawable
/// provider earnings plus the collected protocol fees equals the total value
/// locked.  Every operation of this library requires a well-formed ledger
/// and ensures one again, so for any sequence of operations the equation
/// holds after each step.
pub proof fn lemma_conservation(s: SubscriptionEscrow)
    requires
        s.wf(),
    ensures
        sum_balances(s.accounts@) + sum_earnings(s.providers@) + s.total_protocol_fees
            == s.total_value_locked,
{
}

/// Monotonic ids: each id-issuing operation returns one more than the count
/// of records already in its table and appends exactly one record, and no
/// operation ever removes a record.  So if one issue finds `n0` records and
/// a later issue finds `n1` records, the second id is strictly larger than
/// the first: ids come out strictly increasing and are never reused.
pub proof fn lemma_issued_ids_monotonic(n0: int, n1: int, id1: int, id2: int)
    requires
        id1 == n0 + 1,
        n1 >= n0 + 1,
        id2 == n1 + 1,
    ensures
        id2 > id1,
{
}

/// Due gating: right after a successful charge at `now`, the subscription's
/// last payment time is `now` and its plan's interval is at least one
/// second, so another charge at the same instant is not due —
/// `process_subscription_payment` then fails with `InvalidInput` and
/// mutates nothing.  However often the call is repeated, at most one charge
/// goes through per elapsed interval.
pub proof fn lemma_not_due_after_charge(s: SubscriptionEscrow, id: u64, now: u64)
    requires
        s.wf(),
        s.sub_id_ok(id),
        s.spec_subscription(id).last_payment_time == now,
    ensures
        !s.payment_due(id, now),
{
    assert(s.subscriptions@[id as int - 1].wf_in(s.plans@.len() as int));
    assert(s.plans@[s.spec_subscription(id).plan_id as int - 1].wf_in(
        s.providers@.len() as int,
    ));
}

/// A due charge strictly advances the subscription's clock: whenever a
/// charge is due at `now`, `now` lies strictly beyond the recorded last
/// payment time, so the `last_payment_time = now` update of a successful
/// charge is strictly increasing — the recorded time never moves backwards.
pub proof fn lemma_last_payment_time_advances(s: SubscriptionEscrow, id: u64, now: u64)
    requires
        s.wf(),
        s.payment_due(id, now),
    ensures
        now > s.spec_subscription(id).last_payment_time,
{
    assert(s.subscriptions@[id as int - 1].wf_in(s.plans@.len() as int));
    assert(s.plans@[s.spec_subscription(id).plan_id as int - 1].wf_in(
        s.providers@.len() as int,
    ));
}

/// Fee clamp: the rated keeper fee is clamped into the configured band.
/// Whenever the band itself fits under the price and under what the
/// protocol fee leaves — so that neither price cap bites — the fee charged
/// lies between the configured minimum and maximum, whatever the rate would
/// have yielded.
pub proof fn lemma_keeper_fee_clamped(price: u64, cfg: SystemConfig)
    requires
        cfg.wf(),
        cfg.max_keeper_fee <= price - protocol_fee_of(price, cfg.protocol_fee_bps),
    ensures
        cfg.min_keeper_fee <= keeper_fee_of(price, cfg) <= cfg.max_keeper_fee,
{
    crate::fees::lemma_protocol_fee_bounds(price, cfg.protocol_fee_bps);
}

/// Rollback on transfer failure, escrow side: a withdrawal debit (what
/// `withdraw_funds` did before the host attempted the transfer) followed by
/// the failure restore (what `withdraw_funds_finish` does when the transfer
/// failed) returns the ledger to exactly its state before the withdrawal:
/// the account table holds record for record what it held, and every other
/// field — the total value locked included — is what it was.
pub proof fn lemma_withdraw_rollback(
    pre: SubscriptionEscrow,
    mid: SubscriptionEscrow,
    post: SubscriptionEscrow,
    caller: u64,
    amount: u64,
)
    requires
        accts_distinct(pre.accounts@),
        SubscriptionEscrow::debit_balance_rel(pre, mid, caller, amount),
        SubscriptionEscrow::credit_balance_rel(mid, post, caller, amount),
    ensures
        post.accounts@ == pre.accounts@,
        post.providers == pre.providers,
        post.plans == pre.plans,
        post.subscriptions == pre.subscriptions,
        post.config == pre.config,
        post.total_value_locked == pre.total_value_locked,
        post.total_protocol_fees == pre.total_protocol_fees,
        post.total_revenue_processed == pre.total_revenue_processed,
{
    let i = acct_idx(pre.accounts@, caller);
    lemma_acct_idx(pre.accounts@, caller);
    let v1 = EscrowAccount {
        balance: (pre.accounts@[i].balance - amount) as u64,
        ..pre.accounts@[i]
    };
    lemma_acct_idx_update(pre.accounts@, i, v1, caller);
    assert(acct_idx(mid.accounts@, caller) == i);
    assert(mid.accounts@[i] == v1);
    let v2 = EscrowAccount { balance: (v1.balance + amount) as u64, ..v1 };
    assert(post.accounts@ == mid.accounts@.update(i, v2));
    assert(v2 =~= pre.accounts@[i]);
    assert(post.accounts@ =~= pre.accounts@);
}

/// Rollback on transfer failure, earnings side: the same exact-restore
/// guarantee for `withdraw_earnings` and `withdraw_earnings_finish`.
pub proof fn lemma_withdraw_earnings_rollback(
    pre: SubscriptionEscrow,
    mid: SubscriptionEscrow,
    post: SubscriptionEscrow,
    caller: u64,
    amount: u64,
)
    requires
        provs_distinct(pre.providers@),
        SubscriptionEscrow::debit_earnings_rel(pre, mid, caller, amount),
        SubscriptionEscrow::credit_earnings_rel(mid, post, caller, amount),
    ensures
        post.providers@ == pre.providers@,
        post.accounts == pre.accounts,
        post.plans == pre.plans,
        post.subscriptions == pre.subscriptions,
        post.config == pre.config,
        post.total_value_locked == pre.total_value_locked,
        post.total_protocol_fees == pre.total_protocol_fees,
        post.total_revenue_processed == pre.total_revenue_processed,
{
    let i = prov_idx(pre.providers@, caller);
    lemma_prov_idx(pre.providers@, caller);
    let v1 = Provider {
        earnings_available: (pre.providers@[i].earnings_available - amount) as u64,
        ..pre.providers@[i]
    };
    lemma_prov_idx_update(pre.providers@, i, v1, caller);
    assert(prov_idx(mid.providers@, caller) == i);
    assert(mid.providers@[i] == v1);
    let v2 = Provider { earnings_available: (v1.earnings_available + amount) as u64, ..v1 };
    assert(post.providers@ == mid.providers@.update(i, v2));
    assert(v2 =~= pre.providers@[i]);
    assert(post.providers@ =~= pre.providers@);
}

} // verus!
