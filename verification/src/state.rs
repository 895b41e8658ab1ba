//! The engine: one value holding the whole ledger.
//!
//! Every operation of the library is a method on [`SubscriptionEscrow`].
//! The hosting environment owns exactly one such value, passes the caller's
//! account, the current time and any attached payment into each call, and
//! performs the native transfers the library asks for, reporting their
//! outcome back to the matching finish call.
//!
//! The well-formedness predicate [`SubscriptionEscrow::wf`] carries the
//! conservation law: the sum of all escrow balances plus the sum of all
//! withdrawable provider earnings plus the collected protocol fees equals
//! the total value locked.  Every operation requires and preserves it.

use vstd::prelude::*;

use crate::ledger::{
    accts_distinct, acct_idx, lemma_acct_idx, lemma_acct_idx_push, lemma_acct_idx_unique,
    lemma_prov_idx, lemma_prov_idx_unique, lemma_sum_balances_push, prov_idx, provs_distinct,
    sum_balances, sum_earnings,
};
use crate::types::{EscrowAccount, Plan, Provider, Subscription, SystemConfig};

verus! {

/// Default keeper fee rate: 1%.
pub const DEFAULT_KEEPER_FEE_BPS: u64 = 100;

/// Default lower keeper fee clamp bound.
pub const DEFAULT_MIN_KEEPER_FEE: u64 = 1_000_000_000_000_000;

/// Default upper keeper fee clamp bound.
pub const DEFAULT_MAX_KEEPER_FEE: u64 = 10_000_000_000_000_000;

/// Default protocol fee rate: none.
pub const DEFAULT_PROTOCOL_FEE_BPS: u64 = 0;

/// Default grace period: one day.
pub const DEFAULT_GRACE_PERIOD: u64 = 86_400;

/// Default upper bound on a plan's price.
pub const DEFAULT_MAX_PLAN_PRICE: u64 = 1_000_000_000_000_000_000;

/// Default lower bound on a plan's interval: one hour.
pub const DEFAULT_MIN_PLAN_INTERVAL: u64 = 3_600;

/// Default upper bound on a plan's interval: one year.
pub const DEFAULT_MAX_PLAN_INTERVAL: u64 = 31_536_000;

/// Version reported by [`SubscriptionEscrow::get_version`].
pub const CONTRACT_VERSION: u64 = 1;

impl Plan {
    /// Structural bounds every stored plan satisfies, against the provider
    /// table's size.
    pub open spec fn wf_in(self, n_providers: int) -> bool {
        &&& 1 <= self.provider_id <= n_providers
        &&& self.price >= 1
        &&& self.interval_seconds >= 1
    }
}

impl Subscription {
    /// Structural bounds every stored subscription satisfies, against the
    /// plan table's size.
    pub open spec fn wf_in(self, n_plans: int) -> bool {
        &&& 1 <= self.plan_id <= n_plans
        &&& self.grace_deadline != 0 ==> self.status == crate::types::SubscriptionStatus::PastDue
        &&& self.payment_count >= 1
    }
}

/// The whole ledger: configuration, the four entity tables and the global
/// counters.  Ids are positions plus one, so they are issued sequentially
/// from 1, strictly increasing, and never reused.
#[verifier::ext_equal]
pub struct SubscriptionEscrow {
    /// System-wide parameters; mutated only through the admin operations.
    pub config: SystemConfig,
    /// Provider records; id `i` lives at position `i - 1` and is never
    /// deleted.
    pub providers: Vec<Provider>,
    /// Plan records; id `i` lives at position `i - 1` and is never deleted.
    pub plans: Vec<Plan>,
    /// Subscription records; id `i` lives at position `i - 1` and is never
    /// deleted.
    pub subscriptions: Vec<Subscription>,
    /// Escrow records, one per account that ever deposited, with distinct
    /// owners.
    pub accounts: Vec<EscrowAccount>,
    /// All native currency currently held: escrow balances, withdrawable
    /// earnings and collected fees.  Increases on deposits, decreases on
    /// completed withdrawals and payouts.
    pub total_value_locked: u64,
    /// Fees collected for the protocol; part of the conservation law.
    pub total_protocol_fees: u64,
    /// Lifetime revenue ever charged through subscriptions; statistic only.
    pub total_revenue_processed: u64,
}

impl SubscriptionEscrow {
    /// Well-formedness: a sane configuration, unique owners in the two
    /// owner-keyed tables, ids in every cross-reference, and the
    /// conservation law.
    pub open spec fn wf(self) -> bool {
        &&& self.config.wf()
        &&& self.providers@.len() + 1 <= u64::MAX
        &&& self.plans@.len() + 1 <= u64::MAX
        &&& self.subscriptions@.len() + 1 <= u64::MAX
        &&& accts_distinct(self.accounts@)
        &&& provs_distinct(self.providers@)
        &&& forall|i: int|
            0 <= i < self.plans@.len() ==> (#[trigger] self.plans@[i]).wf_in(
                self.providers@.len() as int,
            )
        &&& forall|i: int|
            0 <= i < self.subscriptions@.len() ==> (#[trigger] self.subscriptions@[i]).wf_in(
                self.plans@.len() as int,
            )
        &&& sum_balances(self.accounts@) + sum_earnings(self.providers@)
            + self.total_protocol_fees == self.total_value_locked
    }

    /// Whether `owner` has an escrow record.
    pub open spec fn spec_has_account(self, owner: u64) -> bool {
        acct_idx(self.accounts@, owner) >= 0
    }

    /// The escrow record of `owner`; meaningful only when it exists.
    pub open spec fn spec_account(self, owner: u64) -> EscrowAccount {
        self.accounts@[acct_idx(self.accounts@, owner)]
    }

    /// The escrow balance of `owner`; `0` for an account never seen.
    pub open spec fn spec_balance_of(self, owner: u64) -> u64 {
        if self.spec_has_account(owner) {
            self.spec_account(owner).balance
        } else {
            0
        }
    }

    /// The pending large-withdrawal request time of `owner`; `0` when none.
    pub open spec fn spec_withdrawal_request_of(self, owner: u64) -> u64 {
        if self.spec_has_account(owner) {
            self.spec_account(owner).withdrawal_request_time
        } else {
            0
        }
    }

    /// The lifetime deposits of `owner`; `0` for an account never seen.
    pub open spec fn spec_total_deposited_of(self, owner: u64) -> u64 {
        if self.spec_has_account(owner) {
            self.spec_account(owner).total_deposited
        } else {
            0
        }
    }

    /// The lifetime spending of `owner`; `0` for an account never seen.
    pub open spec fn spec_total_spent_of(self, owner: u64) -> u64 {
        if self.spec_has_account(owner) {
            self.spec_account(owner).total_spent
        } else {
            0
        }
    }

    /// The subscription ids `owner` created, in creation order.
    pub open spec fn spec_subs_of(self, owner: u64) -> Seq<u64> {
        if self.spec_has_account(owner) {
            self.spec_account(owner).subscription_ids@
        } else {
            Seq::<u64>::empty()
        }
    }

    /// Whether `owner` ever registered as a provider.
    pub open spec fn spec_is_registered(self, owner: u64) -> bool {
        prov_idx(self.providers@, owner) >= 0
    }

    /// The provider record owned by `owner`; meaningful only when
    /// registered.
    pub open spec fn spec_provider(self, owner: u64) -> Provider {
        self.providers@[prov_idx(self.providers@, owner)]
    }

    /// The withdrawable earnings of `owner`; `0` for an unregistered
    /// account.
    pub open spec fn spec_earnings_of(self, owner: u64) -> u64 {
        if self.spec_is_registered(owner) {
            self.spec_provider(owner).earnings_available
        } else {
            0
        }
    }

    /// Whether `id` names a plan.
    pub open spec fn plan_id_ok(self, id: u64) -> bool {
        1 <= id <= self.plans@.len()
    }

    /// The plan named by `id`; meaningful only when `id` is in range.
    pub open spec fn spec_plan(self, id: u64) -> Plan {
        self.plans@[id as int - 1]
    }

    /// Whether `id` names a subscription.
    pub open spec fn sub_id_ok(self, id: u64) -> bool {
        1 <= id <= self.subscriptions@.len()
    }

    /// The subscription named by `id`; meaningful only when `id` is in
    /// range.
    pub open spec fn spec_subscription(self, id: u64) -> Subscription {
        self.subscriptions@[id as int - 1]
    }

    /// Every escrow record but `owner`'s reads the same in `post`.
    pub open spec fn same_accounts_except(self, post: Self, owner: u64) -> bool {
        &&& forall|o: u64|
            o != owner ==> #[trigger] post.spec_has_account(o) == self.spec_has_account(o)
        &&& forall|o: u64|
            o != owner && self.spec_has_account(o) ==> #[trigger] post.spec_account(o)
                == self.spec_account(o)
    }

    /// Every provider record but `owner`'s reads the same in `post`.
    pub open spec fn same_providers_except(self, post: Self, owner: u64) -> bool {
        &&& forall|o: u64|
            o != owner ==> #[trigger] post.spec_is_registered(o) == self.spec_is_registered(o)
        &&& forall|o: u64|
            o != owner && self.spec_is_registered(o) ==> #[trigger] post.spec_provider(o)
                == self.spec_provider(o)
    }

    /// A fresh ledger with the given administrators and the default
    /// parameters.  Every table starts empty and nothing is locked.
    pub fn new(admin: u64, emergency_admin: u64) -> (r: SubscriptionEscrow)
        requires
            admin != 0,
        ensures
            r.wf(),
            r.config == (SystemConfig {
                admin,
                emergency_admin,
                paused: false,
                keeper: 0,
                keeper_fee_bps: DEFAULT_KEEPER_FEE_BPS,
                min_keeper_fee: DEFAULT_MIN_KEEPER_FEE,
                max_keeper_fee: DEFAULT_MAX_KEEPER_FEE,
                grace_period_seconds: DEFAULT_GRACE_PERIOD,
                protocol_fee_bps: DEFAULT_PROTOCOL_FEE_BPS,
                max_plan_price: DEFAULT_MAX_PLAN_PRICE,
                min_plan_interval: DEFAULT_MIN_PLAN_INTERVAL,
                max_plan_interval: DEFAULT_MAX_PLAN_INTERVAL,
                withdrawal_delay_seconds: 0,
            }),
            r.providers@.len() == 0,
            r.plans@.len() == 0,
            r.subscriptions@.len() == 0,
            r.accounts@.len() == 0,
            r.total_value_locked == 0,
            r.total_protocol_fees == 0,
            r.total_revenue_processed == 0,
    {
        SubscriptionEscrow {
            config: SystemConfig {
                admin,
                emergency_admin,
                paused: false,
                keeper: 0,
                keeper_fee_bps: DEFAULT_KEEPER_FEE_BPS,
                min_keeper_fee: DEFAULT_MIN_KEEPER_FEE,
                max_keeper_fee: DEFAULT_MAX_KEEPER_FEE,
                grace_period_seconds: DEFAULT_GRACE_PERIOD,
                protocol_fee_bps: DEFAULT_PROTOCOL_FEE_BPS,
                max_plan_price: DEFAULT_MAX_PLAN_PRICE,
                min_plan_interval: DEFAULT_MIN_PLAN_INTERVAL,
                max_plan_interval: DEFAULT_MAX_PLAN_INTERVAL,
                withdrawal_delay_seconds: 0,
            },
            providers: Vec::new(),
            plans: Vec::new(),
            subscriptions: Vec::new(),
            accounts: Vec::new(),
            total_value_locked: 0,
            total_protocol_fees: 0,
            total_revenue_processed: 0,
        }
    }

    /// A placeholder record swapped into a table slot while the real record
    /// is edited; its value is never observed.
    pub(crate) fn blank_account() -> EscrowAccount {
        EscrowAccount {
            owner: 0,
            balance: 0,
            total_deposited: 0,
            total_spent: 0,
            withdrawal_request_time: 0,
            subscription_ids: Vec::new(),
        }
    }

    /// A placeholder provider record; see [`Self::blank_account`].
    pub(crate) fn blank_provider() -> Provider {
        Provider {
            owner: 0,
            name: String::new(),
            active: false,
            earnings_available: 0,
            earnings_lifetime: 0,
            active_subscriber_count: 0,
            plan_ids: Vec::new(),
        }
    }

    /// Position of `owner`'s escrow record, if any.
    pub(crate) fn find_account(&self, owner: u64) -> (r: Option<usize>)
        requires
            accts_distinct(self.accounts@),
        ensures
            match r {
                Some(i) => i < self.accounts@.len() && i == acct_idx(self.accounts@, owner)
                    && self.accounts@[i as int].owner == owner,
                None => !self.spec_has_account(owner),
            },
    {
        let n = self.accounts.len();
        let mut i: usize = 0;
        while i < n
            invariant
                i <= n,
                n == self.accounts@.len(),
                accts_distinct(self.accounts@),
                forall|k: int| 0 <= k < i ==> self.accounts@[k].owner != owner,
            decreases n - i,
        {
            if self.accounts[i].owner == owner {
                proof {
                    lemma_acct_idx_unique(self.accounts@, owner, i as int);
                }
                return Some(i);
            }
            i = i + 1;
        }
        proof {
            lemma_acct_idx(self.accounts@, owner);
        }
        None
    }

    /// Position of `owner`'s provider record, if any.
    pub(crate) fn find_provider(&self, owner: u64) -> (r: Option<usize>)
        requires
            provs_distinct(self.providers@),
        ensures
            match r {
                Some(i) => i < self.providers@.len() && i == prov_idx(self.providers@, owner)
                    && self.providers@[i as int].owner == owner,
                None => !self.spec_is_registered(owner),
            },
    {
        let n = self.providers.len();
        let mut i: usize = 0;
        while i < n
            invariant
                i <= n,
                n == self.providers@.len(),
                provs_distinct(self.providers@),
                forall|k: int| 0 <= k < i ==> self.providers@[k].owner != owner,
            decreases n - i,
        {
            if self.providers[i].owner == owner {
                proof {
                    lemma_prov_idx_unique(self.providers@, owner, i as int);
                }
                return Some(i);
            }
            i = i + 1;
        }
        proof {
            lemma_prov_idx(self.providers@, owner);
        }
        None
    }

    /// Position of `owner`'s escrow record, creating an empty one when none
    /// exists.  Leaves every balance, every other table and every counter
    /// unchanged.
    pub(crate) fn ensure_account(&mut self, owner: u64) -> (i: usize)
        requires
            accts_distinct(old(self).accounts@),
        ensures
            accts_distinct(final(self).accounts@),
            i < final(self).accounts@.len(),
            i == acct_idx(final(self).accounts@, owner),
            final(self).accounts@[i as int].owner == owner,
            old(self).spec_has_account(owner) ==> *final(self) == *old(self),
            !old(self).spec_has_account(owner) ==> {
                &&& i == old(self).accounts@.len()
                &&& final(self).accounts@.len() == old(self).accounts@.len() + 1
                &&& final(self).accounts@ =~= old(self).accounts@.push(
                    final(self).accounts@.last(),
                )
                &&& final(self).accounts@.last().balance == 0
                &&& final(self).accounts@.last().total_deposited == 0
                &&& final(self).accounts@.last().total_spent == 0
                &&& final(self).accounts@.last().withdrawal_request_time == 0
                &&& final(self).accounts@.last().subscription_ids@ == Seq::<u64>::empty()
            },
            forall|o: u64|
                o != owner ==> acct_idx(final(self).accounts@, o) == acct_idx(
                    old(self).accounts@,
                    o,
                ),
            forall|k: int|
                0 <= k < old(self).accounts@.len() ==> final(self).accounts@[k] == old(
                    self,
                ).accounts@[k],
            sum_balances(final(self).accounts@) == sum_balances(old(self).accounts@),
            final(self).config == old(self).config,
            final(self).providers == old(self).providers,
            final(self).plans == old(self).plans,
            final(self).subscriptions == old(self).subscriptions,
            final(self).total_value_locked == old(self).total_value_locked,
            final(self).total_protocol_fees == old(self).total_protocol_fees,
            final(self).total_revenue_processed == old(self).total_revenue_processed,
    {
        match self.find_account(owner) {
            Some(i) => i,
            None => {
                let i = self.accounts.len();
                let fresh = EscrowAccount {
                    owner,
                    balance: 0,
                    total_deposited: 0,
                    total_spent: 0,
                    withdrawal_request_time: 0,
                    subscription_ids: Vec::new(),
                };
                proof {
                    lemma_acct_idx(self.accounts@, owner);
                    lemma_sum_balances_push(self.accounts@, fresh);
                    assert forall|o: u64| true implies acct_idx(
                        self.accounts@.push(fresh),
                        o,
                    ) == if o == owner {
                        self.accounts@.len() as int
                    } else {
                        acct_idx(self.accounts@, o)
                    } by {
                        lemma_acct_idx_push(self.accounts@, fresh, o);
                    }
                }
                self.accounts.push(fresh);
                proof {
                    assert(accts_distinct(self.accounts@)) by {
                        assert(forall|k: int|
                            0 <= k < self.accounts@.len() - 1 ==> self.accounts@[k].owner
                                != owner);
                    }
                }
                i
            },
        }
    }
}

/// What replacing one escrow record by another of the same owner does to the
/// observers: that owner now reads the new record, every other owner reads
/// as before, owners stay distinct, and the balance sum moves by the
/// difference.
pub(crate) proof fn lemma_account_update_frame(
    pre: SubscriptionEscrow,
    post: SubscriptionEscrow,
    i: int,
    v: EscrowAccount,
)
    requires
        accts_distinct(pre.accounts@),
        0 <= i < pre.accounts@.len(),
        v.owner == pre.accounts@[i].owner,
        post.accounts@ == pre.accounts@.update(i, v),
    ensures
        accts_distinct(post.accounts@),
        acct_idx(pre.accounts@, v.owner) == i,
        acct_idx(post.accounts@, v.owner) == i,
        post.spec_has_account(v.owner),
        post.spec_account(v.owner) == v,
        pre.same_accounts_except(post, v.owner),
        sum_balances(post.accounts@) == sum_balances(pre.accounts@) - pre.accounts@[i].balance
            + v.balance,
{
    crate::ledger::lemma_sum_balances_update(pre.accounts@, i, v);
    lemma_acct_idx_unique(pre.accounts@, v.owner, i);
    assert forall|o: u64| true implies acct_idx(post.accounts@, o) == acct_idx(
        pre.accounts@,
        o,
    ) by {
        crate::ledger::lemma_acct_idx_update(pre.accounts@, i, v, o);
    }
    assert forall|o: u64| o != v.owner && pre.spec_has_account(o) implies post.spec_account(o)
        == pre.spec_account(o) by {
        lemma_acct_idx(pre.accounts@, o);
    }
}

/// The account observers read only the account table, so the frame
/// established at an intermediate state carries over to any later state
/// with the same table.
pub(crate) proof fn lemma_same_accounts_transfer(
    pre: SubscriptionEscrow,
    a: SubscriptionEscrow,
    b: SubscriptionEscrow,
    owner: u64,
)
    requires
        pre.same_accounts_except(a, owner),
        b.accounts@ == a.accounts@,
    ensures
        pre.same_accounts_except(b, owner),
{
    assert forall|o: u64| o != owner implies #[trigger] b.spec_has_account(o)
        == pre.spec_has_account(o) by {
        assert(a.spec_has_account(o) == pre.spec_has_account(o));
    }
    assert forall|o: u64| o != owner && pre.spec_has_account(o) implies #[trigger] b.spec_account(
        o,
    ) == pre.spec_account(o) by {
        assert(a.spec_account(o) == pre.spec_account(o));
    }
}

/// What registering a fresh provider does to the observers: the new owner
/// reads the pushed record, every other owner reads as before, owners stay
/// distinct, and the earnings sum grows by the record's earnings.
pub(crate) proof fn lemma_provider_push_frame(
    pre: SubscriptionEscrow,
    post: SubscriptionEscrow,
    p: Provider,
)
    requires
        provs_distinct(pre.providers@),
        !pre.spec_is_registered(p.owner),
        post.providers@ == pre.providers@.push(p),
    ensures
        provs_distinct(post.providers@),
        prov_idx(post.providers@, p.owner) == pre.providers@.len(),
        post.spec_is_registered(p.owner),
        post.spec_provider(p.owner) == p,
        pre.same_providers_except(post, p.owner),
        sum_earnings(post.providers@) == sum_earnings(pre.providers@) + p.earnings_available,
{
    lemma_prov_idx(pre.providers@, p.owner);
    crate::ledger::lemma_sum_earnings_push(pre.providers@, p);
    assert forall|o: u64| true implies prov_idx(post.providers@, o) == (if o == p.owner {
        pre.providers@.len() as int
    } else {
        prov_idx(pre.providers@, o)
    }) by {
        crate::ledger::lemma_prov_idx_push(pre.providers@, p, o);
    }
    assert(provs_distinct(post.providers@)) by {
        assert(forall|k: int|
            0 <= k < pre.providers@.len() ==> pre.providers@[k].owner != p.owner);
    }
    assert forall|o: u64| o != p.owner && pre.spec_is_registered(o) implies post.spec_provider(o)
        == pre.spec_provider(o) by {
        lemma_prov_idx(pre.providers@, o);
    }
}

/// The provider-table counterpart of [`lemma_account_update_frame`].
pub(crate) proof fn lemma_provider_update_frame(
    pre: SubscriptionEscrow,
    post: SubscriptionEscrow,
    i: int,
    v: Provider,
)
    requires
        provs_distinct(pre.providers@),
        0 <= i < pre.providers@.len(),
        v.owner == pre.providers@[i].owner,
        post.providers@ == pre.providers@.update(i, v),
    ensures
        provs_distinct(post.providers@),
        prov_idx(pre.providers@, v.owner) == i,
        prov_idx(post.providers@, v.owner) == i,
        post.spec_is_registered(v.owner),
        post.spec_provider(v.owner) == v,
        pre.same_providers_except(post, v.owner),
        sum_earnings(post.providers@) == sum_earnings(pre.providers@)
            - pre.providers@[i].earnings_available + v.earnings_available,
{
    crate::ledger::lemma_sum_earnings_update(pre.providers@, i, v);
    lemma_prov_idx_unique(pre.providers@, v.owner, i);
    assert forall|o: u64| true implies prov_idx(post.providers@, o) == prov_idx(
        pre.providers@,
        o,
    ) by {
        crate::ledger::lemma_prov_idx_update(pre.providers@, i, v, o);
    }
    assert forall|o: u64| o != v.owner && pre.spec_is_registered(o) implies post.spec_provider(o)
        == pre.spec_provider(o) by {
        lemma_prov_idx(pre.providers@, o);
    }
}

} // verus!
