//! Read-only views of the ledger.  Every getter's contract ties its result
//! to the specification-level observers, and none of them mutates anything;
//! they all stay available while the system is paused.

use vstd::prelude::*;

use crate::state::{SubscriptionEscrow, CONTRACT_VERSION};
use crate::types::{Plan, Subscription};

verus! {

/// How many of the subscriptions are not in a terminal cancelled state.
pub open spec fn count_live(subs: Seq<Subscription>) -> int
    decreases subs.len(),
{
    if subs.len() == 0 {
        0
    } else {
        count_live(subs.drop_last()) + (if subs.last().status.is_cancelled() {
            0int
        } else {
            1int
        })
    }
}

impl SubscriptionEscrow {
    /// How many ids in `ids` name a subscription of this ledger that is not
    /// cancelled.
    pub open spec fn count_live_of(self, ids: Seq<u64>) -> int
        decreases ids.len(),
    {
        if ids.len() == 0 {
            0
        } else {
            self.count_live_of(ids.drop_last()) + (if self.sub_id_ok(ids.last())
                && !self.spec_subscription(ids.last()).status.is_cancelled() {
                1int
            } else {
                0int
            })
        }
    }

    /// The administrator account.
    pub fn get_admin(&self) -> (r: u64)
        ensures
            r == self.config.admin,
    {
        self.config.admin
    }

    /// Whether the system-wide pause is in effect.
    pub fn is_paused(&self) -> (r: bool)
        ensures
            r == self.config.paused,
    {
        self.config.paused
    }

    /// The protocol fee rate in basis points.
    pub fn get_protocol_fee(&self) -> (r: u64)
        ensures
            r == self.config.protocol_fee_bps,
    {
        self.config.protocol_fee_bps
    }

    /// The fees collected for the protocol and not yet paid out; one of the
    /// three terms the conservation law sums against the total value locked.
    pub fn get_protocol_fees_collected(&self) -> (r: u64)
        ensures
            r == self.total_protocol_fees,
    {
        self.total_protocol_fees
    }

    /// The engine's version.
    pub fn get_version(&self) -> (r: u64)
        ensures
            r == CONTRACT_VERSION,
    {
        CONTRACT_VERSION
    }

    /// Whether the ledger is ready for use; a constructed ledger always is.
    pub fn is_initialized(&self) -> (r: bool)
        ensures
            r,
    {
        true
    }

    /// The escrow balance of `user`; zero for an account never seen.
    pub fn get_user_balance(&self, user: u64) -> (r: u64)
        requires
            self.wf(),
        ensures
            r == self.spec_balance_of(user),
    {
        match self.find_account(user) {
            Some(i) => self.accounts[i].balance,
            None => 0,
        }
    }

    /// The withdrawable earnings of `provider`; zero when unregistered.
    pub fn get_provider_earnings(&self, provider: u64) -> (r: u64)
        requires
            self.wf(),
        ensures
            r == self.spec_earnings_of(provider),
    {
        match self.find_provider(provider) {
            Some(i) => self.providers[i].earnings_available,
            None => 0,
        }
    }

    /// Whether `provider` ever registered.
    pub fn is_provider_registered(&self, provider: u64) -> (r: bool)
        requires
            self.wf(),
        ensures
            r == self.spec_is_registered(provider),
    {
        self.find_provider(provider).is_some()
    }

    /// Whether `provider` ever registered; the catalog's other historical
    /// name for [`Self::is_provider_registered`].
    pub fn is_provider(&self, provider: u64) -> (r: bool)
        requires
            self.wf(),
        ensures
            r == self.spec_is_registered(provider),
    {
        self.is_provider_registered(provider)
    }

    /// The provider profile of `account`: id, display name, active flag,
    /// number of plans created, withdrawable earnings, lifetime earnings
    /// and not-cancelled subscriber count.  All zeros and an empty name for
    /// an account that never registered.
    pub fn get_provider_info(&self, account: u64) -> (r: (u64, String, bool, u64, u64, u64, u64))
        requires
            self.wf(),
        ensures
            self.spec_is_registered(account) ==> ({
                let p = self.spec_provider(account);
                &&& r.0 == crate::ledger::prov_idx(self.providers@, account) + 1
                &&& r.1@ == p.name@
                &&& r.2 == p.active
                &&& r.3 == p.plan_ids@.len()
                &&& r.4 == p.earnings_available
                &&& r.5 == p.earnings_lifetime
                &&& r.6 == p.active_subscriber_count
            }),
            !self.spec_is_registered(account) ==> r.0 == 0 && r.1@ == Seq::<char>::empty()
                && r.2 == false && r.3 == 0 && r.4 == 0 && r.5 == 0 && r.6 == 0,
    {
        match self.find_provider(account) {
            Some(i) => {
                let p = &self.providers[i];
                (
                    i as u64 + 1,
                    p.name.clone(),
                    p.active,
                    p.plan_ids.len() as u64,
                    p.earnings_available,
                    p.earnings_lifetime,
                    p.active_subscriber_count,
                )
            },
            None => (0, String::new(), false, 0, 0, 0, 0),
        }
    }

    /// The plan named by `plan_id`, or nothing for an unknown id.
    pub fn get_plan_info(&self, plan_id: u64) -> (r: Option<Plan>)
        ensures
            self.plan_id_ok(plan_id) ==> r == Some(self.spec_plan(plan_id)),
            !self.plan_id_ok(plan_id) ==> r is None,
    {
        if plan_id == 0 || plan_id > self.plans.len() as u64 {
            return None;
        }
        Some(self.plans[plan_id as usize - 1])
    }

    /// The subscription named by `subscription_id`, or nothing for an
    /// unknown id.
    pub fn get_subscription_info(&self, subscription_id: u64) -> (r: Option<Subscription>)
        ensures
            self.sub_id_ok(subscription_id) ==> r == Some(
                self.spec_subscription(subscription_id),
            ),
            !self.sub_id_ok(subscription_id) ==> r is None,
    {
        if subscription_id == 0 || subscription_id > self.subscriptions.len() as u64 {
            return None;
        }
        Some(self.subscriptions[subscription_id as usize - 1])
    }

    /// The escrow profile of `user`: balance, lifetime deposits, lifetime
    /// spending and the number of subscriptions ever created.  All zeros
    /// for an account never seen.
    pub fn get_user_info(&self, user: u64) -> (r: (u64, u64, u64, u64))
        requires
            self.wf(),
        ensures
            r.0 == self.spec_balance_of(user),
            r.1 == self.spec_total_deposited_of(user),
            r.2 == self.spec_total_spent_of(user),
            r.3 == self.spec_subs_of(user).len(),
    {
        match self.find_account(user) {
            Some(i) => {
                let a = &self.accounts[i];
                (a.balance, a.total_deposited, a.total_spent, a.subscription_ids.len() as u64)
            },
            None => (0, 0, 0, 0),
        }
    }

    /// The id of the `index`-th subscription `user` created, or zero when
    /// the index is out of range.
    pub fn get_user_subscription(&self, user: u64, index: u64) -> (r: u64)
        requires
            self.wf(),
        ensures
            index < self.spec_subs_of(user).len() ==> r == self.spec_subs_of(user)[index as int],
            index >= self.spec_subs_of(user).len() ==> r == 0,
    {
        match self.find_account(user) {
            Some(i) => {
                let a = &self.accounts[i];
                if index < a.subscription_ids.len() as u64 {
                    a.subscription_ids[index as usize]
                } else {
                    0
                }
            },
            None => 0,
        }
    }

    /// The id of the `index`-th plan `provider` created, or zero when the
    /// index is out of range.
    pub fn get_provider_plan(&self, provider: u64, index: u64) -> (r: u64)
        requires
            self.wf(),
        ensures
            self.spec_is_registered(provider) && index < self.spec_provider(
                provider,
            ).plan_ids@.len() ==> r == self.spec_provider(provider).plan_ids@[index as int],
            !(self.spec_is_registered(provider) && index < self.spec_provider(
                provider,
            ).plan_ids@.len()) ==> r == 0,
    {
        match self.find_provider(provider) {
            Some(i) => {
                let p = &self.providers[i];
                if index < p.plan_ids.len() as u64 {
                    p.plan_ids[index as usize]
                } else {
                    0
                }
            },
            None => 0,
        }
    }

    /// The ids the next registration, plan and subscription will be issued.
    pub fn get_next_ids(&self) -> (r: (u64, u64, u64))
        requires
            self.wf(),
        ensures
            r.0 == self.providers@.len() + 1,
            r.1 == self.plans@.len() + 1,
            r.2 == self.subscriptions@.len() + 1,
    {
        (
            self.providers.len() as u64 + 1,
            self.plans.len() as u64 + 1,
            self.subscriptions.len() as u64 + 1,
        )
    }

    /// How many plans have ever been created.
    pub fn get_total_plans(&self) -> (r: u64)
        requires
            self.wf(),
        ensures
            r == self.plans@.len(),
    {
        self.plans.len() as u64
    }

    /// How many subscriptions have ever been created.
    pub fn get_total_subscriptions(&self) -> (r: u64)
        requires
            self.wf(),
        ensures
            r == self.subscriptions@.len(),
    {
        self.subscriptions.len() as u64
    }

    /// Platform statistics: total value locked, lifetime revenue processed,
    /// subscriptions ever created, subscriptions not cancelled, providers
    /// registered and plans created.
    pub fn get_platform_stats(&self) -> (r: (u64, u64, u64, u64, u64, u64))
        requires
            self.wf(),
        ensures
            r.0 == self.total_value_locked,
            r.1 == self.total_revenue_processed,
            r.2 == self.subscriptions@.len(),
            r.3 == count_live(self.subscriptions@),
            r.4 == self.providers@.len(),
            r.5 == self.plans@.len(),
    {
        let n = self.subscriptions.len();
        let mut live: u64 = 0;
        let mut k: usize = 0;
        while k < n
            invariant
                k <= n,
                n == self.subscriptions@.len(),
                n <= u64::MAX,
                live == count_live(self.subscriptions@.take(k as int)),
                live <= k,
            decreases n - k,
        {
            let cancelled = match self.subscriptions[k].status {
                crate::types::SubscriptionStatus::Active => false,
                crate::types::SubscriptionStatus::PastDue => false,
                _ => true,
            };
            proof {
                assert(self.subscriptions@.take(k as int + 1).drop_last() =~= self
                    .subscriptions@.take(k as int));
                assert(self.subscriptions@.take(k as int + 1).last()
                    == self.subscriptions@[k as int]);
            }
            if !cancelled {
                live = live + 1;
            }
            k = k + 1;
        }
        proof {
            assert(self.subscriptions@.take(n as int) =~= self.subscriptions@);
        }
        (
            self.total_value_locked,
            self.total_revenue_processed,
            n as u64,
            live,
            self.providers.len() as u64,
            self.plans.len() as u64,
        )
    }

    /// Ledger statistics in the compact historical shape: total value
    /// locked and the next plan and subscription ids.
    pub fn get_stats(&self) -> (r: (u64, u64, u64))
        requires
            self.wf(),
        ensures
            r.0 == self.total_value_locked,
            r.1 == self.plans@.len() + 1,
            r.2 == self.subscriptions@.len() + 1,
    {
        (
            self.total_value_locked,
            self.plans.len() as u64 + 1,
            self.subscriptions.len() as u64 + 1,
        )
    }

    /// The system configuration: admin, emergency admin, keeper, pause
    /// flag, keeper fee rate, the fee clamp bounds and the grace period.
    pub fn get_system_config(&self) -> (r: (u64, u64, u64, bool, u64, u64, u64, u64))
        ensures
            r == (
                self.config.admin,
                self.config.emergency_admin,
                self.config.keeper,
                self.config.paused,
                self.config.keeper_fee_bps,
                self.config.min_keeper_fee,
                self.config.max_keeper_fee,
                self.config.grace_period_seconds,
            ),
    {
        (
            self.config.admin,
            self.config.emergency_admin,
            self.config.keeper,
            self.config.paused,
            self.config.keeper_fee_bps,
            self.config.min_keeper_fee,
            self.config.max_keeper_fee,
            self.config.grace_period_seconds,
        )
    }

    /// How many of the subscriptions `user` created are not cancelled.
    pub fn get_user_subscription_count(&self, user: u64) -> (r: u64)
        requires
            self.wf(),
        ensures
            r == self.count_live_of(self.spec_subs_of(user)),
    {
        let ids = match self.find_account(user) {
            Some(i) => &self.accounts[i].subscription_ids,
            None => {
                proof {
                    assert(self.count_live_of(Seq::<u64>::empty()) == 0);
                }
                return 0;
            },
        };
        let n = ids.len();
        let mut live: u64 = 0;
        let mut k: usize = 0;
        while k < n
            invariant
                k <= n,
                n == ids@.len(),
                self.wf(),
                ids@ == self.spec_subs_of(user),
                live == self.count_live_of(ids@.take(k as int)),
                live <= k,
            decreases n - k,
        {
            let id = ids[k];
            proof {
                assert(ids@.take(k as int + 1).drop_last() =~= ids@.take(k as int));
                assert(ids@.take(k as int + 1).last() == ids@[k as int]);
            }
            if id >= 1 && id <= self.subscriptions.len() as u64 {
                let cancelled = match self.subscriptions[id as usize - 1].status {
                    crate::types::SubscriptionStatus::Active => false,
                    crate::types::SubscriptionStatus::PastDue => false,
                    _ => true,
                };
                if !cancelled {
                    live = live + 1;
                }
            }
            k = k + 1;
        }
        proof {
            assert(ids@.take(n as int) =~= ids@);
        }
        live
    }
}

} // verus!
