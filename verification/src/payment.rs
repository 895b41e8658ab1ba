//! The payment processor: subscribing (which charges the first period) and
//! the recurring due-payment algorithm with its fee split.
//!
//! A charge debits the subscriber's escrow balance by the plan's price and
//! splits it into the protocol fee, the keeper fee (only when the keeper
//! triggered the charge) and the provider amount.  The due-time gate is the
//! sole idempotency guard: a call before `lastPaymentTime + interval` is an
//! error that mutates nothing, so untrusted repeated calls can never double
//! charge.  A keeper fee is parked with the collected protocol fees until
//! [`SubscriptionEscrow::settle_keeper_payout`] reports the payout's
//! outcome; a payout that fails stays there as a lost fee, and the payment
//! itself remains settled so the subscriber is never re-charged.

use vstd::prelude::*;
use vstd::pervasive::VecAdditionalExecFns;

use crate::fees::{
    keeper_fee_for, keeper_fee_of, lemma_fee_split_covered, lemma_protocol_fee_bounds,
    protocol_fee_for, protocol_fee_of,
};
use crate::ledger::{
    lemma_acct_idx, lemma_sum_balances_element, lemma_sum_balances_nonneg,
    lemma_sum_earnings_element, lemma_sum_earnings_nonneg,
};
use crate::state::{
    lemma_account_update_frame, lemma_provider_update_frame, SubscriptionEscrow,
};
use crate::types::{
    Plan, Provider, Subscription, SubscriptionError, SubscriptionStatus,
};

verus! {

impl SubscriptionEscrow {
    /// Whether a charge of the subscription named by `id` is due at `now`:
    /// the subscription exists, is `Active`, and a full interval has passed
    /// since the last successful charge.
    pub open spec fn payment_due(self, id: u64, now: u64) -> bool {
        &&& self.sub_id_ok(id)
        &&& self.spec_subscription(id).status == SubscriptionStatus::Active
        &&& now >= self.spec_subscription(id).last_payment_time + self.spec_plan(
            self.spec_subscription(id).plan_id,
        ).interval_seconds
    }

    /// Who may trigger a charge: the subscriber, the authorized keeper, or
    /// the admin.
    pub open spec fn payment_authorized(self, caller: u64, id: u64) -> bool {
        ||| caller == self.spec_subscription(id).subscriber
        ||| caller == self.config.keeper && self.config.keeper != 0
        ||| caller == self.config.admin
    }

    /// The keeper fee a charge of `price` owes when triggered by `caller`:
    /// the configured clamped fee for the keeper, nothing for anyone else.
    pub open spec fn spec_keeper_fee_due(self, caller: u64, price: u64) -> int {
        if caller == self.config.keeper && self.config.keeper != 0 {
            keeper_fee_of(price, self.config)
        } else {
            0
        }
    }

    /// Whether charging the subscription named by `id` stays within the
    /// machine's counters; every bound is against the plan's full price, so
    /// the check does not depend on the caller or the fee configuration.
    pub open spec fn charge_fits(self, id: u64) -> bool {
        let sub = self.spec_subscription(id);
        let plan = self.spec_plan(sub.plan_id);
        let prov = self.providers@[plan.provider_id as int - 1];
        &&& sub.payment_count + 1 <= u64::MAX
        &&& self.spec_total_spent_of(sub.subscriber) + plan.price <= u64::MAX
        &&& prov.earnings_lifetime + plan.price <= u64::MAX
        &&& plan.revenue_lifetime + plan.price <= u64::MAX
        &&& self.total_revenue_processed + plan.price <= u64::MAX
    }

    /// Whether a subscription to the plan named by `plan_id`, with
    /// `attached` deposited alongside, stays within the machine's counters.
    pub open spec fn subscribe_fits(self, caller: u64, plan_id: u64, attached: u64) -> bool {
        let plan = self.spec_plan(plan_id);
        let prov = self.providers@[plan.provider_id as int - 1];
        &&& self.total_value_locked + attached <= u64::MAX
        &&& self.spec_total_deposited_of(caller) + attached <= u64::MAX
        &&& self.spec_total_spent_of(caller) + plan.price <= u64::MAX
        &&& prov.earnings_lifetime + plan.price <= u64::MAX
        &&& prov.active_subscriber_count + 1 <= u64::MAX
        &&& plan.subscriber_count + 1 <= u64::MAX
        &&& plan.revenue_lifetime + plan.price <= u64::MAX
        &&& self.total_revenue_processed + plan.price <= u64::MAX
        &&& self.subscriptions@.len() + 1 < u64::MAX
    }

    /// Subscribe the caller to the plan named by `plan_id`, depositing
    /// `attached_value` into escrow first and charging the first period
    /// immediately.  Returns the issued subscription id: one more than the
    /// number of subscriptions created before, so ids are strictly
    /// increasing and never reused.
    ///
    /// Fails with `PausedState` while paused, `NotFound` for an unknown
    /// plan, `InvalidInput` for an inactive plan or a counter overflow, and
    /// `InsufficientFunds` when the balance after the attached deposit
    /// would not cover one period's price; no failure mutates anything, the
    /// attached deposit included.
    pub fn subscribe(
        &mut self,
        caller: u64,
        plan_id: u64,
        auto_pay: bool,
        attached_value: u64,
        now: u64,
    ) -> (r: Result<u64, SubscriptionError>)
        requires
            old(self).wf(),
        ensures
            final(self).wf(),
            r.is_err() ==> *final(self) == *old(self),
            (r == Err::<u64, SubscriptionError>(SubscriptionError::PausedState)) <==> old(
                self,
            ).config.paused,
            (r == Err::<u64, SubscriptionError>(SubscriptionError::NotFound)) <==> (!old(
                self,
            ).config.paused && !old(self).plan_id_ok(plan_id)),
            (r == Err::<u64, SubscriptionError>(SubscriptionError::InsufficientFunds)) <==> (!old(
                self,
            ).config.paused && old(self).plan_id_ok(plan_id) && old(self).spec_plan(plan_id).active
                && old(self).spec_balance_of(caller) + attached_value < old(self).spec_plan(
                plan_id,
            ).price),
            (r == Err::<u64, SubscriptionError>(SubscriptionError::InvalidInput)) <==> (!old(
                self,
            ).config.paused && old(self).plan_id_ok(plan_id) && (!old(self).spec_plan(
                plan_id,
            ).active || (old(self).spec_balance_of(caller) + attached_value >= old(
                self,
            ).spec_plan(plan_id).price && !old(self).subscribe_fits(
                caller,
                plan_id,
                attached_value,
            )))),
            r.is_ok() <==> (!old(self).config.paused && old(self).plan_id_ok(plan_id) && old(
                self,
            ).spec_plan(plan_id).active && old(self).spec_balance_of(caller) + attached_value
                >= old(self).spec_plan(plan_id).price && old(self).subscribe_fits(
                caller,
                plan_id,
                attached_value,
            )),
            r.is_ok() ==> ({
                let sub_id = (old(self).subscriptions@.len() + 1) as u64;
                let plan = old(self).spec_plan(plan_id);
                let price = plan.price;
                let pfee = protocol_fee_of(price, old(self).config.protocol_fee_bps);
                let pa = price - pfee;
                let pix = plan.provider_id as int - 1;
                &&& r == Ok::<u64, SubscriptionError>(sub_id)
                &&& final(self).subscriptions@ == old(self).subscriptions@.push(
                    (Subscription {
                        plan_id,
                        subscriber: caller,
                        start_time: now,
                        last_payment_time: now,
                        payment_count: 1,
                        status: SubscriptionStatus::Active,
                        auto_pay,
                        grace_deadline: 0,
                    }),
                )
                &&& final(self).spec_has_account(caller)
                &&& final(self).spec_balance_of(caller) == old(self).spec_balance_of(caller)
                    + attached_value - price
                &&& final(self).spec_total_deposited_of(caller) == old(
                    self,
                ).spec_total_deposited_of(caller) + attached_value
                &&& final(self).spec_total_spent_of(caller) == old(self).spec_total_spent_of(
                    caller,
                ) + price
                &&& final(self).spec_subs_of(caller) == old(self).spec_subs_of(caller).push(
                    sub_id,
                )
                &&& final(self).spec_withdrawal_request_of(caller) == old(
                    self,
                ).spec_withdrawal_request_of(caller)
                &&& old(self).same_accounts_except(*final(self), caller)
                &&& final(self).providers@ == old(self).providers@.update(
                    pix,
                    (Provider {
                        earnings_available: (old(self).providers@[pix].earnings_available
                            + pa) as u64,
                        earnings_lifetime: (old(self).providers@[pix].earnings_lifetime
                            + pa) as u64,
                        active_subscriber_count: (old(self).providers@[pix].active_subscriber_count
                            + 1) as u64,
                        ..old(self).providers@[pix]
                    }),
                )
                &&& final(self).plans@ == old(self).plans@.update(
                    plan_id as int - 1,
                    (Plan {
                        subscriber_count: (plan.subscriber_count + 1) as u64,
                        revenue_lifetime: (plan.revenue_lifetime + price) as u64,
                        ..plan
                    }),
                )
                &&& final(self).total_protocol_fees == old(self).total_protocol_fees + pfee
                &&& final(self).total_value_locked == old(self).total_value_locked
                    + attached_value
                &&& final(self).total_revenue_processed == old(self).total_revenue_processed
                    + price
                &&& final(self).config == old(self).config
            }),
    {
        if self.config.paused {
            return Err(SubscriptionError::PausedState);
        }
        if plan_id == 0 || plan_id > self.plans.len() as u64 {
            return Err(SubscriptionError::NotFound);
        }
        let pi = plan_id as usize - 1;
        let plan = self.plans[pi];
        if !plan.active {
            return Err(SubscriptionError::InvalidInput);
        }
        let price = plan.price;
        let (balance0, deposited0, spent0): (u64, u64, u64) = match self.find_account(caller) {
            Some(i) => (
                self.accounts[i].balance,
                self.accounts[i].total_deposited,
                self.accounts[i].total_spent,
            ),
            None => (0, 0, 0),
        };
        if (balance0 as u128) + (attached_value as u128) < (price as u128) {
            return Err(SubscriptionError::InsufficientFunds);
        }
        let _n_providers = self.providers.len();
        proof {
            assert(plan.wf_in(self.providers@.len() as int));
        }
        let vi = (plan.provider_id - 1) as usize;
        let n_subs = self.subscriptions.len();
        if attached_value > u64::MAX - self.total_value_locked || deposited0 > u64::MAX
            - attached_value || spent0 > u64::MAX - price || self.providers[vi].earnings_lifetime
            > u64::MAX - price || self.providers[vi].active_subscriber_count == u64::MAX
            || plan.subscriber_count == u64::MAX || plan.revenue_lifetime > u64::MAX - price
            || self.total_revenue_processed > u64::MAX - price || n_subs as u64 >= u64::MAX - 1 {
            return Err(SubscriptionError::InvalidInput);
        }
        let ghost pre = *self;
        let sub_id = n_subs as u64 + 1;
        let pfee = protocol_fee_for(price, self.config.protocol_fee_bps);
        let pa = price - pfee;
        let ai = self.ensure_account(caller);
        let ghost mid1 = *self;
        proof {
            lemma_sum_balances_element(mid1.accounts@, ai as int);
            lemma_sum_earnings_nonneg(mid1.providers@);
            lemma_sum_earnings_element(mid1.providers@, vi as int);
        }
        let mut arec = SubscriptionEscrow::blank_account();
        self.accounts.set_and_swap(ai, &mut arec);
        arec.balance = arec.balance + attached_value - price;
        arec.total_deposited = arec.total_deposited + attached_value;
        arec.total_spent = arec.total_spent + price;
        arec.subscription_ids.push(sub_id);
        self.accounts.set_and_swap(ai, &mut arec);
        proof {
            assert(self.accounts@ =~= mid1.accounts@.update(
                ai as int,
                self.accounts@[ai as int],
            ));
            lemma_account_update_frame(mid1, *self, ai as int, self.accounts@[ai as int]);
            if pre.spec_has_account(caller) {
            } else {
                assert forall|o: u64| o != caller implies #[trigger] self.spec_has_account(o)
                    == pre.spec_has_account(o) by {
                    lemma_acct_idx(pre.accounts@, o);
                }
                assert forall|o: u64| o != caller && pre.spec_has_account(o) implies #[trigger]
                    self.spec_account(o) == pre.spec_account(o) by {
                    lemma_acct_idx(pre.accounts@, o);
                }
            }
        }
        let ghost mid2 = *self;
        let mut vrec = SubscriptionEscrow::blank_provider();
        self.providers.set_and_swap(vi, &mut vrec);
        vrec.earnings_available = vrec.earnings_available + pa;
        vrec.earnings_lifetime = vrec.earnings_lifetime + pa;
        vrec.active_subscriber_count = vrec.active_subscriber_count + 1;
        self.providers.set_and_swap(vi, &mut vrec);
        proof {
            assert(self.providers@ =~= mid2.providers@.update(
                vi as int,
                self.providers@[vi as int],
            ));
            lemma_provider_update_frame(mid2, *self, vi as int, self.providers@[vi as int]);
        }
        self.plans.set(pi, Plan {
            subscriber_count: plan.subscriber_count + 1,
            revenue_lifetime: plan.revenue_lifetime + price,
            ..plan
        });
        self.total_protocol_fees = self.total_protocol_fees + pfee;
        self.total_value_locked = self.total_value_locked + attached_value;
        self.total_revenue_processed = self.total_revenue_processed + price;
        self.subscriptions.push(Subscription {
            plan_id,
            subscriber: caller,
            start_time: now,
            last_payment_time: now,
            payment_count: 1,
            status: SubscriptionStatus::Active,
            auto_pay,
            grace_deadline: 0,
        });
        proof {
            assert(forall|k: int|
                0 <= k < pre.subscriptions@.len() ==> self.subscriptions@[k]
                    == pre.subscriptions@[k]);
            crate::state::lemma_same_accounts_transfer(pre, mid2, *self, caller);
        }
        Ok(sub_id)
    }

    /// Charge one due period of the subscription named by
    /// `subscription_id`.  Callable by the subscriber, the authorized
    /// keeper, or the admin; the keeper additionally earns the clamped
    /// keeper fee, which this call parks with the protocol fees and returns
    /// for [`Self::settle_keeper_payout`] to pay out.
    ///
    /// Before the due time the call fails with `InvalidInput` and mutates
    /// nothing, however often it is repeated.  When the subscriber's
    /// balance cannot cover the price, the subscription is suspended: its
    /// status becomes `PastDue` with a grace deadline one grace period from
    /// `now`, and the call fails with `InsufficientFunds` having moved no
    /// money.  Otherwise the price leaves the subscriber's balance, the
    /// provider is credited with the remainder after fees, and the
    /// subscription's clock advances to `now`.
    pub fn process_subscription_payment(&mut self, caller: u64, subscription_id: u64, now: u64)
        -> (r: Result<u64, SubscriptionError>)
        requires
            old(self).wf(),
            now + old(self).config.grace_period_seconds <= u64::MAX,
        ensures
            final(self).wf(),
            (r == Err::<u64, SubscriptionError>(SubscriptionError::PausedState)) <==> old(
                self,
            ).config.paused,
            (r == Err::<u64, SubscriptionError>(SubscriptionError::NotFound)) <==> (!old(
                self,
            ).config.paused && !old(self).sub_id_ok(subscription_id)),
            (r == Err::<u64, SubscriptionError>(SubscriptionError::Unauthorized)) <==> (!old(
                self,
            ).config.paused && old(self).sub_id_ok(subscription_id) && !old(
                self,
            ).payment_authorized(caller, subscription_id)),
            (r == Err::<u64, SubscriptionError>(SubscriptionError::InvalidInput)) <==> (!old(
                self,
            ).config.paused && old(self).sub_id_ok(subscription_id) && old(
                self,
            ).payment_authorized(caller, subscription_id) && (old(self).spec_subscription(
                subscription_id,
            ).status != SubscriptionStatus::Active || !old(self).payment_due(subscription_id, now)
                || !old(self).charge_fits(subscription_id))),
            (r == Err::<u64, SubscriptionError>(SubscriptionError::InsufficientFunds)) <==> (!old(
                self,
            ).config.paused && old(self).sub_id_ok(subscription_id) && old(
                self,
            ).payment_authorized(caller, subscription_id) && old(self).payment_due(
                subscription_id,
                now,
            ) && old(self).charge_fits(subscription_id) && old(self).spec_balance_of(
                old(self).spec_subscription(subscription_id).subscriber,
            ) < old(self).spec_plan(old(self).spec_subscription(subscription_id).plan_id).price),
            (r == Err::<u64, SubscriptionError>(SubscriptionError::InsufficientFunds)) ==> {
                let sub = old(self).spec_subscription(subscription_id);
                &&& final(self).subscriptions@ == old(self).subscriptions@.update(
                    subscription_id as int - 1,
                    (Subscription {
                        status: SubscriptionStatus::PastDue,
                        grace_deadline: (now + old(self).config.grace_period_seconds) as u64,
                        ..sub
                    }),
                )
                &&& final(self).accounts == old(self).accounts
                &&& final(self).providers == old(self).providers
                &&& final(self).plans == old(self).plans
                &&& final(self).config == old(self).config
                &&& final(self).total_value_locked == old(self).total_value_locked
                &&& final(self).total_protocol_fees == old(self).total_protocol_fees
                &&& final(self).total_revenue_processed == old(self).total_revenue_processed
            },
            (r matches Err(e) && e != SubscriptionError::InsufficientFunds) ==> *final(self)
                == *old(self),
            r.is_ok() <==> (!old(self).config.paused && old(self).sub_id_ok(subscription_id)
                && old(self).payment_authorized(caller, subscription_id) && old(self).payment_due(
                subscription_id,
                now,
            ) && old(self).charge_fits(subscription_id) && old(self).spec_balance_of(
                old(self).spec_subscription(subscription_id).subscriber,
            ) >= old(self).spec_plan(old(self).spec_subscription(subscription_id).plan_id).price),
            r.is_ok() ==> ({
                let sub = old(self).spec_subscription(subscription_id);
                let plan = old(self).spec_plan(sub.plan_id);
                let price = plan.price;
                let pfee = protocol_fee_of(price, old(self).config.protocol_fee_bps);
                let kfee = old(self).spec_keeper_fee_due(caller, price);
                let pa = price - pfee - kfee;
                let pix = plan.provider_id as int - 1;
                &&& r == Ok::<u64, SubscriptionError>(kfee as u64)
                &&& final(self).subscriptions@ == old(self).subscriptions@.update(
                    subscription_id as int - 1,
                    (Subscription {
                        last_payment_time: now,
                        payment_count: (sub.payment_count + 1) as u64,
                        grace_deadline: 0,
                        ..sub
                    }),
                )
                &&& final(self).spec_balance_of(sub.subscriber) == old(self).spec_balance_of(
                    sub.subscriber,
                ) - price
                &&& final(self).spec_total_spent_of(sub.subscriber) == old(
                    self,
                ).spec_total_spent_of(sub.subscriber) + price
                &&& final(self).spec_total_deposited_of(sub.subscriber) == old(
                    self,
                ).spec_total_deposited_of(sub.subscriber)
                &&& final(self).spec_subs_of(sub.subscriber) == old(self).spec_subs_of(
                    sub.subscriber,
                )
                &&& old(self).same_accounts_except(*final(self), sub.subscriber)
                &&& final(self).providers@ == old(self).providers@.update(
                    pix,
                    (Provider {
                        earnings_available: (old(self).providers@[pix].earnings_available
                            + pa) as u64,
                        earnings_lifetime: (old(self).providers@[pix].earnings_lifetime
                            + pa) as u64,
                        ..old(self).providers@[pix]
                    }),
                )
                &&& final(self).plans@ == old(self).plans@.update(
                    sub.plan_id as int - 1,
                    (Plan { revenue_lifetime: (plan.revenue_lifetime + price) as u64, ..plan }),
                )
                &&& final(self).total_protocol_fees == old(self).total_protocol_fees + pfee
                    + kfee
                &&& final(self).total_value_locked == old(self).total_value_locked
                &&& final(self).total_revenue_processed == old(self).total_revenue_processed
                    + price
                &&& final(self).config == old(self).config
            }),
    {
        if self.config.paused {
            return Err(SubscriptionError::PausedState);
        }
        if subscription_id == 0 || subscription_id > self.subscriptions.len() as u64 {
            return Err(SubscriptionError::NotFound);
        }
        let si = subscription_id as usize - 1;
        let sub = self.subscriptions[si];
        let keeper = self.config.keeper;
        let is_keeper = caller == keeper && keeper != 0;
        if caller != sub.subscriber && !is_keeper && caller != self.config.admin {
            return Err(SubscriptionError::Unauthorized);
        }
        let active = match sub.status {
            SubscriptionStatus::Active => true,
            _ => false,
        };
        if !active {
            return Err(SubscriptionError::InvalidInput);
        }
        let _n_plans = self.plans.len();
        proof {
            assert(sub.wf_in(self.plans@.len() as int));
        }
        let pi = sub.plan_id as usize - 1;
        let plan = self.plans[pi];
        let price = plan.price;
        if (now as u128) < (sub.last_payment_time as u128) + (plan.interval_seconds as u128) {
            return Err(SubscriptionError::InvalidInput);
        }
        let _n_providers = self.providers.len();
        proof {
            assert(plan.wf_in(self.providers@.len() as int));
        }
        let vi = (plan.provider_id - 1) as usize;
        let (spent0, balance0): (u64, u64) = match self.find_account(sub.subscriber) {
            Some(i) => (self.accounts[i].total_spent, self.accounts[i].balance),
            None => (0, 0),
        };
        if sub.payment_count == u64::MAX || spent0 > u64::MAX - price
            || self.providers[vi].earnings_lifetime > u64::MAX - price || plan.revenue_lifetime
            > u64::MAX - price || self.total_revenue_processed > u64::MAX - price {
            return Err(SubscriptionError::InvalidInput);
        }
        if balance0 < price {
            let grace = self.config.grace_period_seconds;
            self.subscriptions.set(si, Subscription {
                status: SubscriptionStatus::PastDue,
                grace_deadline: now + grace,
                ..sub
            });
            return Err(SubscriptionError::InsufficientFunds);
        }
        let ghost pre = *self;
        let pfee = protocol_fee_for(price, self.config.protocol_fee_bps);
        let kfee: u64 = if is_keeper {
            proof {
                lemma_fee_split_covered(price, self.config);
            }
            keeper_fee_for(price, &self.config)
        } else {
            0
        };
        proof {
            lemma_protocol_fee_bounds(price, pre.config.protocol_fee_bps);
            lemma_fee_split_covered(price, pre.config);
        }
        let pa = price - pfee - kfee;
        let ai = match self.find_account(sub.subscriber) {
            Some(i) => i,
            None => {
                proof {
                    assert(false);
                }
                return Err(SubscriptionError::InvalidInput);
            },
        };
        proof {
            lemma_sum_balances_element(pre.accounts@, ai as int);
            lemma_sum_earnings_nonneg(pre.providers@);
            lemma_sum_earnings_element(pre.providers@, vi as int);
            lemma_sum_balances_nonneg(pre.accounts@);
        }
        let mut arec = SubscriptionEscrow::blank_account();
        self.accounts.set_and_swap(ai, &mut arec);
        arec.balance = arec.balance - price;
        arec.total_spent = arec.total_spent + price;
        self.accounts.set_and_swap(ai, &mut arec);
        proof {
            assert(self.accounts@ =~= pre.accounts@.update(
                ai as int,
                self.accounts@[ai as int],
            ));
            lemma_account_update_frame(pre, *self, ai as int, self.accounts@[ai as int]);
        }
        let ghost mid2 = *self;
        let mut vrec = SubscriptionEscrow::blank_provider();
        self.providers.set_and_swap(vi, &mut vrec);
        vrec.earnings_available = vrec.earnings_available + pa;
        vrec.earnings_lifetime = vrec.earnings_lifetime + pa;
        self.providers.set_and_swap(vi, &mut vrec);
        proof {
            assert(self.providers@ =~= mid2.providers@.update(
                vi as int,
                self.providers@[vi as int],
            ));
            lemma_provider_update_frame(mid2, *self, vi as int, self.providers@[vi as int]);
        }
        self.plans.set(pi, Plan { revenue_lifetime: plan.revenue_lifetime + price, ..plan });
        self.subscriptions.set(si, Subscription {
            last_payment_time: now,
            payment_count: sub.payment_count + 1,
            grace_deadline: 0,
            ..sub
        });
        self.total_protocol_fees = self.total_protocol_fees + pfee + kfee;
        self.total_revenue_processed = self.total_revenue_processed + price;
        proof {
            crate::state::lemma_same_accounts_transfer(pre, mid2, *self, sub.subscriber);
        }
        Ok(kfee)
    }

    /// Settle the keeper payout of a charge, after the host attempted the
    /// native transfer of the fee [`Self::process_subscription_payment`]
    /// returned.  On success the fee leaves the ledger; on failure it
    /// simply stays with the collected protocol fees as a lost fee, and the
    /// payment remains settled either way.
    pub fn settle_keeper_payout(&mut self, amount: u64, transfer_ok: bool)
        requires
            old(self).wf(),
            amount <= old(self).total_protocol_fees,
        ensures
            final(self).wf(),
            !transfer_ok ==> *final(self) == *old(self),
            transfer_ok ==> *final(self) == (SubscriptionEscrow {
                total_protocol_fees: (old(self).total_protocol_fees - amount) as u64,
                total_value_locked: (old(self).total_value_locked - amount) as u64,
                ..*old(self)
            }),
    {
        if !transfer_ok {
            return ;
        }
        proof {
            lemma_sum_balances_nonneg(self.accounts@);
            lemma_sum_earnings_nonneg(self.providers@);
        }
        self.total_protocol_fees = self.total_protocol_fees - amount;
        self.total_value_locked = self.total_value_locked - amount;
    }

    /// Whether a charge of the subscription named by `subscription_id` is
    /// due at `now`; the read keepers poll before calling
    /// [`Self::process_subscription_payment`].  Pure read.
    pub fn needs_payment(&self, subscription_id: u64, now: u64) -> (r: bool)
        requires
            self.wf(),
        ensures
            r == self.payment_due(subscription_id, now),
    {
        if subscription_id == 0 || subscription_id > self.subscriptions.len() as u64 {
            return false;
        }
        let si = subscription_id as usize - 1;
        let sub = self.subscriptions[si];
        let active = match sub.status {
            SubscriptionStatus::Active => true,
            _ => false,
        };
        if !active {
            return false;
        }
        let _n_plans = self.plans.len();
        proof {
            assert(sub.wf_in(self.plans@.len() as int));
        }
        let interval = self.plans[sub.plan_id as usize - 1].interval_seconds;
        (now as u128) >= (sub.last_payment_time as u128) + (interval as u128)
    }

    /// Same question as [`Self::needs_payment`], under the catalog's other
    /// historical name.
    pub fn is_payment_due(&self, subscription_id: u64, now: u64) -> (r: bool)
        requires
            self.wf(),
        ensures
            r == self.payment_due(subscription_id, now),
    {
        self.needs_payment(subscription_id, now)
    }

    /// Whether the subscription named by `id` is one an automation agent
    /// should charge for `subscriber` at `now`: it belongs to the
    /// subscriber, a charge is due, and the escrow balance covers it.
    pub open spec fn spec_keeper_ready(self, subscriber: u64, id: u64, now: u64) -> bool {
        &&& self.payment_due(id, now)
        &&& self.spec_subscription(id).subscriber == subscriber
        &&& self.spec_balance_of(subscriber) >= self.spec_plan(
            self.spec_subscription(id).plan_id,
        ).price
    }

    /// The lowest subscription id an automation agent should charge for
    /// `subscriber` at `now`, if any.  Pure read.
    pub fn checker(&self, subscriber: u64, now: u64) -> (r: Option<u64>)
        requires
            self.wf(),
        ensures
            match r {
                Some(id) => self.spec_keeper_ready(subscriber, id, now) && forall|j: u64|
                    1 <= j < id ==> !self.spec_keeper_ready(subscriber, j, now),
                None => forall|j: u64| !self.spec_keeper_ready(subscriber, j, now),
            },
    {
        let n = self.subscriptions.len();
        let balance: u64 = match self.find_account(subscriber) {
            Some(i) => self.accounts[i].balance,
            None => 0,
        };
        let mut k: usize = 0;
        while k < n
            invariant
                self.wf(),
                k <= n,
                n == self.subscriptions@.len(),
                balance == self.spec_balance_of(subscriber),
                forall|j: u64|
                    1 <= j <= k ==> !self.spec_keeper_ready(subscriber, j, now),
            decreases n - k,
        {
            let sub = self.subscriptions[k];
            let id = k as u64 + 1;
            if sub.subscriber == subscriber {
                let active = match sub.status {
                    SubscriptionStatus::Active => true,
                    _ => false,
                };
                if active {
                    let _n_plans = self.plans.len();
                    proof {
                        assert(sub.wf_in(self.plans@.len() as int));
                    }
                    let plan = self.plans[sub.plan_id as usize - 1];
                    if (now as u128) >= (sub.last_payment_time as u128)
                        + (plan.interval_seconds as u128) && balance >= plan.price {
                        return Some(id);
                    }
                }
            }
            k = k + 1;
        }
        None
    }
}

} // verus!
