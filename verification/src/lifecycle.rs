//! The subscription lifecycle: cancellation, auto-pay toggling and
//! reactivation.
//!
//! The state machine is `Active -> PastDue -> Active | CancelledByUser` and
//! `Active -> CancelledByUser`; the cancelled states are terminal.  Charges
//! (which also drive `Active -> PastDue`) live in the payment module.

use vstd::pervasive::VecAdditionalExecFns;
use vstd::prelude::*;

use crate::state::{lemma_provider_update_frame, SubscriptionEscrow};
use crate::types::{Plan, Provider, Subscription, SubscriptionError, SubscriptionStatus};

verus! {

impl SubscriptionEscrow {
    /// Cancel the caller's subscription.  Only the subscriber may cancel,
    /// and only while the subscription is not already cancelled.  The
    /// subscription becomes `CancelledByUser` with auto-pay off, the plan's
    /// and provider's subscriber counters drop by one (never below zero),
    /// and no money moves: the remaining escrow balance stays withdrawable.
    pub fn cancel_subscription(&mut self, caller: u64, subscription_id: u64) -> (r: Result<
        (),
        SubscriptionError,
    >)
        requires
            old(self).wf(),
        ensures
            final(self).wf(),
            r.is_err() ==> *final(self) == *old(self),
            (r == Err::<(), SubscriptionError>(SubscriptionError::PausedState)) <==> old(
                self,
            ).config.paused,
            (r == Err::<(), SubscriptionError>(SubscriptionError::NotFound)) <==> (!old(
                self,
            ).config.paused && !old(self).sub_id_ok(subscription_id)),
            (r == Err::<(), SubscriptionError>(SubscriptionError::Unauthorized)) <==> (!old(
                self,
            ).config.paused && old(self).sub_id_ok(subscription_id) && old(
                self,
            ).spec_subscription(subscription_id).subscriber != caller),
            (r == Err::<(), SubscriptionError>(SubscriptionError::InvalidInput)) <==> (!old(
                self,
            ).config.paused && old(self).sub_id_ok(subscription_id) && old(
                self,
            ).spec_subscription(subscription_id).subscriber == caller && old(
                self,
            ).spec_subscription(subscription_id).status.is_cancelled()),
            r.is_ok() <==> (!old(self).config.paused && old(self).sub_id_ok(subscription_id)
                && old(self).spec_subscription(subscription_id).subscriber == caller && !old(
                self,
            ).spec_subscription(subscription_id).status.is_cancelled()),
            r.is_ok() ==> {
                let sub = old(self).spec_subscription(subscription_id);
                let plan = old(self).spec_plan(sub.plan_id);
                let pid = plan.provider_id;
                &&& final(self).subscriptions@ == old(self).subscriptions@.update(
                    subscription_id as int - 1,
                    (Subscription {
                        status: SubscriptionStatus::CancelledByUser,
                        auto_pay: false,
                        grace_deadline: 0,
                        ..sub
                    }),
                )
                &&& final(self).plans@ == old(self).plans@.update(
                    sub.plan_id as int - 1,
                    (Plan {
                        subscriber_count: if plan.subscriber_count >= 1 {
                            (plan.subscriber_count - 1) as u64
                        } else {
                            0
                        },
                        ..plan
                    }),
                )
                &&& final(self).providers@ == old(self).providers@.update(
                    pid as int - 1,
                    (Provider {
                        active_subscriber_count: if old(self).providers@[pid as int
                            - 1].active_subscriber_count >= 1 {
                            (old(self).providers@[pid as int - 1].active_subscriber_count
                                - 1) as u64
                        } else {
                            0
                        },
                        ..old(self).providers@[pid as int - 1]
                    }),
                )
                &&& final(self).accounts == old(self).accounts
                &&& final(self).config == old(self).config
                &&& final(self).total_value_locked == old(self).total_value_locked
                &&& final(self).total_protocol_fees == old(self).total_protocol_fees
                &&& final(self).total_revenue_processed == old(self).total_revenue_processed
            },
    {
        if self.config.paused {
            return Err(SubscriptionError::PausedState);
        }
        if subscription_id == 0 || subscription_id > self.subscriptions.len() as u64 {
            return Err(SubscriptionError::NotFound);
        }
        let si = subscription_id as usize - 1;
        let sub = self.subscriptions[si];
        if sub.subscriber != caller {
            return Err(SubscriptionError::Unauthorized);
        }
        let cancelled = match sub.status {
            SubscriptionStatus::Active => false,
            SubscriptionStatus::PastDue => false,
            _ => true,
        };
        if cancelled {
            return Err(SubscriptionError::InvalidInput);
        }
        let ghost pre = *self;
        self.subscriptions.set(si, Subscription {
            status: SubscriptionStatus::CancelledByUser,
            auto_pay: false,
            grace_deadline: 0,
            ..sub
        });
        let _n_plans = self.plans.len();
        proof {
            assert(sub.wf_in(self.plans@.len() as int));
        }
        let pi = sub.plan_id as usize - 1;
        let plan = self.plans[pi];
        self.plans.set(pi, Plan {
            subscriber_count: if plan.subscriber_count >= 1 {
                plan.subscriber_count - 1
            } else {
                0
            },
            ..plan
        });
        let _n_providers = self.providers.len();
        proof {
            assert(plan.wf_in(self.providers@.len() as int));
        }
        let vi = (plan.provider_id - 1) as usize;
        proof {
            assert(vi < self.providers@.len());
        }
        let ghost mid = *self;
        let mut rec = SubscriptionEscrow::blank_provider();
        self.providers.set_and_swap(vi, &mut rec);
        if rec.active_subscriber_count >= 1 {
            rec.active_subscriber_count = rec.active_subscriber_count - 1;
        }
        self.providers.set_and_swap(vi, &mut rec);
        proof {
            assert(self.providers@ =~= pre.providers@.update(
                vi as int,
                self.providers@[vi as int],
            ));
            lemma_provider_update_frame(mid, *self, vi as int, self.providers@[vi as int]);
        }
        Ok(())
    }

    /// Turn automatic charging on or off for the caller's subscription.
    /// Only the subscriber may call, and only while the subscription is not
    /// cancelled.
    pub fn toggle_auto_payment(
        &mut self,
        caller: u64,
        subscription_id: u64,
        enabled: bool,
    ) -> (r: Result<(), SubscriptionError>)
        requires
            old(self).wf(),
        ensures
            final(self).wf(),
            r.is_err() ==> *final(self) == *old(self),
            (r == Err::<(), SubscriptionError>(SubscriptionError::PausedState)) <==> old(
                self,
            ).config.paused,
            (r == Err::<(), SubscriptionError>(SubscriptionError::NotFound)) <==> (!old(
                self,
            ).config.paused && !old(self).sub_id_ok(subscription_id)),
            (r == Err::<(), SubscriptionError>(SubscriptionError::Unauthorized)) <==> (!old(
                self,
            ).config.paused && old(self).sub_id_ok(subscription_id) && old(
                self,
            ).spec_subscription(subscription_id).subscriber != caller),
            (r == Err::<(), SubscriptionError>(SubscriptionError::InvalidInput)) <==> (!old(
                self,
            ).config.paused && old(self).sub_id_ok(subscription_id) && old(
                self,
            ).spec_subscription(subscription_id).subscriber == caller && old(
                self,
            ).spec_subscription(subscription_id).status.is_cancelled()),
            r.is_ok() <==> (!old(self).config.paused && old(self).sub_id_ok(subscription_id)
                && old(self).spec_subscription(subscription_id).subscriber == caller && !old(
                self,
            ).spec_subscription(subscription_id).status.is_cancelled()),
            r.is_ok() ==> *final(self) == (SubscriptionEscrow {
                subscriptions: final(self).subscriptions,
                ..*old(self)
            }) && final(self).subscriptions@ == old(self).subscriptions@.update(
                subscription_id as int - 1,
                (Subscription {
                    auto_pay: enabled,
                    ..old(self).spec_subscription(subscription_id)
                }),
            ),
    {
        if self.config.paused {
            return Err(SubscriptionError::PausedState);
        }
        if subscription_id == 0 || subscription_id > self.subscriptions.len() as u64 {
            return Err(SubscriptionError::NotFound);
        }
        let si = subscription_id as usize - 1;
        let sub = self.subscriptions[si];
        if sub.subscriber != caller {
            return Err(SubscriptionError::Unauthorized);
        }
        let cancelled = match sub.status {
            SubscriptionStatus::Active => false,
            SubscriptionStatus::PastDue => false,
            _ => true,
        };
        if cancelled {
            return Err(SubscriptionError::InvalidInput);
        }
        self.subscriptions.set(si, Subscription { auto_pay: enabled, ..sub });
        Ok(())
    }

    /// Bring the caller's suspended subscription back to `Active`.  Only
    /// the subscriber may call, only from `PastDue`, and only while the
    /// escrow balance covers one period's price; the grace deadline is
    /// cleared.
    pub fn reactivate_subscription(&mut self, caller: u64, subscription_id: u64) -> (r: Result<
        (),
        SubscriptionError,
    >)
        requires
            old(self).wf(),
        ensures
            final(self).wf(),
            r.is_err() ==> *final(self) == *old(self),
            (r == Err::<(), SubscriptionError>(SubscriptionError::PausedState)) <==> old(
                self,
            ).config.paused,
            (r == Err::<(), SubscriptionError>(SubscriptionError::NotFound)) <==> (!old(
                self,
            ).config.paused && !old(self).sub_id_ok(subscription_id)),
            (r == Err::<(), SubscriptionError>(SubscriptionError::Unauthorized)) <==> (!old(
                self,
            ).config.paused && old(self).sub_id_ok(subscription_id) && old(
                self,
            ).spec_subscription(subscription_id).subscriber != caller),
            (r == Err::<(), SubscriptionError>(SubscriptionError::InvalidInput)) <==> (!old(
                self,
            ).config.paused && old(self).sub_id_ok(subscription_id) && old(
                self,
            ).spec_subscription(subscription_id).subscriber == caller && old(
                self,
            ).spec_subscription(subscription_id).status != SubscriptionStatus::PastDue),
            (r == Err::<(), SubscriptionError>(SubscriptionError::InsufficientFunds)) <==> (!old(
                self,
            ).config.paused && old(self).sub_id_ok(subscription_id) && old(
                self,
            ).spec_subscription(subscription_id).subscriber == caller && old(
                self,
            ).spec_subscription(subscription_id).status == SubscriptionStatus::PastDue && old(
                self,
            ).spec_balance_of(caller) < old(self).spec_plan(
                old(self).spec_subscription(subscription_id).plan_id,
            ).price),
            r.is_ok() <==> (!old(self).config.paused && old(self).sub_id_ok(subscription_id)
                && old(self).spec_subscription(subscription_id).subscriber == caller && old(
                self,
            ).spec_subscription(subscription_id).status == SubscriptionStatus::PastDue && old(
                self,
            ).spec_balance_of(caller) >= old(self).spec_plan(
                old(self).spec_subscription(subscription_id).plan_id,
            ).price),
            r.is_ok() ==> *final(self) == (SubscriptionEscrow {
                subscriptions: final(self).subscriptions,
                ..*old(self)
            }) && final(self).subscriptions@ == old(self).subscriptions@.update(
                subscription_id as int - 1,
                (Subscription {
                    status: SubscriptionStatus::Active,
                    grace_deadline: 0,
                    ..old(self).spec_subscription(subscription_id)
                }),
            ),
    {
        if self.config.paused {
            return Err(SubscriptionError::PausedState);
        }
        if subscription_id == 0 || subscription_id > self.subscriptions.len() as u64 {
            return Err(SubscriptionError::NotFound);
        }
        let si = subscription_id as usize - 1;
        let sub = self.subscriptions[si];
        if sub.subscriber != caller {
            return Err(SubscriptionError::Unauthorized);
        }
        let suspended = match sub.status {
            SubscriptionStatus::PastDue => true,
            _ => false,
        };
        if !suspended {
            return Err(SubscriptionError::InvalidInput);
        }
        let _n_plans = self.plans.len();
        proof {
            assert(sub.wf_in(self.plans@.len() as int));
        }
        let price = self.plans[sub.plan_id as usize - 1].price;
        let balance: u64 = match self.find_account(caller) {
            Some(i) => self.accounts[i].balance,
            None => 0,
        };
        if balance < price {
            return Err(SubscriptionError::InsufficientFunds);
        }
        self.subscriptions.set(si, Subscription {
            status: SubscriptionStatus::Active,
            grace_deadline: 0,
            ..sub
        });
        Ok(())
    }
}

} // verus!
