//! The plan catalog: creation and mutation of published plans.

use vstd::pervasive::VecAdditionalExecFns;
use vstd::prelude::*;

use crate::state::{lemma_provider_update_frame, SubscriptionEscrow};
use crate::types::{Plan, Provider, SubscriptionError};

verus! {

impl SubscriptionEscrow {
    /// Whether `price` and `interval` lie within the configured plan bounds.
    pub open spec fn plan_params_ok(self, price: u64, interval: u64) -> bool {
        &&& 1 <= price <= self.config.max_plan_price
        &&& 1 <= interval
        &&& self.config.min_plan_interval <= interval <= self.config.max_plan_interval
    }

    /// Whether a `create_plan` call by `caller` would be accepted: not
    /// paused, an active registered provider, parameters within bounds, and
    /// a plan id still available.
    pub open spec fn can_create_plan(self, caller: u64, price: u64, interval: u64) -> bool {
        &&& !self.config.paused
        &&& self.spec_is_registered(caller)
        &&& self.spec_provider(caller).active
        &&& self.plan_params_ok(price, interval)
        &&& self.plans@.len() + 1 < u64::MAX
    }

    /// Create a plan charging `price` every `interval` seconds, returning
    /// the issued plan id: one more than the number of plans created before,
    /// so ids are strictly increasing and never reused.
    ///
    /// Fails with `PausedState` while paused, `Unauthorized` when the caller
    /// is not an active registered provider, and `InvalidInput` when the
    /// parameters violate the configured bounds or the id space is
    /// exhausted; no failure mutates anything.
    pub fn create_plan(&mut self, caller: u64, price: u64, interval: u64, now: u64) -> (r: Result<
        u64,
        SubscriptionError,
    >)
        requires
            old(self).wf(),
        ensures
            final(self).wf(),
            r.is_err() ==> *final(self) == *old(self),
            (r == Err::<u64, SubscriptionError>(SubscriptionError::PausedState)) <==> old(
                self,
            ).config.paused,
            (r == Err::<u64, SubscriptionError>(SubscriptionError::Unauthorized)) <==> (!old(
                self,
            ).config.paused && !(old(self).spec_is_registered(caller) && old(self).spec_provider(
                caller,
            ).active)),
            (r == Err::<u64, SubscriptionError>(SubscriptionError::InvalidInput)) <==> (!old(
                self,
            ).config.paused && old(self).spec_is_registered(caller) && old(self).spec_provider(
                caller,
            ).active && !(old(self).plan_params_ok(price, interval) && old(self).plans@.len() + 1
                < u64::MAX)),
            r.is_ok() <==> old(self).can_create_plan(caller, price, interval),
            r.is_ok() ==> {
                &&& r == Ok::<u64, SubscriptionError>((old(self).plans@.len() + 1) as u64)
                &&& final(self).plans@ == old(self).plans@.push(
                    (Plan {
                        provider_id: (prov_idx_of(*old(self), caller) + 1) as u64,
                        price,
                        interval_seconds: interval,
                        active: true,
                        subscriber_count: 0,
                        revenue_lifetime: 0,
                        created_at: now,
                    }),
                )
                &&& final(self).spec_provider(caller) == (Provider {
                    plan_ids: final(self).spec_provider(caller).plan_ids,
                    ..old(self).spec_provider(caller)
                })
                &&& final(self).spec_provider(caller).plan_ids@ == old(self).spec_provider(
                    caller,
                ).plan_ids@.push((old(self).plans@.len() + 1) as u64)
                &&& old(self).same_providers_except(*final(self), caller)
                &&& final(self).accounts == old(self).accounts
                &&& final(self).subscriptions == old(self).subscriptions
                &&& final(self).config == old(self).config
                &&& final(self).total_value_locked == old(self).total_value_locked
                &&& final(self).total_protocol_fees == old(self).total_protocol_fees
                &&& final(self).total_revenue_processed == old(self).total_revenue_processed
            },
    {
        if self.config.paused {
            return Err(SubscriptionError::PausedState);
        }
        let i = match self.find_provider(caller) {
            Some(i) => i,
            None => {
                return Err(SubscriptionError::Unauthorized);
            },
        };
        if !self.providers[i].active {
            return Err(SubscriptionError::Unauthorized);
        }
        if price == 0 || price > self.config.max_plan_price || interval == 0 || interval
            < self.config.min_plan_interval || interval > self.config.max_plan_interval {
            return Err(SubscriptionError::InvalidInput);
        }
        let n = self.plans.len();
        if n as u64 >= u64::MAX - 1 {
            return Err(SubscriptionError::InvalidInput);
        }
        let ghost pre = *self;
        let plan_id = n as u64 + 1;
        self.plans.push(Plan {
            provider_id: i as u64 + 1,
            price,
            interval_seconds: interval,
            active: true,
            subscriber_count: 0,
            revenue_lifetime: 0,
            created_at: now,
        });
        let ghost mid = *self;
        let mut rec = SubscriptionEscrow::blank_provider();
        self.providers.set_and_swap(i, &mut rec);
        rec.plan_ids.push(plan_id);
        self.providers.set_and_swap(i, &mut rec);
        proof {
            assert(self.providers@ =~= pre.providers@.update(
                i as int,
                self.providers@[i as int],
            ));
            lemma_provider_update_frame(mid, *self, i as int, self.providers@[i as int]);
            assert(forall|k: int|
                0 <= k < pre.plans@.len() ==> self.plans@[k] == pre.plans@[k]);
        }
        Ok(plan_id)
    }

    /// Update the caller's plan.  A zero `new_price` or `new_interval` keeps
    /// the stored value; a nonzero one must lie within the configured bounds
    /// or the whole call fails with `InvalidInput` before anything is
    /// applied.  The active flag is always applied; deactivating stops new
    /// subscriptions but does not affect existing ones.
    pub fn update_plan(
        &mut self,
        caller: u64,
        plan_id: u64,
        new_price: u64,
        new_interval: u64,
        active: bool,
    ) -> (r: Result<(), SubscriptionError>)
        requires
            old(self).wf(),
        ensures
            final(self).wf(),
            r.is_err() ==> *final(self) == *old(self),
            (r == Err::<(), SubscriptionError>(SubscriptionError::PausedState)) <==> old(
                self,
            ).config.paused,
            (r == Err::<(), SubscriptionError>(SubscriptionError::NotFound)) <==> (!old(
                self,
            ).config.paused && !old(self).plan_id_ok(plan_id)),
            (r == Err::<(), SubscriptionError>(SubscriptionError::Unauthorized)) <==> (!old(
                self,
            ).config.paused && old(self).plan_id_ok(plan_id) && !old(self).owns_plan(
                caller,
                plan_id,
            )),
            (r == Err::<(), SubscriptionError>(SubscriptionError::InvalidInput)) <==> (!old(
                self,
            ).config.paused && old(self).plan_id_ok(plan_id) && old(self).owns_plan(
                caller,
                plan_id,
            ) && !((new_price == 0 || new_price <= old(self).config.max_plan_price)
                && (new_interval == 0 || (old(self).config.min_plan_interval <= new_interval
                && new_interval <= old(self).config.max_plan_interval)))),
            r.is_ok() <==> (!old(self).config.paused && old(self).plan_id_ok(plan_id) && old(
                self,
            ).owns_plan(caller, plan_id) && (new_price == 0 || new_price <= old(
                self,
            ).config.max_plan_price) && (new_interval == 0 || (old(self).config.min_plan_interval
                <= new_interval && new_interval <= old(self).config.max_plan_interval))),
            r.is_ok() ==> {
                &&& final(self).plans@ == old(self).plans@.update(
                    plan_id as int - 1,
                    (Plan {
                        price: if new_price == 0 {
                            old(self).spec_plan(plan_id).price
                        } else {
                            new_price
                        },
                        interval_seconds: if new_interval == 0 {
                            old(self).spec_plan(plan_id).interval_seconds
                        } else {
                            new_interval
                        },
                        active,
                        ..old(self).spec_plan(plan_id)
                    }),
                )
                &&& final(self).accounts == old(self).accounts
                &&& final(self).providers == old(self).providers
                &&& final(self).subscriptions == old(self).subscriptions
                &&& final(self).config == old(self).config
                &&& final(self).total_value_locked == old(self).total_value_locked
                &&& final(self).total_protocol_fees == old(self).total_protocol_fees
                &&& final(self).total_revenue_processed == old(self).total_revenue_processed
            },
    {
        if self.config.paused {
            return Err(SubscriptionError::PausedState);
        }
        if plan_id == 0 || plan_id > self.plans.len() as u64 {
            return Err(SubscriptionError::NotFound);
        }
        let i = plan_id as usize - 1;
        let plan = self.plans[i];
        let n_providers = self.providers.len();
        proof {
            assert(plan.wf_in(self.providers@.len() as int));
        }
        let provider_pos = (plan.provider_id - 1) as usize;
        proof {
            assert(provider_pos < n_providers);
        }
        if self.providers[provider_pos].owner != caller {
            return Err(SubscriptionError::Unauthorized);
        }
        if new_price != 0 && new_price > self.config.max_plan_price {
            return Err(SubscriptionError::InvalidInput);
        }
        if new_interval != 0 && (new_interval < self.config.min_plan_interval || new_interval
            > self.config.max_plan_interval) {
            return Err(SubscriptionError::InvalidInput);
        }
        let updated = Plan {
            price: if new_price == 0 {
                plan.price
            } else {
                new_price
            },
            interval_seconds: if new_interval == 0 {
                plan.interval_seconds
            } else {
                new_interval
            },
            active,
            ..plan
        };
        self.plans.set(i, updated);
        Ok(())
    }

    /// Whether `caller` is the provider owning the plan named by `plan_id`.
    /// Meaningful only when the id is in range.
    pub open spec fn owns_plan(self, caller: u64, plan_id: u64) -> bool {
        self.providers@[self.spec_plan(plan_id).provider_id as int - 1].owner == caller
    }

    /// Set only the active flag of the caller's plan; a deactivated plan
    /// accepts no new subscriptions but existing ones continue.
    pub fn update_plan_status(&mut self, caller: u64, plan_id: u64, active: bool) -> (r: Result<
        (),
        SubscriptionError,
    >)
        requires
            old(self).wf(),
        ensures
            final(self).wf(),
            r.is_err() ==> *final(self) == *old(self),
            (r == Err::<(), SubscriptionError>(SubscriptionError::PausedState)) <==> old(
                self,
            ).config.paused,
            (r == Err::<(), SubscriptionError>(SubscriptionError::NotFound)) <==> (!old(
                self,
            ).config.paused && !old(self).plan_id_ok(plan_id)),
            (r == Err::<(), SubscriptionError>(SubscriptionError::Unauthorized)) <==> (!old(
                self,
            ).config.paused && old(self).plan_id_ok(plan_id) && !old(self).owns_plan(
                caller,
                plan_id,
            )),
            r.is_ok() <==> (!old(self).config.paused && old(self).plan_id_ok(plan_id) && old(
                self,
            ).owns_plan(caller, plan_id)),
            r.is_ok() ==> {
                &&& final(self).plans@ == old(self).plans@.update(
                    plan_id as int - 1,
                    (Plan { active, ..old(self).spec_plan(plan_id) }),
                )
                &&& final(self).accounts == old(self).accounts
                &&& final(self).providers == old(self).providers
                &&& final(self).subscriptions == old(self).subscriptions
                &&& final(self).config == old(self).config
                &&& final(self).total_value_locked == old(self).total_value_locked
                &&& final(self).total_protocol_fees == old(self).total_protocol_fees
                &&& final(self).total_revenue_processed == old(self).total_revenue_processed
            },
    {
        match self.update_plan(caller, plan_id, 0, 0, active) {
            Ok(()) => Ok(()),
            Err(e) => Err(e),
        }
    }

    /// Deactivate the caller's plan; shorthand for
    /// [`Self::update_plan_status`] with `active` false.
    pub fn deactivate_plan(&mut self, caller: u64, plan_id: u64) -> (r: Result<
        (),
        SubscriptionError,
    >)
        requires
            old(self).wf(),
        ensures
            final(self).wf(),
            r.is_err() ==> *final(self) == *old(self),
            r.is_ok() <==> (!old(self).config.paused && old(self).plan_id_ok(plan_id) && old(
                self,
            ).owns_plan(caller, plan_id)),
            r.is_ok() ==> {
                &&& final(self).plans@ == old(self).plans@.update(
                    plan_id as int - 1,
                    (Plan { active: false, ..old(self).spec_plan(plan_id) }),
                )
                &&& final(self).accounts == old(self).accounts
                &&& final(self).providers == old(self).providers
                &&& final(self).subscriptions == old(self).subscriptions
                &&& final(self).config == old(self).config
                &&& final(self).total_value_locked == old(self).total_value_locked
                &&& final(self).total_protocol_fees == old(self).total_protocol_fees
                &&& final(self).total_revenue_processed == old(self).total_revenue_processed
            },
    {
        self.update_plan_status(caller, plan_id, false)
    }
}

/// Spec-level position of `caller`'s provider record; named so contracts can
/// speak of the provider id a new plan links to.
pub open spec fn prov_idx_of(s: SubscriptionEscrow, caller: u64) -> int {
    crate::ledger::prov_idx(s.providers@, caller)
}

} // verus!
