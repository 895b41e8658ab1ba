//! The identity registry: provider registration and profile updates.

use vstd::pervasive::VecAdditionalExecFns;
use vstd::prelude::*;
use vstd::string::StrSliceExecFns;

use crate::state::{lemma_provider_push_frame, lemma_provider_update_frame, SubscriptionEscrow};
use crate::types::{Provider, SubscriptionError, MAX_NAME_LEN};

verus! {

impl SubscriptionEscrow {
    /// Whether a `register_provider` call by `caller` with `name` would be
    /// accepted: not paused, a sane name, one registration per account, and
    /// a provider id still available.
    pub open spec fn can_register(self, caller: u64, name: Seq<char>) -> bool {
        &&& !self.config.paused
        &&& 1 <= name.len() <= MAX_NAME_LEN
        &&& !self.spec_is_registered(caller)
        &&& self.providers@.len() + 1 < u64::MAX
    }

    /// Register the caller as a provider under `name`, returning the issued
    /// provider id: one more than the number of providers registered before,
    /// so ids are strictly increasing and never reused.
    ///
    /// Fails with `PausedState` while paused and with `InvalidInput` when
    /// the name is empty or too long, when the caller already registered, or
    /// when the id space is exhausted; no failure mutates anything.
    pub fn register_provider(&mut self, caller: u64, name: String) -> (r: Result<
        u64,
        SubscriptionError,
    >)
        requires
            old(self).wf(),
        ensures
            final(self).wf(),
            r.is_err() ==> *final(self) == *old(self),
            (r == Err::<u64, SubscriptionError>(SubscriptionError::PausedState)) <==> old(
                self,
            ).config.paused,
            (r == Err::<u64, SubscriptionError>(SubscriptionError::InvalidInput)) <==> (!old(
                self,
            ).config.paused && !old(self).can_register(caller, name@)),
            r.is_ok() <==> old(self).can_register(caller, name@),
            r.is_ok() ==> {
                &&& r == Ok::<u64, SubscriptionError>((old(self).providers@.len() + 1) as u64)
                &&& final(self).providers@.len() == old(self).providers@.len() + 1
                &&& final(self).spec_is_registered(caller)
                &&& final(self).spec_provider(caller) == (Provider {
                    owner: caller,
                    name,
                    active: true,
                    earnings_available: 0,
                    earnings_lifetime: 0,
                    active_subscriber_count: 0,
                    plan_ids: final(self).spec_provider(caller).plan_ids,
                })
                &&& final(self).spec_provider(caller).plan_ids@ == Seq::<u64>::empty()
                &&& old(self).same_providers_except(*final(self), caller)
                &&& final(self).providers@ == old(self).providers@.push(
                    final(self).spec_provider(caller),
                )
                &&& final(self).accounts == old(self).accounts
                &&& final(self).plans == old(self).plans
                &&& final(self).subscriptions == old(self).subscriptions
                &&& final(self).config == old(self).config
                &&& final(self).total_value_locked == old(self).total_value_locked
                &&& final(self).total_protocol_fees == old(self).total_protocol_fees
                &&& final(self).total_revenue_processed == old(self).total_revenue_processed
            },
    {
        if self.config.paused {
            return Err(SubscriptionError::PausedState);
        }
        let len = name.as_str().unicode_len();
        if len == 0 || len as u64 > MAX_NAME_LEN {
            return Err(SubscriptionError::InvalidInput);
        }
        if self.find_provider(caller).is_some() {
            return Err(SubscriptionError::InvalidInput);
        }
        let n = self.providers.len();
        if n as u64 >= u64::MAX - 1 {
            return Err(SubscriptionError::InvalidInput);
        }
        let ghost pre = *self;
        let record = Provider {
            owner: caller,
            name,
            active: true,
            earnings_available: 0,
            earnings_lifetime: 0,
            active_subscriber_count: 0,
            plan_ids: Vec::new(),
        };
        self.providers.push(record);
        proof {
            lemma_provider_push_frame(pre, *self, self.providers@.last());
        }
        Ok(n as u64 + 1)
    }

    /// Update the caller's provider profile: an empty name leaves the stored
    /// name unchanged, and the active flag is always applied.  Only the
    /// registered provider may call; deactivating only blocks new plans.
    pub fn update_provider(&mut self, caller: u64, new_name: String, active: bool) -> (r: Result<
        (),
        SubscriptionError,
    >)
        requires
            old(self).wf(),
        ensures
            final(self).wf(),
            r.is_err() ==> *final(self) == *old(self),
            (r == Err::<(), SubscriptionError>(SubscriptionError::PausedState)) <==> old(
                self,
            ).config.paused,
            (r == Err::<(), SubscriptionError>(SubscriptionError::Unauthorized)) <==> (!old(
                self,
            ).config.paused && !old(self).spec_is_registered(caller)),
            r.is_ok() <==> (!old(self).config.paused && old(self).spec_is_registered(caller)),
            r.is_ok() ==> {
                &&& final(self).spec_provider(caller) == (Provider {
                    name: if new_name@.len() == 0 {
                        old(self).spec_provider(caller).name
                    } else {
                        new_name
                    },
                    active,
                    ..old(self).spec_provider(caller)
                })
                &&& old(self).same_providers_except(*final(self), caller)
                &&& final(self).providers@.len() == old(self).providers@.len()
                &&& final(self).accounts == old(self).accounts
                &&& final(self).plans == old(self).plans
                &&& final(self).subscriptions == old(self).subscriptions
                &&& final(self).config == old(self).config
                &&& final(self).total_value_locked == old(self).total_value_locked
                &&& final(self).total_protocol_fees == old(self).total_protocol_fees
                &&& final(self).total_revenue_processed == old(self).total_revenue_processed
            },
    {
        if self.config.paused {
            return Err(SubscriptionError::PausedState);
        }
        let i = match self.find_provider(caller) {
            Some(i) => i,
            None => {
                return Err(SubscriptionError::Unauthorized);
            },
        };
        let ghost pre = *self;
        let mut rec = SubscriptionEscrow::blank_provider();
        self.providers.set_and_swap(i, &mut rec);
        if new_name.as_str().unicode_len() > 0 {
            rec.name = new_name;
        }
        rec.active = active;
        self.providers.set_and_swap(i, &mut rec);
        proof {
            assert(self.providers@ =~= pre.providers@.update(
                i as int,
                self.providers@[i as int],
            ));
            lemma_provider_update_frame(pre, *self, i as int, self.providers@[i as int]);
        }
        Ok(())
    }

    /// Mark the caller's provider registration inactive.  The record stays;
    /// existing plans and subscriptions continue, but no new plan can be
    /// created until the profile is reactivated.
    pub fn unregister_provider(&mut self, caller: u64) -> (r: Result<(), SubscriptionError>)
        requires
            old(self).wf(),
        ensures
            final(self).wf(),
            r.is_err() ==> *final(self) == *old(self),
            (r == Err::<(), SubscriptionError>(SubscriptionError::PausedState)) <==> old(
                self,
            ).config.paused,
            (r == Err::<(), SubscriptionError>(SubscriptionError::Unauthorized)) <==> (!old(
                self,
            ).config.paused && !old(self).spec_is_registered(caller)),
            r.is_ok() <==> (!old(self).config.paused && old(self).spec_is_registered(caller)),
            r.is_ok() ==> {
                &&& final(self).spec_provider(caller) == (Provider {
                    active: false,
                    ..old(self).spec_provider(caller)
                })
                &&& old(self).same_providers_except(*final(self), caller)
                &&& final(self).accounts == old(self).accounts
                &&& final(self).plans == old(self).plans
                &&& final(self).subscriptions == old(self).subscriptions
                &&& final(self).config == old(self).config
                &&& final(self).total_value_locked == old(self).total_value_locked
                &&& final(self).total_protocol_fees == old(self).total_protocol_fees
                &&& final(self).total_revenue_processed == old(self).total_revenue_processed
            },
    {
        if self.config.paused {
            return Err(SubscriptionError::PausedState);
        }
        let i = match self.find_provider(caller) {
            Some(i) => i,
            None => {
                return Err(SubscriptionError::Unauthorized);
            },
        };
        let ghost pre = *self;
        let mut rec = SubscriptionEscrow::blank_provider();
        self.providers.set_and_swap(i, &mut rec);
        rec.active = false;
        self.providers.set_and_swap(i, &mut rec);
        proof {
            assert(self.providers@ =~= pre.providers@.update(
                i as int,
                self.providers@[i as int],
            ));
            lemma_provider_update_frame(pre, *self, i as int, self.providers@[i as int]);
        }
        Ok(())
    }
}

} // verus!
