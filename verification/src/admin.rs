//! Administrative control: the pause switch, role rotation, keeper
//! selection and bounded parameter updates.
//!
//! None of these operations touches a balance, so each one's contract pins
//! the new configuration and states that everything else is untouched.

use vstd::prelude::*;

use crate::state::SubscriptionEscrow;
use crate::types::{SubscriptionError, SystemConfig, BPS_DENOMINATOR, KEEPER_FEE_CEILING};

verus! {

impl SubscriptionEscrow {
    /// Hand the admin role to `new_admin`.  Only the admin may call; the
    /// zero account is rejected so the role can never be lost.
    pub fn update_admin(&mut self, caller: u64, new_admin: u64) -> (r: Result<
        (),
        SubscriptionError,
    >)
        requires
            old(self).wf(),
        ensures
            final(self).wf(),
            r.is_err() ==> *final(self) == *old(self),
            (r == Err::<(), SubscriptionError>(SubscriptionError::Unauthorized)) <==> caller
                != old(self).config.admin,
            (r == Err::<(), SubscriptionError>(SubscriptionError::InvalidInput)) <==> (caller
                == old(self).config.admin && new_admin == 0),
            r.is_ok() <==> (caller == old(self).config.admin && new_admin != 0),
            r.is_ok() ==> *final(self) == (SubscriptionEscrow {
                config: (SystemConfig { admin: new_admin, ..old(self).config }),
                ..*old(self)
            }),
    {
        if caller != self.config.admin {
            return Err(SubscriptionError::Unauthorized);
        }
        if new_admin == 0 {
            return Err(SubscriptionError::InvalidInput);
        }
        self.config.admin = new_admin;
        Ok(())
    }

    /// Hand the emergency-pause role to `new_emergency_admin`.  Only the
    /// admin may call; the zero account is rejected.
    pub fn set_emergency_admin(&mut self, caller: u64, new_emergency_admin: u64) -> (r: Result<
        (),
        SubscriptionError,
    >)
        requires
            old(self).wf(),
        ensures
            final(self).wf(),
            r.is_err() ==> *final(self) == *old(self),
            (r == Err::<(), SubscriptionError>(SubscriptionError::Unauthorized)) <==> caller
                != old(self).config.admin,
            (r == Err::<(), SubscriptionError>(SubscriptionError::InvalidInput)) <==> (caller
                == old(self).config.admin && new_emergency_admin == 0),
            r.is_ok() <==> (caller == old(self).config.admin && new_emergency_admin != 0),
            r.is_ok() ==> *final(self) == (SubscriptionEscrow {
                config: (SystemConfig {
                    emergency_admin: new_emergency_admin,
                    ..old(self).config
                }),
                ..*old(self)
            }),
    {
        if caller != self.config.admin {
            return Err(SubscriptionError::Unauthorized);
        }
        if new_emergency_admin == 0 {
            return Err(SubscriptionError::InvalidInput);
        }
        self.config.emergency_admin = new_emergency_admin;
        Ok(())
    }

    /// Toggle the system-wide pause and return the new state.  Only the
    /// admin or the emergency admin may call.  While paused, every mutating
    /// non-admin operation fails with `PausedState`; read-only queries stay
    /// available.
    pub fn emergency_pause(&mut self, caller: u64) -> (r: Result<bool, SubscriptionError>)
        requires
            old(self).wf(),
        ensures
            final(self).wf(),
            r.is_err() ==> *final(self) == *old(self),
            r.is_ok() <==> (caller == old(self).config.admin || caller == old(
                self,
            ).config.emergency_admin),
            r.is_err() <==> r == Err::<bool, SubscriptionError>(SubscriptionError::Unauthorized),
            r.is_ok() ==> {
                &&& r == Ok::<bool, SubscriptionError>(!old(self).config.paused)
                &&& *final(self) == (SubscriptionEscrow {
                    config: (SystemConfig { paused: !old(self).config.paused, ..old(self).config }),
                    ..*old(self)
                })
            },
    {
        if caller != self.config.admin && caller != self.config.emergency_admin {
            return Err(SubscriptionError::Unauthorized);
        }
        let next = !self.config.paused;
        self.config.paused = next;
        Ok(next)
    }

    /// Name the authorized keeper; the zero account unsets it.  Only the
    /// admin may call.
    pub fn set_keeper(&mut self, caller: u64, keeper: u64) -> (r: Result<(), SubscriptionError>)
        requires
            old(self).wf(),
        ensures
            final(self).wf(),
            r.is_err() ==> *final(self) == *old(self),
            r.is_ok() <==> caller == old(self).config.admin,
            r.is_err() <==> r == Err::<(), SubscriptionError>(SubscriptionError::Unauthorized),
            r.is_ok() ==> *final(self) == (SubscriptionEscrow {
                config: (SystemConfig { keeper, ..old(self).config }),
                ..*old(self)
            }),
    {
        if caller != self.config.admin {
            return Err(SubscriptionError::Unauthorized);
        }
        self.config.keeper = keeper;
        Ok(())
    }

    /// Whether a fee-parameter update to these values is acceptable: the two
    /// rates together never exceed the whole price, the clamp bounds are
    /// ordered, and the upper bound stays under the absolute ceiling.
    pub open spec fn fee_params_ok(
        protocol_fee_bps: u64,
        keeper_fee_bps: u64,
        min_fee: u64,
        max_fee: u64,
    ) -> bool {
        &&& protocol_fee_bps + keeper_fee_bps <= BPS_DENOMINATOR
        &&& min_fee <= max_fee
        &&& max_fee <= KEEPER_FEE_CEILING
    }

    /// Update the fee parameters.  Only the admin may call; values violating
    /// [`Self::fee_params_ok`] are rejected with `InvalidInput` before
    /// anything is applied.
    pub fn update_system_parameters(
        &mut self,
        caller: u64,
        protocol_fee_bps: u64,
        keeper_fee_bps: u64,
        min_fee: u64,
        max_fee: u64,
    ) -> (r: Result<(), SubscriptionError>)
        requires
            old(self).wf(),
        ensures
            final(self).wf(),
            r.is_err() ==> *final(self) == *old(self),
            (r == Err::<(), SubscriptionError>(SubscriptionError::Unauthorized)) <==> caller
                != old(self).config.admin,
            (r == Err::<(), SubscriptionError>(SubscriptionError::InvalidInput)) <==> (caller
                == old(self).config.admin && !SubscriptionEscrow::fee_params_ok(
                protocol_fee_bps,
                keeper_fee_bps,
                min_fee,
                max_fee,
            )),
            r.is_ok() <==> (caller == old(self).config.admin
                && SubscriptionEscrow::fee_params_ok(
                protocol_fee_bps,
                keeper_fee_bps,
                min_fee,
                max_fee,
            )),
            r.is_ok() ==> *final(self) == (SubscriptionEscrow {
                config: (SystemConfig {
                    protocol_fee_bps,
                    keeper_fee_bps,
                    min_keeper_fee: min_fee,
                    max_keeper_fee: max_fee,
                    ..old(self).config
                }),
                ..*old(self)
            }),
    {
        if caller != self.config.admin {
            return Err(SubscriptionError::Unauthorized);
        }
        if (protocol_fee_bps as u128) + (keeper_fee_bps as u128) > BPS_DENOMINATOR as u128
            || min_fee > max_fee || max_fee > KEEPER_FEE_CEILING {
            return Err(SubscriptionError::InvalidInput);
        }
        self.config.protocol_fee_bps = protocol_fee_bps;
        self.config.keeper_fee_bps = keeper_fee_bps;
        self.config.min_keeper_fee = min_fee;
        self.config.max_keeper_fee = max_fee;
        Ok(())
    }

    /// Update the plan bounds.  Only the admin may call; an interval window
    /// with `min > max` is rejected with `InvalidInput`.
    pub fn update_plan_bounds(
        &mut self,
        caller: u64,
        min_interval: u64,
        max_interval: u64,
        max_price: u64,
    ) -> (r: Result<(), SubscriptionError>)
        requires
            old(self).wf(),
        ensures
            final(self).wf(),
            r.is_err() ==> *final(self) == *old(self),
            (r == Err::<(), SubscriptionError>(SubscriptionError::Unauthorized)) <==> caller
                != old(self).config.admin,
            (r == Err::<(), SubscriptionError>(SubscriptionError::InvalidInput)) <==> (caller
                == old(self).config.admin && min_interval > max_interval),
            r.is_ok() <==> (caller == old(self).config.admin && min_interval <= max_interval),
            r.is_ok() ==> *final(self) == (SubscriptionEscrow {
                config: (SystemConfig {
                    min_plan_interval: min_interval,
                    max_plan_interval: max_interval,
                    max_plan_price: max_price,
                    ..old(self).config
                }),
                ..*old(self)
            }),
    {
        if caller != self.config.admin {
            return Err(SubscriptionError::Unauthorized);
        }
        if min_interval > max_interval {
            return Err(SubscriptionError::InvalidInput);
        }
        self.config.min_plan_interval = min_interval;
        self.config.max_plan_interval = max_interval;
        self.config.max_plan_price = max_price;
        Ok(())
    }

    /// Set the delay imposed on large withdrawals; a zero delay lets every
    /// withdrawal execute at once.  Only the admin may call.
    pub fn set_withdrawal_delay(&mut self, caller: u64, seconds: u64) -> (r: Result<
        (),
        SubscriptionError,
    >)
        requires
            old(self).wf(),
        ensures
            final(self).wf(),
            r.is_err() ==> *final(self) == *old(self),
            r.is_ok() <==> caller == old(self).config.admin,
            r.is_err() <==> r == Err::<(), SubscriptionError>(SubscriptionError::Unauthorized),
            r.is_ok() ==> *final(self) == (SubscriptionEscrow {
                config: (SystemConfig {
                    withdrawal_delay_seconds: seconds,
                    ..old(self).config
                }),
                ..*old(self)
            }),
    {
        if caller != self.config.admin {
            return Err(SubscriptionError::Unauthorized);
        }
        self.config.withdrawal_delay_seconds = seconds;
        Ok(())
    }
}

} // verus!
