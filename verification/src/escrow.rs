//! The escrow ledger: deposits and the two-phase withdrawals.
//!
//! A withdrawal moves money out of the ledger through the host's native
//! transfer, which can fail.  Following checks-effects-interactions, the
//! first call ([`SubscriptionEscrow::withdraw_funds`] or the earnings
//! variants) validates and debits the ledger before any transfer is
//! attempted; the host then performs the transfer and reports its outcome to
//! the matching finish call, which on failure restores the ledger exactly to
//! its state before the debit.
//!
//! Large withdrawals are additionally gated by the configured delay: while
//! the delay is enabled and the amount is above
//! [`LARGE_WITHDRAWAL_THRESHOLD`], the first call only records the request
//! time and a second call after the delay performs the debit; the pending
//! request is cleared when the transfer completes.

use vstd::pervasive::VecAdditionalExecFns;
use vstd::prelude::*;

use crate::ledger::{
    acct_idx, lemma_acct_idx, lemma_sum_balances_element,
    lemma_sum_balances_nonneg, lemma_sum_earnings_element, lemma_sum_earnings_nonneg, prov_idx,
};
use crate::state::{lemma_account_update_frame, lemma_provider_update_frame, SubscriptionEscrow};
use crate::types::{
    EscrowAccount, Provider, SubscriptionError, WithdrawOutcome, LARGE_WITHDRAWAL_THRESHOLD,
};

verus! {

impl SubscriptionEscrow {
    /// Whether crediting `amount` to `caller` stays within the machine's
    /// counters: the total value locked and the account's lifetime deposit
    /// statistic must both fit.
    pub open spec fn deposit_fits(self, caller: u64, amount: u64) -> bool {
        &&& self.total_value_locked + amount <= u64::MAX
        &&& self.spec_total_deposited_of(caller) + amount <= u64::MAX
    }

    /// Whether the delay gate applies to a withdrawal of `amount`.
    pub open spec fn withdraw_gated(self, amount: u64) -> bool {
        self.config.withdrawal_delay_seconds > 0 && amount > LARGE_WITHDRAWAL_THRESHOLD
    }

    /// `post` is `pre` with `amount` debited from `caller`'s escrow balance
    /// and from the total value locked, and nothing else changed.
    pub open spec fn debit_balance_rel(
        pre: SubscriptionEscrow,
        post: SubscriptionEscrow,
        caller: u64,
        amount: u64,
    ) -> bool {
        let i = acct_idx(pre.accounts@, caller);
        &&& i >= 0
        &&& amount <= pre.accounts@[i].balance
        &&& amount <= pre.total_value_locked
        &&& post.accounts@ == pre.accounts@.update(
            i,
            (EscrowAccount {
                balance: (pre.accounts@[i].balance - amount) as u64,
                ..pre.accounts@[i]
            }),
        )
        &&& post.total_value_locked == pre.total_value_locked - amount
        &&& post.config == pre.config
        &&& post.providers == pre.providers
        &&& post.plans == pre.plans
        &&& post.subscriptions == pre.subscriptions
        &&& post.total_protocol_fees == pre.total_protocol_fees
        &&& post.total_revenue_processed == pre.total_revenue_processed
    }

    /// `post` is `pre` with `amount` credited back to `caller`'s escrow
    /// balance and to the total value locked, and nothing else changed.
    pub open spec fn credit_balance_rel(
        pre: SubscriptionEscrow,
        post: SubscriptionEscrow,
        caller: u64,
        amount: u64,
    ) -> bool {
        let i = acct_idx(pre.accounts@, caller);
        &&& i >= 0
        &&& pre.accounts@[i].balance + amount <= u64::MAX
        &&& pre.total_value_locked + amount <= u64::MAX
        &&& post.accounts@ == pre.accounts@.update(
            i,
            (EscrowAccount {
                balance: (pre.accounts@[i].balance + amount) as u64,
                ..pre.accounts@[i]
            }),
        )
        &&& post.total_value_locked == pre.total_value_locked + amount
        &&& post.config == pre.config
        &&& post.providers == pre.providers
        &&& post.plans == pre.plans
        &&& post.subscriptions == pre.subscriptions
        &&& post.total_protocol_fees == pre.total_protocol_fees
        &&& post.total_revenue_processed == pre.total_revenue_processed
    }

    /// `post` is `pre` with `caller`'s pending withdrawal request time set
    /// to `t`, and nothing else changed.
    pub open spec fn set_request_rel(
        pre: SubscriptionEscrow,
        post: SubscriptionEscrow,
        caller: u64,
        t: u64,
    ) -> bool {
        let i = acct_idx(pre.accounts@, caller);
        &&& i >= 0
        &&& post.accounts@ == pre.accounts@.update(
            i,
            (EscrowAccount { withdrawal_request_time: t, ..pre.accounts@[i] }),
        )
        &&& post.total_value_locked == pre.total_value_locked
        &&& post.config == pre.config
        &&& post.providers == pre.providers
        &&& post.plans == pre.plans
        &&& post.subscriptions == pre.subscriptions
        &&& post.total_protocol_fees == pre.total_protocol_fees
        &&& post.total_revenue_processed == pre.total_revenue_processed
    }

    /// `post` is `pre` with `amount` debited from provider `caller`'s
    /// withdrawable earnings and from the total value locked, and nothing
    /// else changed.
    pub open spec fn debit_earnings_rel(
        pre: SubscriptionEscrow,
        post: SubscriptionEscrow,
        caller: u64,
        amount: u64,
    ) -> bool {
        let i = prov_idx(pre.providers@, caller);
        &&& i >= 0
        &&& amount <= pre.providers@[i].earnings_available
        &&& amount <= pre.total_value_locked
        &&& post.providers@ == pre.providers@.update(
            i,
            (Provider {
                earnings_available: (pre.providers@[i].earnings_available - amount) as u64,
                ..pre.providers@[i]
            }),
        )
        &&& post.total_value_locked == pre.total_value_locked - amount
        &&& post.config == pre.config
        &&& post.accounts == pre.accounts
        &&& post.plans == pre.plans
        &&& post.subscriptions == pre.subscriptions
        &&& post.total_protocol_fees == pre.total_protocol_fees
        &&& post.total_revenue_processed == pre.total_revenue_processed
    }

    /// `post` is `pre` with `amount` credited back to provider `caller`'s
    /// withdrawable earnings and to the total value locked, and nothing else
    /// changed.
    pub open spec fn credit_earnings_rel(
        pre: SubscriptionEscrow,
        post: SubscriptionEscrow,
        caller: u64,
        amount: u64,
    ) -> bool {
        let i = prov_idx(pre.providers@, caller);
        &&& i >= 0
        &&& pre.providers@[i].earnings_available + amount <= u64::MAX
        &&& pre.total_value_locked + amount <= u64::MAX
        &&& post.providers@ == pre.providers@.update(
            i,
            (Provider {
                earnings_available: (pre.providers@[i].earnings_available + amount) as u64,
                ..pre.providers@[i]
            }),
        )
        &&& post.total_value_locked == pre.total_value_locked + amount
        &&& post.config == pre.config
        &&& post.accounts == pre.accounts
        &&& post.plans == pre.plans
        &&& post.subscriptions == pre.subscriptions
        &&& post.total_protocol_fees == pre.total_protocol_fees
        &&& post.total_revenue_processed == pre.total_revenue_processed
    }

    /// Credit `amount` to the caller's escrow balance.
    ///
    /// Fails with `PausedState` while paused, and with `InvalidInput` when
    /// `amount` is zero or a counter would overflow; no failure mutates
    /// anything.  On success the caller's balance, lifetime deposits and the
    /// total value locked each grow by `amount` and nothing else changes.
    pub fn deposit(&mut self, caller: u64, amount: u64) -> (r: Result<(), SubscriptionError>)
        requires
            old(self).wf(),
        ensures
            final(self).wf(),
            r.is_err() ==> *final(self) == *old(self),
            (r == Err::<(), SubscriptionError>(SubscriptionError::PausedState)) <==> old(
                self,
            ).config.paused,
            (r == Err::<(), SubscriptionError>(SubscriptionError::InvalidInput)) <==> (!old(
                self,
            ).config.paused && (amount == 0 || !old(self).deposit_fits(caller, amount))),
            (r == Ok::<(), SubscriptionError>(())) <==> (!old(self).config.paused && amount >= 1
                && old(self).deposit_fits(caller, amount)),
            r.is_ok() ==> {
                &&& final(self).spec_has_account(caller)
                &&& final(self).spec_balance_of(caller) == old(self).spec_balance_of(caller)
                    + amount
                &&& final(self).spec_total_deposited_of(caller) == old(
                    self,
                ).spec_total_deposited_of(caller) + amount
                &&& final(self).spec_total_spent_of(caller) == old(self).spec_total_spent_of(
                    caller,
                )
                &&& final(self).spec_withdrawal_request_of(caller) == old(
                    self,
                ).spec_withdrawal_request_of(caller)
                &&& final(self).spec_subs_of(caller) == old(self).spec_subs_of(caller)
                &&& old(self).same_accounts_except(*final(self), caller)
                &&& final(self).total_value_locked == old(self).total_value_locked + amount
                &&& final(self).providers == old(self).providers
                &&& final(self).plans == old(self).plans
                &&& final(self).subscriptions == old(self).subscriptions
                &&& final(self).config == old(self).config
                &&& final(self).total_protocol_fees == old(self).total_protocol_fees
                &&& final(self).total_revenue_processed == old(self).total_revenue_processed
            },
    {
        if self.config.paused {
            return Err(SubscriptionError::PausedState);
        }
        if amount == 0 {
            return Err(SubscriptionError::InvalidInput);
        }
        let deposited: u64 = match self.find_account(caller) {
            Some(i) => self.accounts[i].total_deposited,
            None => 0,
        };
        if amount > u64::MAX - self.total_value_locked || deposited > u64::MAX - amount {
            return Err(SubscriptionError::InvalidInput);
        }
        let ghost pre = *self;
        let i = self.ensure_account(caller);
        let ghost mid = *self;
        let mut rec = SubscriptionEscrow::blank_account();
        self.accounts.set_and_swap(i, &mut rec);
        proof {
            lemma_sum_balances_element(mid.accounts@, i as int);
            lemma_sum_earnings_nonneg(mid.providers@);
        }
        rec.balance = rec.balance + amount;
        rec.total_deposited = rec.total_deposited + amount;
        self.accounts.set_and_swap(i, &mut rec);
        self.total_value_locked = self.total_value_locked + amount;
        proof {
            assert(self.accounts@ =~= mid.accounts@.update(
                i as int,
                self.accounts@[i as int],
            ));
            lemma_account_update_frame(mid, *self, i as int, self.accounts@[i as int]);
            if pre.spec_has_account(caller) {
                assert(pre.same_accounts_except(*self, caller));
            } else {
                assert forall|o: u64| o != caller implies #[trigger] self.spec_has_account(o)
                    == pre.spec_has_account(o) by {
                    lemma_acct_idx(pre.accounts@, o);
                }
                assert forall|o: u64| o != caller && pre.spec_has_account(o) implies #[trigger]
                    self.spec_account(o) == pre.spec_account(o) by {
                    lemma_acct_idx(pre.accounts@, o);
                }
            }
        }
        Ok(())
    }

    /// Start a withdrawal of `amount` from the caller's escrow balance.
    ///
    /// Fails with `PausedState` while paused, `InvalidInput` on a zero
    /// amount or while a gated request waits out the delay, and
    /// `InsufficientFunds` when the balance is short; no failure mutates
    /// anything.  When the delay gate applies and no request is pending, the
    /// call only records the request time and returns `Requested` without
    /// moving funds (a request recorded at time zero reads as no pending
    /// request and is simply recorded again).  Otherwise it debits the
    /// balance and the total value
    /// locked and returns `Debited`: the host must then attempt the native
    /// transfer and report its outcome to
    /// [`Self::withdraw_funds_finish`].
    pub fn withdraw_funds(&mut self, caller: u64, now: u64, amount: u64) -> (r: Result<
        WithdrawOutcome,
        SubscriptionError,
    >)
        requires
            old(self).wf(),
        ensures
            final(self).wf(),
            r.is_err() ==> *final(self) == *old(self),
            (r == Err::<WithdrawOutcome, SubscriptionError>(SubscriptionError::PausedState))
                <==> old(self).config.paused,
            (r == Err::<WithdrawOutcome, SubscriptionError>(SubscriptionError::InsufficientFunds))
                <==> (!old(self).config.paused && amount >= 1 && amount > old(
                self,
            ).spec_balance_of(caller)),
            (r == Err::<WithdrawOutcome, SubscriptionError>(SubscriptionError::InvalidInput))
                <==> (!old(self).config.paused && (amount == 0 || (amount <= old(
                self,
            ).spec_balance_of(caller) && old(self).withdraw_gated(amount) && old(
                self,
            ).spec_withdrawal_request_of(caller) != 0 && now < old(
                self,
            ).spec_withdrawal_request_of(caller)
                + old(self).config.withdrawal_delay_seconds))),
            (r == Ok::<WithdrawOutcome, SubscriptionError>(WithdrawOutcome::Requested)) <==> (!old(
                self,
            ).config.paused && 1 <= amount && amount <= old(self).spec_balance_of(caller) && old(
                self,
            ).withdraw_gated(amount) && old(self).spec_withdrawal_request_of(caller) == 0),
            (r == Ok::<WithdrawOutcome, SubscriptionError>(WithdrawOutcome::Debited)) <==> (!old(
                self,
            ).config.paused && 1 <= amount && amount <= old(self).spec_balance_of(caller)
                && (!old(self).withdraw_gated(amount) || (old(self).spec_withdrawal_request_of(
                caller,
            ) != 0 && now >= old(self).spec_withdrawal_request_of(caller)
                + old(self).config.withdrawal_delay_seconds))),
            r == Ok::<WithdrawOutcome, SubscriptionError>(WithdrawOutcome::Requested) ==> {
                &&& SubscriptionEscrow::set_request_rel(*old(self), *final(self), caller, now)
                &&& final(self).spec_withdrawal_request_of(caller) == now
                &&& final(self).spec_balance_of(caller) == old(self).spec_balance_of(caller)
                &&& old(self).same_accounts_except(*final(self), caller)
            },
            r == Ok::<WithdrawOutcome, SubscriptionError>(WithdrawOutcome::Debited) ==> {
                &&& SubscriptionEscrow::debit_balance_rel(*old(self), *final(self), caller, amount)
                &&& final(self).spec_balance_of(caller) == old(self).spec_balance_of(caller)
                    - amount
                &&& final(self).spec_withdrawal_request_of(caller) == old(
                    self,
                ).spec_withdrawal_request_of(caller)
                &&& old(self).same_accounts_except(*final(self), caller)
            },
    {
        if self.config.paused {
            return Err(SubscriptionError::PausedState);
        }
        if amount == 0 {
            return Err(SubscriptionError::InvalidInput);
        }
        let i = match self.find_account(caller) {
            Some(i) => i,
            None => {
                return Err(SubscriptionError::InsufficientFunds);
            },
        };
        if amount > self.accounts[i].balance {
            return Err(SubscriptionError::InsufficientFunds);
        }
        let ghost pre = *self;
        let delay = self.config.withdrawal_delay_seconds;
        if delay > 0 && amount > LARGE_WITHDRAWAL_THRESHOLD {
            let request = self.accounts[i].withdrawal_request_time;
            if request == 0 {
                let mut rec = SubscriptionEscrow::blank_account();
                self.accounts.set_and_swap(i, &mut rec);
                rec.withdrawal_request_time = now;
                self.accounts.set_and_swap(i, &mut rec);
                proof {
                    assert(self.accounts@ =~= pre.accounts@.update(
                        i as int,
                        self.accounts@[i as int],
                    ));
                    lemma_account_update_frame(pre, *self, i as int, self.accounts@[i as int]);
                }
                return Ok(WithdrawOutcome::Requested);
            }
            if (now as u128) < (request as u128) + (delay as u128) {
                return Err(SubscriptionError::InvalidInput);
            }
        }
        proof {
            lemma_sum_balances_element(pre.accounts@, i as int);
            lemma_sum_earnings_nonneg(pre.providers@);
        }
        let mut rec = SubscriptionEscrow::blank_account();
        self.accounts.set_and_swap(i, &mut rec);
        rec.balance = rec.balance - amount;
        self.accounts.set_and_swap(i, &mut rec);
        self.total_value_locked = self.total_value_locked - amount;
        proof {
            assert(self.accounts@ =~= pre.accounts@.update(
                i as int,
                self.accounts@[i as int],
            ));
            lemma_account_update_frame(pre, *self, i as int, self.accounts@[i as int]);
        }
        Ok(WithdrawOutcome::Debited)
    }

    /// Settle a withdrawal whose debit was reported by
    /// [`Self::withdraw_funds`] as `Debited`, after the host attempted the
    /// native transfer.
    ///
    /// On success only a pending gated request is cleared; the debited money
    /// has left the ledger.  On failure the debit is reversed exactly: the
    /// balance and the total value locked return to their values before the
    /// withdrawal call, and the pending request, never cleared on this path,
    /// is untouched.
    pub fn withdraw_funds_finish(&mut self, caller: u64, amount: u64, transfer_ok: bool)
        requires
            old(self).wf(),
            old(self).spec_has_account(caller),
            !transfer_ok ==> old(self).spec_balance_of(caller) + amount <= u64::MAX && old(
                self,
            ).total_value_locked + amount <= u64::MAX,
        ensures
            final(self).wf(),
            transfer_ok && !old(self).withdraw_gated(amount) ==> *final(self) == *old(self),
            transfer_ok && old(self).withdraw_gated(amount) ==> {
                &&& SubscriptionEscrow::set_request_rel(*old(self), *final(self), caller, 0)
                &&& final(self).spec_withdrawal_request_of(caller) == 0
                &&& final(self).spec_balance_of(caller) == old(self).spec_balance_of(caller)
                &&& old(self).same_accounts_except(*final(self), caller)
            },
            !transfer_ok ==> {
                &&& SubscriptionEscrow::credit_balance_rel(*old(self), *final(self), caller, amount)
                &&& final(self).spec_balance_of(caller) == old(self).spec_balance_of(caller)
                    + amount
                &&& final(self).spec_withdrawal_request_of(caller) == old(
                    self,
                ).spec_withdrawal_request_of(caller)
                &&& old(self).same_accounts_except(*final(self), caller)
            },
    {
        let ghost pre = *self;
        let i = match self.find_account(caller) {
            Some(i) => i,
            None => {
                proof {
                    assert(false);
                }
                return ;
            },
        };
        if transfer_ok {
            if self.config.withdrawal_delay_seconds > 0 && amount > LARGE_WITHDRAWAL_THRESHOLD {
                let mut rec = SubscriptionEscrow::blank_account();
                self.accounts.set_and_swap(i, &mut rec);
                rec.withdrawal_request_time = 0;
                self.accounts.set_and_swap(i, &mut rec);
                proof {
                    assert(self.accounts@ =~= pre.accounts@.update(
                        i as int,
                        self.accounts@[i as int],
                    ));
                    lemma_account_update_frame(pre, *self, i as int, self.accounts@[i as int]);
                }
            }
        } else {
            let mut rec = SubscriptionEscrow::blank_account();
            self.accounts.set_and_swap(i, &mut rec);
            rec.balance = rec.balance + amount;
            self.accounts.set_and_swap(i, &mut rec);
            self.total_value_locked = self.total_value_locked + amount;
            proof {
                assert(self.accounts@ =~= pre.accounts@.update(
                    i as int,
                    self.accounts@[i as int],
                ));
                lemma_account_update_frame(pre, *self, i as int, self.accounts@[i as int]);
            }
        }
    }

    /// Start a withdrawal of `amount` from the caller's provider earnings.
    ///
    /// Only a registered provider may call.  Fails with `PausedState` while
    /// paused, `Unauthorized` for a non-provider, `InvalidInput` on a zero
    /// amount and `InsufficientFunds` when the earnings are short; no
    /// failure mutates anything.  On success the earnings and the total
    /// value locked are debited before any transfer is attempted; the host
    /// must then attempt the native transfer and report its outcome to
    /// [`Self::withdraw_earnings_finish`].
    pub fn withdraw_earnings(&mut self, caller: u64, amount: u64) -> (r: Result<
        (),
        SubscriptionError,
    >)
        requires
            old(self).wf(),
        ensures
            final(self).wf(),
            r.is_err() ==> *final(self) == *old(self),
            (r == Err::<(), SubscriptionError>(SubscriptionError::PausedState)) <==> old(
                self,
            ).config.paused,
            (r == Err::<(), SubscriptionError>(SubscriptionError::Unauthorized)) <==> (!old(
                self,
            ).config.paused && !old(self).spec_is_registered(caller)),
            (r == Err::<(), SubscriptionError>(SubscriptionError::InvalidInput)) <==> (!old(
                self,
            ).config.paused && old(self).spec_is_registered(caller) && amount == 0),
            (r == Err::<(), SubscriptionError>(SubscriptionError::InsufficientFunds)) <==> (!old(
                self,
            ).config.paused && old(self).spec_is_registered(caller) && amount >= 1 && amount > old(
                self,
            ).spec_earnings_of(caller)),
            (r == Ok::<(), SubscriptionError>(())) <==> (!old(self).config.paused && old(
                self,
            ).spec_is_registered(caller) && 1 <= amount && amount <= old(self).spec_earnings_of(
                caller,
            )),
            r.is_ok() ==> {
                &&& SubscriptionEscrow::debit_earnings_rel(*old(self), *final(self), caller, amount)
                &&& final(self).spec_earnings_of(caller) == old(self).spec_earnings_of(caller)
                    - amount
                &&& old(self).same_providers_except(*final(self), caller)
            },
    {
        if self.config.paused {
            return Err(SubscriptionError::PausedState);
        }
        let i = match self.find_provider(caller) {
            Some(i) => i,
            None => {
                return Err(SubscriptionError::Unauthorized);
            },
        };
        if amount == 0 {
            return Err(SubscriptionError::InvalidInput);
        }
        if amount > self.providers[i].earnings_available {
            return Err(SubscriptionError::InsufficientFunds);
        }
        let ghost pre = *self;
        proof {
            lemma_sum_earnings_element(pre.providers@, i as int);
            lemma_sum_balances_nonneg(pre.accounts@);
        }
        let mut rec = SubscriptionEscrow::blank_provider();
        self.providers.set_and_swap(i, &mut rec);
        rec.earnings_available = rec.earnings_available - amount;
        self.providers.set_and_swap(i, &mut rec);
        self.total_value_locked = self.total_value_locked - amount;
        proof {
            assert(self.providers@ =~= pre.providers@.update(
                i as int,
                self.providers@[i as int],
            ));
            lemma_provider_update_frame(pre, *self, i as int, self.providers@[i as int]);
        }
        Ok(())
    }

    /// Settle an earnings withdrawal after the host attempted the native
    /// transfer.  On success nothing changes: the debited money has left the
    /// ledger.  On failure the debit is reversed exactly.
    pub fn withdraw_earnings_finish(&mut self, caller: u64, amount: u64, transfer_ok: bool)
        requires
            old(self).wf(),
            old(self).spec_is_registered(caller),
            !transfer_ok ==> old(self).spec_earnings_of(caller) + amount <= u64::MAX && old(
                self,
            ).total_value_locked + amount <= u64::MAX,
        ensures
            final(self).wf(),
            transfer_ok ==> *final(self) == *old(self),
            !transfer_ok ==> {
                &&& SubscriptionEscrow::credit_earnings_rel(
                    *old(self),
                    *final(self),
                    caller,
                    amount,
                )
                &&& final(self).spec_earnings_of(caller) == old(self).spec_earnings_of(caller)
                    + amount
                &&& old(self).same_providers_except(*final(self), caller)
            },
    {
        if transfer_ok {
            return ;
        }
        let ghost pre = *self;
        let i = match self.find_provider(caller) {
            Some(i) => i,
            None => {
                proof {
                    assert(false);
                }
                return ;
            },
        };
        let mut rec = SubscriptionEscrow::blank_provider();
        self.providers.set_and_swap(i, &mut rec);
        rec.earnings_available = rec.earnings_available + amount;
        self.providers.set_and_swap(i, &mut rec);
        self.total_value_locked = self.total_value_locked + amount;
        proof {
            assert(self.providers@ =~= pre.providers@.update(
                i as int,
                self.providers@[i as int],
            ));
            lemma_provider_update_frame(pre, *self, i as int, self.providers@[i as int]);
        }
    }

    /// Start a withdrawal of the caller's entire provider earnings,
    /// returning the amount debited for the host to transfer.  Fails with
    /// `InvalidInput` when nothing is withdrawable; otherwise as
    /// [`Self::withdraw_earnings`], and settled by the same finish call.
    pub fn withdraw_provider_earnings(&mut self, caller: u64) -> (r: Result<
        u64,
        SubscriptionError,
    >)
        requires
            old(self).wf(),
        ensures
            final(self).wf(),
            r.is_err() ==> *final(self) == *old(self),
            (r == Err::<u64, SubscriptionError>(SubscriptionError::PausedState)) <==> old(
                self,
            ).config.paused,
            (r == Err::<u64, SubscriptionError>(SubscriptionError::Unauthorized)) <==> (!old(
                self,
            ).config.paused && !old(self).spec_is_registered(caller)),
            (r == Err::<u64, SubscriptionError>(SubscriptionError::InvalidInput)) <==> (!old(
                self,
            ).config.paused && old(self).spec_is_registered(caller) && old(self).spec_earnings_of(
                caller,
            ) == 0),
            r.is_ok() <==> (!old(self).config.paused && old(self).spec_is_registered(caller)
                && old(self).spec_earnings_of(caller) >= 1),
            r.is_ok() ==> {
                &&& r == Ok::<u64, SubscriptionError>(old(self).spec_earnings_of(caller))
                &&& SubscriptionEscrow::debit_earnings_rel(
                    *old(self),
                    *final(self),
                    caller,
                    old(self).spec_earnings_of(caller),
                )
                &&& final(self).spec_earnings_of(caller) == 0
                &&& old(self).same_providers_except(*final(self), caller)
            },
    {
        if self.config.paused {
            return Err(SubscriptionError::PausedState);
        }
        let i = match self.find_provider(caller) {
            Some(i) => i,
            None => {
                return Err(SubscriptionError::Unauthorized);
            },
        };
        let earnings = self.providers[i].earnings_available;
        if earnings == 0 {
            return Err(SubscriptionError::InvalidInput);
        }
        match self.withdraw_earnings(caller, earnings) {
            Ok(()) => Ok(earnings),
            Err(e) => {
                proof {
                    assert(false);
                }
                Err(e)
            },
        }
    }
}

} // verus!
