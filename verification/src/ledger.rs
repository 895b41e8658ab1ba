//! The mathematical view of the two owner-keyed tables: the escrow accounts
//! and the providers.  Both are sequences whose records carry their owning
//! account; this module defines the owner lookup, the distinct-owners
//! predicate, and the balance and earnings sums that the conservation law is
//! stated over, together with the lemmas the operations use.

use vstd::prelude::*;

use crate::types::{EscrowAccount, Provider};

verus! {

/// Sum of all escrow balances.
pub open spec fn sum_balances(s: Seq<EscrowAccount>) -> int
    decreases s.len(),
{
    if s.len() == 0 {
        0
    } else {
        sum_balances(s.drop_last()) + s.last().balance
    }
}

/// Sum of all withdrawable provider earnings.
pub open spec fn sum_earnings(s: Seq<Provider>) -> int
    decreases s.len(),
{
    if s.len() == 0 {
        0
    } else {
        sum_earnings(s.drop_last()) + s.last().earnings_available
    }
}

/// Position of the record owned by `owner`, or `-1` when there is none.
pub open spec fn acct_idx(s: Seq<EscrowAccount>, owner: u64) -> int
    decreases s.len(),
{
    if s.len() == 0 {
        -1
    } else if s.last().owner == owner {
        s.len() - 1
    } else {
        acct_idx(s.drop_last(), owner)
    }
}

/// Position of the provider record owned by `owner`, or `-1` when there is
/// none.
pub open spec fn prov_idx(s: Seq<Provider>, owner: u64) -> int
    decreases s.len(),
{
    if s.len() == 0 {
        -1
    } else if s.last().owner == owner {
        s.len() - 1
    } else {
        prov_idx(s.drop_last(), owner)
    }
}

/// No two escrow records share an owner.
pub open spec fn accts_distinct(s: Seq<EscrowAccount>) -> bool {
    forall|i: int, j: int| 0 <= i < j < s.len() ==> s[i].owner != s[j].owner
}

/// No two provider records share an owner.
pub open spec fn provs_distinct(s: Seq<Provider>) -> bool {
    forall|i: int, j: int| 0 <= i < j < s.len() ==> s[i].owner != s[j].owner
}

pub proof fn lemma_sum_balances_nonneg(s: Seq<EscrowAccount>)
    ensures
        0 <= sum_balances(s),
    decreases s.len(),
{
    if s.len() > 0 {
        lemma_sum_balances_nonneg(s.drop_last());
    }
}

pub proof fn lemma_sum_earnings_nonneg(s: Seq<Provider>)
    ensures
        0 <= sum_earnings(s),
    decreases s.len(),
{
    if s.len() > 0 {
        lemma_sum_earnings_nonneg(s.drop_last());
    }
}

/// Every single balance is bounded by the sum of all balances.
pub proof fn lemma_sum_balances_element(s: Seq<EscrowAccount>, i: int)
    requires
        0 <= i < s.len(),
    ensures
        s[i].balance <= sum_balances(s),
    decreases s.len(),
{
    if i == s.len() - 1 {
        lemma_sum_balances_nonneg(s.drop_last());
    } else {
        lemma_sum_balances_element(s.drop_last(), i);
        assert(s.drop_last()[i] == s[i]);
    }
}

/// Every single earnings total is bounded by the sum of all earnings.
pub proof fn lemma_sum_earnings_element(s: Seq<Provider>, i: int)
    requires
        0 <= i < s.len(),
    ensures
        s[i].earnings_available <= sum_earnings(s),
    decreases s.len(),
{
    if i == s.len() - 1 {
        lemma_sum_earnings_nonneg(s.drop_last());
    } else {
        lemma_sum_earnings_element(s.drop_last(), i);
        assert(s.drop_last()[i] == s[i]);
    }
}

/// Replacing one record changes the sum by the difference of its balance.
pub proof fn lemma_sum_balances_update(s: Seq<EscrowAccount>, i: int, v: EscrowAccount)
    requires
        0 <= i < s.len(),
    ensures
        sum_balances(s.update(i, v)) == sum_balances(s) - s[i].balance + v.balance,
    decreases s.len(),
{
    let t = s.update(i, v);
    if i == s.len() - 1 {
        assert(t.drop_last() =~= s.drop_last());
    } else {
        assert(t.drop_last() =~= s.drop_last().update(i, v));
        assert(t.last() == s.last());
        lemma_sum_balances_update(s.drop_last(), i, v);
        assert(s.drop_last()[i] == s[i]);
    }
}

/// Replacing one record changes the sum by the difference of its earnings.
pub proof fn lemma_sum_earnings_update(s: Seq<Provider>, i: int, v: Provider)
    requires
        0 <= i < s.len(),
    ensures
        sum_earnings(s.update(i, v)) == sum_earnings(s) - s[i].earnings_available
            + v.earnings_available,
    decreases s.len(),
{
    let t = s.update(i, v);
    if i == s.len() - 1 {
        assert(t.drop_last() =~= s.drop_last());
    } else {
        assert(t.drop_last() =~= s.drop_last().update(i, v));
        assert(t.last() == s.last());
        lemma_sum_earnings_update(s.drop_last(), i, v);
        assert(s.drop_last()[i] == s[i]);
    }
}

/// Appending a record adds its balance to the sum.
pub proof fn lemma_sum_balances_push(s: Seq<EscrowAccount>, a: EscrowAccount)
    ensures
        sum_balances(s.push(a)) == sum_balances(s) + a.balance,
{
    assert(s.push(a).drop_last() =~= s);
    assert(s.push(a).last() == a);
}

/// Appending a record adds its earnings to the sum.
pub proof fn lemma_sum_earnings_push(s: Seq<Provider>, p: Provider)
    ensures
        sum_earnings(s.push(p)) == sum_earnings(s) + p.earnings_available,
{
    assert(s.push(p).drop_last() =~= s);
    assert(s.push(p).last() == p);
}

/// The lookup returns a position in range holding the owner, or `-1` exactly
/// when no record holds it.
pub proof fn lemma_acct_idx(s: Seq<EscrowAccount>, owner: u64)
    ensures
        -1 <= acct_idx(s, owner) < s.len(),
        acct_idx(s, owner) >= 0 ==> s[acct_idx(s, owner)].owner == owner,
        acct_idx(s, owner) == -1 ==> forall|k: int| 0 <= k < s.len() ==> s[k].owner != owner,
    decreases s.len(),
{
    if s.len() > 0 && s.last().owner != owner {
        lemma_acct_idx(s.drop_last(), owner);
        if acct_idx(s, owner) == -1 {
            assert forall|k: int| 0 <= k < s.len() implies s[k].owner != owner by {
                if k < s.len() - 1 {
                    assert(s.drop_last()[k] == s[k]);
                }
            }
        }
    }
}

/// See [`lemma_acct_idx`].
pub proof fn lemma_prov_idx(s: Seq<Provider>, owner: u64)
    ensures
        -1 <= prov_idx(s, owner) < s.len(),
        prov_idx(s, owner) >= 0 ==> s[prov_idx(s, owner)].owner == owner,
        prov_idx(s, owner) == -1 ==> forall|k: int| 0 <= k < s.len() ==> s[k].owner != owner,
    decreases s.len(),
{
    if s.len() > 0 && s.last().owner != owner {
        lemma_prov_idx(s.drop_last(), owner);
        if prov_idx(s, owner) == -1 {
            assert forall|k: int| 0 <= k < s.len() implies s[k].owner != owner by {
                if k < s.len() - 1 {
                    assert(s.drop_last()[k] == s[k]);
                }
            }
        }
    }
}

/// With distinct owners, any position holding the owner is the lookup's.
pub proof fn lemma_acct_idx_unique(s: Seq<EscrowAccount>, owner: u64, k: int)
    requires
        accts_distinct(s),
        0 <= k < s.len(),
        s[k].owner == owner,
    ensures
        acct_idx(s, owner) == k,
{
    lemma_acct_idx(s, owner);
}

/// With distinct owners, any position holding the owner is the lookup's.
pub proof fn lemma_prov_idx_unique(s: Seq<Provider>, owner: u64, k: int)
    requires
        provs_distinct(s),
        0 <= k < s.len(),
        s[k].owner == owner,
    ensures
        prov_idx(s, owner) == k,
{
    lemma_prov_idx(s, owner);
}

/// The lookup only reads the owners, so replacing a record with one of the
/// same owner leaves every lookup unchanged.
pub proof fn lemma_acct_idx_update(s: Seq<EscrowAccount>, i: int, v: EscrowAccount, o: u64)
    requires
        0 <= i < s.len(),
        v.owner == s[i].owner,
    ensures
        acct_idx(s.update(i, v), o) == acct_idx(s, o),
    decreases s.len(),
{
    let t = s.update(i, v);
    if i == s.len() - 1 {
        assert(t.drop_last() =~= s.drop_last());
    } else {
        assert(t.drop_last() =~= s.drop_last().update(i, v));
        assert(t.last() == s.last());
        lemma_acct_idx_update(s.drop_last(), i, v, o);
        assert(s.drop_last()[i] == s[i]);
    }
}

/// See [`lemma_acct_idx_update`].
pub proof fn lemma_prov_idx_update(s: Seq<Provider>, i: int, v: Provider, o: u64)
    requires
        0 <= i < s.len(),
        v.owner == s[i].owner,
    ensures
        prov_idx(s.update(i, v), o) == prov_idx(s, o),
    decreases s.len(),
{
    let t = s.update(i, v);
    if i == s.len() - 1 {
        assert(t.drop_last() =~= s.drop_last());
    } else {
        assert(t.drop_last() =~= s.drop_last().update(i, v));
        assert(t.last() == s.last());
        lemma_prov_idx_update(s.drop_last(), i, v, o);
        assert(s.drop_last()[i] == s[i]);
    }
}

/// Appending a record redirects only its own owner's lookup.
pub proof fn lemma_acct_idx_push(s: Seq<EscrowAccount>, a: EscrowAccount, o: u64)
    ensures
        a.owner == o ==> acct_idx(s.push(a), o) == s.len(),
        a.owner != o ==> acct_idx(s.push(a), o) == acct_idx(s, o),
{
    assert(s.push(a).drop_last() =~= s);
    assert(s.push(a).last() == a);
}

/// Appending a record redirects only its own owner's lookup.
pub proof fn lemma_prov_idx_push(s: Seq<Provider>, p: Provider, o: u64)
    ensures
        p.owner == o ==> prov_idx(s.push(p), o) == s.len(),
        p.owner != o ==> prov_idx(s.push(p), o) == prov_idx(s, o),
{
    assert(s.push(p).drop_last() =~= s);
    assert(s.push(p).last() == p);
}

} // verus!
