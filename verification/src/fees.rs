//! The fee split applied to every charge.
//!
//! A charge of `price` is divided into a protocol fee, a keeper fee (only
//! when the charge was triggered by the authorized keeper), and the provider
//! amount, which is the remainder.  The keeper fee is the configured rate
//! clamped into the configured band, capped at a tenth of the price when the
//! clamp would exceed the price, and finally capped at what the protocol fee
//! leaves, so the three parts never exceed the price.

use vstd::arithmetic::div_mod::{lemma_div_is_ordered, lemma_div_multiples_vanish};
use vstd::arithmetic::mul::{lemma_mul_inequality, lemma_mul_nonnegative};
use vstd::prelude::*;

use crate::types::{SystemConfig, BPS_DENOMINATOR};

verus! {

/// The part of `price` taken as a fee at a rate of `bps` basis points.
pub open spec fn protocol_fee_of(price: u64, bps: u64) -> int {
    price * bps / (BPS_DENOMINATOR as int)
}

/// The fee paid to the keeper for triggering a charge of `price`: the rated
/// fee clamped into the configured band, capped at a tenth of the price when
/// the clamped fee would exceed the price, and never more than what the
/// protocol fee leaves of the price.
pub open spec fn keeper_fee_of(price: u64, cfg: SystemConfig) -> int {
    let raw = price * cfg.keeper_fee_bps / (BPS_DENOMINATOR as int);
    let clamped = if raw < cfg.min_keeper_fee {
        cfg.min_keeper_fee as int
    } else if raw > cfg.max_keeper_fee {
        cfg.max_keeper_fee as int
    } else {
        raw
    };
    let capped = if clamped > price {
        price as int / 10
    } else {
        clamped
    };
    let room = price - protocol_fee_of(price, cfg.protocol_fee_bps);
    if capped > room {
        room
    } else {
        capped
    }
}

/// A fee rated at no more than 100% never exceeds the price.
pub proof fn lemma_protocol_fee_bounds(price: u64, bps: u64)
    requires
        bps <= BPS_DENOMINATOR,
    ensures
        0 <= protocol_fee_of(price, bps) <= price,
{
    lemma_mul_nonnegative(price as int, bps as int);
    lemma_mul_inequality(bps as int, BPS_DENOMINATOR as int, price as int);
    lemma_div_is_ordered(
        price * bps,
        price * (BPS_DENOMINATOR as int),
        BPS_DENOMINATOR as int,
    );
    lemma_div_multiples_vanish(price as int, BPS_DENOMINATOR as int);
}

/// The fee split is covered by the price: under a well-formed configuration
/// the protocol fee and the keeper fee are each non-negative and together
/// never exceed the price, so the provider amount the split leaves is never
/// negative.
pub proof fn lemma_fee_split_covered(price: u64, cfg: SystemConfig)
    requires
        cfg.wf(),
    ensures
        0 <= protocol_fee_of(price, cfg.protocol_fee_bps),
        0 <= keeper_fee_of(price, cfg),
        protocol_fee_of(price, cfg.protocol_fee_bps) + keeper_fee_of(price, cfg) <= price,
{
    lemma_protocol_fee_bounds(price, cfg.protocol_fee_bps);
    lemma_protocol_fee_bounds(price, cfg.keeper_fee_bps);
    assert(0 <= price as int / 10 <= price) by {
        lemma_div_is_ordered(0, price as int, 10);
        lemma_div_is_ordered(price as int, price * 10, 10);
        lemma_mul_inequality(1, 10, price as int);
        lemma_div_multiples_vanish(price as int, 10);
    }
}

/// The protocol's part of a charge of `price` at `bps` basis points.
pub fn protocol_fee_for(price: u64, bps: u64) -> (r: u64)
    requires
        bps <= BPS_DENOMINATOR,
    ensures
        r == protocol_fee_of(price, bps),
        r <= price,
{
    proof {
        lemma_protocol_fee_bounds(price, bps);
        lemma_mul_inequality(price as int, u64::MAX as int, bps as int);
        lemma_mul_nonnegative(u64::MAX as int, bps as int);
    }
    let wide: u128 = (price as u128) * (bps as u128) / (BPS_DENOMINATOR as u128);
    wide as u64
}

/// The keeper's part of a charge of `price` under `cfg`.
pub fn keeper_fee_for(price: u64, cfg: &SystemConfig) -> (r: u64)
    requires
        cfg.wf(),
    ensures
        r == keeper_fee_of(price, *cfg),
{
    proof {
        lemma_protocol_fee_bounds(price, cfg.keeper_fee_bps);
        lemma_mul_inequality(price as int, u64::MAX as int, cfg.keeper_fee_bps as int);
        lemma_mul_nonnegative(u64::MAX as int, cfg.keeper_fee_bps as int);
        lemma_fee_split_covered(price, *cfg);
    }
    let raw_wide: u128 =
        (price as u128) * (cfg.keeper_fee_bps as u128) / (BPS_DENOMINATOR as u128);
    let raw: u64 = raw_wide as u64;
    let clamped: u64 = if raw < cfg.min_keeper_fee {
        cfg.min_keeper_fee
    } else if raw > cfg.max_keeper_fee {
        cfg.max_keeper_fee
    } else {
        raw
    };
    let capped: u64 = if clamped > price {
        price / 10
    } else {
        clamped
    };
    let room: u64 = price - protocol_fee_for(price, cfg.protocol_fee_bps);
    if capped > room {
        room
    } else {
        capped
    }
}

} // verus!
