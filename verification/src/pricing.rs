//! Arithmetic and accounting helpers shared by the verifiers.
//!
//! Fee splitting for minting and Dutch-auction pricing for liquidation, with
//! exact fixed-point arithmetic: every division truncates toward zero on
//! non-negative operands, and every remainder is assigned explicitly, so
//! shares always sum exactly to the whole.

use vstd::prelude::*;

use vstd::arithmetic::div_mod::{
    lemma_div_is_ordered, lemma_div_multiples_vanish, lemma_div_nonincreasing,
    lemma_div_pos_is_pos, lemma_fundamental_div_mod, lemma_mod_bound,
};
use vstd::arithmetic::mul::{lemma_mul_inequality, lemma_mul_nonnegative, lemma_mul_upper_bound};

use crate::config::{AUCTION_INIT_PERCENT, AUCTION_MAX_TIME, SIGNER_FEE_RATE_DEN,
    SIGNER_FEE_RATE_NUM};
use crate::record::MAX_LOT_SUDT_AMOUNT;

verus! {

/// The signer's share of a minted lot: the floor of the amount times the
/// fixed fee rate.
pub open spec fn spec_signer_share(amount: u128) -> int {
    amount * SIGNER_FEE_RATE_NUM / (SIGNER_FEE_RATE_DEN as int)
}

/// The user's share of a minted lot: the remainder after the signer's floor
/// share is removed, so the two shares sum exactly to the amount.
pub open spec fn spec_user_share(amount: u128) -> int {
    amount - spec_signer_share(amount)
}

/// Fee-split exactness: the two shares always sum exactly to the amount,
/// the signer's share is the floor of the amount times the fee rate, and
/// both shares stay within the amount.
pub proof fn lemma_fee_split_exact(amount: u128)
    ensures
        spec_user_share(amount) + spec_signer_share(amount) == amount,
        spec_signer_share(amount) == amount * SIGNER_FEE_RATE_NUM / (SIGNER_FEE_RATE_DEN as int),
        0 <= spec_signer_share(amount) <= amount,
{
    lemma_div_pos_is_pos(amount * SIGNER_FEE_RATE_NUM, SIGNER_FEE_RATE_DEN as int);
    lemma_div_nonincreasing(amount * SIGNER_FEE_RATE_NUM, SIGNER_FEE_RATE_DEN as int);
}

/// Split a minted lot between the user and the signer. The signer receives
/// the floor of the amount times the fee rate; the user receives the rest.
pub fn fee_split(amount: u128) -> (r: (u128, u128))
    requires
        amount <= MAX_LOT_SUDT_AMOUNT,
    ensures
        r.0 == spec_user_share(amount),
        r.1 == spec_signer_share(amount),
        r.0 + r.1 == amount,
{
    proof {
        lemma_fee_split_exact(amount);
    }
    let signer = amount * SIGNER_FEE_RATE_NUM / SIGNER_FEE_RATE_DEN;
    let user = amount - signer;
    (user, signer)
}

/// What the bidder is owed the instant an auction opens: a fixed percentage
/// of the collateral.
pub open spec fn spec_auction_init(collateral: u64) -> int {
    collateral * AUCTION_INIT_PERCENT / 100
}

/// The bidder's share of the collateral after `auction_time` elapsed
/// seconds: the initial percentage at zero, a linear ramp up to the auction
/// horizon, and the full collateral at or past it.
pub open spec fn spec_to_bidder(collateral: u64, auction_time: u64) -> int {
    if auction_time == 0 {
        spec_auction_init(collateral)
    } else if auction_time < AUCTION_MAX_TIME {
        spec_auction_init(collateral) + (collateral - spec_auction_init(collateral)) * auction_time
            / (AUCTION_MAX_TIME as int)
    } else {
        collateral as int
    }
}

/// The liquidation trigger's share: half of what the bidder leaves.
pub open spec fn spec_to_trigger(collateral: u64, auction_time: u64) -> int {
    (collateral - spec_to_bidder(collateral, auction_time)) / 2
}

/// The signer's share: what the bidder and the trigger leave, including the
/// odd remainder.
pub open spec fn spec_to_signer(collateral: u64, auction_time: u64) -> int {
    collateral - spec_to_bidder(collateral, auction_time) - spec_to_trigger(
        collateral,
        auction_time,
    )
}

/// The bidder's share always sits between the initial percentage and the
/// full collateral.
pub proof fn lemma_to_bidder_bounds(collateral: u64, auction_time: u64)
    ensures
        0 <= spec_auction_init(collateral) <= spec_to_bidder(collateral, auction_time)
            <= collateral,
{
    let c = collateral as int;
    let init = spec_auction_init(collateral);
    let p = AUCTION_INIT_PERCENT as int;
    let horizon = AUCTION_MAX_TIME as int;
    lemma_div_pos_is_pos(c * p, 100);
    lemma_div_is_ordered(c * p, c * 100, 100);
    lemma_div_multiples_vanish(c, 100);
    assert(init <= c);
    if auction_time != 0 && auction_time < AUCTION_MAX_TIME {
        let t = auction_time as int;
        let ramp = (c - init) * t / horizon;
        lemma_mul_nonnegative(c - init, t);
        lemma_div_pos_is_pos((c - init) * t, horizon);
        lemma_mul_inequality(t, horizon, c - init);
        lemma_div_is_ordered((c - init) * t, (c - init) * horizon, horizon);
        lemma_div_multiples_vanish(c - init, horizon);
        assert(ramp <= c - init);
    }
}

/// Auction monotonicity: for a fixed collateral the bidder's share never
/// decreases as the elapsed time grows; it equals the initial percentage at
/// zero and the full collateral at or past the horizon.
pub proof fn lemma_to_bidder_monotonic(collateral: u64, t1: u64, t2: u64)
    requires
        t1 <= t2,
    ensures
        spec_to_bidder(collateral, t1) <= spec_to_bidder(collateral, t2),
{
    let c = collateral as int;
    let init = spec_auction_init(collateral);
    let horizon = AUCTION_MAX_TIME as int;
    lemma_to_bidder_bounds(collateral, t1);
    lemma_to_bidder_bounds(collateral, t2);
    if 0 < t1 && t2 < AUCTION_MAX_TIME {
        lemma_mul_inequality(t1 as int, t2 as int, c - init);
        lemma_div_is_ordered((c - init) * t1, (c - init) * t2, horizon);
    }
}

/// The bidder's share at the endpoints: exactly the initial percentage when
/// the auction opens, exactly the collateral at or past the horizon.
pub proof fn lemma_to_bidder_endpoints(collateral: u64, auction_time: u64)
    ensures
        spec_to_bidder(collateral, 0) == spec_auction_init(collateral),
        auction_time >= AUCTION_MAX_TIME ==> spec_to_bidder(collateral, auction_time)
            == collateral,
{
}

/// The three auction shares partition the collateral exactly, and the odd
/// remainder of the leftover goes to the signer, never the trigger.
pub proof fn lemma_auction_shares_partition(collateral: u64, auction_time: u64)
    ensures
        spec_to_bidder(collateral, auction_time) + spec_to_trigger(collateral, auction_time)
            + spec_to_signer(collateral, auction_time) == collateral,
        0 <= spec_to_trigger(collateral, auction_time) <= spec_to_signer(collateral, auction_time),
{
    let rest = collateral - spec_to_bidder(collateral, auction_time);
    lemma_to_bidder_bounds(collateral, auction_time);
    lemma_div_pos_is_pos(rest, 2);
    lemma_fundamental_div_mod(rest, 2);
    lemma_mod_bound(rest, 2);
}

/// Compute the three auction shares from the collateral and the decoded
/// elapsed time.
pub fn auction_shares(collateral: u64, auction_time: u64) -> (r: (u64, u64, u64))
    ensures
        r.0 == spec_to_bidder(collateral, auction_time),
        r.1 == spec_to_trigger(collateral, auction_time),
        r.2 == spec_to_signer(collateral, auction_time),
        r.0 + r.1 + r.2 == collateral,
{
    proof {
        lemma_to_bidder_bounds(collateral, auction_time);
        lemma_auction_shares_partition(collateral, auction_time);
    }
    let c = collateral as u128;
    let init = c * (AUCTION_INIT_PERCENT as u128) / 100;
    let to_bidder_wide: u128 = if auction_time == 0 {
        init
    } else if auction_time < AUCTION_MAX_TIME {
        proof {
            lemma_mul_upper_bound(
                c - init,
                u64::MAX as int,
                auction_time as int,
                AUCTION_MAX_TIME as int,
            );
        }
        init + (c - init) * (auction_time as u128) / (AUCTION_MAX_TIME as u128)
    } else {
        c
    };
    let to_bidder = to_bidder_wide as u64;
    let to_trigger = (collateral - to_bidder) / 2;
    let to_signer = collateral - to_bidder - to_trigger;
    (to_bidder, to_trigger, to_signer)
}

} // verus!
