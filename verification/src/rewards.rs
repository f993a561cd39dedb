//! The reward formula and the measure of time it is fed with.

use vstd::prelude::*;
use crate::error::CustomError;

verus! {

/// What the product of amount, duration and multiplier is divided by.
pub const SCALE: u64 = 1000;

/// Time that passed from `since` to `now`; none when the clock went backwards.
pub open spec fn elapsed(since: i64, now: i64) -> nat {
    if now > since {
        (now - since) as nat
    } else {
        0
    }
}

/// The reward owed to `amount` staked for `duration` under `multiplier`,
/// rounded down.
pub open spec fn rewards_owed(amount: nat, duration: nat, multiplier: nat) -> nat {
    amount * duration * multiplier / (SCALE as nat)
}

/// Whether one of the two products of the formula, taken left to right,
/// leaves the range of `u64`.
pub open spec fn rewards_overflow(amount: nat, duration: nat, multiplier: nat) -> bool {
    amount * duration > u64::MAX || amount * duration * multiplier > u64::MAX
}

/// What `calculate_rewards` returns.
pub open spec fn rewards_outcome(amount: u64, duration: u64, multiplier: u64) -> Result<
    u64,
    CustomError,
> {
    if rewards_overflow(amount as nat, duration as nat, multiplier as nat) {
        Err(CustomError::ArithmeticOverflow)
    } else {
        Ok(rewards_owed(amount as nat, duration as nat, multiplier as nat) as u64)
    }
}

/// Time that passed from `since` to `now`, clamped at zero. The difference of
/// two timestamps always fits.
pub fn elapsed_between(since: i64, now: i64) -> (d: u64)
    ensures
        d == elapsed(since, now),
{
    if now > since {
        let wide: i128 = now as i128 - since as i128;
        wide as u64
    } else {
        0
    }
}

/// The reward owed to `lp_amount` staked for `staking_duration` under
/// `reward_multiplier`, or `ArithmeticOverflow` where a product does not fit.
pub fn calculate_rewards(lp_amount: u64, staking_duration: u64, reward_multiplier: u64) -> (r:
    Result<u64, CustomError>)
    ensures
        r == rewards_outcome(lp_amount, staking_duration, reward_multiplier),
{
    match lp_amount.checked_mul(staking_duration) {
        None => Err(CustomError::ArithmeticOverflow),
        Some(weighted) => match weighted.checked_mul(reward_multiplier) {
            None => Err(CustomError::ArithmeticOverflow),
            Some(product) => Ok(product / SCALE),
        },
    }
}

} // verus!
