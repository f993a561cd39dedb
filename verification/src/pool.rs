//! The pool: reward rate, the running per-share index and the total at stake.

use vstd::prelude::*;
use crate::error::CustomError;
use crate::rewards::{elapsed, elapsed_between};

verus! {

/// The shared state of a deployment.
#[derive(Clone, Copy, Debug, PartialEq, Eq, Structural)]
pub struct Pool {
    /// Reward units accrued per unit of time.
    pub reward_rate: u64,
    /// Factor applied to each position's reward.
    pub reward_multiplier: u64,
    /// Reward per unit of stake accrued since the pool was set up.
    pub accumulated_reward_per_share: u64,
    /// When the index was last brought up to date.
    pub last_update_time: i64,
    /// Sum of what all positions hold.
    pub total_staked: u64,
}

impl Pool {
    /// The pool as it is set up at `now`: nothing staked, nothing accrued.
    pub open spec fn initial(reward_rate: u64, reward_multiplier: u64, now: i64) -> Pool {
        Pool {
            reward_rate,
            reward_multiplier,
            accumulated_reward_per_share: 0,
            last_update_time: now,
            total_staked: 0,
        }
    }

    /// What the index grows by when brought up to date at `now`: the rate
    /// times the time passed, shared among the stake and rounded down; nothing
    /// while the pool is empty.
    pub open spec fn accrual(self, now: i64) -> nat {
        if self.total_staked > 0 {
            self.reward_rate as nat * elapsed(self.last_update_time, now) / (
            self.total_staked as nat)
        } else {
            0
        }
    }

    /// Whether bringing the index up to date at `now` leaves the range of
    /// `u64`, in the product of rate and time or in the sum with the index.
    pub open spec fn refresh_overflows(self, now: i64) -> bool {
        self.total_staked > 0 && (self.reward_rate as nat * elapsed(self.last_update_time, now)
            > u64::MAX || self.accumulated_reward_per_share + self.accrual(now) > u64::MAX)
    }

    /// The pool brought up to date at `now`: the index has grown by the accrual
    /// and the pool counts time from `now`. When the clock has gone back, the
    /// time passed counts as none.
    pub open spec fn refreshed(self, now: i64) -> Pool {
        Pool {
            accumulated_reward_per_share: (self.accumulated_reward_per_share + self.accrual(
                now,
            )) as u64,
            last_update_time: now,
            ..self
        }
    }

    /// Sets up a pool at `now`.
    pub fn new(reward_rate: u64, reward_multiplier: u64, now: i64) -> (pool: Pool)
        ensures
            pool == Pool::initial(reward_rate, reward_multiplier, now),
    {
        Pool {
            reward_rate,
            reward_multiplier,
            accumulated_reward_per_share: 0,
            last_update_time: now,
            total_staked: 0,
        }
    }

    /// Brings the index up to date at `now`, or refuses with
    /// `ArithmeticOverflow` and changes nothing.
    pub fn refresh(&mut self, now: i64) -> (r: Result<(), CustomError>)
        ensures
            old(self).refresh_overflows(now) ==> r == Err::<(), CustomError>(
                CustomError::ArithmeticOverflow,
            ) && *final(self) == *old(self),
            !old(self).refresh_overflows(now) ==> r == Ok::<(), CustomError>(()) && *final(self)
                == old(self).refreshed(now),
            final(self).accumulated_reward_per_share >= old(self).accumulated_reward_per_share,
    {
        let passed: u64 = elapsed_between(self.last_update_time, now);
        if self.total_staked > 0 {
            let minted: u64 = match self.reward_rate.checked_mul(passed) {
                None => { return Err(CustomError::ArithmeticOverflow); },
                Some(m) => m,
            };
            let share: u64 = minted / self.total_staked;
            let index: u64 = match self.accumulated_reward_per_share.checked_add(share) {
                None => { return Err(CustomError::ArithmeticOverflow); },
                Some(i) => i,
            };
            self.accumulated_reward_per_share = index;
        }
        self.last_update_time = now;
        Ok(())
    }
}

} // verus!
