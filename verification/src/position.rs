//! A depositor's position.

use vstd::prelude::*;
use crate::address::Address;

verus! {

/// What one depositor has at stake, and the rewards booked for it.
#[derive(Clone, Copy, Debug, PartialEq, Eq)]
pub struct LpStakingAccount {
    /// The depositor.
    pub user: Address,
    /// The principal at stake.
    pub lp_amount: u64,
    /// Rewards booked for this position over its whole life.
    pub reward_debt: u64,
    /// When the position was last staked into or claimed from.
    pub last_stake_time: i64,
    /// Before this time the principal cannot be withdrawn.
    pub lockup_end_time: i64,
}

impl LpStakingAccount {
    /// The empty position that a depositor gets at `now`.
    pub open spec fn empty(user: Address, now: i64) -> LpStakingAccount {
        LpStakingAccount {
            user,
            lp_amount: 0,
            reward_debt: 0,
            last_stake_time: now,
            lockup_end_time: now,
        }
    }

    /// Opens an empty position for `user` at `now`.
    pub fn new(user: Address, now: i64) -> (account: LpStakingAccount)
        ensures
            account == LpStakingAccount::empty(user, now),
    {
        LpStakingAccount {
            user,
            lp_amount: 0,
            reward_debt: 0,
            last_stake_time: now,
            lockup_end_time: now,
        }
    }
}

} // verus!
