//! What an operation hands to its surroundings: the transfer it asks the
//! ledger for, and the notification it sends out.

use vstd::prelude::*;
use crate::address::Address;

verus! {

/// The balances that funds move between.
#[derive(Clone, Copy, Debug, PartialEq, Eq, Structural)]
pub enum Custody {
    /// The depositor's own balance of the staked token.
    UserLpTokens,
    /// The pool's custody of staked principal.
    LpVault,
    /// The pool's custody of rewards to be paid out.
    RewardsVault,
    /// The depositor's own balance of the reward token.
    UserRewardTokens,
}

/// A request to the ledger to move `amount` from one balance to another.
#[derive(Clone, Copy, Debug, PartialEq, Eq, Structural)]
pub struct Transfer {
    pub from: Custody,
    pub to: Custody,
    pub amount: u64,
}

/// What the ledger made of a transfer.
#[derive(Clone, Copy, Debug, PartialEq, Eq, Structural)]
pub enum TransferOutcome {
    /// The funds were moved.
    Completed,
    /// Nothing was moved.
    Rejected,
}

/// What a successful deposit, withdrawal or claim leaves to be done: the
/// transfer to ask for and the notification to send.
#[derive(Debug, PartialEq, Eq)]
pub struct Receipt<E> {
    pub transfer: Transfer,
    pub event: E,
}

/// A pool was set up.
#[derive(Clone, Copy, Debug, PartialEq, Eq)]
pub struct InitializeEvent {
    pub pool: Address,
    pub reward_rate: u64,
    pub reward_multiplier: u64,
}

/// A depositor staked.
#[derive(Clone, Copy, Debug, PartialEq, Eq)]
pub struct StakeEvent {
    pub user: Address,
    pub amount: u64,
    pub lockup_period: i64,
}

/// A depositor withdrew the principal.
#[derive(Clone, Copy, Debug, PartialEq, Eq)]
pub struct UnstakeEvent {
    pub user: Address,
    pub amount: u64,
}

/// A depositor claimed rewards.
#[derive(Clone, Copy, Debug, PartialEq, Eq)]
pub struct ClaimRewardsEvent {
    pub user: Address,
    pub rewards: u64,
}

/// The pool's index was brought up to date.
#[derive(Clone, Copy, Debug, PartialEq, Eq)]
pub struct UpdatePoolEvent {
    pub pool: Address,
    pub accumulated_reward_per_share: u64,
}

/// The reward rate was replaced.
#[derive(Clone, Copy, Debug, PartialEq, Eq)]
pub struct SetRewardRateEvent {
    pub pool: Address,
    pub new_rate: u64,
}

/// The reward multiplier was replaced.
#[derive(Clone, Copy, Debug, PartialEq, Eq)]
pub struct SetRewardMultiplierEvent {
    pub pool: Address,
    pub new_multiplier: u64,
}

/// The notification of an operation that took effect.
#[derive(Clone, Copy, Debug, PartialEq, Eq)]
pub enum Notification {
    Initialize(InitializeEvent),
    Stake(StakeEvent),
    Unstake(UnstakeEvent),
    ClaimRewards(ClaimRewardsEvent),
    UpdatePool(UpdatePoolEvent),
    SetRewardRate(SetRewardRateEvent),
    SetRewardMultiplier(SetRewardMultiplierEvent),
}

} // verus!
