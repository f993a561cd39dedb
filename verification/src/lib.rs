//! A share-based staking reward engine: deposits into a shared pool, time-based
//! accrual, lockups, and per-depositor reward bookkeeping.

pub mod address;
pub mod controller;
pub mod error;
pub mod events;
pub mod instructions;
pub mod laws;
pub mod pool;
pub mod position;
pub mod rewards;
pub mod store;

pub use address::Address;
pub use controller::{Operation, StakingController, StakingState};
pub use error::CustomError;
pub use events::{
    ClaimRewardsEvent, Custody, InitializeEvent, Notification, Receipt,
    SetRewardMultiplierEvent, SetRewardRateEvent, StakeEvent, Transfer, TransferOutcome,
    UnstakeEvent, UpdatePoolEvent,
};
pub use instructions::{
    claim_lp_rewards, initialize, set_reward_multiplier, set_reward_rate, stake_lp_tokens,
    unstake_lp_tokens, update_pool, Authority, ClaimLpRewards, Initialize, SetRewardMultiplier,
    SetRewardRate, StakeLpTokens, UnstakeLpTokens, UpdatePool,
};
pub use pool::Pool;
pub use position::LpStakingAccount;
pub use store::PositionStore;
pub use rewards::{calculate_rewards, elapsed_between, SCALE};
