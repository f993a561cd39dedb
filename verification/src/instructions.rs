//! The operations on one pool and one position. Each takes what it touches by
//! value in a context, reads the time from its caller, and either changes the
//! context as a whole or refuses and leaves it alone.

use vstd::prelude::*;
use crate::address::Address;
use crate::error::CustomError;
use crate::events::{
    ClaimRewardsEvent, Custody, InitializeEvent, Receipt, SetRewardMultiplierEvent,
    SetRewardRateEvent, StakeEvent, Transfer, UnstakeEvent, UpdatePoolEvent,
};
use crate::pool::Pool;
use crate::position::LpStakingAccount;
use crate::rewards::{calculate_rewards, elapsed, elapsed_between, rewards_overflow, rewards_owed};

verus! {

/// Whether the caller was vouched for as the pool's administrator.
#[derive(Clone, Copy, Debug, PartialEq, Eq, Structural)]
pub enum Authority {
    Administrator,
    Unprivileged,
}

/// What setting up a pool touches.
#[derive(Clone, Copy, Debug, PartialEq, Eq)]
pub struct Initialize {
    /// Where the pool lives.
    pub pool_key: Address,
    /// The pool, once it is set up.
    pub pool: Option<Pool>,
}

/// What a deposit touches.
#[derive(Clone, Copy, Debug, PartialEq, Eq)]
pub struct StakeLpTokens {
    pub user: Address,
    pub lp_staking_account: LpStakingAccount,
    pub pool: Pool,
}

/// What a withdrawal touches.
#[derive(Clone, Copy, Debug, PartialEq, Eq)]
pub struct UnstakeLpTokens {
    pub user: Address,
    pub lp_staking_account: LpStakingAccount,
    pub pool: Pool,
}

/// What a claim touches.
#[derive(Clone, Copy, Debug, PartialEq, Eq)]
pub struct ClaimLpRewards {
    pub user: Address,
    pub lp_staking_account: LpStakingAccount,
    pub pool: Pool,
}

/// What bringing the pool up to date touches.
#[derive(Clone, Copy, Debug, PartialEq, Eq)]
pub struct UpdatePool {
    pub pool_key: Address,
    pub pool: Pool,
}

/// What replacing the reward rate touches.
#[derive(Clone, Copy, Debug, PartialEq, Eq)]
pub struct SetRewardRate {
    pub pool_key: Address,
    pub pool: Pool,
    pub authority: Authority,
}

/// What replacing the reward multiplier touches.
#[derive(Clone, Copy, Debug, PartialEq, Eq)]
pub struct SetRewardMultiplier {
    pub pool_key: Address,
    pub pool: Pool,
    pub authority: Authority,
}

impl StakeLpTokens {
    /// The reward booked by a deposit of `amount` at `now`: on the principal
    /// with the deposit added, for the time since the position was last touched.
    pub open spec fn accrued(self, amount: u64, now: i64) -> nat {
        rewards_owed(
            (self.lp_staking_account.lp_amount + amount) as nat,
            elapsed(self.lp_staking_account.last_stake_time, now),
            self.pool.reward_multiplier as nat,
        )
    }

    /// Whether some step of the deposit leaves the range of its type.
    pub open spec fn overflows(self, amount: u64, lockup_period: i64, now: i64) -> bool {
        ||| self.pool.refresh_overflows(now)
        ||| self.lp_staking_account.lp_amount + amount > u64::MAX
        ||| now + lockup_period > i64::MAX
        ||| now + lockup_period < i64::MIN
        ||| rewards_overflow(
            (self.lp_staking_account.lp_amount + amount) as nat,
            elapsed(self.lp_staking_account.last_stake_time, now),
            self.pool.reward_multiplier as nat,
        )
        ||| self.lp_staking_account.reward_debt + self.accrued(amount, now) > u64::MAX
        ||| self.pool.total_staked + amount > u64::MAX
    }

    /// Why the deposit is refused, if it is.
    pub open spec fn refusal(self, amount: u64, lockup_period: i64, now: i64) -> Option<
        CustomError,
    > {
        if amount == 0 {
            Some(CustomError::InvalidAmount)
        } else if self.overflows(amount, lockup_period, now) {
            Some(CustomError::ArithmeticOverflow)
        } else {
            None
        }
    }

    /// The context after a deposit that was not refused.
    pub open spec fn after(self, amount: u64, lockup_period: i64, now: i64) -> StakeLpTokens {
        StakeLpTokens {
            user: self.user,
            lp_staking_account: LpStakingAccount {
                user: self.user,
                lp_amount: (self.lp_staking_account.lp_amount + amount) as u64,
                reward_debt: (self.lp_staking_account.reward_debt + self.accrued(amount, now)) as u64,
                last_stake_time: now,
                lockup_end_time: (now + lockup_period) as i64,
            },
            pool: Pool {
                total_staked: (self.pool.total_staked + amount) as u64,
                ..self.pool.refreshed(now)
            },
        }
    }

    /// What a deposit that was not refused leaves to be done.
    pub open spec fn receipt(self, amount: u64, lockup_period: i64) -> Receipt<StakeEvent> {
        Receipt {
            transfer: Transfer { from: Custody::UserLpTokens, to: Custody::LpVault, amount },
            event: StakeEvent { user: self.user, amount, lockup_period },
        }
    }
}

impl UnstakeLpTokens {
    /// Why the withdrawal is refused, if it is: first for the lockup, then for
    /// an index or a total that leaves the range of its type.
    pub open spec fn refusal(self, now: i64) -> Option<CustomError> {
        if now < self.lp_staking_account.lockup_end_time {
            Some(CustomError::LockupNotEnded)
        } else if self.pool.refresh_overflows(now) || self.pool.total_staked
            < self.lp_staking_account.lp_amount {
            Some(CustomError::ArithmeticOverflow)
        } else {
            None
        }
    }

    /// The context after a withdrawal that was not refused: the whole
    /// principal is gone from position and pool, the rest of the position stays.
    pub open spec fn after(self, now: i64) -> UnstakeLpTokens {
        UnstakeLpTokens {
            user: self.user,
            lp_staking_account: LpStakingAccount { lp_amount: 0, ..self.lp_staking_account },
            pool: Pool {
                total_staked: (self.pool.total_staked - self.lp_staking_account.lp_amount) as u64,
                ..self.pool.refreshed(now)
            },
        }
    }

    /// What a withdrawal that was not refused leaves to be done.
    pub open spec fn receipt(self) -> Receipt<UnstakeEvent> {
        Receipt {
            transfer: Transfer {
                from: Custody::LpVault,
                to: Custody::UserLpTokens,
                amount: self.lp_staking_account.lp_amount,
            },
            event: UnstakeEvent { user: self.user, amount: self.lp_staking_account.lp_amount },
        }
    }
}

impl ClaimLpRewards {
    /// The reward that a claim at `now` pays: on the principal, for the time
    /// since the position was last touched.
    pub open spec fn rewards(self, now: i64) -> nat {
        rewards_owed(
            self.lp_staking_account.lp_amount as nat,
            elapsed(self.lp_staking_account.last_stake_time, now),
            self.pool.reward_multiplier as nat,
        )
    }

    /// Whether some step of the claim leaves the range of its type.
    pub open spec fn overflows(self, now: i64) -> bool {
        ||| self.pool.refresh_overflows(now)
        ||| rewards_overflow(
            self.lp_staking_account.lp_amount as nat,
            elapsed(self.lp_staking_account.last_stake_time, now),
            self.pool.reward_multiplier as nat,
        )
        ||| self.lp_staking_account.reward_debt + self.rewards(now) > u64::MAX
    }

    /// Why the claim is refused, if it is.
    pub open spec fn refusal(self, now: i64) -> Option<CustomError> {
        if self.overflows(now) {
            Some(CustomError::ArithmeticOverflow)
        } else {
            None
        }
    }

    /// The context after a claim that was not refused: the reward is added to
    /// what was booked before, and the position counts time from `now`.
    pub open spec fn after(self, now: i64) -> ClaimLpRewards {
        ClaimLpRewards {
            user: self.user,
            lp_staking_account: LpStakingAccount {
                reward_debt: (self.lp_staking_account.reward_debt + self.rewards(now)) as u64,
                last_stake_time: now,
                ..self.lp_staking_account
            },
            pool: self.pool.refreshed(now),
        }
    }

    /// What a claim that was not refused leaves to be done.
    pub open spec fn receipt(self, now: i64) -> Receipt<ClaimRewardsEvent> {
        Receipt {
            transfer: Transfer {
                from: Custody::RewardsVault,
                to: Custody::UserRewardTokens,
                amount: self.rewards(now) as u64,
            },
            event: ClaimRewardsEvent { user: self.user, rewards: self.rewards(now) as u64 },
        }
    }
}

/// Sets the pool up at `now` with nothing staked and nothing accrued, unless
/// there is one already.
pub fn initialize(ctx: &mut Initialize, reward_rate: u64, reward_multiplier: u64, now: i64) -> (r:
    Result<InitializeEvent, CustomError>)
    ensures
        old(ctx).pool is Some ==> r == Err::<InitializeEvent, CustomError>(
            CustomError::PoolAlreadyInitialized,
        ) && *final(ctx) == *old(ctx),
        old(ctx).pool is None ==> r == Ok::<InitializeEvent, CustomError>(
            InitializeEvent { pool: old(ctx).pool_key, reward_rate, reward_multiplier },
        ) && *final(ctx) == (Initialize {
            pool_key: old(ctx).pool_key,
            pool: Some(Pool::initial(reward_rate, reward_multiplier, now)),
        }),
{
    if ctx.pool.is_some() {
        return Err(CustomError::PoolAlreadyInitialized);
    }
    ctx.pool = Some(Pool::new(reward_rate, reward_multiplier, now));
    Ok(InitializeEvent { pool: ctx.pool_key, reward_rate, reward_multiplier })
}

/// Deposits `amount` for `ctx.user` at `now`, locked up for `lockup_period`.
///
/// The pool is brought up to date first. The position then belongs to the
/// user, holds the deposit on top of what it held, and is locked until
/// `now + lockup_period`; the reward on the new principal for the time since
/// the position was last touched is added to its booked rewards, and the
/// position counts time from `now`. The pool's total grows by the deposit.
pub fn stake_lp_tokens(ctx: &mut StakeLpTokens, amount: u64, lockup_period: i64, now: i64) -> (r:
    Result<Receipt<StakeEvent>, CustomError>)
    ensures
        match old(ctx).refusal(amount, lockup_period, now) {
            Some(e) => r == Err::<Receipt<StakeEvent>, CustomError>(e) && *final(ctx) == *old(ctx),
            None => r == Ok::<Receipt<StakeEvent>, CustomError>(
                old(ctx).receipt(amount, lockup_period),
            ) && *final(ctx) == old(ctx).after(amount, lockup_period, now),
        },
{
    if amount == 0 {
        return Err(CustomError::InvalidAmount);
    }
    let mut pool: Pool = ctx.pool;
    pool.refresh(now)?;
    let account: LpStakingAccount = ctx.lp_staking_account;
    let lp_amount: u64 = match account.lp_amount.checked_add(amount) {
        None => { return Err(CustomError::ArithmeticOverflow); },
        Some(a) => a,
    };
    let lockup_end_time: i64 = match now.checked_add(lockup_period) {
        None => { return Err(CustomError::ArithmeticOverflow); },
        Some(t) => t,
    };
    let duration: u64 = elapsed_between(account.last_stake_time, now);
    let accrued: u64 = calculate_rewards(lp_amount, duration, pool.reward_multiplier)?;
    let reward_debt: u64 = match account.reward_debt.checked_add(accrued) {
        None => { return Err(CustomError::ArithmeticOverflow); },
        Some(d) => d,
    };
    let total_staked: u64 = match pool.total_staked.checked_add(amount) {
        None => { return Err(CustomError::ArithmeticOverflow); },
        Some(t) => t,
    };
    pool.total_staked = total_staked;
    ctx.lp_staking_account = LpStakingAccount {
        user: ctx.user,
        lp_amount,
        reward_debt,
        last_stake_time: now,
        lockup_end_time,
    };
    ctx.pool = pool;
    Ok(
        Receipt {
            transfer: Transfer { from: Custody::UserLpTokens, to: Custody::LpVault, amount },
            event: StakeEvent { user: ctx.user, amount, lockup_period },
        },
    )
}

/// Withdraws the whole principal of the position at `now`, once its lockup
/// has run out. Booked rewards and the time the position counts from stay.
pub fn unstake_lp_tokens(ctx: &mut UnstakeLpTokens, now: i64) -> (r: Result<
    Receipt<UnstakeEvent>,
    CustomError,
>)
    ensures
        match old(ctx).refusal(now) {
            Some(e) => r == Err::<Receipt<UnstakeEvent>, CustomError>(e) && *final(ctx) == *old(
                ctx,
            ),
            None => r == Ok::<Receipt<UnstakeEvent>, CustomError>(old(ctx).receipt())
                && *final(ctx) == old(ctx).after(now),
        },
{
    if now < ctx.lp_staking_account.lockup_end_time {
        return Err(CustomError::LockupNotEnded);
    }
    let mut pool: Pool = ctx.pool;
    pool.refresh(now)?;
    let amount: u64 = ctx.lp_staking_account.lp_amount;
    let total_staked: u64 = match pool.total_staked.checked_sub(amount) {
        None => { return Err(CustomError::ArithmeticOverflow); },
        Some(t) => t,
    };
    pool.total_staked = total_staked;
    ctx.lp_staking_account.lp_amount = 0;
    ctx.pool = pool;
    Ok(
        Receipt {
            transfer: Transfer { from: Custody::LpVault, to: Custody::UserLpTokens, amount },
            event: UnstakeEvent { user: ctx.user, amount },
        },
    )
}

/// Pays the reward on the position's principal for the time since it was
/// last touched. The reward is added to what was booked before, and the
/// position counts time from `now`.
pub fn claim_lp_rewards(ctx: &mut ClaimLpRewards, now: i64) -> (r: Result<
    Receipt<ClaimRewardsEvent>,
    CustomError,
>)
    ensures
        match old(ctx).refusal(now) {
            Some(e) => r == Err::<Receipt<ClaimRewardsEvent>, CustomError>(e) && *final(ctx)
                == *old(ctx),
            None => r == Ok::<Receipt<ClaimRewardsEvent>, CustomError>(old(ctx).receipt(now))
                && *final(ctx) == old(ctx).after(now),
        },
{
    let mut pool: Pool = ctx.pool;
    pool.refresh(now)?;
    let account: LpStakingAccount = ctx.lp_staking_account;
    let duration: u64 = elapsed_between(account.last_stake_time, now);
    let rewards: u64 = calculate_rewards(account.lp_amount, duration, pool.reward_multiplier)?;
    let reward_debt: u64 = match account.reward_debt.checked_add(rewards) {
        None => { return Err(CustomError::ArithmeticOverflow); },
        Some(d) => d,
    };
    ctx.lp_staking_account.reward_debt = reward_debt;
    ctx.lp_staking_account.last_stake_time = now;
    ctx.pool = pool;
    Ok(
        Receipt {
            transfer: Transfer {
                from: Custody::RewardsVault,
                to: Custody::UserRewardTokens,
                amount: rewards,
            },
            event: ClaimRewardsEvent { user: ctx.user, rewards },
        },
    )
}

/// Brings the pool's index up to date at `now`.
pub fn update_pool(ctx: &mut UpdatePool, now: i64) -> (r: Result<UpdatePoolEvent, CustomError>)
    ensures
        old(ctx).pool.refresh_overflows(now) ==> r == Err::<UpdatePoolEvent, CustomError>(
            CustomError::ArithmeticOverflow,
        ) && *final(ctx) == *old(ctx),
        !old(ctx).pool.refresh_overflows(now) ==> r == Ok::<UpdatePoolEvent, CustomError>(
            UpdatePoolEvent {
                pool: old(ctx).pool_key,
                accumulated_reward_per_share: old(ctx).pool.refreshed(
                    now,
                ).accumulated_reward_per_share,
            },
        ) && *final(ctx) == (UpdatePool {
            pool_key: old(ctx).pool_key,
            pool: old(ctx).pool.refreshed(now),
        }),
{
    let mut pool: Pool = ctx.pool;
    pool.refresh(now)?;
    ctx.pool = pool;
    Ok(
        UpdatePoolEvent {
            pool: ctx.pool_key,
            accumulated_reward_per_share: pool.accumulated_reward_per_share,
        },
    )
}

/// Replaces the reward rate, for an administrator. Nothing is brought up to
/// date: what accrued before is not touched.
pub fn set_reward_rate(ctx: &mut SetRewardRate, new_rate: u64) -> (r: Result<
    SetRewardRateEvent,
    CustomError,
>)
    ensures
        old(ctx).authority != Authority::Administrator ==> r == Err::<
            SetRewardRateEvent,
            CustomError,
        >(CustomError::Unauthorized) && *final(ctx) == *old(ctx),
        old(ctx).authority == Authority::Administrator ==> r == Ok::<
            SetRewardRateEvent,
            CustomError,
        >(SetRewardRateEvent { pool: old(ctx).pool_key, new_rate }) && *final(ctx) == (SetRewardRate {
            pool: Pool { reward_rate: new_rate, ..old(ctx).pool },
            ..*old(ctx)
        }),
{
    if ctx.authority != Authority::Administrator {
        return Err(CustomError::Unauthorized);
    }
    ctx.pool.reward_rate = new_rate;
    Ok(SetRewardRateEvent { pool: ctx.pool_key, new_rate })
}

/// Replaces the reward multiplier, for an administrator. Nothing is brought
/// up to date.
pub fn set_reward_multiplier(ctx: &mut SetRewardMultiplier, new_multiplier: u64) -> (r: Result<
    SetRewardMultiplierEvent,
    CustomError,
>)
    ensures
        old(ctx).authority != Authority::Administrator ==> r == Err::<
            SetRewardMultiplierEvent,
            CustomError,
        >(CustomError::Unauthorized) && *final(ctx) == *old(ctx),
        old(ctx).authority == Authority::Administrator ==> r == Ok::<
            SetRewardMultiplierEvent,
            CustomError,
        >(SetRewardMultiplierEvent { pool: old(ctx).pool_key, new_multiplier }) && *final(ctx) == (
        SetRewardMultiplier {
            pool: Pool { reward_multiplier: new_multiplier, ..old(ctx).pool },
            ..*old(ctx)
        }),
{
    if ctx.authority != Authority::Administrator {
        return Err(CustomError::Unauthorized);
    }
    ctx.pool.reward_multiplier = new_multiplier;
    Ok(SetRewardMultiplierEvent { pool: ctx.pool_key, new_multiplier })
}

} // verus!
