use liquidity_pool_staking::{
    Address, Authority, ClaimRewardsEvent, Custody, CustomError, InitializeEvent,
    LpStakingAccount, Notification, Operation, Pool, SetRewardMultiplierEvent,
    SetRewardRateEvent, StakeEvent, StakingController, Transfer, TransferOutcome, UnstakeEvent,
    UpdatePoolEvent,
};

fn alice() -> Address {
    Address::new([1; 32])
}

fn bob() -> Address {
    Address::new([2; 32])
}

fn carol() -> Address {
    Address::new([3; 32])
}

fn pool_key() -> Address {
    Address::new([9; 32])
}

fn set_up(rate: u64, multiplier: u64, now: i64) -> StakingController {
    let mut c = StakingController::new(pool_key());
    assert!(c.initialize(rate, multiplier, now).is_ok());
    c
}

fn conserved(c: &StakingController) -> bool {
    match c.pool() {
        Some(pool) => pool.total_staked == c.total_in_positions(),
        None => c.position_count() == 0,
    }
}

#[test]
fn new_controller_has_no_pool() {
    let c = StakingController::new(pool_key());
    assert_eq!(c.pool_key(), pool_key());
    assert_eq!(c.pool(), None);
    assert_eq!(c.position_count(), 0);
    assert_eq!(c.position(&alice()), None);
    assert_eq!(c.total_in_positions(), 0);
}

#[test]
fn initialize_once() {
    let mut c = StakingController::new(pool_key());
    assert_eq!(
        c.initialize(100, 1, 7),
        Ok(InitializeEvent { pool: pool_key(), reward_rate: 100, reward_multiplier: 1 })
    );
    let pool = Pool {
        reward_rate: 100,
        reward_multiplier: 1,
        accumulated_reward_per_share: 0,
        last_update_time: 7,
        total_staked: 0,
    };
    assert_eq!(c.pool(), Some(pool));
    assert_eq!(c.initialize(5, 5, 8), Err(CustomError::PoolAlreadyInitialized));
    assert_eq!(c.pool(), Some(pool));
}

#[test]
fn nothing_works_without_a_pool() {
    let mut c = StakingController::new(pool_key());
    let done = TransferOutcome::Completed;
    assert_eq!(c.stake_transfer(alice(), 10, 0, 0), Err(CustomError::PoolNotFound));
    assert_eq!(c.stake(alice(), 10, 0, 0, done), Err(CustomError::PoolNotFound));
    assert_eq!(c.unstake_transfer(alice(), 0), Err(CustomError::PoolNotFound));
    assert_eq!(c.unstake(alice(), 0, done), Err(CustomError::PoolNotFound));
    assert_eq!(c.claim_transfer(alice(), 0), Err(CustomError::PoolNotFound));
    assert_eq!(c.claim_rewards(alice(), 0, done), Err(CustomError::PoolNotFound));
    assert_eq!(c.update_pool(0), Err(CustomError::PoolNotFound));
    assert_eq!(c.set_reward_rate(Authority::Administrator, 1), Err(CustomError::PoolNotFound));
    assert_eq!(
        c.set_reward_multiplier(Authority::Administrator, 1),
        Err(CustomError::PoolNotFound)
    );
    assert_eq!(c.pool(), None);
    assert_eq!(c.position_count(), 0);
}

#[test]
fn stake_refresh_locked_unstake_unlocked_unstake() {
    let done = TransferOutcome::Completed;
    let mut c = StakingController::new(pool_key());
    assert!(c.initialize(100, 1, 0).is_ok());

    assert_eq!(
        c.stake_transfer(alice(), 1000, 60, 0),
        Ok(Transfer { from: Custody::UserLpTokens, to: Custody::LpVault, amount: 1000 })
    );
    assert_eq!(
        c.stake(alice(), 1000, 60, 0, done),
        Ok(StakeEvent { user: alice(), amount: 1000, lockup_period: 60 })
    );
    assert_eq!(c.pool().map(|p| p.total_staked), Some(1000));
    assert_eq!(
        c.position(&alice()),
        Some(LpStakingAccount {
            user: alice(),
            lp_amount: 1000,
            reward_debt: 0,
            last_stake_time: 0,
            lockup_end_time: 60,
        })
    );

    assert_eq!(
        c.update_pool(10),
        Ok(UpdatePoolEvent { pool: pool_key(), accumulated_reward_per_share: 1 })
    );
    assert_eq!(c.pool().map(|p| p.accumulated_reward_per_share), Some(1));

    let pool_before = c.pool();
    let position_before = c.position(&alice());
    assert_eq!(c.unstake_transfer(alice(), 30), Err(CustomError::LockupNotEnded));
    assert_eq!(c.unstake(alice(), 30, done), Err(CustomError::LockupNotEnded));
    assert_eq!(c.pool(), pool_before);
    assert_eq!(c.position(&alice()), position_before);

    assert_eq!(
        c.unstake_transfer(alice(), 61),
        Ok(Transfer { from: Custody::LpVault, to: Custody::UserLpTokens, amount: 1000 })
    );
    assert_eq!(c.unstake(alice(), 61, done), Ok(UnstakeEvent { user: alice(), amount: 1000 }));
    // 100 * 51 / 1000 = 5 on top of 1.
    assert_eq!(
        c.pool(),
        Some(Pool {
            reward_rate: 100,
            reward_multiplier: 1,
            accumulated_reward_per_share: 6,
            last_update_time: 61,
            total_staked: 0,
        })
    );
    assert_eq!(c.position(&alice()).map(|a| a.lp_amount), Some(0));
    assert_eq!(c.position_count(), 1);
}

#[test]
fn total_is_the_sum_of_the_positions_after_every_operation() {
    let done = TransferOutcome::Completed;
    let mut c = StakingController::new(pool_key());
    assert!(conserved(&c));
    assert!(c.initialize(3, 2, 0).is_ok());
    assert!(conserved(&c));
    assert!(c.stake(alice(), 100, 10, 1, done).is_ok());
    assert!(conserved(&c));
    assert!(c.stake(bob(), 50, 0, 2, done).is_ok());
    assert!(conserved(&c));
    assert!(c.stake(alice(), 25, 5, 3, done).is_ok());
    assert!(conserved(&c));
    assert_eq!(c.pool().map(|p| p.total_staked), Some(175));
    assert_eq!(c.total_in_positions(), 175);
    assert!(c.stake(carol(), 0, 0, 4, done).is_err());
    assert!(conserved(&c));
    assert!(c.unstake(alice(), 4, done).is_err());
    assert!(conserved(&c));
    assert!(c.unstake(bob(), 4, done).is_ok());
    assert!(conserved(&c));
    assert_eq!(c.pool().map(|p| p.total_staked), Some(125));
    assert!(c.claim_rewards(alice(), 6, done).is_ok());
    assert!(conserved(&c));
    assert!(c.unstake(alice(), 8, TransferOutcome::Rejected).is_err());
    assert!(conserved(&c));
    assert!(c.unstake(alice(), 8, done).is_ok());
    assert!(conserved(&c));
    assert_eq!(c.pool().map(|p| p.total_staked), Some(0));
    assert_eq!(c.total_in_positions(), 0);
    assert_eq!(c.position_count(), 2);
}

#[test]
fn first_stake_opens_a_position_at_the_time_of_the_stake() {
    let mut c = set_up(100, 1000, 0);
    assert!(c.stake(alice(), 1000, 60, 500, TransferOutcome::Completed).is_ok());
    assert_eq!(
        c.position(&alice()),
        Some(LpStakingAccount {
            user: alice(),
            lp_amount: 1000,
            reward_debt: 0,
            last_stake_time: 500,
            lockup_end_time: 560,
        })
    );
}

#[test]
fn second_stake_books_the_reward_and_moves_the_lockup() {
    let done = TransferOutcome::Completed;
    let mut c = set_up(100, 2, 0);
    assert!(c.stake(alice(), 500, 10, 10, done).is_ok());
    assert!(c.stake(alice(), 250, 60, 30, done).is_ok());
    // 750 * 20 * 2 / 1000
    assert_eq!(
        c.position(&alice()),
        Some(LpStakingAccount {
            user: alice(),
            lp_amount: 750,
            reward_debt: 30,
            last_stake_time: 30,
            lockup_end_time: 90,
        })
    );
    // 100 * 20 / 500
    assert_eq!(
        c.pool(),
        Some(Pool {
            reward_rate: 100,
            reward_multiplier: 2,
            accumulated_reward_per_share: 4,
            last_update_time: 30,
            total_staked: 750,
        })
    );
    assert_eq!(c.position_count(), 1);
}

#[test]
fn staking_again_after_a_full_unstake_reuses_the_position() {
    let done = TransferOutcome::Completed;
    let mut c = set_up(0, 1000, 0);
    assert!(c.stake(alice(), 10, 0, 0, done).is_ok());
    assert!(c.claim_rewards(alice(), 5, done).is_ok());
    assert!(c.unstake(alice(), 7, done).is_ok());
    // 10 * 5 * 1000 / 1000 stays booked, and the time of the claim stays.
    assert_eq!(
        c.position(&alice()),
        Some(LpStakingAccount {
            user: alice(),
            lp_amount: 0,
            reward_debt: 50,
            last_stake_time: 5,
            lockup_end_time: 0,
        })
    );
    assert!(c.stake(alice(), 4, 1, 9, done).is_ok());
    // 4 * 4 * 1000 / 1000 on top of 50.
    assert_eq!(
        c.position(&alice()),
        Some(LpStakingAccount {
            user: alice(),
            lp_amount: 4,
            reward_debt: 66,
            last_stake_time: 9,
            lockup_end_time: 10,
        })
    );
    assert_eq!(c.position_count(), 1);
}

#[test]
fn rejected_transfer_leaves_no_trace() {
    let no = TransferOutcome::Rejected;
    let mut c = set_up(100, 1000, 0);
    assert_eq!(c.stake(alice(), 10, 0, 5, no), Err(CustomError::TransferFailed));
    assert_eq!(c.position_count(), 0);
    assert_eq!(c.pool(), Some(Pool::new(100, 1000, 0)));

    assert!(c.stake(alice(), 10, 0, 5, TransferOutcome::Completed).is_ok());
    let pool = c.pool();
    let position = c.position(&alice());
    assert_eq!(c.stake(alice(), 10, 0, 6, no), Err(CustomError::TransferFailed));
    assert_eq!(c.unstake(alice(), 6, no), Err(CustomError::TransferFailed));
    assert_eq!(c.claim_rewards(alice(), 6, no), Err(CustomError::TransferFailed));
    assert_eq!(c.pool(), pool);
    assert_eq!(c.position(&alice()), position);
}

#[test]
fn other_refusals_come_before_the_transfer() {
    let no = TransferOutcome::Rejected;
    let mut c = set_up(100, 1, 0);
    assert_eq!(c.stake(alice(), 0, 0, 5, no), Err(CustomError::InvalidAmount));
    assert_eq!(c.unstake(alice(), 5, no), Err(CustomError::PositionNotFound));
    assert_eq!(c.claim_rewards(alice(), 5, no), Err(CustomError::PositionNotFound));
    assert!(c.stake(alice(), 10, 100, 5, TransferOutcome::Completed).is_ok());
    assert_eq!(c.unstake(alice(), 6, no), Err(CustomError::LockupNotEnded));
}

#[test]
fn unstake_and_claim_need_a_position() {
    let done = TransferOutcome::Completed;
    let mut c = set_up(100, 1, 0);
    assert!(c.stake(alice(), 10, 0, 0, done).is_ok());
    let pool = c.pool();
    assert_eq!(c.unstake_transfer(bob(), 5), Err(CustomError::PositionNotFound));
    assert_eq!(c.unstake(bob(), 5, done), Err(CustomError::PositionNotFound));
    assert_eq!(c.claim_transfer(bob(), 5), Err(CustomError::PositionNotFound));
    assert_eq!(c.claim_rewards(bob(), 5, done), Err(CustomError::PositionNotFound));
    assert_eq!(c.pool(), pool);
    assert_eq!(c.position_count(), 1);
}

#[test]
fn claim_pays_and_books_the_reward() {
    let done = TransferOutcome::Completed;
    let mut c = set_up(100, 2, 0);
    assert!(c.stake(alice(), 750, 0, 30, done).is_ok());
    assert_eq!(
        c.claim_transfer(alice(), 130),
        Ok(Transfer { from: Custody::RewardsVault, to: Custody::UserRewardTokens, amount: 150 })
    );
    // Asking changes nothing.
    assert_eq!(c.position(&alice()).map(|a| a.reward_debt), Some(0));
    assert_eq!(
        c.claim_rewards(alice(), 130, done),
        Ok(ClaimRewardsEvent { user: alice(), rewards: 150 })
    );
    assert_eq!(c.position(&alice()).map(|a| a.reward_debt), Some(150));
    assert_eq!(c.position(&alice()).map(|a| a.last_stake_time), Some(130));
    assert_eq!(
        c.claim_rewards(alice(), 140, done),
        Ok(ClaimRewardsEvent { user: alice(), rewards: 15 })
    );
    assert_eq!(c.position(&alice()).map(|a| a.reward_debt), Some(165));
}

#[test]
fn claim_with_nothing_staked_pays_nothing_and_is_not_refused() {
    let done = TransferOutcome::Completed;
    let mut c = set_up(100, 5, 0);
    assert!(c.stake(alice(), 10, 0, 0, done).is_ok());
    assert!(c.unstake(alice(), 1, done).is_ok());
    assert_eq!(
        c.claim_transfer(alice(), 1000),
        Ok(Transfer { from: Custody::RewardsVault, to: Custody::UserRewardTokens, amount: 0 })
    );
    assert_eq!(
        c.claim_rewards(alice(), 1000, done),
        Ok(ClaimRewardsEvent { user: alice(), rewards: 0 })
    );
    assert_eq!(c.position(&alice()).map(|a| a.reward_debt), Some(0));
}

#[test]
fn stake_out_of_range_is_refused_and_changes_nothing() {
    let done = TransferOutcome::Completed;
    let mut c = set_up(0, u64::MAX, 0);
    assert!(c.stake(alice(), 1, 0, 0, done).is_ok());
    let pool = c.pool();
    let position = c.position(&alice());
    assert_eq!(c.stake_transfer(alice(), 1 << 40, 0, 10), Err(CustomError::ArithmeticOverflow));
    assert_eq!(c.stake(alice(), 1 << 40, 0, 10, done), Err(CustomError::ArithmeticOverflow));
    assert_eq!(c.pool(), pool);
    assert_eq!(c.position(&alice()), position);
    assert_eq!(c.position_count(), 1);
}

#[test]
fn rates_are_for_administrators() {
    let mut c = set_up(100, 1, 0);
    assert!(c.stake(alice(), 1000, 0, 0, TransferOutcome::Completed).is_ok());
    assert_eq!(c.set_reward_rate(Authority::Unprivileged, 7), Err(CustomError::Unauthorized));
    assert_eq!(
        c.set_reward_multiplier(Authority::Unprivileged, 7),
        Err(CustomError::Unauthorized)
    );
    assert_eq!(c.pool().map(|p| (p.reward_rate, p.reward_multiplier)), Some((100, 1)));

    assert_eq!(
        c.set_reward_rate(Authority::Administrator, 7),
        Ok(SetRewardRateEvent { pool: pool_key(), new_rate: 7 })
    );
    assert_eq!(
        c.set_reward_multiplier(Authority::Administrator, 3),
        Ok(SetRewardMultiplierEvent { pool: pool_key(), new_multiplier: 3 })
    );
    // Neither brought the pool up to date.
    assert_eq!(
        c.pool(),
        Some(Pool {
            reward_rate: 7,
            reward_multiplier: 3,
            accumulated_reward_per_share: 0,
            last_update_time: 0,
            total_staked: 1000,
        })
    );
}

#[test]
fn a_rate_change_without_refresh_applies_to_the_time_before_it() {
    let mut c = set_up(100, 1, 0);
    assert!(c.stake(alice(), 1000, 0, 0, TransferOutcome::Completed).is_ok());
    assert!(c.update_pool(10).is_ok());
    assert!(c.set_reward_rate(Authority::Administrator, 200).is_ok());
    assert!(c.update_pool(20).is_ok());
    // 100 * 10 / 1000 + 200 * 10 / 1000
    assert_eq!(c.pool().map(|p| p.accumulated_reward_per_share), Some(3));
}

#[test]
fn without_a_pool_the_administrator_is_asked_for_first() {
    let mut c = StakingController::new(pool_key());
    assert_eq!(c.set_reward_rate(Authority::Unprivileged, 7), Err(CustomError::Unauthorized));
}

#[test]
fn apply_makes_the_operation_of_the_same_name() {
    let done = TransferOutcome::Completed;
    let mut c = StakingController::new(pool_key());
    assert_eq!(
        c.apply(Operation::Initialize { reward_rate: 100, reward_multiplier: 1, now: 0 }),
        Ok(Notification::Initialize(InitializeEvent {
            pool: pool_key(),
            reward_rate: 100,
            reward_multiplier: 1,
        }))
    );
    assert_eq!(
        c.apply(Operation::Stake {
            owner: alice(),
            amount: 1000,
            lockup_period: 60,
            now: 0,
            outcome: done,
        }),
        Ok(Notification::Stake(StakeEvent { user: alice(), amount: 1000, lockup_period: 60 }))
    );
    assert_eq!(
        c.apply(Operation::UpdatePool { now: 10 }),
        Ok(Notification::UpdatePool(UpdatePoolEvent {
            pool: pool_key(),
            accumulated_reward_per_share: 1,
        }))
    );
    assert_eq!(
        c.apply(Operation::Unstake { owner: alice(), now: 30, outcome: done }),
        Err(CustomError::LockupNotEnded)
    );
    assert_eq!(
        c.apply(Operation::ClaimRewards { owner: alice(), now: 40, outcome: done }),
        Ok(Notification::ClaimRewards(ClaimRewardsEvent { user: alice(), rewards: 40 }))
    );
    assert_eq!(
        c.apply(Operation::SetRewardRate { authority: Authority::Administrator, new_rate: 1 }),
        Ok(Notification::SetRewardRate(SetRewardRateEvent { pool: pool_key(), new_rate: 1 }))
    );
    assert_eq!(
        c.apply(Operation::SetRewardMultiplier {
            authority: Authority::Unprivileged,
            new_multiplier: 1,
        }),
        Err(CustomError::Unauthorized)
    );
    assert_eq!(
        c.apply(Operation::Unstake { owner: alice(), now: 61, outcome: done }),
        Ok(Notification::Unstake(UnstakeEvent { user: alice(), amount: 1000 }))
    );
    assert_eq!(c.pool().map(|p| p.total_staked), Some(0));
}
