//! One pool with the positions of its depositors, and the operations as
//! transactions on both: each asks the ledger for at most one transfer, takes
//! effect only once the ledger has made it, and otherwise leaves no trace.
//!
//! A deposit, withdrawal or claim is made in two calls. The first
//! (`stake_transfer`, `unstake_transfer`, `claim_transfer`) changes nothing
//! and tells which transfer the operation needs, or why it is refused. The
//! caller has the ledger make that transfer and passes what came of it to the
//! second (`stake`, `unstake`, `claim_rewards`), which commits the operation or
//! refuses it. Whoever makes the two calls holds the controller for itself
//! from the first to the second, with the same time in both: the methods
//! that change it take it by `&mut`, so no two operations ever interleave.

use vstd::prelude::*;
use crate::address::Address;
use crate::error::CustomError;
use crate::events::{
    ClaimRewardsEvent, InitializeEvent, Notification, Receipt, SetRewardMultiplierEvent,
    SetRewardRateEvent, StakeEvent, Transfer, TransferOutcome, UnstakeEvent, UpdatePoolEvent,
};
use crate::instructions::{
    claim_lp_rewards, stake_lp_tokens, unstake_lp_tokens, Authority, ClaimLpRewards,
    StakeLpTokens, UnstakeLpTokens,
};
use crate::pool::Pool;
use crate::position::LpStakingAccount;
use crate::store::{
    lemma_index_of, lemma_saved, owners_distinct, position_of, position_or_empty, saved,
    total_amount, PositionStore,
};

verus! {

/// A request to a pool and its positions. A deposit, withdrawal or claim
/// comes with what the ledger made of the transfer that it needs.
#[derive(Clone, Copy, Debug, PartialEq, Eq)]
pub enum Operation {
    Initialize { reward_rate: u64, reward_multiplier: u64, now: i64 },
    Stake { owner: Address, amount: u64, lockup_period: i64, now: i64, outcome: TransferOutcome },
    Unstake { owner: Address, now: i64, outcome: TransferOutcome },
    ClaimRewards { owner: Address, now: i64, outcome: TransferOutcome },
    UpdatePool { now: i64 },
    SetRewardRate { authority: Authority, new_rate: u64 },
    SetRewardMultiplier { authority: Authority, new_multiplier: u64 },
}

/// A pool and its positions, as contracts speak of them.
pub struct StakingState {
    /// Where the pool lives.
    pub pool_key: Address,
    /// The pool, once it is set up.
    pub pool: Option<Pool>,
    /// The positions, in the order in which they were opened.
    pub positions: Seq<LpStakingAccount>,
}

impl StakingState {
    /// Each depositor has one position at most, and the pool's total is the
    /// sum of what the positions hold. Without a pool there are no positions.
    pub open spec fn wf(self) -> bool {
        &&& owners_distinct(self.positions)
        &&& match self.pool {
            Some(pool) => pool.total_staked == total_amount(self.positions),
            None => self.positions.len() == 0,
        }
    }

    /// What a deposit by `owner` at `now` works on: the pool, and the owner's
    /// position or an empty one opened at `now`.
    pub open spec fn stake_context(self, owner: Address, now: i64) -> StakeLpTokens
        recommends
            self.pool is Some,
    {
        StakeLpTokens {
            user: owner,
            lp_staking_account: position_or_empty(self.positions, owner, now),
            pool: self.pool.unwrap(),
        }
    }

    /// What a withdrawal by `owner` works on.
    pub open spec fn unstake_context(self, owner: Address) -> UnstakeLpTokens
        recommends
            self.pool is Some,
            position_of(self.positions, owner) is Some,
    {
        UnstakeLpTokens {
            user: owner,
            lp_staking_account: position_of(self.positions, owner).unwrap(),
            pool: self.pool.unwrap(),
        }
    }

    /// What a claim by `owner` works on.
    pub open spec fn claim_context(self, owner: Address) -> ClaimLpRewards
        recommends
            self.pool is Some,
            position_of(self.positions, owner) is Some,
    {
        ClaimLpRewards {
            user: owner,
            lp_staking_account: position_of(self.positions, owner).unwrap(),
            pool: self.pool.unwrap(),
        }
    }

    /// Why a deposit is refused, if it is, given what the ledger made of its
    /// transfer.
    pub open spec fn stake_refusal(
        self,
        owner: Address,
        amount: u64,
        lockup_period: i64,
        now: i64,
        outcome: TransferOutcome,
    ) -> Option<CustomError> {
        if self.pool is None {
            Some(CustomError::PoolNotFound)
        } else if self.stake_context(owner, now).refusal(amount, lockup_period, now) is Some {
            self.stake_context(owner, now).refusal(amount, lockup_period, now)
        } else if outcome == TransferOutcome::Rejected {
            Some(CustomError::TransferFailed)
        } else {
            None
        }
    }

    /// Why a withdrawal is refused, if it is, given what the ledger made of
    /// its transfer.
    pub open spec fn unstake_refusal(
        self,
        owner: Address,
        now: i64,
        outcome: TransferOutcome,
    ) -> Option<CustomError> {
        if self.pool is None {
            Some(CustomError::PoolNotFound)
        } else if position_of(self.positions, owner) is None {
            Some(CustomError::PositionNotFound)
        } else if self.unstake_context(owner).refusal(now) is Some {
            self.unstake_context(owner).refusal(now)
        } else if outcome == TransferOutcome::Rejected {
            Some(CustomError::TransferFailed)
        } else {
            None
        }
    }

    /// Why a claim is refused, if it is, given what the ledger made of its
    /// transfer.
    pub open spec fn claim_refusal(
        self,
        owner: Address,
        now: i64,
        outcome: TransferOutcome,
    ) -> Option<CustomError> {
        if self.pool is None {
            Some(CustomError::PoolNotFound)
        } else if position_of(self.positions, owner) is None {
            Some(CustomError::PositionNotFound)
        } else if self.claim_context(owner).refusal(now) is Some {
            self.claim_context(owner).refusal(now)
        } else if outcome == TransferOutcome::Rejected {
            Some(CustomError::TransferFailed)
        } else {
            None
        }
    }

    /// Why bringing the pool up to date is refused, if it is.
    pub open spec fn update_refusal(self, now: i64) -> Option<CustomError> {
        if self.pool is None {
            Some(CustomError::PoolNotFound)
        } else if self.pool.unwrap().refresh_overflows(now) {
            Some(CustomError::ArithmeticOverflow)
        } else {
            None
        }
    }

    /// Why a change of rate or multiplier is refused, if it is.
    pub open spec fn admin_refusal(self, authority: Authority) -> Option<CustomError> {
        if authority != Authority::Administrator {
            Some(CustomError::Unauthorized)
        } else if self.pool is None {
            Some(CustomError::PoolNotFound)
        } else {
            None
        }
    }

    /// Why `operation` is refused, if it is.
    pub open spec fn refusal(self, operation: Operation) -> Option<CustomError> {
        match operation {
            Operation::Initialize { .. } => if self.pool is Some {
                Some(CustomError::PoolAlreadyInitialized)
            } else {
                None
            },
            Operation::Stake { owner, amount, lockup_period, now, outcome } => self.stake_refusal(
                owner,
                amount,
                lockup_period,
                now,
                outcome,
            ),
            Operation::Unstake { owner, now, outcome } => self.unstake_refusal(owner, now, outcome),
            Operation::ClaimRewards { owner, now, outcome } => self.claim_refusal(
                owner,
                now,
                outcome,
            ),
            Operation::UpdatePool { now } => self.update_refusal(now),
            Operation::SetRewardRate { authority, .. } => self.admin_refusal(authority),
            Operation::SetRewardMultiplier { authority, .. } => self.admin_refusal(authority),
        }
    }

    /// The state that `operation` leaves: the state itself where the operation
    /// is refused.
    pub open spec fn step(self, operation: Operation) -> StakingState {
        if self.refusal(operation) is Some {
            self
        } else {
            match operation {
                Operation::Initialize { reward_rate, reward_multiplier, now } => self.with_pool(
                    Pool::initial(reward_rate, reward_multiplier, now),
                ),
                Operation::Stake { owner, amount, lockup_period, now, .. } => self.after_stake(
                    owner,
                    amount,
                    lockup_period,
                    now,
                ),
                Operation::Unstake { owner, now, .. } => self.after_unstake(owner, now),
                Operation::ClaimRewards { owner, now, .. } => self.after_claim(owner, now),
                Operation::UpdatePool { now } => self.with_pool(
                    self.pool.unwrap().refreshed(now),
                ),
                Operation::SetRewardRate { new_rate, .. } => self.with_pool(
                    Pool { reward_rate: new_rate, ..self.pool.unwrap() },
                ),
                Operation::SetRewardMultiplier { new_multiplier, .. } => self.with_pool(
                    Pool { reward_multiplier: new_multiplier, ..self.pool.unwrap() },
                ),
            }
        }
    }

    /// What `operation` sends out where it is not refused.
    pub open spec fn notification(self, operation: Operation) -> Notification {
        match operation {
            Operation::Initialize { reward_rate, reward_multiplier, .. } => Notification::Initialize(
                InitializeEvent { pool: self.pool_key, reward_rate, reward_multiplier },
            ),
            Operation::Stake { owner, amount, lockup_period, now, .. } => Notification::Stake(
                self.stake_context(owner, now).receipt(amount, lockup_period).event,
            ),
            Operation::Unstake { owner, .. } => Notification::Unstake(
                self.unstake_context(owner).receipt().event,
            ),
            Operation::ClaimRewards { owner, now, .. } => Notification::ClaimRewards(
                self.claim_context(owner).receipt(now).event,
            ),
            Operation::UpdatePool { now } => Notification::UpdatePool(
                UpdatePoolEvent {
                    pool: self.pool_key,
                    accumulated_reward_per_share: self.pool.unwrap().refreshed(
                        now,
                    ).accumulated_reward_per_share,
                },
            ),
            Operation::SetRewardRate { new_rate, .. } => Notification::SetRewardRate(
                SetRewardRateEvent { pool: self.pool_key, new_rate },
            ),
            Operation::SetRewardMultiplier { new_multiplier, .. } => Notification::SetRewardMultiplier(
                SetRewardMultiplierEvent { pool: self.pool_key, new_multiplier },
            ),
        }
    }

    /// The state with `pool` in the place of the pool.
    pub open spec fn with_pool(self, pool: Pool) -> StakingState {
        StakingState { pool: Some(pool), ..self }
    }

    /// The state after a deposit that was not refused.
    pub open spec fn after_stake(
        self,
        owner: Address,
        amount: u64,
        lockup_period: i64,
        now: i64,
    ) -> StakingState {
        let done = self.stake_context(owner, now).after(amount, lockup_period, now);
        StakingState {
            pool: Some(done.pool),
            positions: saved(self.positions, done.lp_staking_account),
            ..self
        }
    }

    /// The state after a withdrawal that was not refused.
    pub open spec fn after_unstake(self, owner: Address, now: i64) -> StakingState {
        let done = self.unstake_context(owner).after(now);
        StakingState {
            pool: Some(done.pool),
            positions: saved(self.positions, done.lp_staking_account),
            ..self
        }
    }

    /// The state after a claim that was not refused.
    pub open spec fn after_claim(self, owner: Address, now: i64) -> StakingState {
        let done = self.claim_context(owner).after(now);
        StakingState {
            pool: Some(done.pool),
            positions: saved(self.positions, done.lp_staking_account),
            ..self
        }
    }
}

/// One pool with the positions of its depositors.
pub struct StakingController {
    pool_key: Address,
    pool: Option<Pool>,
    positions: PositionStore,
}

impl View for StakingController {
    type V = StakingState;

    closed spec fn view(&self) -> StakingState {
        StakingState { pool_key: self.pool_key, pool: self.pool, positions: self.positions@ }
    }
}

impl StakingController {
    /// The pool's total is the sum of what the positions hold, and each
    /// depositor has one position at most.
    pub open spec fn wf(&self) -> bool {
        self@.wf()
    }

    /// A deployment at `pool_key` whose pool is not set up yet.
    pub fn new(pool_key: Address) -> (controller: StakingController)
        ensures
            controller.wf(),
            controller@ == (StakingState {
                pool_key,
                pool: None,
                positions: Seq::<LpStakingAccount>::empty(),
            }),
    {
        StakingController { pool_key, pool: None, positions: PositionStore::new() }
    }

    /// Where the pool lives.
    pub fn pool_key(&self) -> (key: Address)
        ensures
            key == self@.pool_key,
    {
        self.pool_key
    }

    /// The pool, once it is set up.
    pub fn pool(&self) -> (pool: Option<Pool>)
        ensures
            pool == self@.pool,
    {
        self.pool
    }

    /// The position of `owner`, if there is one.
    pub fn position(&self, owner: &Address) -> (account: Option<LpStakingAccount>)
        ensures
            account == position_of(self@.positions, *owner),
    {
        self.positions.get(owner)
    }

    /// How many positions there are.
    pub fn position_count(&self) -> (n: usize)
        ensures
            n == self@.positions.len(),
    {
        self.positions.len()
    }

    /// The sum of the principal of all positions: what the pool's total is
    /// held to.
    pub fn total_in_positions(&self) -> (total: u64)
        requires
            self.wf(),
        ensures
            total == total_amount(self@.positions),
            self@.pool matches Some(pool) ==> total == pool.total_staked,
    {
        match self.positions.total() {
            Some(total) => total,
            None => 0,
        }
    }

    /// Sets the pool up at `now`, unless it is set up already.
    pub fn initialize(&mut self, reward_rate: u64, reward_multiplier: u64, now: i64) -> (r: Result<
        InitializeEvent,
        CustomError,
    >)
        requires
            old(self).wf(),
        ensures
            final(self).wf(),
            old(self)@.pool is Some ==> r == Err::<InitializeEvent, CustomError>(
                CustomError::PoolAlreadyInitialized,
            ) && final(self)@ == old(self)@,
            old(self)@.pool is None ==> r == Ok::<InitializeEvent, CustomError>(
                InitializeEvent { pool: old(self)@.pool_key, reward_rate, reward_multiplier },
            ) && final(self)@ == old(self)@.with_pool(
                Pool::initial(reward_rate, reward_multiplier, now),
            ),
    {
        if self.pool.is_some() {
            return Err(CustomError::PoolAlreadyInitialized);
        }
        self.pool = Some(Pool::new(reward_rate, reward_multiplier, now));
        Ok(InitializeEvent { pool: self.pool_key, reward_rate, reward_multiplier })
    }

    /// Brings the pool's index up to date at `now`.
    pub fn update_pool(&mut self, now: i64) -> (r: Result<UpdatePoolEvent, CustomError>)
        requires
            old(self).wf(),
        ensures
            final(self).wf(),
            match old(self)@.update_refusal(now) {
                Some(e) => r == Err::<UpdatePoolEvent, CustomError>(e) && final(self)@ == old(
                    self,
                )@,
                None => r == Ok::<UpdatePoolEvent, CustomError>(
                    UpdatePoolEvent {
                        pool: old(self)@.pool_key,
                        accumulated_reward_per_share: old(self)@.pool.unwrap().refreshed(
                            now,
                        ).accumulated_reward_per_share,
                    },
                ) && final(self)@ == old(self)@.with_pool(old(self)@.pool.unwrap().refreshed(now)),
            },
    {
        let mut pool: Pool = match self.pool {
            None => { return Err(CustomError::PoolNotFound); },
            Some(pool) => pool,
        };
        pool.refresh(now)?;
        self.pool = Some(pool);
        Ok(
            UpdatePoolEvent {
                pool: self.pool_key,
                accumulated_reward_per_share: pool.accumulated_reward_per_share,
            },
        )
    }

    /// Replaces the reward rate, for an administrator. The pool is not
    /// brought up to date.
    pub fn set_reward_rate(&mut self, authority: Authority, new_rate: u64) -> (r: Result<
        SetRewardRateEvent,
        CustomError,
    >)
        requires
            old(self).wf(),
        ensures
            final(self).wf(),
            match old(self)@.admin_refusal(authority) {
                Some(e) => r == Err::<SetRewardRateEvent, CustomError>(e) && final(self)@ == old(
                    self,
                )@,
                None => r == Ok::<SetRewardRateEvent, CustomError>(
                    SetRewardRateEvent { pool: old(self)@.pool_key, new_rate },
                ) && final(self)@ == old(self)@.with_pool(
                    Pool { reward_rate: new_rate, ..old(self)@.pool.unwrap() },
                ),
            },
    {
        if authority != Authority::Administrator {
            return Err(CustomError::Unauthorized);
        }
        let mut pool: Pool = match self.pool {
            None => { return Err(CustomError::PoolNotFound); },
            Some(pool) => pool,
        };
        pool.reward_rate = new_rate;
        self.pool = Some(pool);
        Ok(SetRewardRateEvent { pool: self.pool_key, new_rate })
    }

    /// Replaces the reward multiplier, for an administrator. The pool is not
    /// brought up to date.
    pub fn set_reward_multiplier(&mut self, authority: Authority, new_multiplier: u64) -> (r:
        Result<SetRewardMultiplierEvent, CustomError>)
        requires
            old(self).wf(),
        ensures
            final(self).wf(),
            match old(self)@.admin_refusal(authority) {
                Some(e) => r == Err::<SetRewardMultiplierEvent, CustomError>(e) && final(self)@
                    == old(self)@,
                None => r == Ok::<SetRewardMultiplierEvent, CustomError>(
                    SetRewardMultiplierEvent { pool: old(self)@.pool_key, new_multiplier },
                ) && final(self)@ == old(self)@.with_pool(
                    Pool { reward_multiplier: new_multiplier, ..old(self)@.pool.unwrap() },
                ),
            },
    {
        if authority != Authority::Administrator {
            return Err(CustomError::Unauthorized);
        }
        let mut pool: Pool = match self.pool {
            None => { return Err(CustomError::PoolNotFound); },
            Some(pool) => pool,
        };
        pool.reward_multiplier = new_multiplier;
        self.pool = Some(pool);
        Ok(SetRewardMultiplierEvent { pool: self.pool_key, new_multiplier })
    }

    fn prepare_stake(&self, owner: Address, amount: u64, lockup_period: i64, now: i64) -> (r:
        Result<(StakeLpTokens, Receipt<StakeEvent>), CustomError>)
        ensures
            match self@.stake_refusal(
                owner,
                amount,
                lockup_period,
                now,
                TransferOutcome::Completed,
            ) {
                Some(e) => r == Err::<(StakeLpTokens, Receipt<StakeEvent>), CustomError>(e),
                None => r == Ok::<(StakeLpTokens, Receipt<StakeEvent>), CustomError>(
                    (
                        self@.stake_context(owner, now).after(amount, lockup_period, now),
                        self@.stake_context(owner, now).receipt(amount, lockup_period),
                    ),
                ),
            },
    {
        let pool: Pool = match self.pool {
            None => { return Err(CustomError::PoolNotFound); },
            Some(pool) => pool,
        };
        let mut ctx = StakeLpTokens {
            user: owner,
            lp_staking_account: self.positions.get_or_create(&owner, now),
            pool,
        };
        let receipt = stake_lp_tokens(&mut ctx, amount, lockup_period, now)?;
        Ok((ctx, receipt))
    }

    fn prepare_unstake(&self, owner: Address, now: i64) -> (r: Result<
        (UnstakeLpTokens, Receipt<UnstakeEvent>),
        CustomError,
    >)
        ensures
            match self@.unstake_refusal(owner, now, TransferOutcome::Completed) {
                Some(e) => r == Err::<(UnstakeLpTokens, Receipt<UnstakeEvent>), CustomError>(e),
                None => r == Ok::<(UnstakeLpTokens, Receipt<UnstakeEvent>), CustomError>(
                    (
                        self@.unstake_context(owner).after(now),
                        self@.unstake_context(owner).receipt(),
                    ),
                ),
            },
    {
        let pool: Pool = match self.pool {
            None => { return Err(CustomError::PoolNotFound); },
            Some(pool) => pool,
        };
        let account: LpStakingAccount = match self.positions.get(&owner) {
            None => { return Err(CustomError::PositionNotFound); },
            Some(account) => account,
        };
        let mut ctx = UnstakeLpTokens { user: owner, lp_staking_account: account, pool };
        let receipt = unstake_lp_tokens(&mut ctx, now)?;
        Ok((ctx, receipt))
    }

    fn prepare_claim(&self, owner: Address, now: i64) -> (r: Result<
        (ClaimLpRewards, Receipt<ClaimRewardsEvent>),
        CustomError,
    >)
        ensures
            match self@.claim_refusal(owner, now, TransferOutcome::Completed) {
                Some(e) => r == Err::<(ClaimLpRewards, Receipt<ClaimRewardsEvent>), CustomError>(
                    e,
                ),
                None => r == Ok::<(ClaimLpRewards, Receipt<ClaimRewardsEvent>), CustomError>(
                    (
                        self@.claim_context(owner).after(now),
                        self@.claim_context(owner).receipt(now),
                    ),
                ),
            },
    {
        let pool: Pool = match self.pool {
            None => { return Err(CustomError::PoolNotFound); },
            Some(pool) => pool,
        };
        let account: LpStakingAccount = match self.positions.get(&owner) {
            None => { return Err(CustomError::PositionNotFound); },
            Some(account) => account,
        };
        let mut ctx = ClaimLpRewards { user: owner, lp_staking_account: account, pool };
        let receipt = claim_lp_rewards(&mut ctx, now)?;
        Ok((ctx, receipt))
    }

    /// The transfer that a deposit needs, or why the deposit is refused.
    /// Nothing is changed.
    pub fn stake_transfer(&self, owner: Address, amount: u64, lockup_period: i64, now: i64) -> (r:
        Result<Transfer, CustomError>)
        ensures
            match self@.stake_refusal(
                owner,
                amount,
                lockup_period,
                now,
                TransferOutcome::Completed,
            ) {
                Some(e) => r == Err::<Transfer, CustomError>(e),
                None => r == Ok::<Transfer, CustomError>(
                    self@.stake_context(owner, now).receipt(amount, lockup_period).transfer,
                ),
            },
    {
        let (_, receipt) = self.prepare_stake(owner, amount, lockup_period, now)?;
        Ok(receipt.transfer)
    }

    /// Commits a deposit whose transfer the ledger made, and refuses one
    /// whose transfer it rejected.
    pub fn stake(
        &mut self,
        owner: Address,
        amount: u64,
        lockup_period: i64,
        now: i64,
        outcome: TransferOutcome,
    ) -> (r: Result<StakeEvent, CustomError>)
        requires
            old(self).wf(),
        ensures
            final(self).wf(),
            match old(self)@.stake_refusal(owner, amount, lockup_period, now, outcome) {
                Some(e) => r == Err::<StakeEvent, CustomError>(e) && final(self)@ == old(self)@,
                None => r == Ok::<StakeEvent, CustomError>(
                    old(self)@.stake_context(owner, now).receipt(amount, lockup_period).event,
                ) && final(self)@ == old(self)@.after_stake(owner, amount, lockup_period, now),
            },
    {
        let (ctx, receipt) = self.prepare_stake(owner, amount, lockup_period, now)?;
        if outcome == TransferOutcome::Rejected {
            return Err(CustomError::TransferFailed);
        }
        proof {
            lemma_saved(self@.positions, ctx.lp_staking_account, now);
        }
        self.pool = Some(ctx.pool);
        self.positions.save(ctx.lp_staking_account);
        Ok(receipt.event)
    }

    /// The transfer that a withdrawal needs, or why the withdrawal is
    /// refused. Nothing is changed.
    pub fn unstake_transfer(&self, owner: Address, now: i64) -> (r: Result<Transfer, CustomError>)
        ensures
            match self@.unstake_refusal(owner, now, TransferOutcome::Completed) {
                Some(e) => r == Err::<Transfer, CustomError>(e),
                None => r == Ok::<Transfer, CustomError>(
                    self@.unstake_context(owner).receipt().transfer,
                ),
            },
    {
        let (_, receipt) = self.prepare_unstake(owner, now)?;
        Ok(receipt.transfer)
    }

    /// Commits a withdrawal whose transfer the ledger made, and refuses one
    /// whose transfer it rejected.
    pub fn unstake(&mut self, owner: Address, now: i64, outcome: TransferOutcome) -> (r: Result<
        UnstakeEvent,
        CustomError,
    >)
        requires
            old(self).wf(),
        ensures
            final(self).wf(),
            match old(self)@.unstake_refusal(owner, now, outcome) {
                Some(e) => r == Err::<UnstakeEvent, CustomError>(e) && final(self)@ == old(self)@,
                None => r == Ok::<UnstakeEvent, CustomError>(
                    old(self)@.unstake_context(owner).receipt().event,
                ) && final(self)@ == old(self)@.after_unstake(owner, now),
            },
    {
        let (ctx, receipt) = self.prepare_unstake(owner, now)?;
        if outcome == TransferOutcome::Rejected {
            return Err(CustomError::TransferFailed);
        }
        proof {
            lemma_index_of(self@.positions, owner);
            lemma_saved(self@.positions, ctx.lp_staking_account, now);
        }
        self.pool = Some(ctx.pool);
        self.positions.save(ctx.lp_staking_account);
        Ok(receipt.event)
    }

    /// The transfer that a claim needs, or why the claim is refused. Nothing
    /// is changed.
    pub fn claim_transfer(&self, owner: Address, now: i64) -> (r: Result<Transfer, CustomError>)
        ensures
            match self@.claim_refusal(owner, now, TransferOutcome::Completed) {
                Some(e) => r == Err::<Transfer, CustomError>(e),
                None => r == Ok::<Transfer, CustomError>(
                    self@.claim_context(owner).receipt(now).transfer,
                ),
            },
    {
        let (_, receipt) = self.prepare_claim(owner, now)?;
        Ok(receipt.transfer)
    }

    /// Commits a claim whose transfer the ledger made, and refuses one whose
    /// transfer it rejected.
    pub fn claim_rewards(&mut self, owner: Address, now: i64, outcome: TransferOutcome) -> (r:
        Result<ClaimRewardsEvent, CustomError>)
        requires
            old(self).wf(),
        ensures
            final(self).wf(),
            match old(self)@.claim_refusal(owner, now, outcome) {
                Some(e) => r == Err::<ClaimRewardsEvent, CustomError>(e) && final(self)@ == old(
                    self,
                )@,
                None => r == Ok::<ClaimRewardsEvent, CustomError>(
                    old(self)@.claim_context(owner).receipt(now).event,
                ) && final(self)@ == old(self)@.after_claim(owner, now),
            },
    {
        let (ctx, receipt) = self.prepare_claim(owner, now)?;
        if outcome == TransferOutcome::Rejected {
            return Err(CustomError::TransferFailed);
        }
        proof {
            lemma_index_of(self@.positions, owner);
            lemma_saved(self@.positions, ctx.lp_staking_account, now);
        }
        self.pool = Some(ctx.pool);
        self.positions.save(ctx.lp_staking_account);
        Ok(receipt.event)
    }

    /// Makes `operation`: the method of the same name, with its notification
    /// or its refusal.
    pub fn apply(&mut self, operation: Operation) -> (r: Result<Notification, CustomError>)
        requires
            old(self).wf(),
        ensures
            final(self).wf(),
            final(self)@ == old(self)@.step(operation),
            match old(self)@.refusal(operation) {
                Some(e) => r == Err::<Notification, CustomError>(e),
                None => r == Ok::<Notification, CustomError>(old(self)@.notification(operation)),
            },
    {
        match operation {
            Operation::Initialize { reward_rate, reward_multiplier, now } => {
                let event = self.initialize(reward_rate, reward_multiplier, now)?;
                Ok(Notification::Initialize(event))
            },
            Operation::Stake { owner, amount, lockup_period, now, outcome } => {
                let event = self.stake(owner, amount, lockup_period, now, outcome)?;
                Ok(Notification::Stake(event))
            },
            Operation::Unstake { owner, now, outcome } => {
                let event = self.unstake(owner, now, outcome)?;
                Ok(Notification::Unstake(event))
            },
            Operation::ClaimRewards { owner, now, outcome } => {
                let event = self.claim_rewards(owner, now, outcome)?;
                Ok(Notification::ClaimRewards(event))
            },
            Operation::UpdatePool { now } => {
                let event = self.update_pool(now)?;
                Ok(Notification::UpdatePool(event))
            },
            Operation::SetRewardRate { authority, new_rate } => {
                let event = self.set_reward_rate(authority, new_rate)?;
                Ok(Notification::SetRewardRate(event))
            },
            Operation::SetRewardMultiplier { authority, new_multiplier } => {
                let event = self.set_reward_multiplier(authority, new_multiplier)?;
                Ok(Notification::SetRewardMultiplier(event))
            },
        }
    }
}

} // verus!
