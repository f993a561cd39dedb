//! What holds of the operations taken together.

use vstd::prelude::*;
use crate::address::Address;
use crate::controller::{Operation, StakingState};
use crate::error::CustomError;
use crate::events::TransferOutcome;
use crate::instructions::{ClaimLpRewards, StakeLpTokens, UnstakeLpTokens};
use crate::position::LpStakingAccount;
use crate::pool::Pool;
use crate::rewards::elapsed;
use crate::store::{lemma_index_of, lemma_saved, position_of, total_amount};

verus! {

/// The state that the operations leave, made one after the other.
pub open spec fn run(state: StakingState, operations: Seq<Operation>) -> StakingState
    decreases operations.len(),
{
    if operations.len() == 0 {
        state
    } else {
        run(state, operations.drop_last()).step(operations.last())
    }
}

/// Whether `later` can follow `earlier`: a pool stays once it is set up, and
/// its index does not go down.
pub open spec fn follows(earlier: StakingState, later: StakingState) -> bool {
    earlier.pool matches Some(before) ==> {
        &&& later.pool matches Some(after)
        &&& after.accumulated_reward_per_share >= before.accumulated_reward_per_share
    }
}

/// Bringing a pool up to date does not lower its index, and the pool then
/// counts time from `now`: from no earlier than before, where the clock has
/// not gone back.
pub proof fn law_refresh_monotonic(pool: Pool, now: i64)
    requires
        !pool.refresh_overflows(now),
    ensures
        pool.refreshed(now).accumulated_reward_per_share >= pool.accumulated_reward_per_share,
        pool.refreshed(now).last_update_time == now,
        now >= pool.last_update_time ==> pool.refreshed(now).last_update_time
            >= pool.last_update_time,
{
}

/// Bringing a pool up to date twice at the same time does the second time
/// nothing: it is not refused and leaves the pool as the first left it.
pub proof fn law_refresh_idempotent(pool: Pool, now: i64)
    requires
        !pool.refresh_overflows(now),
    ensures
        !pool.refreshed(now).refresh_overflows(now),
        pool.refreshed(now).refreshed(now) == pool.refreshed(now),
{
    let once = pool.refreshed(now);
    assert(elapsed(once.last_update_time, now) == 0);
    assert(once.accrual(now) == 0) by {
        if once.total_staked > 0 {
            lemma_nothing_shared(once.reward_rate as nat, once.total_staked as nat);
        }
    }
    assert(once.reward_rate as nat * 0nat == 0) by (nonlinear_arith);
}

proof fn lemma_nothing_shared(rate: nat, total: nat)
    requires
        total > 0,
    ensures
        rate * 0nat / total == 0,
{
    assert(rate * 0nat == 0) by (nonlinear_arith);
    assert(0nat / total == 0) by (nonlinear_arith)
        requires
            total > 0,
    ;
}

/// Asking the controller twice at the same time to bring the pool up to date
/// does the second time nothing.
pub proof fn law_update_pool_idempotent(state: StakingState, now: i64)
    requires
        state.update_refusal(now) is None,
    ensures
        state.step(Operation::UpdatePool { now }).update_refusal(now) is None,
        state.step(Operation::UpdatePool { now }).step(Operation::UpdatePool { now })
            == state.step(Operation::UpdatePool { now }),
{
    law_refresh_idempotent(state.pool.unwrap(), now);
}

/// A deposit with a lockup period that is not negative leaves the position
/// locked at least until the time it counts from, and so does opening a
/// position.
pub proof fn law_lockup_after_last_stake(
    ctx: StakeLpTokens,
    amount: u64,
    lockup_period: i64,
    now: i64,
)
    requires
        ctx.refusal(amount, lockup_period, now) is None,
        lockup_period >= 0,
    ensures
        ctx.after(amount, lockup_period, now).lp_staking_account.lockup_end_time >= ctx.after(
            amount,
            lockup_period,
            now,
        ).lp_staking_account.last_stake_time,
        LpStakingAccount::empty(ctx.user, now).lockup_end_time >= LpStakingAccount::empty(
            ctx.user,
            now,
        ).last_stake_time,
{
}

/// One operation keeps the books: where the state was well formed, the state
/// that the operation leaves is, and the pool's index has not gone down.
pub proof fn law_step_conserves(state: StakingState, operation: Operation)
    requires
        state.wf(),
    ensures
        state.step(operation).wf(),
        follows(state, state.step(operation)),
{
    if state.refusal(operation) is None {
        match operation {
            Operation::Initialize { .. } => {},
            Operation::Stake { owner, amount, lockup_period, now, .. } => {
                let done = state.stake_context(owner, now).after(amount, lockup_period, now);
                lemma_saved(state.positions, done.lp_staking_account, now);
            },
            Operation::Unstake { owner, now, .. } => {
                let done = state.unstake_context(owner).after(now);
                lemma_index_of(state.positions, owner);
                lemma_saved(state.positions, done.lp_staking_account, now);
            },
            Operation::ClaimRewards { owner, now, .. } => {
                let done = state.claim_context(owner).after(now);
                lemma_index_of(state.positions, owner);
                lemma_saved(state.positions, done.lp_staking_account, now);
            },
            Operation::UpdatePool { .. } => {},
            Operation::SetRewardRate { .. } => {},
            Operation::SetRewardMultiplier { .. } => {},
        }
    }
}

/// After any sequence of operations the pool's total is the sum of what the
/// positions hold, each depositor has one position at most, and the pool's
/// index is no lower than at the start.
pub proof fn law_conservation(state: StakingState, operations: Seq<Operation>)
    requires
        state.wf(),
    ensures
        run(state, operations).wf(),
        run(state, operations).pool matches Some(pool) ==> pool.total_staked == total_amount(
            run(state, operations).positions,
        ),
        follows(state, run(state, operations)),
    decreases operations.len(),
{
    if operations.len() > 0 {
        law_conservation(state, operations.drop_last());
        law_step_conserves(run(state, operations.drop_last()), operations.last());
    }
}

/// A withdrawal before the lockup has run out is refused with
/// `LockupNotEnded`, whatever else holds.
pub proof fn law_unstake_locked(ctx: UnstakeLpTokens, now: i64)
    requires
        now < ctx.lp_staking_account.lockup_end_time,
    ensures
        ctx.refusal(now) == Some(CustomError::LockupNotEnded),
{
}

/// A withdrawal at or after the end of the lockup goes through and empties
/// the position, where the pool can be brought up to date and holds at least
/// what the position holds.
pub proof fn law_unstake_unlocked(ctx: UnstakeLpTokens, now: i64)
    requires
        now >= ctx.lp_staking_account.lockup_end_time,
        !ctx.pool.refresh_overflows(now),
        ctx.pool.total_staked >= ctx.lp_staking_account.lp_amount,
    ensures
        ctx.refusal(now) is None,
        ctx.after(now).lp_staking_account.lp_amount == 0,
        ctx.receipt().transfer.amount == ctx.lp_staking_account.lp_amount,
{
}

/// In a well-formed state, a depositor with a position is refused a
/// withdrawal before the end of the lockup with `LockupNotEnded`, and the
/// state stays as it was. At or after the end of the lockup the withdrawal
/// goes through once the ledger has made the transfer, where the pool can be
/// brought up to date; it leaves the depositor nothing at stake and takes what
/// was at stake from the pool's total.
pub proof fn law_unstake(state: StakingState, owner: Address, now: i64, outcome: TransferOutcome)
    requires
        state.wf(),
        state.pool is Some,
        position_of(state.positions, owner) is Some,
    ensures
        now < position_of(state.positions, owner).unwrap().lockup_end_time ==> {
            &&& state.unstake_refusal(owner, now, outcome) == Some(CustomError::LockupNotEnded)
            &&& state.step(Operation::Unstake { owner, now, outcome }) == state
        },
        now >= position_of(state.positions, owner).unwrap().lockup_end_time
            && !state.pool.unwrap().refresh_overflows(now) && outcome
            == TransferOutcome::Completed ==> {
            &&& state.unstake_refusal(owner, now, outcome) is None
            &&& position_of(state.after_unstake(owner, now).positions, owner) matches Some(
                account,
            ) && account.lp_amount == 0
            &&& state.after_unstake(owner, now).pool.unwrap().total_staked
                == state.pool.unwrap().total_staked - position_of(
                state.positions,
                owner,
            ).unwrap().lp_amount
        },
{
    let done = state.unstake_context(owner).after(now);
    lemma_index_of(state.positions, owner);
    lemma_saved(state.positions, done.lp_staking_account, now);
}

/// A claim on a position with nothing at stake pays nothing, and is not
/// refused where the pool can be brought up to date.
pub proof fn law_claim_nothing_staked(ctx: ClaimLpRewards, now: i64)
    requires
        ctx.lp_staking_account.lp_amount == 0,
    ensures
        ctx.rewards(now) == 0,
        !ctx.pool.refresh_overflows(now) ==> ctx.refusal(now) is None,
        ctx.receipt(now).transfer.amount == 0,
        ctx.receipt(now).event.rewards == 0,
        ctx.after(now).lp_staking_account.reward_debt == ctx.lp_staking_account.reward_debt,
{
    let duration = elapsed(ctx.lp_staking_account.last_stake_time, now);
    let multiplier = ctx.pool.reward_multiplier as nat;
    assert(0nat * duration == 0) by (nonlinear_arith);
    assert(0nat * duration * multiplier == 0) by (nonlinear_arith);
    assert(0nat / 1000nat == 0);
}

/// An operation that is refused changes nothing, whatever the reason.
pub proof fn law_refused_changes_nothing(state: StakingState, operation: Operation)
    requires
        state.refusal(operation) is Some,
    ensures
        state.step(operation) == state,
{
}

} // verus!
