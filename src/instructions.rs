use vstd::prelude::*;
use crate::accounts::{Identity, PoolAccount, StakeEvent, UserStake};
use crate::reward::{calculate_reward, reward_of, StakingError};

verus! {

/// The records that pool creation touches.
#[derive(Clone, Copy, Debug)]
pub struct Initialize {
    pub pool_account: PoolAccount,
    pub initializer: Identity,
}

/// The records that a deposit touches.
#[derive(Clone, Copy, Debug)]
pub struct Stake {
    pub user_stake: UserStake,
    pub pool_account: PoolAccount,
    /// The key of the pool record.
    pub pool_key: Identity,
    /// The depositor, who signs the transfer in.
    pub staker: Identity,
}

/// The records that a reward claim touches.
#[derive(Clone, Copy, Debug)]
pub struct ClaimRewards {
    pub user_stake: UserStake,
    pub pool_account: PoolAccount,
}

/// The records that a withdrawal touches.
#[derive(Clone, Copy, Debug)]
pub struct Unstake {
    pub user_stake: UserStake,
    pub pool_account: PoolAccount,
    /// The caller, who must own the stake record.
    pub staker: Identity,
}

/// The records that a change of reward rate touches.
#[derive(Clone, Copy, Debug)]
pub struct AdjustRewardRate {
    pub pool_account: PoolAccount,
    /// The caller, who must have created the pool.
    pub initializer: Identity,
}

/// The records after a deposit of `amount` at time `now`, or the error.
pub open spec fn stake_outcome(ctx: Stake, amount: u64, now: i64) -> Result<Stake, StakingError> {
    if amount == 0 {
        Err(StakingError::InvalidAmount)
    } else if ctx.user_stake.amount_staked + amount > u64::MAX || ctx.pool_account.total_staked
        + amount > u64::MAX {
        Err(StakingError::ArithmeticOverflow)
    } else {
        let fresh = ctx.user_stake.amount_staked == 0;
        Ok(
            Stake {
                user_stake: UserStake {
                    amount_staked: (ctx.user_stake.amount_staked + amount) as u64,
                    start_time: if fresh { now } else { ctx.user_stake.start_time },
                    pool_account: if fresh { ctx.pool_key } else { ctx.user_stake.pool_account },
                    staker: if fresh { ctx.staker } else { ctx.user_stake.staker },
                    ..ctx.user_stake
                },
                pool_account: PoolAccount {
                    total_staked: (ctx.pool_account.total_staked + amount) as u64,
                    ..ctx.pool_account
                },
                ..ctx
            },
        )
    }
}

/// The records after a withdrawal of `amount`, or the error.
pub open spec fn unstake_outcome(ctx: Unstake, amount: u64) -> Result<Unstake, StakingError> {
    if amount == 0 {
        Err(StakingError::InvalidAmount)
    } else if ctx.staker.bytes@ != ctx.user_stake.staker.bytes@ {
        Err(StakingError::Unauthorized)
    } else if ctx.user_stake.amount_staked < amount {
        Err(StakingError::InsufficientBalance)
    } else if ctx.pool_account.total_staked < amount {
        Err(StakingError::ArithmeticOverflow)
    } else {
        Ok(
            Unstake {
                user_stake: UserStake {
                    amount_staked: (ctx.user_stake.amount_staked - amount) as u64,
                    ..ctx.user_stake
                },
                pool_account: PoolAccount {
                    total_staked: (ctx.pool_account.total_staked - amount) as u64,
                    ..ctx.pool_account
                },
                ..ctx
            },
        )
    }
}

/// The records after a claim at time `now` and the reward minted, or the error.
pub open spec fn claim_outcome(ctx: ClaimRewards, now: i64) -> Result<
    (ClaimRewards, u64),
    StakingError,
> {
    let duration = now - ctx.user_stake.start_time;
    if ctx.pool_account.total_staked == 0 {
        Err(StakingError::DivisionByZero)
    } else if duration < i64::MIN || duration > i64::MAX {
        Err(StakingError::ArithmeticOverflow)
    } else {
        let reward = reward_of(
            ctx.user_stake.amount_staked as int,
            duration,
            ctx.pool_account.reward_rate as int,
            ctx.pool_account.total_staked as int,
        );
        if reward < 0 || reward > u64::MAX {
            Err(StakingError::ArithmeticOverflow)
        } else {
            Ok(
                (
                    ClaimRewards {
                        user_stake: UserStake { last_claim_time: now, ..ctx.user_stake },
                        ..ctx
                    },
                    reward as u64,
                ),
            )
        }
    }
}

/// Creates the pool record: the given rate, nothing staked, and the caller as
/// the pool's creator.
pub fn initialize(ctx: &mut Initialize, reward_rate: u64) -> (r: Result<(), StakingError>)
    ensures
        r == Ok::<(), StakingError>(()),
        final(ctx).initializer == old(ctx).initializer,
        final(ctx).pool_account.reward_rate == reward_rate,
        final(ctx).pool_account.total_staked == 0,
        final(ctx).pool_account.initializer == old(ctx).initializer,
{
    ctx.pool_account.reward_rate = reward_rate;
    ctx.pool_account.total_staked = 0;
    ctx.pool_account.initializer = ctx.initializer;
    Ok(())
}

/// Deposits `amount` at time `now` and returns the event to report. On a
/// record with nothing staked the start time, pool and owner are bound anew.
/// On an error nothing changes.
pub fn stake(ctx: &mut Stake, amount: u64, now: i64) -> (r: Result<StakeEvent, StakingError>)
    ensures
        match stake_outcome(*old(ctx), amount, now) {
            Ok(next) => *final(ctx) == next && r == Ok::<StakeEvent, StakingError>(
                (StakeEvent { user: old(ctx).staker, amount, time: now }),
            ),
            Err(e) => *final(ctx) == *old(ctx) && r == Err::<StakeEvent, StakingError>(e),
        },
{
    if amount == 0 {
        return Err(StakingError::InvalidAmount);
    }
    let new_amount = match ctx.user_stake.amount_staked.checked_add(amount) {
        Some(v) => v,
        None => return Err(StakingError::ArithmeticOverflow),
    };
    let new_total = match ctx.pool_account.total_staked.checked_add(amount) {
        Some(v) => v,
        None => return Err(StakingError::ArithmeticOverflow),
    };
    if ctx.user_stake.amount_staked == 0 {
        ctx.user_stake.start_time = now;
        ctx.user_stake.pool_account = ctx.pool_key;
        ctx.user_stake.staker = ctx.staker;
    }
    ctx.user_stake.amount_staked = new_amount;
    ctx.pool_account.total_staked = new_total;
    Ok(StakeEvent { user: ctx.staker, amount, time: now })
}

/// Computes and records a claim at time `now`, and returns the reward to
/// mint. On an error nothing changes.
pub fn claim_rewards(ctx: &mut ClaimRewards, now: i64) -> (r: Result<u64, StakingError>)
    ensures
        match claim_outcome(*old(ctx), now) {
            Ok((next, reward)) => *final(ctx) == next && r == Ok::<u64, StakingError>(reward),
            Err(e) => *final(ctx) == *old(ctx) && r == Err::<u64, StakingError>(e),
        },
{
    if ctx.pool_account.total_staked == 0 {
        return Err(StakingError::DivisionByZero);
    }
    let staking_duration = match now.checked_sub(ctx.user_stake.start_time) {
        Some(d) => d,
        None => return Err(StakingError::ArithmeticOverflow),
    };
    let reward_amount = calculate_reward(
        ctx.user_stake.amount_staked,
        staking_duration,
        ctx.pool_account.reward_rate,
        ctx.pool_account.total_staked,
    );
    match reward_amount {
        Ok(reward) => {
            ctx.user_stake.last_claim_time = now;
            Ok(reward)
        },
        Err(e) => Err(e),
    }
}

/// Withdraws `amount` for the record's owner. On an error nothing changes.
pub fn unstake(ctx: &mut Unstake, amount: u64) -> (r: Result<(), StakingError>)
    ensures
        match unstake_outcome(*old(ctx), amount) {
            Ok(next) => *final(ctx) == next && r == Ok::<(), StakingError>(()),
            Err(e) => *final(ctx) == *old(ctx) && r == Err::<(), StakingError>(e),
        },
{
    if amount == 0 {
        return Err(StakingError::InvalidAmount);
    }
    if !ctx.staker.same_as(&ctx.user_stake.staker) {
        return Err(StakingError::Unauthorized);
    }
    if ctx.user_stake.amount_staked < amount {
        return Err(StakingError::InsufficientBalance);
    }
    if ctx.pool_account.total_staked < amount {
        return Err(StakingError::ArithmeticOverflow);
    }
    ctx.user_stake.amount_staked = ctx.user_stake.amount_staked - amount;
    ctx.pool_account.total_staked = ctx.pool_account.total_staked - amount;
    Ok(())
}

/// Replaces the pool's reward rate when the caller created the pool; any
/// rate is accepted. On an error nothing changes.
pub fn adjust_reward_rate(ctx: &mut AdjustRewardRate, new_rate: u64) -> (r: Result<(), StakingError>)
    ensures
        old(ctx).initializer.bytes@ == old(ctx).pool_account.initializer.bytes@ ==> {
            &&& r == Ok::<(), StakingError>(())
            &&& *final(ctx) == (AdjustRewardRate {
                pool_account: PoolAccount { reward_rate: new_rate, ..old(ctx).pool_account },
                ..*old(ctx)
            })
        },
        old(ctx).initializer.bytes@ != old(ctx).pool_account.initializer.bytes@ ==> {
            &&& r == Err::<(), StakingError>(StakingError::Unauthorized)
            &&& *final(ctx) == *old(ctx)
        },
{
    if !ctx.initializer.same_as(&ctx.pool_account.initializer) {
        return Err(StakingError::Unauthorized);
    }
    ctx.pool_account.reward_rate = new_rate;
    Ok(())
}

} // verus!
