use vstd::prelude::*;
use crate::accounts::UserStake;
use crate::instructions::{
    claim_outcome, stake_outcome, unstake_outcome, ClaimRewards, Stake, Unstake,
};

verus! {

/// The sum of the stakes held by a sequence of stake records.
pub open spec fn sum_staked(records: Seq<UserStake>) -> int
    decreases records.len(),
{
    if records.len() == 0 {
        0
    } else {
        sum_staked(records.drop_last()) + records.last().amount_staked
    }
}

/// Replacing one record changes the sum by the change in that record's stake.
pub proof fn lemma_sum_update(records: Seq<UserStake>, i: int, rec: UserStake)
    requires
        0 <= i < records.len(),
    ensures
        sum_staked(records.update(i, rec)) == sum_staked(records) - records[i].amount_staked
            + rec.amount_staked,
    decreases records.len(),
{
    let updated = records.update(i, rec);
    if i == records.len() - 1 {
        assert(updated.drop_last() =~= records.drop_last());
    } else {
        lemma_sum_update(records.drop_last(), i, rec);
        assert(updated.drop_last() =~= records.drop_last().update(i, rec));
    }
}

/// A deposit keeps the pool total equal to the sum of the pool's stakes: if
/// it held before, with the record at `i` the one deposited to, it holds
/// after, with that record replaced by its new value.
pub proof fn law_stake_keeps_total(records: Seq<UserStake>, i: int, ctx: Stake, amount: u64, now: i64)
    requires
        0 <= i < records.len(),
        records[i] == ctx.user_stake,
        ctx.pool_account.total_staked == sum_staked(records),
    ensures
        match stake_outcome(ctx, amount, now) {
            Ok(next) => next.pool_account.total_staked == sum_staked(
                records.update(i, next.user_stake),
            ),
            Err(_) => true,
        },
{
    if let Ok(next) = stake_outcome(ctx, amount, now) {
        lemma_sum_update(records, i, next.user_stake);
    }
}

/// A withdrawal keeps the pool total equal to the sum of the pool's stakes.
pub proof fn law_unstake_keeps_total(records: Seq<UserStake>, i: int, ctx: Unstake, amount: u64)
    requires
        0 <= i < records.len(),
        records[i] == ctx.user_stake,
        ctx.pool_account.total_staked == sum_staked(records),
    ensures
        match unstake_outcome(ctx, amount) {
            Ok(next) => next.pool_account.total_staked == sum_staked(
                records.update(i, next.user_stake),
            ),
            Err(_) => true,
        },
{
    if let Ok(next) = unstake_outcome(ctx, amount) {
        lemma_sum_update(records, i, next.user_stake);
    }
}

/// A reward claim keeps the pool total equal to the sum of the pool's stakes.
pub proof fn law_claim_keeps_total(records: Seq<UserStake>, i: int, ctx: ClaimRewards, now: i64)
    requires
        0 <= i < records.len(),
        records[i] == ctx.user_stake,
        ctx.pool_account.total_staked == sum_staked(records),
    ensures
        match claim_outcome(ctx, now) {
            Ok((next, _)) => next.pool_account.total_staked == sum_staked(
                records.update(i, next.user_stake),
            ),
            Err(_) => true,
        },
{
    if let Ok((next, _)) = claim_outcome(ctx, now) {
        lemma_sum_update(records, i, next.user_stake);
    }
}

/// A deposit followed at once by a withdrawal of the same amount by the same
/// depositor succeeds and restores the pool total and the record's stake.
/// The record is the depositor's own, or holds nothing yet.
pub proof fn law_stake_unstake_round_trip(ctx: Stake, amount: u64, now: i64)
    requires
        ctx.user_stake.amount_staked == 0 || ctx.user_stake.staker.bytes@ == ctx.staker.bytes@,
        stake_outcome(ctx, amount, now) is Ok,
    ensures
        ({
            let staked = stake_outcome(ctx, amount, now)->Ok_0;
            let back = unstake_outcome(
                Unstake {
                    user_stake: staked.user_stake,
                    pool_account: staked.pool_account,
                    staker: ctx.staker,
                },
                amount,
            );
            &&& back is Ok
            &&& back->Ok_0.pool_account.total_staked == ctx.pool_account.total_staked
            &&& back->Ok_0.user_stake.amount_staked == ctx.user_stake.amount_staked
        }),
{
}

} // verus!
