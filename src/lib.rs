//! Accounting core of a single-asset staking pool: the pool and stake
//! records, the reward formula, and the operations that move stake in and
//! out of the pool while keeping the pool total equal to the sum of stakes.

mod accounts;
mod instructions;
mod laws;
mod reward;

pub use accounts::{Identity, PoolAccount, StakeEvent, UserStake};
pub use instructions::{
    adjust_reward_rate, claim_outcome, claim_rewards, initialize, stake, stake_outcome, unstake,
    unstake_outcome, AdjustRewardRate, ClaimRewards, Initialize, Stake, Unstake,
};
pub use laws::{
    law_claim_keeps_total, law_stake_keeps_total, law_stake_unstake_round_trip,
    law_unstake_keeps_total, lemma_sum_update, sum_staked,
};
pub use reward::{calculate_reward, reward_of, StakingError};
