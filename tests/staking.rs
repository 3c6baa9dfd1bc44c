use dynamic_staking_pool::{
    adjust_reward_rate, calculate_reward, claim_rewards, initialize, stake, unstake,
    AdjustRewardRate, ClaimRewards, Identity, Initialize, PoolAccount, Stake, StakingError,
    Unstake, UserStake,
};

fn key(b: u8) -> Identity {
    Identity { bytes: [b; 32] }
}

fn empty_pool() -> PoolAccount {
    PoolAccount { reward_rate: 0, total_staked: 0, initializer: Identity::zero() }
}

fn empty_stake() -> UserStake {
    UserStake {
        amount_staked: 0,
        start_time: 0,
        last_claim_time: 0,
        pool_account: Identity::zero(),
        staker: Identity::zero(),
    }
}

fn new_pool(rate: u64, creator: Identity) -> PoolAccount {
    let mut ctx = Initialize { pool_account: empty_pool(), initializer: creator };
    initialize(&mut ctx, rate).unwrap();
    ctx.pool_account
}

#[test]
fn initialize_sets_rate_total_and_creator() {
    let pool = new_pool(10, key(7));
    assert_eq!(pool.reward_rate, 10);
    assert_eq!(pool.total_staked, 0);
    assert!(pool.initializer.same_as(&key(7)));
}

#[test]
fn scenario_stake_then_claim() {
    let pool = new_pool(10, key(9));
    let mut s = Stake { user_stake: empty_stake(), pool_account: pool, pool_key: key(1), staker: key(2) };
    let ev = stake(&mut s, 100, 1_000).unwrap();
    assert_eq!(s.pool_account.total_staked, 100);
    assert_eq!(s.user_stake.amount_staked, 100);
    assert_eq!(s.user_stake.start_time, 1_000);
    assert!(s.user_stake.staker.same_as(&key(2)));
    assert!(s.user_stake.pool_account.same_as(&key(1)));
    assert_eq!(ev.amount, 100);
    assert_eq!(ev.time, 1_000);
    assert!(ev.user.same_as(&key(2)));
    let mut c = ClaimRewards { user_stake: s.user_stake, pool_account: s.pool_account };
    assert_eq!(claim_rewards(&mut c, 1_005), Ok(50));
    assert_eq!(c.user_stake.last_claim_time, 1_005);
    assert_eq!(c.user_stake.amount_staked, 100);
    assert_eq!(c.pool_account.total_staked, 100);
}

#[test]
fn second_stake_keeps_start_time() {
    let mut s = Stake { user_stake: empty_stake(), pool_account: new_pool(1, key(9)), pool_key: key(1), staker: key(2) };
    stake(&mut s, 5, 10).unwrap();
    stake(&mut s, 7, 20).unwrap();
    assert_eq!(s.user_stake.amount_staked, 12);
    assert_eq!(s.user_stake.start_time, 10);
    assert_eq!(s.pool_account.total_staked, 12);
}

#[test]
fn stake_zero_is_invalid_and_changes_nothing() {
    let mut s = Stake { user_stake: empty_stake(), pool_account: new_pool(1, key(9)), pool_key: key(1), staker: key(2) };
    assert_eq!(stake(&mut s, 0, 10).err(), Some(StakingError::InvalidAmount));
    assert_eq!(s.pool_account.total_staked, 0);
    assert_eq!(s.user_stake.amount_staked, 0);
    assert_eq!(s.user_stake.start_time, 0);
}

#[test]
fn stake_overflow_leaves_total_unchanged() {
    let mut pool = new_pool(1, key(9));
    pool.total_staked = u64::MAX - 5;
    let mut s = Stake { user_stake: empty_stake(), pool_account: pool, pool_key: key(1), staker: key(2) };
    assert_eq!(stake(&mut s, 6, 10).err(), Some(StakingError::ArithmeticOverflow));
    assert_eq!(s.pool_account.total_staked, u64::MAX - 5);
    assert_eq!(s.user_stake.amount_staked, 0);
    assert!(stake(&mut s, 5, 10).is_ok());
    assert_eq!(s.pool_account.total_staked, u64::MAX);
}

#[test]
fn stake_then_unstake_restores_balances() {
    let mut pool = new_pool(3, key(9));
    pool.total_staked = 40;
    let mut s = Stake { user_stake: empty_stake(), pool_account: pool, pool_key: key(1), staker: key(2) };
    stake(&mut s, 25, 10).unwrap();
    let mut u = Unstake { user_stake: s.user_stake, pool_account: s.pool_account, staker: key(2) };
    assert_eq!(unstake(&mut u, 25), Ok(()));
    assert_eq!(u.pool_account.total_staked, 40);
    assert_eq!(u.user_stake.amount_staked, 0);
}

#[test]
fn unstake_more_than_staked_is_insufficient() {
    let mut s = Stake { user_stake: empty_stake(), pool_account: new_pool(3, key(9)), pool_key: key(1), staker: key(2) };
    stake(&mut s, 25, 10).unwrap();
    let mut u = Unstake { user_stake: s.user_stake, pool_account: s.pool_account, staker: key(2) };
    assert_eq!(unstake(&mut u, 26), Err(StakingError::InsufficientBalance));
    assert_eq!(u.user_stake.amount_staked, 25);
    assert_eq!(u.pool_account.total_staked, 25);
    assert_eq!(unstake(&mut u, 0), Err(StakingError::InvalidAmount));
    assert_eq!(u.user_stake.amount_staked, 25);
}

#[test]
fn unstake_by_stranger_is_unauthorized() {
    let mut s = Stake { user_stake: empty_stake(), pool_account: new_pool(3, key(9)), pool_key: key(1), staker: key(2) };
    stake(&mut s, 25, 10).unwrap();
    let mut u = Unstake { user_stake: s.user_stake, pool_account: s.pool_account, staker: key(3) };
    assert_eq!(unstake(&mut u, 5), Err(StakingError::Unauthorized));
    assert_eq!(u.user_stake.amount_staked, 25);
    assert_eq!(u.pool_account.total_staked, 25);
}

#[test]
fn unstake_beyond_pool_total_is_overflow() {
    let mut rec = empty_stake();
    rec.amount_staked = 10;
    rec.staker = key(2);
    let mut u = Unstake { user_stake: rec, pool_account: new_pool(3, key(9)), staker: key(2) };
    assert_eq!(unstake(&mut u, 10), Err(StakingError::ArithmeticOverflow));
    assert_eq!(u.user_stake.amount_staked, 10);
}

#[test]
fn adjust_rate_by_creator_and_by_stranger() {
    let mut a = AdjustRewardRate { pool_account: new_pool(10, key(9)), initializer: key(4) };
    assert_eq!(adjust_reward_rate(&mut a, 99), Err(StakingError::Unauthorized));
    assert_eq!(a.pool_account.reward_rate, 10);
    a.initializer = key(9);
    assert_eq!(adjust_reward_rate(&mut a, 0), Ok(()));
    assert_eq!(a.pool_account.reward_rate, 0);
    assert_eq!(adjust_reward_rate(&mut a, u64::MAX), Ok(()));
    assert_eq!(a.pool_account.reward_rate, u64::MAX);
    assert_eq!(a.pool_account.total_staked, 0);
}

#[test]
fn claim_on_empty_pool_is_division_by_zero() {
    let mut c = ClaimRewards { user_stake: empty_stake(), pool_account: new_pool(10, key(9)) };
    assert_eq!(claim_rewards(&mut c, 100), Err(StakingError::DivisionByZero));
    assert_eq!(c.user_stake.last_claim_time, 0);
}

#[test]
fn claim_with_overflowing_duration() {
    let mut pool = new_pool(10, key(9));
    pool.total_staked = 1;
    let mut rec = empty_stake();
    rec.start_time = i64::MIN;
    let mut c = ClaimRewards { user_stake: rec, pool_account: pool };
    assert_eq!(claim_rewards(&mut c, 1), Err(StakingError::ArithmeticOverflow));
    assert_eq!(c.user_stake.last_claim_time, 0);
}

#[test]
fn reward_formula_exact_values() {
    assert_eq!(calculate_reward(100, 5, 10, 100), Ok(50));
    assert_eq!(calculate_reward(1, 1, 1, 3), Ok(0));
    assert_eq!(calculate_reward(2, 5, 3, 7), Ok(4));
    assert_eq!(calculate_reward(0, -5, 3, 7), Ok(0));
    assert_eq!(calculate_reward(5, 0, 3, 7), Ok(0));
    assert_eq!(calculate_reward(5, 1, 3, 0), Err(StakingError::DivisionByZero));
    assert_eq!(calculate_reward(5, -1, 3, 7), Err(StakingError::ArithmeticOverflow));
}

#[test]
fn reward_formula_wide_intermediate() {
    assert_eq!(calculate_reward(u64::MAX, 1, u64::MAX, u64::MAX), Ok(u64::MAX));
    assert_eq!(calculate_reward(u64::MAX, 2, u64::MAX, u64::MAX), Err(StakingError::ArithmeticOverflow));
    assert_eq!(calculate_reward(u64::MAX, 7, 3, u64::MAX), Ok(21));
    assert_eq!(calculate_reward(u64::MAX, 2, 1, 2), Ok(u64::MAX));
    assert_eq!(calculate_reward(u64::MAX, 3, 1, 2), Err(StakingError::ArithmeticOverflow));
    assert_eq!(calculate_reward(u64::MAX, i64::MAX, u64::MAX, 1), Err(StakingError::ArithmeticOverflow));
}

#[test]
fn pool_total_tracks_sum_of_records() {
    let pool = new_pool(2, key(9));
    let mut a = Stake { user_stake: empty_stake(), pool_account: pool, pool_key: key(1), staker: key(2) };
    stake(&mut a, 30, 1).unwrap();
    let mut b = Stake { user_stake: empty_stake(), pool_account: a.pool_account, pool_key: key(1), staker: key(3) };
    stake(&mut b, 12, 2).unwrap();
    let rec_a = a.user_stake;
    let mut u = Unstake { user_stake: rec_a, pool_account: b.pool_account, staker: key(2) };
    unstake(&mut u, 10).unwrap();
    assert_eq!(u.pool_account.total_staked, u.user_stake.amount_staked + b.user_stake.amount_staked);
    assert_eq!(u.pool_account.total_staked, 32);
}

#[test]
fn identity_comparison() {
    let mut k = key(5);
    assert!(k.same_as(&key(5)));
    k.bytes[31] = 6;
    assert!(!k.same_as(&key(5)));
    assert!(Identity::zero().same_as(&key(0)));
}
