use vstd::prelude::*;

verus! {

/// Failures that any staking operation can report.
#[derive(Clone, Copy, Debug, PartialEq, Eq, Structural)]
pub enum StakingError {
    /// A stake or unstake amount of zero.
    InvalidAmount,
    /// An unstake larger than the record's current stake.
    InsufficientBalance,
    /// Rewards were already claimed.
    AlreadyClaimed,
    /// The caller is not the identity that the operation requires.
    Unauthorized,
    /// A balance or a reward does not fit its 64-bit range.
    ArithmeticOverflow,
    /// A reward was asked of a pool with nothing staked.
    DivisionByZero,
    /// The asset transfer or mint that accompanies an operation failed.
    TransferFailed,
}

/// The exact reward: `floor(amount_staked * reward_rate * duration / total_staked)`.
pub open spec fn reward_of(amount_staked: int, duration: int, reward_rate: int, total_staked: int) -> int
    recommends
        total_staked > 0,
{
    (amount_staked * reward_rate * duration) / total_staked
}

/// Computes the reward of a stake over a duration.
///
/// Fails with `DivisionByZero` when nothing is staked in the pool, and with
/// `ArithmeticOverflow` when the exact reward lies outside the `u64` range
/// (a negative duration on a nonzero stake and rate gives a negative reward).
pub fn calculate_reward(
    amount_staked: u64,
    staking_duration: i64,
    reward_rate: u64,
    total_staked: u64,
) -> (r: Result<u64, StakingError>)
    ensures
        total_staked == 0 ==> r == Err::<u64, StakingError>(StakingError::DivisionByZero),
        total_staked > 0 ==> ({
            let exact = reward_of(
                amount_staked as int,
                staking_duration as int,
                reward_rate as int,
                total_staked as int,
            );
            if 0 <= exact <= u64::MAX {
                r == Ok::<u64, StakingError>(exact as u64)
            } else {
                r == Err::<u64, StakingError>(StakingError::ArithmeticOverflow)
            }
        }),
{
    if total_staked == 0 {
        return Err(StakingError::DivisionByZero);
    }
    proof {
        lemma_product_bound(amount_staked as int, reward_rate as int);
    }
    let p: u128 = (amount_staked as u128) * (reward_rate as u128);
    if staking_duration < 0 {
        if p == 0 {
            proof {
                lemma_zero_product(amount_staked as int, reward_rate as int, staking_duration as int, total_staked as int);
            }
            return Ok(0);
        }
        proof {
            lemma_negative_reward(p as int, staking_duration as int, total_staked as int);
            assert(amount_staked as int * reward_rate as int * staking_duration as int
                == p as int * staking_duration as int);
        }
        return Err(StakingError::ArithmeticOverflow);
    }
    let t: u128 = total_staked as u128;
    let d: u128 = staking_duration as u128;
    let q: u128 = p / t;
    let m: u128 = p % t;
    proof {
        lemma_split_quotient(p as int, d as int, t as int);
        assert(amount_staked as int * reward_rate as int * staking_duration as int
            == p as int * d as int);
        vstd::arithmetic::div_mod::lemma_mod_pos_bound(p as int, t as int);
        assert(m as int * d as int <= u64::MAX as int * i64::MAX as int) by (nonlinear_arith)
            requires 0 <= m < t, t <= u64::MAX, 0 <= d <= i64::MAX;
    }
    let low: u128 = m * d / t;
    if q > 0 && d > (u64::MAX as u128) / q {
        proof {
            lemma_quotient_too_large(q as int, d as int);
        }
        return Err(StakingError::ArithmeticOverflow);
    }
    proof {
        if q > 0 {
            lemma_quotient_fits(q as int, d as int);
        }
        assert(q as int * d as int <= u64::MAX);
    }
    let high: u128 = q * d;
    proof {
        lemma_low_bound(m as int, d as int, t as int);
    }
    if high > (u64::MAX as u128) || low > (u64::MAX as u128) - high {
        return Err(StakingError::ArithmeticOverflow);
    }
    Ok((high + low) as u64)
}

proof fn lemma_product_bound(a: int, b: int)
    requires
        0 <= a <= u64::MAX,
        0 <= b <= u64::MAX,
    ensures
        0 <= a * b <= u128::MAX,
{
    assert(0 <= a * b <= u64::MAX as int * u64::MAX as int) by (nonlinear_arith)
        requires 0 <= a <= u64::MAX, 0 <= b <= u64::MAX;
}

proof fn lemma_zero_product(a: int, b: int, d: int, t: int)
    requires
        a * b == 0,
        t > 0,
    ensures
        reward_of(a, d, b, t) == 0,
{
    assert(a * b * d == 0) by (nonlinear_arith)
        requires a * b == 0;
}

proof fn lemma_negative_reward(p: int, d: int, t: int)
    requires
        p > 0,
        d < 0,
        t > 0,
    ensures
        (p * d) / t < 0,
{
    assert(p * d < 0) by (nonlinear_arith)
        requires p > 0, d < 0;
    vstd::arithmetic::div_mod::lemma_fundamental_div_mod(p * d, t);
    vstd::arithmetic::div_mod::lemma_mod_bound(p * d, t);
    assert((p * d) / t < 0) by (nonlinear_arith)
        requires p * d < 0, t > 0, p * d == t * ((p * d) / t) + (p * d) % t, 0 <= (p * d) % t < t;
}

/// `floor(p * d / t) == (p / t) * d + floor((p % t) * d / t)`.
proof fn lemma_split_quotient(p: int, d: int, t: int)
    requires
        p >= 0,
        d >= 0,
        t > 0,
    ensures
        (p * d) / t == (p / t) * d + ((p % t) * d) / t,
{
    let q = p / t;
    let m = p % t;
    vstd::arithmetic::div_mod::lemma_fundamental_div_mod(p, t);
    assert(p * d == (q * d) * t + m * d) by (nonlinear_arith)
        requires p == t * q + m;
    vstd::arithmetic::div_mod::lemma_hoist_over_denominator(m * d, q * d, t as nat);
}

proof fn lemma_quotient_too_large(q: int, d: int)
    requires
        q > 0,
        d >= 0,
        d > (u64::MAX as int) / q,
    ensures
        q * d > u64::MAX,
{
    vstd::arithmetic::div_mod::lemma_fundamental_div_mod(u64::MAX as int, q);
    vstd::arithmetic::div_mod::lemma_mod_pos_bound(u64::MAX as int, q);
    assert(q * d > u64::MAX) by (nonlinear_arith)
        requires q > 0, d >= (u64::MAX as int) / q + 1,
            (u64::MAX as int) == q * ((u64::MAX as int) / q) + (u64::MAX as int) % q, (u64::MAX as int) % q < q;
}

proof fn lemma_quotient_fits(q: int, d: int)
    requires
        q > 0,
        d >= 0,
        d <= (u64::MAX as int) / q,
    ensures
        q * d <= u64::MAX,
{
    vstd::arithmetic::div_mod::lemma_fundamental_div_mod(u64::MAX as int, q);
    vstd::arithmetic::div_mod::lemma_mod_pos_bound(u64::MAX as int, q);
    assert(q * d <= u64::MAX) by (nonlinear_arith)
        requires q > 0, d <= (u64::MAX as int) / q, d >= 0,
            (u64::MAX as int) == q * ((u64::MAX as int) / q) + (u64::MAX as int) % q, (u64::MAX as int) % q >= 0;
}

proof fn lemma_low_bound(m: int, d: int, t: int)
    requires
        m >= 0,
        d >= 0,
        t > 0,
    ensures
        (m * d) / t >= 0,
{
    assert(m * d >= 0) by (nonlinear_arith)
        requires m >= 0, d >= 0;
    vstd::arithmetic::div_mod::lemma_div_pos_is_pos(m * d, t);
}

} // verus!
