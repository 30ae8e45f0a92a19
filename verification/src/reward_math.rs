use vstd::prelude::*;

verus! {

/// The fixed-point scale of the reward accumulator.
pub const REWARD_SCALE: u128 = 1_000_000_000_000;

/// The number of basis points in one whole.
pub const BASIS_POINTS: u128 = 10_000;

/// The percentage by which the penalty rate is raised on an emergency exit.
pub const EMERGENCY_PENALTY_PERCENT: u64 = 150;

/// The highest penalty rate of an emergency exit, in basis points.
pub const MAX_EMERGENCY_PENALTY_RATE: u64 = 5_000;

/// `x`, or `max` where `x` lies above it.
pub open spec fn saturate(x: int, max: int) -> int {
    if x > max {
        max
    } else {
        x
    }
}

/// The sum of two amounts, held at the top of the 64-bit range.
pub open spec fn sat_add(a: u64, b: u64) -> u64 {
    saturate(a + b, u64::MAX as int) as u64
}

/// The difference of two amounts, held at zero.
pub open spec fn sat_sub(a: u64, b: u64) -> u64 {
    if a >= b {
        (a - b) as u64
    } else {
        0
    }
}

/// The sum of two timestamps, held at both ends of the signed 64-bit range.
pub open spec fn sat_add_i64(a: i64, b: i64) -> i64 {
    if a + b > i64::MAX {
        i64::MAX
    } else if a + b < i64::MIN {
        i64::MIN
    } else {
        (a + b) as i64
    }
}

/// The seconds from `since` to `now`: zero where `now` is not later, and held
/// at the top of the signed 64-bit range.
pub open spec fn elapsed_seconds(since: i64, now: i64) -> int {
    if now <= since {
        0
    } else {
        saturate(now - since, i64::MAX as int)
    }
}

/// `a * b * c / divisor`, the product held at the top of the 128-bit range
/// and the quotient at the top of the 64-bit range.
pub open spec fn scaled_product(a: int, b: int, c: int, divisor: int) -> u64
    recommends
        divisor > 0,
{
    saturate(saturate(a * b * c, u128::MAX as int) / divisor, u64::MAX as int) as u64
}

/// The rewards that `staked` units earn in `elapsed` seconds at `rate`.
pub open spec fn projected_rewards(staked: u64, rate: u64, elapsed: int) -> u64 {
    scaled_product(staked as int, rate as int, elapsed, REWARD_SCALE as int)
}

/// The part of the accumulator that `staked` units represent.
pub open spec fn share_rewards(staked: u64, accumulated_reward_per_share: u128) -> u64 {
    scaled_product(staked as int, accumulated_reward_per_share as int, 1, REWARD_SCALE as int)
}

/// `rewards` scaled by `multiplier` percent where that is above 100.
pub open spec fn multiplied_rewards(rewards: u64, multiplier: u16) -> u64 {
    if multiplier <= 100 {
        rewards
    } else {
        saturate(rewards * multiplier / 100, u64::MAX as int) as u64
    }
}

/// `amount * rate / 10000`, held at the top of the 64-bit range.
pub open spec fn basis_point_share(amount: u64, rate: u64) -> u64 {
    saturate(amount * rate / (BASIS_POINTS as int), u64::MAX as int) as u64
}

/// The penalty rate of an emergency exit: one and a half times the base rate,
/// at most 5000 basis points.
pub open spec fn emergency_penalty_rate(base_rate: u64) -> u64 {
    saturate(
        saturate(base_rate * EMERGENCY_PENALTY_PERCENT, u64::MAX as int) / 100,
        MAX_EMERGENCY_PENALTY_RATE as int,
    ) as u64
}

/// The growth of the accumulator when `rate` was paid for `elapsed` seconds
/// to `total_staked` units.
pub open spec fn reward_per_share_delta(rate: u64, elapsed: int, total_staked: u64) -> u128
    recommends
        total_staked > 0,
        0 <= elapsed,
{
    (saturate(rate * elapsed * (REWARD_SCALE as int), u128::MAX as int) / (total_staked as int)) as u128
}

/// The product of two 128-bit values, held at the top of the range.
pub fn saturating_mul_u128(a: u128, b: u128) -> (product: u128)
    ensures
        product == saturate(a * b, u128::MAX as int),
{
    match a.checked_mul(b) {
        Some(p) => p,
        None => u128::MAX,
    }
}

/// Narrows a 128-bit value to 64 bits, held at the top of the range.
pub fn narrow_to_u64(x: u128) -> (narrow: u64)
    ensures
        narrow == saturate(x as int, u64::MAX as int),
{
    if x > 0xffff_ffff_ffff_ffff {
        u64::MAX
    } else {
        x as u64
    }
}

/// The sum of two timestamps, held at both ends of the range.
pub fn saturating_add_i64(a: i64, b: i64) -> (sum: i64)
    ensures
        sum == sat_add_i64(a, b),
{
    let wide: i128 = (a as i128) + (b as i128);
    if wide > 0x7fff_ffff_ffff_ffff {
        i64::MAX
    } else if wide < -0x8000_0000_0000_0000 {
        i64::MIN
    } else {
        wide as i64
    }
}

/// The seconds from `since` to `now`, zero where `now` is not later.
pub fn seconds_between(since: i64, now: i64) -> (elapsed: u64)
    ensures
        elapsed == elapsed_seconds(since, now),
        elapsed <= i64::MAX,
{
    if now <= since {
        0
    } else {
        let wide: i128 = (now as i128) - (since as i128);
        if wide > 0x7fff_ffff_ffff_ffff {
            0x7fff_ffff_ffff_ffff
        } else {
            wide as u64
        }
    }
}

/// Rewards of `staked` units over `elapsed` seconds at `rate` per second.
pub fn calculate_projected_rewards(staked: u64, rate: u64, elapsed: u64) -> (rewards: u64)
    ensures
        rewards == projected_rewards(staked, rate, elapsed as int),
{
    let base: u128 = saturating_mul_u128(staked as u128, rate as u128);
    assert(base == staked * rate) by (nonlinear_arith)
        requires
            base == saturate(staked * rate, u128::MAX as int),
            staked <= u64::MAX,
            rate <= u64::MAX,
    ;
    let product: u128 = saturating_mul_u128(base, elapsed as u128);
    narrow_to_u64(product / REWARD_SCALE)
}

/// The share of the accumulator that belongs to `staked` units.
pub fn calculate_share_rewards(staked: u64, accumulated_reward_per_share: u128) -> (rewards: u64)
    ensures
        rewards == share_rewards(staked, accumulated_reward_per_share),
{
    let product: u128 = saturating_mul_u128(staked as u128, accumulated_reward_per_share);
    assert(staked * accumulated_reward_per_share * 1 == staked * accumulated_reward_per_share)
        by (nonlinear_arith);
    narrow_to_u64(product / REWARD_SCALE)
}

/// Scales `rewards` by `multiplier` percent; a multiplier of 100 or less
/// leaves them as they are.
pub fn apply_reward_multiplier(rewards: u64, multiplier: u16) -> (scaled: u64)
    ensures
        scaled == multiplied_rewards(rewards, multiplier),
        scaled >= rewards,
{
    if multiplier <= 100 {
        return rewards;
    }
    let product: u128 = saturating_mul_u128(rewards as u128, multiplier as u128);
    assert(product == rewards * multiplier && rewards * multiplier >= rewards * 100)
        by (nonlinear_arith)
        requires
            product == saturate(rewards * multiplier, u128::MAX as int),
            rewards <= u64::MAX,
            100 < multiplier <= u16::MAX,
    ;
    narrow_to_u64(product / 100)
}

/// `amount * rate / 10000`, held at the top of the 64-bit range.
pub fn calculate_basis_point_share(amount: u64, rate: u64) -> (share: u64)
    ensures
        share == basis_point_share(amount, rate),
        rate <= BASIS_POINTS ==> share <= amount,
{
    let product: u128 = saturating_mul_u128(amount as u128, rate as u128);
    assert(product == amount * rate && (rate <= 10_000 ==> amount * rate <= amount * 10_000))
        by (nonlinear_arith)
        requires
            product == saturate(amount * rate, u128::MAX as int),
            amount <= u64::MAX,
            rate <= u64::MAX,
    ;
    narrow_to_u64(product / BASIS_POINTS)
}

/// The fee that the protocol keeps of `amount` at `fee_rate` basis points.
pub fn calculate_protocol_fee(amount: u64, fee_rate: u16) -> (fee: u64)
    ensures
        fee == basis_point_share(amount, fee_rate as u64),
        fee_rate <= BASIS_POINTS ==> fee <= amount,
{
    calculate_basis_point_share(amount, fee_rate as u64)
}

/// The penalty of an emergency exit: the base rate raised by half, at most
/// half of `amount`.
pub fn calculate_emergency_penalty(amount: u64, base_penalty_rate: u64) -> (penalty: u64)
    ensures
        penalty == basis_point_share(amount, emergency_penalty_rate(base_penalty_rate)),
        penalty == amount * emergency_penalty_rate(base_penalty_rate) / 10_000,
        emergency_penalty_rate(base_penalty_rate) <= MAX_EMERGENCY_PENALTY_RATE,
        2 * penalty <= amount,
{
    let raised: u64 = match base_penalty_rate.checked_mul(EMERGENCY_PENALTY_PERCENT) {
        Some(r) => r,
        None => u64::MAX,
    };
    let scaled: u64 = raised / 100;
    let rate: u64 = if scaled > MAX_EMERGENCY_PENALTY_RATE {
        MAX_EMERGENCY_PENALTY_RATE
    } else {
        scaled
    };
    let penalty: u64 = calculate_basis_point_share(amount, rate);
    assert(amount * rate <= amount * 5_000) by (nonlinear_arith)
        requires
            rate <= 5_000,
            amount >= 0,
    ;
    penalty
}

/// The growth of the accumulator over `elapsed` seconds.
pub fn calculate_reward_per_share_delta(rate: u64, elapsed: u64, total_staked: u64) -> (delta: u128)
    requires
        total_staked > 0,
    ensures
        delta == reward_per_share_delta(rate, elapsed as int, total_staked),
{
    let earned: u128 = saturating_mul_u128(rate as u128, elapsed as u128);
    assert(earned == rate * elapsed) by (nonlinear_arith)
        requires
            earned == saturate(rate * elapsed, u128::MAX as int),
            rate <= u64::MAX,
            elapsed <= u64::MAX,
    ;
    let scaled: u128 = saturating_mul_u128(earned, REWARD_SCALE);
    scaled / (total_staked as u128)
}

/// Fee and payout always add up to the claimed amount while the fee rate is
/// at most one whole.
pub proof fn lemma_fee_split_is_exact(total_claimable: u64, fee_rate: u16)
    requires
        fee_rate <= BASIS_POINTS,
    ensures
        sat_sub(total_claimable, basis_point_share(total_claimable, fee_rate as u64))
            + basis_point_share(total_claimable, fee_rate as u64) == total_claimable,
{
    assert(total_claimable * fee_rate <= total_claimable * 10_000) by (nonlinear_arith)
        requires
            fee_rate <= 10_000,
            total_claimable >= 0,
    ;
}

} // verus!
