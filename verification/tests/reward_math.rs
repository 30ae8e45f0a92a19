use staking_platform::instructions::claim_rewards;
use staking_platform::instructions::execute_auto_compound;
use staking_platform::instructions::unstake_tokens;
use staking_platform::instructions::withdraw_funds;
use staking_platform::reward_math::apply_reward_multiplier;
use staking_platform::reward_math::calculate_basis_point_share;
use staking_platform::reward_math::calculate_emergency_penalty;
use staking_platform::reward_math::calculate_projected_rewards;
use staking_platform::reward_math::calculate_protocol_fee;
use staking_platform::reward_math::calculate_reward_per_share_delta;
use staking_platform::reward_math::calculate_share_rewards;
use staking_platform::reward_math::narrow_to_u64;
use staking_platform::reward_math::saturating_add_i64;
use staking_platform::reward_math::saturating_mul_u128;
use staking_platform::reward_math::seconds_between;
use staking_platform::states::helper::read_i64_le;
use staking_platform::states::helper::read_key;
use staking_platform::states::helper::read_u16_le;
use staking_platform::states::helper::read_u32_le;
use staking_platform::states::helper::read_u64_le;
use staking_platform::states::helper::keys_equal;
use staking_platform::states::staking_pool_account::update_pool_rewards;
use staking_platform::states::staking_pool_account::StakingPool;
use staking_platform::states::user_stake_account::StakePosition;

fn key(n: u8) -> [u8; 32] {
    [n; 32]
}

fn pool_with_rate(rate: u64) -> StakingPool {
    StakingPool::new(key(1), 7, 0, key(2), key(3), rate)
}

fn active_position(staked: u64, last_update: i64) -> StakePosition {
    let mut position = StakePosition::empty();
    position.pool_id = 7;
    position.staked_amount = staked;
    position.lst_tokens = staked;
    position.last_reward_update = last_update;
    position.is_active = true;
    position
}

#[test]
fn projected_rewards_follow_the_formula() {
    assert_eq!(calculate_projected_rewards(1_000_000, 1_000_000, 1000), 1000);
    assert_eq!(calculate_projected_rewards(1_000_000, 1_000_000, 999), 999);
    assert_eq!(calculate_projected_rewards(3, 1_000_000_000_000, 5), 15);
    assert_eq!(calculate_projected_rewards(0, 1_000_000, 1000), 0);
    assert_eq!(calculate_projected_rewards(1_000_000, 0, 1000), 0);
    assert_eq!(calculate_projected_rewards(1_000_000, 1_000_000, 0), 0);
}

#[test]
fn projected_rewards_truncate_toward_zero() {
    assert_eq!(calculate_projected_rewards(1, 999_999_999_999, 1), 0);
    assert_eq!(calculate_projected_rewards(1, 1_999_999_999_999, 1), 1);
}

#[test]
fn projected_rewards_saturate_at_both_widths() {
    // the product leaves 128 bits: it is held at the top, then divided
    assert_eq!(calculate_projected_rewards(u64::MAX, u64::MAX, u64::MAX), u64::MAX);
    // the quotient leaves 64 bits although the product fits 128
    assert_eq!(calculate_projected_rewards(u64::MAX, u64::MAX, 1), u64::MAX);
    // the largest product whose quotient still fits
    assert_eq!(
        calculate_projected_rewards(u64::MAX, 1_000_000_000_000, 1),
        u64::MAX
    );
    assert_eq!(
        calculate_projected_rewards(u64::MAX - 1, 1_000_000_000_000, 1),
        u64::MAX - 1
    );
}

#[test]
fn share_rewards_scale_the_accumulator() {
    assert_eq!(calculate_share_rewards(1_000_000, 1_000_000_000_000_000), 1_000_000_000);
    assert_eq!(calculate_share_rewards(5, 1_000_000_000_000), 5);
    assert_eq!(calculate_share_rewards(5, 999_999_999_999), 4);
    assert_eq!(calculate_share_rewards(u64::MAX, u128::MAX), u64::MAX);
    assert_eq!(calculate_share_rewards(0, u128::MAX), 0);
}

#[test]
fn multiplier_applies_only_above_one_hundred() {
    assert_eq!(apply_reward_multiplier(1000, 100), 1000);
    assert_eq!(apply_reward_multiplier(1000, 50), 1000);
    assert_eq!(apply_reward_multiplier(1000, 0), 1000);
    assert_eq!(apply_reward_multiplier(1000, 150), 1500);
    assert_eq!(apply_reward_multiplier(1001, 101), 1011);
    assert_eq!(apply_reward_multiplier(u64::MAX, 200), u64::MAX);
}

#[test]
fn protocol_fee_is_basis_points_of_the_amount() {
    assert_eq!(calculate_protocol_fee(1000, 500), 50);
    assert_eq!(calculate_protocol_fee(1000, 0), 0);
    assert_eq!(calculate_protocol_fee(1000, 10_000), 1000);
    assert_eq!(calculate_protocol_fee(999, 1), 0);
    assert_eq!(calculate_protocol_fee(19_999, 1), 1);
    assert_eq!(calculate_protocol_fee(u64::MAX, 10_000), u64::MAX);
    assert_eq!(calculate_protocol_fee(u64::MAX, 20_000), u64::MAX);
    assert_eq!(calculate_protocol_fee(10, 65_535), 65);
}

#[test]
fn early_withdrawal_penalty_is_basis_points_of_the_amount() {
    assert_eq!(unstake_tokens::calculate_early_withdrawal_penalty(10_000, 250), 250);
    assert_eq!(unstake_tokens::calculate_early_withdrawal_penalty(10_000, 0), 0);
    assert_eq!(
        unstake_tokens::calculate_early_withdrawal_penalty(u64::MAX, u64::MAX),
        u64::MAX
    );
    assert_eq!(calculate_basis_point_share(7, 5_000), 3);
}

#[test]
fn emergency_penalty_is_raised_by_half_and_capped() {
    // 1000 bps raised to 1500 bps
    assert_eq!(calculate_emergency_penalty(10_000, 1000), 1500);
    // 3333 bps raised to 4999 bps
    assert_eq!(calculate_emergency_penalty(10_000, 3333), 4999);
    // 3334 bps would be 5001 bps: capped at 5000
    assert_eq!(calculate_emergency_penalty(10_000, 3334), 5000);
    assert_eq!(calculate_emergency_penalty(10_000, 10_000), 5000);
    assert_eq!(calculate_emergency_penalty(500, 4000), 250);
    assert_eq!(calculate_emergency_penalty(501, 4000), 250);
    assert_eq!(calculate_emergency_penalty(10_000, u64::MAX), 5000);
    assert_eq!(calculate_emergency_penalty(u64::MAX, u64::MAX), u64::MAX / 2);
    assert_eq!(calculate_emergency_penalty(10_000, 0), 0);
    // one basis point raised by half truncates back to one
    assert_eq!(calculate_emergency_penalty(10_000, 1), 1);
}

#[test]
fn emergency_penalty_of_a_pool_uses_its_rate() {
    let mut pool = pool_with_rate(1);
    pool.early_withdraw_penalty = 4000;
    assert_eq!(withdraw_funds::calculate_emergency_penalty(500, &pool), 250);
    pool.early_withdraw_penalty = 200;
    assert_eq!(withdraw_funds::calculate_emergency_penalty(10_000, &pool), 300);
}

#[test]
fn reward_per_share_delta_follows_the_formula() {
    assert_eq!(
        calculate_reward_per_share_delta(1_000_000, 1000, 1_000_000),
        1_000_000_000_000_000
    );
    assert_eq!(calculate_reward_per_share_delta(1, 1, 3), 333_333_333_333);
    assert_eq!(calculate_reward_per_share_delta(0, 1000, 5), 0);
    assert_eq!(
        calculate_reward_per_share_delta(u64::MAX, i64::MAX as u64, 1),
        u128::MAX
    );
    assert_eq!(
        calculate_reward_per_share_delta(u64::MAX, i64::MAX as u64, 2),
        u128::MAX / 2
    );
}

#[test]
fn saturating_helpers_hold_at_the_bounds() {
    assert_eq!(saturating_mul_u128(3, 4), 12);
    assert_eq!(saturating_mul_u128(u128::MAX, 2), u128::MAX);
    assert_eq!(saturating_mul_u128(u128::MAX, 0), 0);
    assert_eq!(narrow_to_u64(5), 5);
    assert_eq!(narrow_to_u64(u64::MAX as u128), u64::MAX);
    assert_eq!(narrow_to_u64(u64::MAX as u128 + 1), u64::MAX);
    assert_eq!(saturating_add_i64(1, 2), 3);
    assert_eq!(saturating_add_i64(i64::MAX, 1), i64::MAX);
    assert_eq!(saturating_add_i64(i64::MIN, -1), i64::MIN);
    assert_eq!(saturating_add_i64(i64::MAX, i64::MIN), -1);
}

#[test]
fn seconds_between_never_goes_negative() {
    assert_eq!(seconds_between(0, 1000), 1000);
    assert_eq!(seconds_between(1000, 1000), 0);
    assert_eq!(seconds_between(1000, 999), 0);
    assert_eq!(seconds_between(-5, 5), 10);
    assert_eq!(seconds_between(i64::MIN, i64::MAX), i64::MAX as u64);
    assert_eq!(seconds_between(i64::MAX, i64::MIN), 0);
}

#[test]
fn refresh_adds_the_delta_once() {
    let mut pool = pool_with_rate(1_000_000);
    pool.total_staked = 1_000_000;
    update_pool_rewards(&mut pool, 1000);
    assert_eq!(pool.accumulated_reward_per_share, 1_000_000_000_000_000);
    assert_eq!(pool.last_reward_timestamp, 1000);
    // a second refresh at the same time changes nothing
    update_pool_rewards(&mut pool, 1000);
    assert_eq!(pool.accumulated_reward_per_share, 1_000_000_000_000_000);
    assert_eq!(pool.last_reward_timestamp, 1000);
    // an earlier time changes nothing either
    update_pool_rewards(&mut pool, 500);
    assert_eq!(pool.accumulated_reward_per_share, 1_000_000_000_000_000);
    assert_eq!(pool.last_reward_timestamp, 1000);
    pool.refresh(1500);
    assert_eq!(pool.accumulated_reward_per_share, 1_500_000_000_000_000);
    assert_eq!(pool.total_staked, 1_000_000);
}

#[test]
fn refresh_of_a_pool_without_stake_is_a_no_op() {
    let mut pool = pool_with_rate(1_000_000);
    update_pool_rewards(&mut pool, 1000);
    assert_eq!(pool.accumulated_reward_per_share, 0);
    assert_eq!(pool.last_reward_timestamp, 0);
}

#[test]
fn accumulator_never_falls_over_a_sequence_of_refreshes() {
    let mut pool = pool_with_rate(17);
    pool.total_staked = 3;
    let mut last: u128 = pool.accumulated_reward_per_share;
    for now in [0i64, 1, 1, 5, 3, 100, 100, 1_000_000, 999, i64::MAX] {
        update_pool_rewards(&mut pool, now);
        assert!(pool.accumulated_reward_per_share >= last);
        last = pool.accumulated_reward_per_share;
    }
    assert_eq!(pool.total_staked, 3);
}

#[test]
fn accumulator_saturates_instead_of_wrapping() {
    let mut pool = pool_with_rate(u64::MAX);
    pool.total_staked = 1;
    pool.accumulated_reward_per_share = u128::MAX - 1;
    update_pool_rewards(&mut pool, 10);
    assert_eq!(pool.accumulated_reward_per_share, u128::MAX);
}

#[test]
fn pool_totals_are_recorded_with_saturation() {
    let mut pool = pool_with_rate(1);
    pool.record_stake(100, 90);
    assert_eq!(pool.total_staked, 100);
    assert_eq!(pool.liquid_stake_supply, 90);
    pool.record_stake(u64::MAX, 1);
    assert_eq!(pool.total_staked, u64::MAX);
    assert_eq!(pool.liquid_stake_supply, 91);
    pool.record_unstake(u64::MAX - 5, 100);
    assert_eq!(pool.total_staked, 5);
    assert_eq!(pool.liquid_stake_supply, 0);
    pool.record_reward_distribution(7);
    pool.record_reward_distribution(8);
    assert_eq!(pool.total_reward_distributed, 15);
    pool.record_reward_distribution(u64::MAX);
    assert_eq!(pool.total_reward_distributed, u64::MAX);
}

#[test]
fn claim_rewards_project_from_the_rate() {
    let pool = pool_with_rate(1_000_000);
    let position = active_position(1_000_000, 0);
    assert_eq!(claim_rewards::calculate_position_rewards(&position, &pool, 1000), 1000);
    assert_eq!(claim_rewards::calculate_position_rewards(&position, &pool, 0), 0);
    assert_eq!(claim_rewards::calculate_position_rewards(&position, &pool, -5), 0);
    let mut inactive = position;
    inactive.is_active = false;
    assert_eq!(claim_rewards::calculate_position_rewards(&inactive, &pool, 1000), 0);
    let empty = active_position(0, 0);
    assert_eq!(claim_rewards::calculate_position_rewards(&empty, &pool, 1000), 0);
}

#[test]
fn claim_rewards_are_multiplied_while_the_lock_runs() {
    let mut pool = pool_with_rate(1_000_000);
    pool.reward_multiplier = 150;
    let mut position = active_position(1_000_000, 0);
    position.lock_exipry_enable = true;
    position.lock_expiry = 2000;
    assert_eq!(claim_rewards::calculate_position_rewards(&position, &pool, 1000), 1500);
    // at the expiry the lock no longer runs
    assert_eq!(claim_rewards::calculate_position_rewards(&position, &pool, 2000), 2000);
    position.lock_exipry_enable = false;
    assert_eq!(claim_rewards::calculate_position_rewards(&position, &pool, 1000), 1000);
}

#[test]
fn compound_rewards_add_the_share_of_the_accumulator() {
    // the two accrual models differ: compounding counts the position's share
    // of the accumulator on top of the projection that a claim pays
    let mut pool = pool_with_rate(1_000_000);
    pool.accumulated_reward_per_share = 2_000_000_000_000;
    let position = active_position(1_000_000, 0);
    assert_eq!(
        execute_auto_compound::calculate_position_rewards(&position, &pool, 1000),
        2_000_000 + 1000
    );
    assert_eq!(claim_rewards::calculate_position_rewards(&position, &pool, 1000), 1000);
    assert_eq!(execute_auto_compound::calculate_position_rewards(&position, &pool, 0), 0);
    pool.reward_multiplier = 200;
    let mut locked = position;
    locked.lock_exipry_enable = true;
    locked.lock_expiry = 5000;
    assert_eq!(
        execute_auto_compound::calculate_position_rewards(&locked, &pool, 1000),
        4_002_000
    );
}

#[test]
fn unstake_rewards_take_no_multiplier() {
    let mut pool = pool_with_rate(1_000_000);
    pool.reward_multiplier = 300;
    let mut position = active_position(1_000_000, 0);
    position.lock_exipry_enable = true;
    position.lock_expiry = 5000;
    assert_eq!(unstake_tokens::calculate_position_rewards(&position, &pool, 1000), 1000);
    assert_eq!(unstake_tokens::calculate_position_rewards(&position, &pool, 0), 0);
    assert_eq!(unstake_tokens::calculate_position_rewards(&position, &pool, -1), 0);
    position.pending_rewards = 5;
    unstake_tokens::calculate_and_distribute_rewards(&mut position, &pool, 1000);
    assert_eq!(position.pending_rewards, 1005);
    assert_eq!(position.last_reward_update, 0);
    unstake_tokens::calculate_and_distribute_rewards(&mut position, &pool, 0);
    assert_eq!(position.pending_rewards, 1005);
}

#[test]
fn little_endian_readers_agree_with_std() {
    let bytes: Vec<u8> = (1u8..=40).collect();
    assert_eq!(read_u16_le(&bytes, 3), u16::from_le_bytes([4, 5]));
    assert_eq!(read_u32_le(&bytes, 0), u32::from_le_bytes([1, 2, 3, 4]));
    assert_eq!(
        read_u64_le(&bytes, 2),
        u64::from_le_bytes([3, 4, 5, 6, 7, 8, 9, 10])
    );
    assert_eq!(read_u64_le(&[0xff; 8], 0), u64::MAX);
    assert_eq!(read_i64_le(&[0xff; 8], 0), -1);
    assert_eq!(read_i64_le(&[0, 0, 0, 0, 0, 0, 0, 0x80], 0), i64::MIN);
    assert_eq!(read_i64_le(&[0xff, 0xff, 0xff, 0xff, 0xff, 0xff, 0xff, 0x7f], 0), i64::MAX);
    assert_eq!(read_i64_le(&(-12345i64).to_le_bytes(), 0), -12345);
    assert_eq!(read_i64_le(&12345i64.to_le_bytes(), 0), 12345);
    let read = read_key(&bytes, 8);
    let expected: Vec<u8> = (9u8..=40).collect();
    assert_eq!(read.to_vec(), expected);
}

#[test]
fn keys_are_compared_byte_by_byte() {
    let a = key(1);
    let mut b = key(1);
    assert!(keys_equal(&a, &b));
    b[31] = 2;
    assert!(!keys_equal(&a, &b));
    b[31] = 1;
    b[0] = 0;
    assert!(!keys_equal(&a, &b));
}
