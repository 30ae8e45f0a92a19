use vstd::prelude::*;
use crate::error::StakingError;
use crate::reward_math::calculate_reward_per_share_delta;
use crate::reward_math::elapsed_seconds;
use crate::reward_math::reward_per_share_delta;
use crate::reward_math::sat_add;
use crate::reward_math::sat_sub;
use crate::reward_math::saturate;
use crate::reward_math::seconds_between;
use crate::states::helper::zero_key;
use crate::states::helper::Pubkey;

verus! {

/// One staking market: its configuration and its accrual state.
#[derive(Clone, Copy, Debug)]
pub struct StakingPool {
    pub authority: Pubkey,
    pub pool_id: u64,
    pub creation_timestamp: i64,
    /// The time up to which rewards have been folded into the accumulator.
    pub last_reward_timestamp: i64,
    /// The ordinal of a `PoolStatusEnum`.
    pub pool_status: u8,
    pub stake_token_mint: Pubkey,
    pub reward_token_mint: Pubkey,
    pub stake_token_vault: Pubkey,
    pub reward_token_vault: Pubkey,
    pub total_staked: u64,
    pub total_reward_distributed: u64,
    pub reward_rate_per_second: u64,
    /// Rewards per staked unit, scaled by `REWARD_SCALE`.
    pub accumulated_reward_per_share: u128,
    pub lock_period_enabled: bool,
    pub lock_period_duration: i64,
    /// A percentage; 100 is neutral.
    pub reward_multiplier: u16,
    /// In basis points.
    pub early_withdraw_penalty: u64,
    pub slashing_enabled: bool,
    /// The ordinal of a `SlashTypeEnum`.
    pub slashing_condition_type: u8,
    pub slash_percentage: u16,
    pub min_evidence_required: u8,
    pub cooldown_period: i64,
    pub price_feed_account: Pubkey,
    /// Zero means that there is no limit.
    pub maximum_stake_limit: u64,
    pub minimum_stake_amount: u64,
    pub liquid_stake_mint: Pubkey,
    pub liquid_stake_supply: u64,
    pub emergency_pause_flag: bool,
    pub stake_pool_bump: u8,
}

/// The lifecycle state of a pool.
#[derive(Clone, Copy, Debug, PartialEq, Eq, Structural)]
pub enum PoolStatusEnum {
    Active,
    Paused,
    Deprecated,
    Emergency,
}

impl PoolStatusEnum {
    /// The ordinal under which the state is stored.
    pub open spec fn spec_ordinal(self) -> u8 {
        match self {
            PoolStatusEnum::Active => 0,
            PoolStatusEnum::Paused => 1,
            PoolStatusEnum::Deprecated => 2,
            PoolStatusEnum::Emergency => 3,
        }
    }

    /// The state with the given ordinal, if there is one.
    pub open spec fn spec_from_ordinal(value: u8) -> Option<PoolStatusEnum> {
        if value == 0 {
            Some(PoolStatusEnum::Active)
        } else if value == 1 {
            Some(PoolStatusEnum::Paused)
        } else if value == 2 {
            Some(PoolStatusEnum::Deprecated)
        } else if value == 3 {
            Some(PoolStatusEnum::Emergency)
        } else {
            None
        }
    }

    /// The ordinal under which the state is stored.
    pub fn ordinal(&self) -> (value: u8)
        ensures
            value == self.spec_ordinal(),
            Self::spec_from_ordinal(value) == Some(*self),
    {
        match self {
            PoolStatusEnum::Active => 0,
            PoolStatusEnum::Paused => 1,
            PoolStatusEnum::Deprecated => 2,
            PoolStatusEnum::Emergency => 3,
        }
    }

    /// Decodes a stored ordinal; an unknown one is refused.
    pub fn try_from(value: &u8) -> (result: Result<PoolStatusEnum, StakingError>)
        ensures
            match Self::spec_from_ordinal(*value) {
                Some(status) => result == Ok::<PoolStatusEnum, StakingError>(status),
                None => result == Err::<PoolStatusEnum, StakingError>(
                    StakingError::InvalidAccountData,
                ),
            },
    {
        match *value {
            0 => Ok(PoolStatusEnum::Active),
            1 => Ok(PoolStatusEnum::Paused),
            2 => Ok(PoolStatusEnum::Deprecated),
            3 => Ok(PoolStatusEnum::Emergency),
            _ => Err(StakingError::InvalidAccountData),
        }
    }
}

/// The kind of misbehaviour for which a pool slashes.
#[derive(Clone, Copy, Debug, PartialEq, Eq, Structural)]
pub enum SlashTypeEnum {
    DownTime,
    DoubleSign,
    InvalidAttestation,
    Censorship,
    Custom,
}

impl SlashTypeEnum {
    /// The kind with the given ordinal, if there is one.
    pub open spec fn spec_from_ordinal(value: u8) -> Option<SlashTypeEnum> {
        if value == 0 {
            Some(SlashTypeEnum::DownTime)
        } else if value == 1 {
            Some(SlashTypeEnum::DoubleSign)
        } else if value == 2 {
            Some(SlashTypeEnum::InvalidAttestation)
        } else if value == 3 {
            Some(SlashTypeEnum::Censorship)
        } else if value == 4 {
            Some(SlashTypeEnum::Custom)
        } else {
            None
        }
    }

    /// Decodes a stored ordinal; an unknown one is refused.
    pub fn try_from(value: &u8) -> (result: Result<SlashTypeEnum, StakingError>)
        ensures
            match Self::spec_from_ordinal(*value) {
                Some(kind) => result == Ok::<SlashTypeEnum, StakingError>(kind),
                None => result == Err::<SlashTypeEnum, StakingError>(
                    StakingError::InvalidAccountData,
                ),
            },
    {
        match *value {
            0 => Ok(SlashTypeEnum::DownTime),
            1 => Ok(SlashTypeEnum::DoubleSign),
            2 => Ok(SlashTypeEnum::InvalidAttestation),
            3 => Ok(SlashTypeEnum::Censorship),
            4 => Ok(SlashTypeEnum::Custom),
            _ => Err(StakingError::InvalidAccountData),
        }
    }
}

/// A pool as it is created: active, without stake, rewards or supply,
/// without lock, limit or slashing, with a neutral multiplier and a minimum
/// stake of one unit.
pub open spec fn new_pool(
    authority: Pubkey,
    pool_id: u64,
    creation_timestamp: i64,
    stake_token_mint: Pubkey,
    reward_token_mint: Pubkey,
    reward_rate_per_second: u64,
) -> StakingPool {
    StakingPool {
        authority,
        pool_id,
        creation_timestamp,
        last_reward_timestamp: creation_timestamp,
        pool_status: 0,
        stake_token_mint,
        reward_token_mint,
        stake_token_vault: zero_key(),
        reward_token_vault: zero_key(),
        total_staked: 0,
        total_reward_distributed: 0,
        reward_rate_per_second,
        accumulated_reward_per_share: 0,
        lock_period_enabled: false,
        lock_period_duration: 0,
        reward_multiplier: 100,
        early_withdraw_penalty: 0,
        slashing_enabled: false,
        slashing_condition_type: 0,
        slash_percentage: 0,
        min_evidence_required: 0,
        cooldown_period: 0,
        price_feed_account: zero_key(),
        maximum_stake_limit: 0,
        minimum_stake_amount: 1,
        liquid_stake_mint: zero_key(),
        liquid_stake_supply: 0,
        emergency_pause_flag: false,
        stake_pool_bump: 0,
    }
}

/// The sum of two accumulator values, held at the top of the 128-bit range.
pub open spec fn sat_add_u128(a: u128, b: u128) -> u128 {
    saturate(a + b, u128::MAX as int) as u128
}

/// The pool after the rewards up to `now` have been folded into its
/// accumulator. A pool without stake, and one that has already been refreshed
/// up to `now`, stays as it is.
pub open spec fn refreshed_pool(pool: StakingPool, now: i64) -> StakingPool {
    let elapsed = elapsed_seconds(pool.last_reward_timestamp, now);
    if pool.total_staked == 0 || elapsed == 0 {
        pool
    } else {
        StakingPool {
            accumulated_reward_per_share: sat_add_u128(
                pool.accumulated_reward_per_share,
                reward_per_share_delta(pool.reward_rate_per_second, elapsed, pool.total_staked),
            ),
            last_reward_timestamp: now,
            ..pool
        }
    }
}

/// The pool after `amount` was staked and `lst_minted` derivative tokens
/// were issued.
pub open spec fn pool_after_stake(pool: StakingPool, amount: u64, lst_minted: u64) -> StakingPool {
    StakingPool {
        total_staked: sat_add(pool.total_staked, amount),
        liquid_stake_supply: sat_add(pool.liquid_stake_supply, lst_minted),
        ..pool
    }
}

/// The pool after `amount` was released and `lst_burned` derivative tokens
/// were destroyed.
pub open spec fn pool_after_unstake(pool: StakingPool, amount: u64, lst_burned: u64) -> StakingPool {
    StakingPool {
        total_staked: sat_sub(pool.total_staked, amount),
        liquid_stake_supply: sat_sub(pool.liquid_stake_supply, lst_burned),
        ..pool
    }
}

/// The pool after `amount` of rewards was paid out.
pub open spec fn pool_after_distribution(pool: StakingPool, amount: u64) -> StakingPool {
    StakingPool { total_reward_distributed: sat_add(pool.total_reward_distributed, amount), ..pool }
}

/// The pool after each of `times` was applied in turn as a refresh.
pub open spec fn refreshed_through(pool: StakingPool, times: Seq<i64>) -> StakingPool
    decreases times.len(),
{
    if times.len() == 0 {
        pool
    } else {
        refreshed_pool(refreshed_through(pool, times.drop_last()), times.last())
    }
}

/// Folds the rewards accrued up to `current_timestamp` into the accumulator.
pub fn update_pool_rewards(pool: &mut StakingPool, current_timestamp: i64)
    ensures
        *final(pool) == refreshed_pool(*old(pool), current_timestamp),
        final(pool).accumulated_reward_per_share >= old(pool).accumulated_reward_per_share,
        final(pool).total_staked == old(pool).total_staked,
{
    if pool.total_staked == 0 {
        return ;
    }
    let elapsed: u64 = seconds_between(pool.last_reward_timestamp, current_timestamp);
    if elapsed == 0 {
        return ;
    }
    let delta: u128 = calculate_reward_per_share_delta(
        pool.reward_rate_per_second,
        elapsed,
        pool.total_staked,
    );
    pool.accumulated_reward_per_share = pool.accumulated_reward_per_share.saturating_add(delta);
    pool.last_reward_timestamp = current_timestamp;
}

impl StakingPool {
    /// A pool as it is created: active, without stake, rewards or supply,
    /// without lock, limit or slashing, with a neutral multiplier and a
    /// minimum stake of one unit.
    pub fn new(
        authority: Pubkey,
        pool_id: u64,
        creation_timestamp: i64,
        stake_token_mint: Pubkey,
        reward_token_mint: Pubkey,
        reward_rate_per_second: u64,
    ) -> (pool: StakingPool)
        ensures
            pool == new_pool(
                authority,
                pool_id,
                creation_timestamp,
                stake_token_mint,
                reward_token_mint,
                reward_rate_per_second,
            ),
    {
        StakingPool {
            authority,
            pool_id,
            creation_timestamp,
            last_reward_timestamp: creation_timestamp,
            pool_status: 0,
            stake_token_mint,
            reward_token_mint,
            stake_token_vault: [0u8; 32],
            reward_token_vault: [0u8; 32],
            total_staked: 0,
            total_reward_distributed: 0,
            reward_rate_per_second,
            accumulated_reward_per_share: 0,
            lock_period_enabled: false,
            lock_period_duration: 0,
            reward_multiplier: 100,
            early_withdraw_penalty: 0,
            slashing_enabled: false,
            slashing_condition_type: 0,
            slash_percentage: 0,
            min_evidence_required: 0,
            cooldown_period: 0,
            price_feed_account: [0u8; 32],
            maximum_stake_limit: 0,
            minimum_stake_amount: 1,
            liquid_stake_mint: [0u8; 32],
            liquid_stake_supply: 0,
            emergency_pause_flag: false,
            stake_pool_bump: 0,
        }
    }

    /// Brings the accumulator up to `now`.
    pub fn refresh(&mut self, now: i64)
        ensures
            *final(self) == refreshed_pool(*old(self), now),
            final(self).accumulated_reward_per_share >= old(self).accumulated_reward_per_share,
    {
        update_pool_rewards(self, now);
    }

    /// Adds a stake and the derivative tokens issued for it to the totals.
    pub fn record_stake(&mut self, amount: u64, lst_minted: u64)
        ensures
            *final(self) == pool_after_stake(*old(self), amount, lst_minted),
    {
        self.total_staked = self.total_staked.saturating_add(amount);
        self.liquid_stake_supply = self.liquid_stake_supply.saturating_add(lst_minted);
    }

    /// Takes a released stake and the derivative tokens burned for it off the
    /// totals.
    pub fn record_unstake(&mut self, amount: u64, lst_burned: u64)
        ensures
            *final(self) == pool_after_unstake(*old(self), amount, lst_burned),
    {
        self.total_staked = self.total_staked.saturating_sub(amount);
        self.liquid_stake_supply = self.liquid_stake_supply.saturating_sub(lst_burned);
    }

    /// Adds a payout to the total of distributed rewards.
    pub fn record_reward_distribution(&mut self, amount: u64)
        ensures
            *final(self) == pool_after_distribution(*old(self), amount),
    {
        self.total_reward_distributed = self.total_reward_distributed.saturating_add(amount);
    }
}

/// A refresh never lowers the accumulator.
pub proof fn lemma_refresh_is_monotonic(pool: StakingPool, now: i64)
    ensures
        refreshed_pool(pool, now).accumulated_reward_per_share
            >= pool.accumulated_reward_per_share,
{
}

/// Refreshing twice at the same time changes no more than refreshing once.
pub proof fn lemma_refresh_is_idempotent(pool: StakingPool, now: i64)
    ensures
        refreshed_pool(refreshed_pool(pool, now), now) == refreshed_pool(pool, now),
{
}

/// Over any sequence of refreshes the accumulator never falls, and the stake
/// total stays as it was.
pub proof fn lemma_refresh_sequence_is_monotonic(pool: StakingPool, times: Seq<i64>)
    ensures
        refreshed_through(pool, times).accumulated_reward_per_share
            >= pool.accumulated_reward_per_share,
        refreshed_through(pool, times).total_staked == pool.total_staked,
    decreases times.len(),
{
    if times.len() > 0 {
        lemma_refresh_sequence_is_monotonic(pool, times.drop_last());
    }
}

/// Each refresh of a sequence leaves the accumulator at least where the
/// refresh before it left it.
pub proof fn lemma_refresh_prefix_is_monotonic(pool: StakingPool, times: Seq<i64>, shorter: int)
    requires
        0 <= shorter <= times.len(),
    ensures
        refreshed_through(pool, times).accumulated_reward_per_share >= refreshed_through(
            pool,
            times.subrange(0, shorter),
        ).accumulated_reward_per_share,
    decreases times.len(),
{
    if shorter == times.len() {
        assert(times.subrange(0, shorter) =~= times);
    } else {
        lemma_refresh_prefix_is_monotonic(pool, times.drop_last(), shorter);
        assert(times.drop_last().subrange(0, shorter) =~= times.subrange(0, shorter));
    }
}

} // verus!
