use vstd::prelude::*;
use crate::error::StakingError;
use crate::instructions::claim_rewards::lock_running;
use crate::instructions::TokenAccountData;
use crate::reward_math::apply_reward_multiplier;
use crate::reward_math::basis_point_share;
use crate::reward_math::calculate_projected_rewards;
use crate::reward_math::calculate_protocol_fee;
use crate::reward_math::calculate_share_rewards;
use crate::reward_math::elapsed_seconds;
use crate::reward_math::lemma_fee_split_is_exact;
use crate::reward_math::multiplied_rewards;
use crate::reward_math::projected_rewards;
use crate::reward_math::sat_add;
use crate::reward_math::sat_sub;
use crate::reward_math::seconds_between;
use crate::reward_math::share_rewards;
use crate::reward_math::BASIS_POINTS;
use crate::states::global_config::GlobalConfig;
use crate::states::helper::keys_equal;
use crate::states::helper::read_u64_le;
use crate::states::helper::spec_u64_le;
use crate::states::helper::Pubkey;
use crate::states::staking_pool_account::pool_after_distribution;
use crate::states::staking_pool_account::pool_after_stake;
use crate::states::staking_pool_account::refreshed_pool;
use crate::states::staking_pool_account::update_pool_rewards;
use crate::states::staking_pool_account::StakingPool;
use crate::states::user_stake_account::first_active_position;
use crate::states::user_stake_account::ledger_consistent;
use crate::states::user_stake_account::lemma_count_active_update;
use crate::states::user_stake_account::lemma_first_active_position;
use crate::states::user_stake_account::lemma_staked_in_pool_update;
use crate::states::user_stake_account::lemma_total_active_stake_update;
use crate::states::user_stake_account::staked_in_pool;
use crate::states::user_stake_account::total_active_stake;
use crate::states::user_stake_account::totals_match;
use crate::states::user_stake_account::StakePosition;
use crate::states::user_stake_account::UserStakeAccount;
use crate::states::user_stake_account::UserStakeView;
use crate::states::user_stake_account::MAX_POSITIONS;

verus! {

/// The seconds of one hour.
pub const SECONDS_PER_HOUR: i64 = 3600;

/// What the host has read for an automatic compounding.
#[derive(Clone, Copy, Debug)]
pub struct AutoCompoundAccounts {
    pub position_owner: Pubkey,
    pub reward_token_mint: Pubkey,
    pub stake_token_mint: Pubkey,
    pub liquid_stake_mint: Pubkey,
    pub global_config_account: Pubkey,
    /// The address derived for the platform configuration.
    pub global_config_pda: Pubkey,
    pub reward_vault: TokenAccountData,
    pub user_lst_token: TokenAccountData,
}

/// The asset movements of a committed compounding.
#[derive(Clone, Copy, Debug, PartialEq, Eq, Structural)]
pub struct CompoundOutcome {
    pub position_index: usize,
    /// All rewards that were compounded or kept as fee.
    pub total_rewards: u64,
    /// The part that goes from the reward vault to the treasury.
    pub protocol_fee: u64,
    /// The part that joins the position's principal; as many derivative
    /// tokens are issued to the owner.
    pub compound_amount: u64,
}

/// The pool that a compounding payload names.
pub open spec fn compound_pool_id(data: Seq<u8>) -> u64 {
    spec_u64_le(data, 0)
}

/// The rewards of a position for compounding: its share of the pool's
/// accumulator and the projection from the pool's rate since its last update,
/// multiplied while its lock runs.
pub open spec fn share_based_rewards(position: StakePosition, pool: StakingPool, now: i64) -> u64 {
    let elapsed = elapsed_seconds(position.last_reward_update, now);
    if position.staked_amount == 0 || !position.is_active || elapsed == 0 {
        0
    } else {
        let base = sat_add(
            share_rewards(position.staked_amount, pool.accumulated_reward_per_share),
            projected_rewards(position.staked_amount, pool.reward_rate_per_second, elapsed),
        );
        if lock_running(position, now) {
            multiplied_rewards(base, pool.reward_multiplier)
        } else {
            base
        }
    }
}

/// What a compounding of a position covers at `now`, the pool refreshed to
/// `now` first.
pub open spec fn compoundable_rewards(position: StakePosition, pool: StakingPool, now: i64) -> u64 {
    sat_add(share_based_rewards(position, refreshed_pool(pool, now), now), position.pending_rewards)
}

/// Whether the compounding interval of a position has passed at `now`.
pub open spec fn interval_elapsed(position: StakePosition, now: i64) -> bool {
    now - position.last_compound_timestamp >= position.compound_frequency_hours * SECONDS_PER_HOUR
}

/// How compounded rewards are split at `fee_rate` basis points.
pub open spec fn compound_split(index: usize, total_rewards: u64, fee_rate: u16) -> CompoundOutcome {
    let fee = basis_point_share(total_rewards, fee_rate as u64);
    CompoundOutcome {
        position_index: index,
        total_rewards,
        protocol_fee: fee,
        compound_amount: sat_sub(total_rewards, fee),
    }
}

/// The first check that a compounding fails, in the order in which they are
/// made; `None` where it passes them all.
pub open spec fn compound_rejection(
    pool: StakingPool,
    ledger: UserStakeView,
    config: GlobalConfig,
    accounts: AutoCompoundAccounts,
    data: Seq<u8>,
    now: i64,
) -> Option<StakingError> {
    if data.len() < 8 {
        Some(StakingError::InvalidInstructionData)
    } else if accounts.global_config_account != accounts.global_config_pda || ledger.owner
        != accounts.position_owner {
        Some(StakingError::InvalidAccountData)
    } else if ledger.is_paused {
        Some(StakingError::UserPaused)
    } else if config.emergency_pause {
        Some(StakingError::GlobalEmergencyPaused)
    } else if pool.emergency_pause_flag {
        Some(StakingError::PoolEmergencyPaused)
    } else {
        match first_active_position(ledger.positions, compound_pool_id(data), 0) {
            None => Some(StakingError::PositionNotFound),
            Some(index) => {
                let position = ledger.positions[index as int];
                let total = compoundable_rewards(position, pool, now);
                if !position.auto_compound_enabled {
                    Some(StakingError::AutoCompoundDisabled)
                } else if !interval_elapsed(position, now) {
                    Some(StakingError::IntervalNotElapsed)
                } else if total < position.min_compound_amount {
                    Some(StakingError::BelowMinimumCompound)
                } else if total == 0 {
                    Some(StakingError::NothingToClaim)
                } else if accounts.reward_vault.amount < total {
                    Some(StakingError::InsufficientVaultBalance)
                } else if accounts.user_lst_token.owner != accounts.position_owner
                    || accounts.user_lst_token.mint != accounts.liquid_stake_mint {
                    Some(StakingError::InvalidAccountData)
                } else if accounts.reward_token_mint != accounts.stake_token_mint {
                    Some(StakingError::UnsupportedCrossAssetCompound)
                } else {
                    None
                }
            },
        }
    }
}

/// A position after `compound_amount` joined its principal at `now`.
pub open spec fn compounded_position(position: StakePosition, compound_amount: u64, now: i64) -> StakePosition {
    StakePosition {
        staked_amount: sat_add(position.staked_amount, compound_amount),
        lst_tokens: sat_add(position.lst_tokens, compound_amount),
        pending_rewards: 0,
        last_reward_update: now,
        last_compound_timestamp: now,
        compound_count: if position.compound_count == u32::MAX {
            u32::MAX
        } else {
            (position.compound_count + 1) as u32
        },
        ..position
    }
}

/// The ledger after the rewards of the position in the slot
/// `split.position_index` were compounded at `now`.
pub open spec fn compound_ledger_after(ledger: UserStakeView, split: CompoundOutcome, now: i64) -> UserStakeView {
    let index = split.position_index as int;
    UserStakeView {
        positions: ledger.positions.update(
            index,
            compounded_position(ledger.positions[index], split.compound_amount, now),
        ),
        total_staked_amount: sat_add(ledger.total_staked_amount, split.compound_amount),
        total_lst_balance: sat_add(ledger.total_lst_balance, split.compound_amount),
        total_earned: sat_add(ledger.total_earned, split.total_rewards),
        last_update_timestamp: now,
        ..ledger
    }
}

/// The pool after a compounding at `now`: refreshed first, then raised by
/// the compounded amount, with all rewards counted as distributed.
pub open spec fn compound_pool_after(pool: StakingPool, split: CompoundOutcome, now: i64) -> StakingPool {
    pool_after_distribution(
        pool_after_stake(refreshed_pool(pool, now), split.compound_amount, split.compound_amount),
        split.total_rewards,
    )
}

/// The rewards of a position for compounding: its share of the pool's
/// accumulator and the projection from the pool's rate, multiplied while its
/// lock runs.
pub fn calculate_position_rewards(
    position: &StakePosition,
    pool: &StakingPool,
    current_timestamp: i64,
) -> (rewards: u64)
    ensures
        rewards == share_based_rewards(*position, *pool, current_timestamp),
{
    if position.staked_amount == 0 || !position.is_active {
        return 0;
    }
    let time_elapsed: u64 = seconds_between(position.last_reward_update, current_timestamp);
    if time_elapsed == 0 {
        return 0;
    }
    let user_share: u64 = calculate_share_rewards(
        position.staked_amount,
        pool.accumulated_reward_per_share,
    );
    let time_rewards: u64 = calculate_projected_rewards(
        position.staked_amount,
        pool.reward_rate_per_second,
        time_elapsed,
    );
    let base_rewards: u64 = user_share.saturating_add(time_rewards);
    if position.lock_exipry_enable && current_timestamp < position.lock_expiry {
        apply_reward_multiplier(base_rewards, pool.reward_multiplier)
    } else {
        base_rewards
    }
}

/// Turns the rewards of a position into principal.
///
/// The payload is the pool id, eight bytes, least significant byte first.
/// The checks are made in the order of `compound_rejection`; where one fails
/// nothing changes. Otherwise the pool is refreshed to `current_timestamp`,
/// the rewards are split into the protocol's fee and the compounded amount,
/// the amount joins the position, the ledger and the pool, and the position
/// records the compounding.
pub fn process_execute_auto_compound(
    pool: &mut StakingPool,
    user_stake: &mut UserStakeAccount,
    global_config: &GlobalConfig,
    accounts: &AutoCompoundAccounts,
    instruction_data: &[u8],
    current_timestamp: i64,
) -> (result: Result<CompoundOutcome, StakingError>)
    ensures
        match compound_rejection(
            *old(pool),
            old(user_stake)@,
            *global_config,
            *accounts,
            instruction_data@,
            current_timestamp,
        ) {
            Some(e) => result == Err::<CompoundOutcome, StakingError>(e) && *final(pool) == *old(
                pool,
            ) && *final(user_stake) == *old(user_stake),
            None => {
                let index = first_active_position(
                    old(user_stake)@.positions,
                    compound_pool_id(instruction_data@),
                    0,
                ).unwrap();
                let split = compound_split(
                    index,
                    compoundable_rewards(
                        old(user_stake)@.positions[index as int],
                        *old(pool),
                        current_timestamp,
                    ),
                    global_config.protocol_fee_rate,
                );
                &&& index < MAX_POSITIONS
                &&& result == Ok::<CompoundOutcome, StakingError>(split)
                &&& *final(pool) == compound_pool_after(*old(pool), split, current_timestamp)
                &&& final(user_stake)@ == compound_ledger_after(
                    old(user_stake)@,
                    split,
                    current_timestamp,
                )
            },
        },
        final(pool).accumulated_reward_per_share >= old(pool).accumulated_reward_per_share,
        ledger_consistent(old(user_stake)@) ==> ledger_consistent(final(user_stake)@),
{
    if instruction_data.len() < 8 {
        return Err(StakingError::InvalidInstructionData);
    }
    let pool_id: u64 = read_u64_le(instruction_data, 0);
    if !keys_equal(&accounts.global_config_account, &accounts.global_config_pda) || !keys_equal(
        &user_stake.owner,
        &accounts.position_owner,
    ) {
        return Err(StakingError::InvalidAccountData);
    }
    if user_stake.is_paused {
        return Err(StakingError::UserPaused);
    }
    if global_config.emergency_pause {
        return Err(StakingError::GlobalEmergencyPaused);
    }
    if pool.emergency_pause_flag {
        return Err(StakingError::PoolEmergencyPaused);
    }
    let index: usize = match user_stake.find_active_position(pool_id) {
        Some(index) => index,
        None => {
            return Err(StakingError::PositionNotFound);
        },
    };
    let mut position: StakePosition = user_stake.positions[index];
    if !position.auto_compound_enabled {
        return Err(StakingError::AutoCompoundDisabled);
    }
    let since_last: i128 = (current_timestamp as i128) - (position.last_compound_timestamp as i128);
    let required: i128 = (position.compound_frequency_hours as i128) * (SECONDS_PER_HOUR as i128);
    if since_last < required {
        return Err(StakingError::IntervalNotElapsed);
    }
    let mut refreshed: StakingPool = *pool;
    update_pool_rewards(&mut refreshed, current_timestamp);
    let accrued: u64 = calculate_position_rewards(&position, &refreshed, current_timestamp);
    let total_rewards: u64 = accrued.saturating_add(position.pending_rewards);
    if total_rewards < position.min_compound_amount {
        return Err(StakingError::BelowMinimumCompound);
    }
    if total_rewards == 0 {
        return Err(StakingError::NothingToClaim);
    }
    if accounts.reward_vault.amount < total_rewards {
        return Err(StakingError::InsufficientVaultBalance);
    }
    if !keys_equal(&accounts.user_lst_token.owner, &accounts.position_owner) || !keys_equal(
        &accounts.user_lst_token.mint,
        &accounts.liquid_stake_mint,
    ) {
        return Err(StakingError::InvalidAccountData);
    }
    if !keys_equal(&accounts.reward_token_mint, &accounts.stake_token_mint) {
        return Err(StakingError::UnsupportedCrossAssetCompound);
    }
    let protocol_fee: u64 = calculate_protocol_fee(total_rewards, global_config.protocol_fee_rate);
    let compound_amount: u64 = total_rewards.saturating_sub(protocol_fee);
    refreshed.record_stake(compound_amount, compound_amount);
    refreshed.record_reward_distribution(total_rewards);
    *pool = refreshed;
    position.staked_amount = position.staked_amount.saturating_add(compound_amount);
    position.lst_tokens = position.lst_tokens.saturating_add(compound_amount);
    position.pending_rewards = 0;
    position.last_reward_update = current_timestamp;
    position.last_compound_timestamp = current_timestamp;
    position.compound_count = position.compound_count.saturating_add(1);
    proof {
        lemma_count_active_update(user_stake@.positions, index as int, position);
    }
    user_stake.positions[index] = position;
    user_stake.total_staked_amount = user_stake.total_staked_amount.saturating_add(compound_amount);
    user_stake.total_lst_balance = user_stake.total_lst_balance.saturating_add(compound_amount);
    user_stake.total_earned = user_stake.total_earned.saturating_add(total_rewards);
    user_stake.last_update_timestamp = current_timestamp;
    Ok(CompoundOutcome { position_index: index, total_rewards, protocol_fee, compound_amount })
}

/// The fee and the compounded amount add up to the rewards exactly, as long
/// as the fee rate is at most one whole.
pub proof fn lemma_compound_split_conserves(index: usize, total_rewards: u64, fee_rate: u16)
    requires
        fee_rate <= BASIS_POINTS,
    ensures
        compound_split(index, total_rewards, fee_rate).compound_amount + compound_split(
            index,
            total_rewards,
            fee_rate,
        ).protocol_fee == total_rewards,
{
    lemma_fee_split_is_exact(total_rewards, fee_rate);
}

/// A compounding keeps a ledger consistent: the counter of active positions
/// still says how many are active, and every position is still backed one to
/// one.
pub proof fn lemma_compound_keeps_consistency(
    pool: StakingPool,
    ledger: UserStakeView,
    config: GlobalConfig,
    accounts: AutoCompoundAccounts,
    data: Seq<u8>,
    now: i64,
)
    requires
        ledger_consistent(ledger),
        compound_rejection(pool, ledger, config, accounts, data, now) is None,
    ensures
        ({
            let index = first_active_position(ledger.positions, compound_pool_id(data), 0).unwrap();
            let split = compound_split(
                index,
                compoundable_rewards(ledger.positions[index as int], pool, now),
                config.protocol_fee_rate,
            );
            ledger_consistent(compound_ledger_after(ledger, split, now))
        }),
{
    let pool_id = compound_pool_id(data);
    let index = first_active_position(ledger.positions, pool_id, 0).unwrap();
    lemma_first_active_position(ledger.positions, pool_id, 0);
    let split = compound_split(
        index,
        compoundable_rewards(ledger.positions[index as int], pool, now),
        config.protocol_fee_rate,
    );
    lemma_count_active_update(
        ledger.positions,
        index as int,
        compounded_position(ledger.positions[index as int], split.compound_amount, now),
    );
}

/// A compounding keeps the pool's total equal to the stake of all active
/// positions in it: where the total was the stake of this ledger in the pool
/// plus that of all other ledgers, it still is afterwards, as long as the
/// total stays within the 64-bit range.
pub proof fn lemma_compound_conserves_pool_total(
    pool: StakingPool,
    ledger: UserStakeView,
    config: GlobalConfig,
    accounts: AutoCompoundAccounts,
    data: Seq<u8>,
    now: i64,
    others: nat,
)
    requires
        ledger.positions.len() == MAX_POSITIONS,
        compound_rejection(pool, ledger, config, accounts, data, now) is None,
        pool.total_staked == staked_in_pool(ledger.positions, compound_pool_id(data)) + others,
        ({
            let index = first_active_position(ledger.positions, compound_pool_id(data), 0).unwrap();
            pool.total_staked + compound_split(
                index,
                compoundable_rewards(ledger.positions[index as int], pool, now),
                config.protocol_fee_rate,
            ).compound_amount <= u64::MAX
        }),
    ensures
        ({
            let index = first_active_position(ledger.positions, compound_pool_id(data), 0).unwrap();
            let split = compound_split(
                index,
                compoundable_rewards(ledger.positions[index as int], pool, now),
                config.protocol_fee_rate,
            );
            compound_pool_after(pool, split, now).total_staked == staked_in_pool(
                compound_ledger_after(ledger, split, now).positions,
                compound_pool_id(data),
            ) + others
        }),
{
    let pool_id = compound_pool_id(data);
    let index = first_active_position(ledger.positions, pool_id, 0).unwrap();
    lemma_first_active_position(ledger.positions, pool_id, 0);
    let split = compound_split(
        index,
        compoundable_rewards(ledger.positions[index as int], pool, now),
        config.protocol_fee_rate,
    );
    lemma_staked_in_pool_update(
        ledger.positions,
        index as int,
        compounded_position(ledger.positions[index as int], split.compound_amount, now),
        pool_id,
    );
}

/// A compounding keeps the running totals of a ledger equal to the sums over
/// its active positions, as long as they stay within the 64-bit range.
pub proof fn lemma_compound_keeps_totals(
    pool: StakingPool,
    ledger: UserStakeView,
    config: GlobalConfig,
    accounts: AutoCompoundAccounts,
    data: Seq<u8>,
    now: i64,
)
    requires
        ledger.positions.len() == MAX_POSITIONS,
        compound_rejection(pool, ledger, config, accounts, data, now) is None,
        totals_match(ledger),
        ({
            let index = first_active_position(ledger.positions, compound_pool_id(data), 0).unwrap();
            total_active_stake(ledger.positions) + compound_split(
                index,
                compoundable_rewards(ledger.positions[index as int], pool, now),
                config.protocol_fee_rate,
            ).compound_amount <= u64::MAX
        }),
    ensures
        ({
            let index = first_active_position(ledger.positions, compound_pool_id(data), 0).unwrap();
            let split = compound_split(
                index,
                compoundable_rewards(ledger.positions[index as int], pool, now),
                config.protocol_fee_rate,
            );
            totals_match(compound_ledger_after(ledger, split, now))
        }),
{
    let pool_id = compound_pool_id(data);
    let index = first_active_position(ledger.positions, pool_id, 0).unwrap();
    lemma_first_active_position(ledger.positions, pool_id, 0);
    let split = compound_split(
        index,
        compoundable_rewards(ledger.positions[index as int], pool, now),
        config.protocol_fee_rate,
    );
    lemma_total_active_stake_update(
        ledger.positions,
        index as int,
        compounded_position(ledger.positions[index as int], split.compound_amount, now),
    );
}

} // verus!
