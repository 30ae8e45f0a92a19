use vstd::prelude::*;
use crate::error::StakingError;
use crate::states::global_config::GlobalConfig;
use crate::states::global_config::MAX_POOLS;
use crate::states::helper::keys_equal;
use crate::states::helper::read_i64_le;
use crate::states::helper::read_u16_le;
use crate::states::helper::read_u64_le;
use crate::states::helper::spec_i64_le;
use crate::states::helper::spec_u16_le;
use crate::states::helper::spec_u64_le;
use crate::states::helper::Pubkey;
use crate::states::staking_pool_account::StakingPool;

verus! {

/// The number of bytes of the payload that creates a pool.
pub const CREATE_POOL_PAYLOAD: usize = 64;

/// What the host has read for the creation of a pool.
#[derive(Clone, Copy, Debug)]
pub struct CreatePoolAccounts {
    pub authority: Pubkey,
    pub creator: Pubkey,
    pub creator_is_signer: bool,
    pub stake_token_mint: Pubkey,
    pub reward_token_mint: Pubkey,
    pub stake_token_vault: Pubkey,
    pub reward_token_vault: Pubkey,
    pub staking_pool_account: Pubkey,
    pub liquid_stake_mint: Pubkey,
    pub price_feed_account: Pubkey,
    /// The address derived for the pool from its creator and the pool id.
    pub staking_pool_pda: Pubkey,
    pub staking_pool_bump: u8,
    /// The address derived for the vault of the staked asset.
    pub stake_token_vault_pda: Pubkey,
    /// The address derived for the vault of the reward asset.
    pub reward_token_vault_pda: Pubkey,
    /// The address derived for the derivative asset.
    pub liquid_stake_mint_pda: Pubkey,
}

/// The pool that a creation payload describes, created at `now`: active,
/// without stake, rewards or supply.
pub open spec fn created_pool(accounts: CreatePoolAccounts, data: Seq<u8>, now: i64) -> StakingPool {
    StakingPool {
        authority: accounts.authority,
        pool_id: spec_u64_le(data, 0),
        creation_timestamp: now,
        last_reward_timestamp: now,
        pool_status: 0,
        stake_token_mint: accounts.stake_token_mint,
        reward_token_mint: accounts.reward_token_mint,
        stake_token_vault: accounts.stake_token_vault,
        reward_token_vault: accounts.reward_token_vault,
        total_staked: 0,
        total_reward_distributed: 0,
        reward_rate_per_second: spec_u64_le(data, 8),
        accumulated_reward_per_share: 0,
        lock_period_enabled: data[16] != 0,
        lock_period_duration: spec_i64_le(data, 17),
        reward_multiplier: spec_u16_le(data, 25),
        early_withdraw_penalty: spec_u64_le(data, 27),
        slashing_enabled: data[35] != 0,
        slashing_condition_type: data[36],
        slash_percentage: spec_u16_le(data, 37),
        min_evidence_required: data[39],
        cooldown_period: spec_i64_le(data, 40),
        price_feed_account: accounts.price_feed_account,
        maximum_stake_limit: spec_u64_le(data, 48),
        minimum_stake_amount: spec_u64_le(data, 56),
        liquid_stake_mint: accounts.liquid_stake_mint,
        liquid_stake_supply: 0,
        emergency_pause_flag: false,
        stake_pool_bump: accounts.staking_pool_bump,
    }
}

/// Whether the values of a creation payload are within their ranges: the
/// multiplier and the minimum stake are not zero, the slash percentage is at
/// most one whole, and a stake limit is not below the minimum stake.
pub open spec fn pool_settings_valid(data: Seq<u8>) -> bool {
    &&& spec_u16_le(data, 25) != 0
    &&& spec_u16_le(data, 37) <= 10_000
    &&& spec_u64_le(data, 56) != 0
    &&& (spec_u64_le(data, 48) == 0 || spec_u64_le(data, 48) >= spec_u64_le(data, 56))
}

/// The first check that the creation of a pool fails, in the order in which
/// they are made; `None` where it passes them all.
pub open spec fn create_pool_rejection(
    config: GlobalConfig,
    accounts: CreatePoolAccounts,
    data: Seq<u8>,
) -> Option<StakingError> {
    if !accounts.creator_is_signer {
        Some(StakingError::MissingRequiredSignature)
    } else if data.len() < CREATE_POOL_PAYLOAD {
        Some(StakingError::InvalidInstructionData)
    } else if !pool_settings_valid(data) {
        Some(StakingError::InvalidInstructionData)
    } else if accounts.staking_pool_account != accounts.staking_pool_pda
        || accounts.stake_token_vault != accounts.stake_token_vault_pda
        || accounts.reward_token_vault != accounts.reward_token_vault_pda
        || accounts.liquid_stake_mint != accounts.liquid_stake_mint_pda {
        Some(StakingError::InvalidAccountData)
    } else if config.total_pools_created == u64::MAX || config.active_pools == u64::MAX {
        Some(StakingError::ArithmeticOverflow)
    } else if config.active_pool_keys@.len() >= MAX_POOLS {
        Some(StakingError::PoolRegistryFull)
    } else {
        None
    }
}

/// Creates a pool and enters it into the registry of the platform.
///
/// The payload holds, least significant byte first: the pool id (8 bytes),
/// the reward rate (8), the lock flag (1), the lock duration (8), the reward
/// multiplier (2), the early-withdrawal penalty (8), the slashing flag (1),
/// the slashing condition (1), the slash percentage (2), the evidence
/// threshold (1), the cooldown (8), the stake limit (8) and the minimum
/// stake (8). The checks are made in the order of `create_pool_rejection`;
/// where one fails the registry stays as it was. Otherwise the new pool
/// record is returned, both pool counters rise by one, and the pool's
/// address joins the registry as its last entry.
pub fn process_create_staking_pool(
    global_config: &mut GlobalConfig,
    accounts: &CreatePoolAccounts,
    instruction_data: &[u8],
    current_timestamp: i64,
) -> (result: Result<StakingPool, StakingError>)
    ensures
        match create_pool_rejection(*old(global_config), *accounts, instruction_data@) {
            Some(e) => result == Err::<StakingPool, StakingError>(e) && *final(global_config)
                == *old(global_config),
            None => {
                &&& result == Ok::<StakingPool, StakingError>(
                    created_pool(*accounts, instruction_data@, current_timestamp),
                )
                &&& *final(global_config) == (GlobalConfig {
                    total_pools_created: (old(global_config).total_pools_created + 1) as u64,
                    active_pools: (old(global_config).active_pools + 1) as u64,
                    active_pool_keys: final(global_config).active_pool_keys,
                    ..*old(global_config)
                })
                &&& final(global_config).active_pool_keys@ == old(
                    global_config,
                ).active_pool_keys@.push(accounts.staking_pool_account)
            },
        },
{
    if !accounts.creator_is_signer {
        return Err(StakingError::MissingRequiredSignature);
    }
    if instruction_data.len() < CREATE_POOL_PAYLOAD {
        return Err(StakingError::InvalidInstructionData);
    }
    let pool_id: u64 = read_u64_le(instruction_data, 0);
    let reward_rate_per_second: u64 = read_u64_le(instruction_data, 8);
    let lock_period_enabled: u8 = instruction_data[16];
    let lock_period_duration: i64 = read_i64_le(instruction_data, 17);
    let reward_multiplier: u16 = read_u16_le(instruction_data, 25);
    let early_withdraw_penalty: u64 = read_u64_le(instruction_data, 27);
    let slashing_enabled: u8 = instruction_data[35];
    let slashing_condition_type: u8 = instruction_data[36];
    let slash_percentage: u16 = read_u16_le(instruction_data, 37);
    let min_evidence_required: u8 = instruction_data[39];
    let cooldown_period: i64 = read_i64_le(instruction_data, 40);
    let maximum_stake_limit: u64 = read_u64_le(instruction_data, 48);
    let minimum_stake_amount: u64 = read_u64_le(instruction_data, 56);
    if reward_multiplier == 0 || slash_percentage > 10_000 || minimum_stake_amount == 0 || (
    maximum_stake_limit != 0 && maximum_stake_limit < minimum_stake_amount) {
        return Err(StakingError::InvalidInstructionData);
    }
    if !keys_equal(&accounts.staking_pool_account, &accounts.staking_pool_pda) || !keys_equal(
        &accounts.stake_token_vault,
        &accounts.stake_token_vault_pda,
    ) || !keys_equal(&accounts.reward_token_vault, &accounts.reward_token_vault_pda)
        || !keys_equal(&accounts.liquid_stake_mint, &accounts.liquid_stake_mint_pda) {
        return Err(StakingError::InvalidAccountData);
    }
    let total_pools_created: u64 = match global_config.total_pools_created.checked_add(1) {
        Some(total) => total,
        None => {
            return Err(StakingError::ArithmeticOverflow);
        },
    };
    let active_pools: u64 = match global_config.active_pools.checked_add(1) {
        Some(active) => active,
        None => {
            return Err(StakingError::ArithmeticOverflow);
        },
    };
    if global_config.active_pool_keys.len() >= MAX_POOLS {
        return Err(StakingError::PoolRegistryFull);
    }
    global_config.total_pools_created = total_pools_created;
    global_config.active_pools = active_pools;
    global_config.active_pool_keys.push(accounts.staking_pool_account);
    Ok(
        StakingPool {
            authority: accounts.authority,
            pool_id,
            creation_timestamp: current_timestamp,
            last_reward_timestamp: current_timestamp,
            pool_status: 0,
            stake_token_mint: accounts.stake_token_mint,
            reward_token_mint: accounts.reward_token_mint,
            stake_token_vault: accounts.stake_token_vault,
            reward_token_vault: accounts.reward_token_vault,
            total_staked: 0,
            total_reward_distributed: 0,
            reward_rate_per_second,
            accumulated_reward_per_share: 0,
            lock_period_enabled: lock_period_enabled != 0,
            lock_period_duration,
            reward_multiplier,
            early_withdraw_penalty,
            slashing_enabled: slashing_enabled != 0,
            slashing_condition_type,
            slash_percentage,
            min_evidence_required,
            cooldown_period,
            price_feed_account: accounts.price_feed_account,
            maximum_stake_limit,
            minimum_stake_amount,
            liquid_stake_mint: accounts.liquid_stake_mint,
            liquid_stake_supply: 0,
            emergency_pause_flag: false,
            stake_pool_bump: accounts.staking_pool_bump,
        },
    )
}

} // verus!
