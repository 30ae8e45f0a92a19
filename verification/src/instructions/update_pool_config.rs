use vstd::prelude::*;
use crate::error::StakingError;
use crate::states::helper::keys_equal;
use crate::states::helper::read_i64_le;
use crate::states::helper::read_u16_le;
use crate::states::helper::read_u64_le;
use crate::states::helper::spec_i64_le;
use crate::states::helper::spec_u16_le;
use crate::states::helper::spec_u64_le;
use crate::states::helper::Pubkey;
use crate::states::staking_pool_account::PoolStatusEnum;
use crate::states::staking_pool_account::SlashTypeEnum;
use crate::states::staking_pool_account::StakingPool;

verus! {

/// One change of a pool's configuration.
#[derive(Clone, Copy, Debug)]
pub enum PoolUpdateType {
    RewardRatePerSecond(u64),
    LockPeriodDuration(i64),
    RewardMultiplier(u16),
    EarlyWithdrawPenalty(u64),
    SlashPercentage(u16),
    MinEvidenceRequired(u8),
    CooldownPeriod(i64),
    MaximumStakeLimit(u64),
    MinimumStakeAmount(u64),
    LockPeriodEnabled(bool),
    SlashingEnabled(bool),
    SlashingConditionType(u8),
    PriceFeedAccount(Pubkey),
    PoolStatus(u8),
    EmergencyPause(bool),
}

/// What the host has read for a change of a pool's configuration.
#[derive(Clone, Copy, Debug)]
pub struct UpdatePoolAccounts {
    pub authority: Pubkey,
    pub authority_is_signer: bool,
    pub price_feed_account: Pubkey,
}

/// The pool that an update payload names.
pub open spec fn update_pool_id(data: Seq<u8>) -> u64 {
    spec_u64_le(data, 1)
}

/// The flag that a byte encodes: 0 is off, 1 is on, nothing else is a flag.
pub open spec fn flag_of(value: u8) -> Option<bool> {
    if value == 0 {
        Some(false)
    } else if value == 1 {
        Some(true)
    } else {
        None
    }
}

/// The number of bytes that follow the pool id in the payload of the update
/// with the given tag.
pub open spec fn update_value_width(tag: u8) -> Option<nat> {
    if tag == 0 || tag == 1 || tag == 3 || tag == 6 || tag == 7 || tag == 8 {
        Some(8nat)
    } else if tag == 2 || tag == 4 {
        Some(2nat)
    } else if tag == 5 || tag == 9 || tag == 10 || tag == 11 || tag == 13 || tag == 14 {
        Some(1nat)
    } else if tag == 12 {
        Some(0nat)
    } else {
        None
    }
}

/// The change that a payload encodes: a tag byte, the pool id in eight
/// bytes, and the value, least significant byte first. A payload too short
/// for its tag, an unknown tag and a value outside its range are refused.
pub open spec fn parsed_update(data: Seq<u8>, price_feed_account: Pubkey) -> Result<
    PoolUpdateType,
    StakingError,
> {
    if data.len() < 9 {
        Err(StakingError::InvalidInstructionData)
    } else {
        let tag = data[0];
        match update_value_width(tag) {
            None => Err(StakingError::InvalidInstructionData),
            Some(width) => if data.len() < 9 + width {
                Err(StakingError::InvalidInstructionData)
            } else if tag == 0 {
                if spec_u64_le(data, 9) == 0 {
                    Err(StakingError::InvalidInstructionData)
                } else {
                    Ok(PoolUpdateType::RewardRatePerSecond(spec_u64_le(data, 9)))
                }
            } else if tag == 1 {
                if spec_i64_le(data, 9) <= 0 {
                    Err(StakingError::InvalidInstructionData)
                } else {
                    Ok(PoolUpdateType::LockPeriodDuration(spec_i64_le(data, 9)))
                }
            } else if tag == 2 {
                if spec_u16_le(data, 9) == 0 {
                    Err(StakingError::InvalidInstructionData)
                } else {
                    Ok(PoolUpdateType::RewardMultiplier(spec_u16_le(data, 9)))
                }
            } else if tag == 3 {
                Ok(PoolUpdateType::EarlyWithdrawPenalty(spec_u64_le(data, 9)))
            } else if tag == 4 {
                if spec_u16_le(data, 9) > 10_000 {
                    Err(StakingError::InvalidInstructionData)
                } else {
                    Ok(PoolUpdateType::SlashPercentage(spec_u16_le(data, 9)))
                }
            } else if tag == 5 {
                if data[9] == 0 {
                    Err(StakingError::InvalidInstructionData)
                } else {
                    Ok(PoolUpdateType::MinEvidenceRequired(data[9]))
                }
            } else if tag == 6 {
                if spec_i64_le(data, 9) <= 0 {
                    Err(StakingError::InvalidInstructionData)
                } else {
                    Ok(PoolUpdateType::CooldownPeriod(spec_i64_le(data, 9)))
                }
            } else if tag == 7 {
                Ok(PoolUpdateType::MaximumStakeLimit(spec_u64_le(data, 9)))
            } else if tag == 8 {
                if spec_u64_le(data, 9) == 0 {
                    Err(StakingError::InvalidInstructionData)
                } else {
                    Ok(PoolUpdateType::MinimumStakeAmount(spec_u64_le(data, 9)))
                }
            } else if tag == 9 {
                match flag_of(data[9]) {
                    Some(flag) => Ok(PoolUpdateType::LockPeriodEnabled(flag)),
                    None => Err(StakingError::InvalidInstructionData),
                }
            } else if tag == 10 {
                match flag_of(data[9]) {
                    Some(flag) => Ok(PoolUpdateType::SlashingEnabled(flag)),
                    None => Err(StakingError::InvalidInstructionData),
                }
            } else if tag == 11 {
                if SlashTypeEnum::spec_from_ordinal(data[9]) is None {
                    Err(StakingError::InvalidAccountData)
                } else {
                    Ok(PoolUpdateType::SlashingConditionType(data[9]))
                }
            } else if tag == 12 {
                Ok(PoolUpdateType::PriceFeedAccount(price_feed_account))
            } else if tag == 13 {
                if PoolStatusEnum::spec_from_ordinal(data[9]) is None {
                    Err(StakingError::InvalidAccountData)
                } else {
                    Ok(PoolUpdateType::PoolStatus(data[9]))
                }
            } else {
                match flag_of(data[9]) {
                    Some(flag) => Ok(PoolUpdateType::EmergencyPause(flag)),
                    None => Err(StakingError::InvalidInstructionData),
                }
            },
        }
    }
}

/// Whether a change is still allowed while the pool's emergency pause is
/// set: only the pause itself and the status are.
pub open spec fn allowed_while_frozen(update: PoolUpdateType) -> bool {
    update is EmergencyPause || update is PoolStatus
}

/// The pool with one change applied. A stake limit below the staked total or
/// below the minimum stake, and a minimum stake above the limit, are refused.
/// Setting the emergency pause puts the pool into the emergency state.
pub open spec fn pool_with_update(pool: StakingPool, update: PoolUpdateType) -> Result<
    StakingPool,
    StakingError,
> {
    match update {
        PoolUpdateType::RewardRatePerSecond(value) => Ok(
            StakingPool { reward_rate_per_second: value, ..pool },
        ),
        PoolUpdateType::LockPeriodDuration(value) => Ok(
            StakingPool { lock_period_duration: value, ..pool },
        ),
        PoolUpdateType::RewardMultiplier(value) => Ok(
            StakingPool { reward_multiplier: value, ..pool },
        ),
        PoolUpdateType::EarlyWithdrawPenalty(value) => Ok(
            StakingPool { early_withdraw_penalty: value, ..pool },
        ),
        PoolUpdateType::SlashPercentage(value) => Ok(StakingPool { slash_percentage: value, ..pool }),
        PoolUpdateType::MinEvidenceRequired(value) => Ok(
            StakingPool { min_evidence_required: value, ..pool },
        ),
        PoolUpdateType::CooldownPeriod(value) => Ok(StakingPool { cooldown_period: value, ..pool }),
        PoolUpdateType::MaximumStakeLimit(value) => if value != 0 && (value < pool.total_staked
            || value < pool.minimum_stake_amount) {
            Err(StakingError::InvalidInstructionData)
        } else {
            Ok(StakingPool { maximum_stake_limit: value, ..pool })
        },
        PoolUpdateType::MinimumStakeAmount(value) => if pool.maximum_stake_limit != 0 && value
            > pool.maximum_stake_limit {
            Err(StakingError::InvalidInstructionData)
        } else {
            Ok(StakingPool { minimum_stake_amount: value, ..pool })
        },
        PoolUpdateType::LockPeriodEnabled(value) => Ok(
            StakingPool { lock_period_enabled: value, ..pool },
        ),
        PoolUpdateType::SlashingEnabled(value) => Ok(StakingPool { slashing_enabled: value, ..pool }),
        PoolUpdateType::SlashingConditionType(value) => Ok(
            StakingPool { slashing_condition_type: value, ..pool },
        ),
        PoolUpdateType::PriceFeedAccount(value) => Ok(
            StakingPool { price_feed_account: value, ..pool },
        ),
        PoolUpdateType::PoolStatus(value) => Ok(StakingPool { pool_status: value, ..pool }),
        PoolUpdateType::EmergencyPause(value) => Ok(
            StakingPool {
                emergency_pause_flag: value,
                pool_status: if value {
                    3u8
                } else {
                    pool.pool_status
                },
                ..pool
            },
        ),
    }
}

/// What a change of the configuration leads to: the changed pool, or the
/// first check that it fails.
pub open spec fn update_result(pool: StakingPool, accounts: UpdatePoolAccounts, data: Seq<u8>) -> Result<
    StakingPool,
    StakingError,
> {
    if !accounts.authority_is_signer {
        Err(StakingError::MissingRequiredSignature)
    } else {
        match parsed_update(data, accounts.price_feed_account) {
            Err(e) => Err(e),
            Ok(update) => if pool.authority != accounts.authority || pool.pool_id
                != update_pool_id(data) {
                Err(StakingError::InvalidAccountData)
            } else if pool.emergency_pause_flag && !allowed_while_frozen(update) {
                Err(StakingError::InvalidAccountData)
            } else {
                pool_with_update(pool, update)
            },
        }
    }
}

/// Decodes the flag that a byte encodes.
fn read_flag(value: u8) -> (result: Result<bool, StakingError>)
    ensures
        match flag_of(value) {
            Some(flag) => result == Ok::<bool, StakingError>(flag),
            None => result == Err::<bool, StakingError>(StakingError::InvalidInstructionData),
        },
{
    match value {
        0 => Ok(false),
        1 => Ok(true),
        _ => Err(StakingError::InvalidInstructionData),
    }
}

/// Decodes the payload of a configuration change.
pub fn parse_pool_update(instruction_data: &[u8], price_feed_account: &Pubkey) -> (result: Result<
    PoolUpdateType,
    StakingError,
>)
    ensures
        result == parsed_update(instruction_data@, *price_feed_account),
{
    let len: usize = instruction_data.len();
    if len < 9 {
        return Err(StakingError::InvalidInstructionData);
    }
    let tag: u8 = instruction_data[0];
    if tag > 14 {
        return Err(StakingError::InvalidInstructionData);
    }
    let width: usize = if tag == 0 || tag == 1 || tag == 3 || tag == 6 || tag == 7 || tag == 8 {
        8
    } else if tag == 2 || tag == 4 {
        2
    } else if tag == 12 {
        0
    } else {
        1
    };
    if len - 9 < width {
        return Err(StakingError::InvalidInstructionData);
    }
    if tag == 0 {
        let value: u64 = read_u64_le(instruction_data, 9);
        if value == 0 {
            return Err(StakingError::InvalidInstructionData);
        }
        Ok(PoolUpdateType::RewardRatePerSecond(value))
    } else if tag == 1 {
        let value: i64 = read_i64_le(instruction_data, 9);
        if value <= 0 {
            return Err(StakingError::InvalidInstructionData);
        }
        Ok(PoolUpdateType::LockPeriodDuration(value))
    } else if tag == 2 {
        let value: u16 = read_u16_le(instruction_data, 9);
        if value == 0 {
            return Err(StakingError::InvalidInstructionData);
        }
        Ok(PoolUpdateType::RewardMultiplier(value))
    } else if tag == 3 {
        Ok(PoolUpdateType::EarlyWithdrawPenalty(read_u64_le(instruction_data, 9)))
    } else if tag == 4 {
        let value: u16 = read_u16_le(instruction_data, 9);
        if value > 10_000 {
            return Err(StakingError::InvalidInstructionData);
        }
        Ok(PoolUpdateType::SlashPercentage(value))
    } else if tag == 5 {
        let value: u8 = instruction_data[9];
        if value == 0 {
            return Err(StakingError::InvalidInstructionData);
        }
        Ok(PoolUpdateType::MinEvidenceRequired(value))
    } else if tag == 6 {
        let value: i64 = read_i64_le(instruction_data, 9);
        if value <= 0 {
            return Err(StakingError::InvalidInstructionData);
        }
        Ok(PoolUpdateType::CooldownPeriod(value))
    } else if tag == 7 {
        Ok(PoolUpdateType::MaximumStakeLimit(read_u64_le(instruction_data, 9)))
    } else if tag == 8 {
        let value: u64 = read_u64_le(instruction_data, 9);
        if value == 0 {
            return Err(StakingError::InvalidInstructionData);
        }
        Ok(PoolUpdateType::MinimumStakeAmount(value))
    } else if tag == 9 {
        match read_flag(instruction_data[9]) {
            Ok(flag) => Ok(PoolUpdateType::LockPeriodEnabled(flag)),
            Err(e) => Err(e),
        }
    } else if tag == 10 {
        match read_flag(instruction_data[9]) {
            Ok(flag) => Ok(PoolUpdateType::SlashingEnabled(flag)),
            Err(e) => Err(e),
        }
    } else if tag == 11 {
        let value: u8 = instruction_data[9];
        match SlashTypeEnum::try_from(&value) {
            Ok(_) => Ok(PoolUpdateType::SlashingConditionType(value)),
            Err(e) => Err(e),
        }
    } else if tag == 12 {
        Ok(PoolUpdateType::PriceFeedAccount(*price_feed_account))
    } else if tag == 13 {
        let value: u8 = instruction_data[9];
        match PoolStatusEnum::try_from(&value) {
            Ok(_) => Ok(PoolUpdateType::PoolStatus(value)),
            Err(e) => Err(e),
        }
    } else {
        match read_flag(instruction_data[9]) {
            Ok(flag) => Ok(PoolUpdateType::EmergencyPause(flag)),
            Err(e) => Err(e),
        }
    }
}

/// Applies one change to the pool; a refused change leaves it as it was.
pub fn apply_pool_update(pool: &mut StakingPool, update: PoolUpdateType) -> (result: Result<
    (),
    StakingError,
>)
    ensures
        match pool_with_update(*old(pool), update) {
            Ok(changed) => result == Ok::<(), StakingError>(()) && *final(pool) == changed,
            Err(e) => result == Err::<(), StakingError>(e) && *final(pool) == *old(pool),
        },
{
    match update {
        PoolUpdateType::RewardRatePerSecond(value) => {
            pool.reward_rate_per_second = value;
        },
        PoolUpdateType::LockPeriodDuration(value) => {
            pool.lock_period_duration = value;
        },
        PoolUpdateType::RewardMultiplier(value) => {
            pool.reward_multiplier = value;
        },
        PoolUpdateType::EarlyWithdrawPenalty(value) => {
            pool.early_withdraw_penalty = value;
        },
        PoolUpdateType::SlashPercentage(value) => {
            pool.slash_percentage = value;
        },
        PoolUpdateType::MinEvidenceRequired(value) => {
            pool.min_evidence_required = value;
        },
        PoolUpdateType::CooldownPeriod(value) => {
            pool.cooldown_period = value;
        },
        PoolUpdateType::MaximumStakeLimit(value) => {
            if value != 0 && (value < pool.total_staked || value < pool.minimum_stake_amount) {
                return Err(StakingError::InvalidInstructionData);
            }
            pool.maximum_stake_limit = value;
        },
        PoolUpdateType::MinimumStakeAmount(value) => {
            if pool.maximum_stake_limit != 0 && value > pool.maximum_stake_limit {
                return Err(StakingError::InvalidInstructionData);
            }
            pool.minimum_stake_amount = value;
        },
        PoolUpdateType::LockPeriodEnabled(value) => {
            pool.lock_period_enabled = value;
        },
        PoolUpdateType::SlashingEnabled(value) => {
            pool.slashing_enabled = value;
        },
        PoolUpdateType::SlashingConditionType(value) => {
            pool.slashing_condition_type = value;
        },
        PoolUpdateType::PriceFeedAccount(value) => {
            pool.price_feed_account = value;
        },
        PoolUpdateType::PoolStatus(value) => {
            pool.pool_status = value;
        },
        PoolUpdateType::EmergencyPause(value) => {
            pool.emergency_pause_flag = value;
            if value {
                pool.pool_status = 3;
            }
        },
    }
    Ok(())
}

/// Changes one field of a pool's configuration.
///
/// The payload is a tag byte, the pool id in eight bytes, and the new value.
/// The signer must be the pool's authority and the pool id that of the pool.
/// While the pool's emergency pause is set, only the pause itself and the
/// status can be changed. A refused change leaves the pool as it was.
pub fn process_update_pool_config(
    pool: &mut StakingPool,
    accounts: &UpdatePoolAccounts,
    instruction_data: &[u8],
) -> (result: Result<(), StakingError>)
    ensures
        match update_result(*old(pool), *accounts, instruction_data@) {
            Ok(changed) => result == Ok::<(), StakingError>(()) && *final(pool) == changed,
            Err(e) => result == Err::<(), StakingError>(e) && *final(pool) == *old(pool),
        },
{
    if !accounts.authority_is_signer {
        return Err(StakingError::MissingRequiredSignature);
    }
    let update: PoolUpdateType = match parse_pool_update(
        instruction_data,
        &accounts.price_feed_account,
    ) {
        Ok(update) => update,
        Err(e) => {
            return Err(e);
        },
    };
    let pool_id: u64 = read_u64_le(instruction_data, 1);
    if !keys_equal(&pool.authority, &accounts.authority) || pool.pool_id != pool_id {
        return Err(StakingError::InvalidAccountData);
    }
    if pool.emergency_pause_flag {
        match update {
            PoolUpdateType::EmergencyPause(_) | PoolUpdateType::PoolStatus(_) => {},
            _ => {
                return Err(StakingError::InvalidAccountData);
            },
        }
    }
    apply_pool_update(pool, update)
}

/// A change of the configuration never touches what the pool has accrued
/// or holds: the accumulator, the totals and the identities stay as they
/// were.
pub proof fn lemma_update_keeps_accrual_state(pool: StakingPool, update: PoolUpdateType)
    requires
        pool_with_update(pool, update) is Ok,
    ensures
        ({
            let changed = pool_with_update(pool, update).unwrap();
            &&& changed.accumulated_reward_per_share == pool.accumulated_reward_per_share
            &&& changed.last_reward_timestamp == pool.last_reward_timestamp
            &&& changed.total_staked == pool.total_staked
            &&& changed.total_reward_distributed == pool.total_reward_distributed
            &&& changed.liquid_stake_supply == pool.liquid_stake_supply
            &&& changed.authority == pool.authority
            &&& changed.pool_id == pool.pool_id
        }),
{
}

/// While the emergency pause is set, a change of the configuration touches
/// nothing but the pause and the status; and setting the pause always puts
/// the pool into the emergency state.
pub proof fn lemma_frozen_pool_keeps_configuration(
    pool: StakingPool,
    accounts: UpdatePoolAccounts,
    data: Seq<u8>,
)
    requires
        pool.emergency_pause_flag,
        update_result(pool, accounts, data) is Ok,
    ensures
        ({
            let changed = update_result(pool, accounts, data).unwrap();
            &&& changed == (StakingPool {
                emergency_pause_flag: changed.emergency_pause_flag,
                pool_status: changed.pool_status,
                ..pool
            })
            &&& parsed_update(data, accounts.price_feed_account) == Ok::<
                PoolUpdateType,
                StakingError,
            >(PoolUpdateType::EmergencyPause(true)) ==> changed.pool_status == 3
        }),
{
}

} // verus!
