use vstd::prelude::*;
use crate::error::StakingError;
use crate::states::global_config::GlobalConfig;
use crate::states::helper::keys_equal;
use crate::states::helper::read_u16_le;
use crate::states::helper::read_u32_le;
use crate::states::helper::read_u64_le;
use crate::states::helper::spec_u16_le;
use crate::states::helper::spec_u32_le;
use crate::states::helper::spec_u64_le;
use crate::states::helper::Pubkey;

verus! {

/// What the host has read for the creation of the platform configuration.
#[derive(Clone, Copy, Debug)]
pub struct InitConfigAccounts {
    pub authority: Pubkey,
    pub authority_is_signer: bool,
    pub global_config_account: Pubkey,
    pub treasury_account: Pubkey,
    /// The address derived for the configuration.
    pub global_config_pda: Pubkey,
    pub global_config_bump: u8,
    /// The address derived for the treasury.
    pub treasury_pda: Pubkey,
    pub treasury_bump: u8,
    /// Whether the treasury record holds no data yet.
    pub treasury_is_empty: bool,
    /// Whether the configuration record holds no data yet.
    pub global_config_is_empty: bool,
}

/// The first check that the creation of the configuration fails, in the
/// order in which they are made; `None` where it passes them all.
pub open spec fn init_config_rejection(accounts: InitConfigAccounts, data: Seq<u8>) -> Option<
    StakingError,
> {
    if !accounts.authority_is_signer {
        Some(StakingError::InvalidAccountData)
    } else if data.len() < 14 {
        Some(StakingError::InvalidInstructionData)
    } else if spec_u16_le(data, 0) > 10_000 || spec_u64_le(data, 2) == 0 || spec_u32_le(data, 10)
        == 0 {
        Some(StakingError::InvalidArgument)
    } else if accounts.global_config_account != accounts.global_config_pda
        || accounts.treasury_account != accounts.treasury_pda {
        Some(StakingError::InvalidAccountData)
    } else if !accounts.treasury_is_empty || !accounts.global_config_is_empty {
        Some(StakingError::AccountAlreadyInitialized)
    } else {
        None
    }
}

/// Creates the platform configuration.
///
/// The payload holds, least significant byte first: the protocol fee rate in
/// basis points (2 bytes), the minimum stake (8) and the highest number of
/// pools (4). The checks are made in the order of `init_config_rejection`.
/// The configuration starts with the emergency pause set and with an empty
/// registry.
pub fn process_initialize_global_config(accounts: &InitConfigAccounts, instruction_data: &[u8]) -> (result:
    Result<GlobalConfig, StakingError>)
    ensures
        match init_config_rejection(*accounts, instruction_data@) {
            Some(e) => result == Err::<GlobalConfig, StakingError>(e),
            None => result is Ok && ({
                let config = result.unwrap();
                &&& config.authority == accounts.authority
                &&& config.treasury == accounts.treasury_account
                &&& config.protocol_fee_rate == spec_u16_le(instruction_data@, 0)
                &&& config.min_stake_amount == spec_u64_le(instruction_data@, 2)
                &&& config.max_pools == spec_u32_le(instruction_data@, 10)
                &&& config.emergency_pause
                &&& config.total_pools_created == 0
                &&& config.active_pools == 0
                &&& config.active_pool_keys@.len() == 0
                &&& config.bump == accounts.global_config_bump
                &&& config.treasury_bump == accounts.treasury_bump
            }),
        },
{
    if !accounts.authority_is_signer {
        return Err(StakingError::InvalidAccountData);
    }
    if instruction_data.len() < 14 {
        return Err(StakingError::InvalidInstructionData);
    }
    let protocol_fee_rate: u16 = read_u16_le(instruction_data, 0);
    let min_stake_amount: u64 = read_u64_le(instruction_data, 2);
    let max_pools: u32 = read_u32_le(instruction_data, 10);
    if protocol_fee_rate > 10_000 || min_stake_amount == 0 || max_pools == 0 {
        return Err(StakingError::InvalidArgument);
    }
    if !keys_equal(&accounts.global_config_account, &accounts.global_config_pda) || !keys_equal(
        &accounts.treasury_account,
        &accounts.treasury_pda,
    ) {
        return Err(StakingError::InvalidAccountData);
    }
    if !accounts.treasury_is_empty || !accounts.global_config_is_empty {
        return Err(StakingError::AccountAlreadyInitialized);
    }
    Ok(
        GlobalConfig {
            authority: accounts.authority,
            treasury: accounts.treasury_account,
            protocol_fee_rate,
            max_pools,
            min_stake_amount,
            emergency_pause: true,
            total_pools_created: 0,
            active_pools: 0,
            active_pool_keys: Vec::new(),
            bump: accounts.global_config_bump,
            treasury_bump: accounts.treasury_bump,
        },
    )
}

} // verus!
