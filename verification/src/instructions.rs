//! The operations of the platform. Each takes the records it works on and
//! the facts that the host has read for it, checks them in a fixed order, and
//! either refuses with the first failing check, leaving every record as it
//! was, or commits and says which asset movements belong to the commit.

use vstd::prelude::*;
use crate::error::StakingError;
use crate::states::helper::Pubkey;

pub mod claim_rewards;
pub mod create_staking_pool;
pub mod disable_auto_compound;
pub mod execute_auto_compound;
pub mod fund_reward_vault;
pub mod increase_stake;
pub mod init_global_config;
pub mod initi_user_stake_account;
pub mod oracle;
pub mod pause_pool;
pub mod resume_pool;
pub mod stake_tokens;
pub mod unstake_tokens;
pub mod update_global_config;
pub mod update_pool_config;
pub mod withdraw_funds;

verus! {

/// The selector of an operation, as its leading instruction byte encodes it.
#[derive(Clone, Copy, Debug, PartialEq, Eq, Structural)]
pub enum StakingInstructions {
    InitConfigAccount,
    UpdateAuthority,
    UpdateProtocolFee,
    CreateStakingPool,
    UpdatePoolConfig,
    InitOracleConfig,
    UpdateOraclePrice,
    GetOraclePrice,
    PausePool,
    ResumePool,
    DeprecatePool,
    InitUserStakeAccount,
    FundRewardVault,
}

impl StakingInstructions {
    /// The byte that selects the operation.
    pub open spec fn spec_discriminator(self) -> u8 {
        match self {
            StakingInstructions::InitConfigAccount => 0,
            StakingInstructions::UpdateAuthority => 1,
            StakingInstructions::UpdateProtocolFee => 2,
            StakingInstructions::CreateStakingPool => 3,
            StakingInstructions::UpdatePoolConfig => 4,
            StakingInstructions::InitOracleConfig => 5,
            StakingInstructions::UpdateOraclePrice => 6,
            StakingInstructions::GetOraclePrice => 7,
            StakingInstructions::PausePool => 8,
            StakingInstructions::ResumePool => 9,
            StakingInstructions::DeprecatePool => 10,
            StakingInstructions::InitUserStakeAccount => 11,
            StakingInstructions::FundRewardVault => 12,
        }
    }

    /// The operation that a byte selects, if it selects one.
    pub open spec fn spec_from_discriminator(value: u8) -> Option<StakingInstructions> {
        if value == 0 {
            Some(StakingInstructions::InitConfigAccount)
        } else if value == 1 {
            Some(StakingInstructions::UpdateAuthority)
        } else if value == 2 {
            Some(StakingInstructions::UpdateProtocolFee)
        } else if value == 3 {
            Some(StakingInstructions::CreateStakingPool)
        } else if value == 4 {
            Some(StakingInstructions::UpdatePoolConfig)
        } else if value == 5 {
            Some(StakingInstructions::InitOracleConfig)
        } else if value == 6 {
            Some(StakingInstructions::UpdateOraclePrice)
        } else if value == 7 {
            Some(StakingInstructions::GetOraclePrice)
        } else if value == 8 {
            Some(StakingInstructions::PausePool)
        } else if value == 9 {
            Some(StakingInstructions::ResumePool)
        } else if value == 10 {
            Some(StakingInstructions::DeprecatePool)
        } else if value == 11 {
            Some(StakingInstructions::InitUserStakeAccount)
        } else if value == 12 {
            Some(StakingInstructions::FundRewardVault)
        } else {
            None
        }
    }

    /// The byte that selects the operation.
    pub fn discriminator(&self) -> (value: u8)
        ensures
            value == self.spec_discriminator(),
            Self::spec_from_discriminator(value) == Some(*self),
    {
        match self {
            StakingInstructions::InitConfigAccount => 0,
            StakingInstructions::UpdateAuthority => 1,
            StakingInstructions::UpdateProtocolFee => 2,
            StakingInstructions::CreateStakingPool => 3,
            StakingInstructions::UpdatePoolConfig => 4,
            StakingInstructions::InitOracleConfig => 5,
            StakingInstructions::UpdateOraclePrice => 6,
            StakingInstructions::GetOraclePrice => 7,
            StakingInstructions::PausePool => 8,
            StakingInstructions::ResumePool => 9,
            StakingInstructions::DeprecatePool => 10,
            StakingInstructions::InitUserStakeAccount => 11,
            StakingInstructions::FundRewardVault => 12,
        }
    }

    /// Decodes a discriminator byte; an unknown one is refused.
    pub fn try_from(value: &u8) -> (result: Result<StakingInstructions, StakingError>)
        ensures
            match Self::spec_from_discriminator(*value) {
                Some(instruction) => result == Ok::<StakingInstructions, StakingError>(
                    instruction,
                ),
                None => result == Err::<StakingInstructions, StakingError>(
                    StakingError::InvalidInstructionData,
                ),
            },
    {
        match *value {
            0 => Ok(StakingInstructions::InitConfigAccount),
            1 => Ok(StakingInstructions::UpdateAuthority),
            2 => Ok(StakingInstructions::UpdateProtocolFee),
            3 => Ok(StakingInstructions::CreateStakingPool),
            4 => Ok(StakingInstructions::UpdatePoolConfig),
            5 => Ok(StakingInstructions::InitOracleConfig),
            6 => Ok(StakingInstructions::UpdateOraclePrice),
            7 => Ok(StakingInstructions::GetOraclePrice),
            8 => Ok(StakingInstructions::PausePool),
            9 => Ok(StakingInstructions::ResumePool),
            10 => Ok(StakingInstructions::DeprecatePool),
            11 => Ok(StakingInstructions::InitUserStakeAccount),
            12 => Ok(StakingInstructions::FundRewardVault),
            _ => Err(StakingError::InvalidInstructionData),
        }
    }
}

/// What the asset ledger reports of one asset account.
#[derive(Clone, Copy, Debug)]
pub struct TokenAccountData {
    pub owner: Pubkey,
    pub mint: Pubkey,
    pub amount: u64,
}

} // verus!
