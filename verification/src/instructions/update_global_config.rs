use vstd::prelude::*;
use crate::error::StakingError;
use crate::states::global_config::GlobalConfig;
use crate::states::helper::keys_equal;
use crate::states::helper::read_key;
use crate::states::helper::read_u16_le;
use crate::states::helper::spec_key_at;
use crate::states::helper::spec_u16_le;
use crate::states::helper::Pubkey;

verus! {

/// What the host has read for a change of the platform configuration.
#[derive(Clone, Copy, Debug)]
pub struct ConfigAuthorityAccounts {
    pub authority: Pubkey,
    pub authority_is_signer: bool,
    pub global_config_account: Pubkey,
    /// The address derived for the configuration from the authority.
    pub global_config_pda: Pubkey,
}

/// Whether the signer may change the configuration: the record is the one
/// derived for the signer, and the signer is its authority.
pub open spec fn config_belongs_to(config: GlobalConfig, accounts: ConfigAuthorityAccounts) -> bool {
    accounts.global_config_account == accounts.global_config_pda && config.authority
        == accounts.authority
}

/// The first check that a change of the authority fails; `None` where it
/// passes them all.
pub open spec fn update_authority_rejection(
    config: GlobalConfig,
    accounts: ConfigAuthorityAccounts,
    data: Seq<u8>,
) -> Option<StakingError> {
    if !accounts.authority_is_signer {
        Some(StakingError::InvalidAccountData)
    } else if data.len() < 32 {
        Some(StakingError::InvalidInstructionData)
    } else if !config_belongs_to(config, accounts) {
        Some(StakingError::InvalidAccountData)
    } else {
        None
    }
}

/// The first check that a change of the protocol fee fails; `None` where it
/// passes them all.
pub open spec fn update_fee_rejection(
    config: GlobalConfig,
    accounts: ConfigAuthorityAccounts,
    data: Seq<u8>,
) -> Option<StakingError> {
    if !accounts.authority_is_signer {
        Some(StakingError::InvalidAccountData)
    } else if data.len() < 2 {
        Some(StakingError::InvalidInstructionData)
    } else if spec_u16_le(data, 0) > 10_000 {
        Some(StakingError::InvalidArgument)
    } else if !config_belongs_to(config, accounts) {
        Some(StakingError::InvalidAccountData)
    } else {
        None
    }
}

/// Hands the platform over to the authority that the first 32 bytes of the
/// payload name. Where a check of `update_authority_rejection` fails nothing
/// changes.
pub fn process_update_authority(
    global_config: &mut GlobalConfig,
    accounts: &ConfigAuthorityAccounts,
    instruction_data: &[u8],
) -> (result: Result<(), StakingError>)
    ensures
        match update_authority_rejection(*old(global_config), *accounts, instruction_data@) {
            Some(e) => result == Err::<(), StakingError>(e) && *final(global_config) == *old(
                global_config,
            ),
            None => result == Ok::<(), StakingError>(()) && *final(global_config)
                == (GlobalConfig {
                authority: final(global_config).authority,
                ..*old(global_config)
            }) && final(global_config).authority@ == spec_key_at(instruction_data@, 0),
        },
{
    if !accounts.authority_is_signer {
        return Err(StakingError::InvalidAccountData);
    }
    if instruction_data.len() < 32 {
        return Err(StakingError::InvalidInstructionData);
    }
    let new_authority: Pubkey = read_key(instruction_data, 0);
    if !keys_equal(&accounts.global_config_account, &accounts.global_config_pda) || !keys_equal(
        &global_config.authority,
        &accounts.authority,
    ) {
        return Err(StakingError::InvalidAccountData);
    }
    global_config.authority = new_authority;
    Ok(())
}

/// Sets the protocol fee to the rate that the first two bytes of the payload
/// name, in basis points and at most one whole. Where a check of
/// `update_fee_rejection` fails nothing changes.
pub fn process_update_protocol_fee(
    global_config: &mut GlobalConfig,
    accounts: &ConfigAuthorityAccounts,
    instruction_data: &[u8],
) -> (result: Result<(), StakingError>)
    ensures
        match update_fee_rejection(*old(global_config), *accounts, instruction_data@) {
            Some(e) => result == Err::<(), StakingError>(e) && *final(global_config) == *old(
                global_config,
            ),
            None => result == Ok::<(), StakingError>(()) && *final(global_config)
                == (GlobalConfig {
                protocol_fee_rate: spec_u16_le(instruction_data@, 0),
                ..*old(global_config)
            }) && final(global_config).protocol_fee_rate <= 10_000,
        },
{
    if !accounts.authority_is_signer {
        return Err(StakingError::InvalidAccountData);
    }
    if instruction_data.len() < 2 {
        return Err(StakingError::InvalidInstructionData);
    }
    let new_protocol_fee_rate: u16 = read_u16_le(instruction_data, 0);
    if new_protocol_fee_rate > 10_000 {
        return Err(StakingError::InvalidArgument);
    }
    if !keys_equal(&accounts.global_config_account, &accounts.global_config_pda) || !keys_equal(
        &global_config.authority,
        &accounts.authority,
    ) {
        return Err(StakingError::InvalidAccountData);
    }
    global_config.protocol_fee_rate = new_protocol_fee_rate;
    Ok(())
}

} // verus!
