use vstd::prelude::*;
use crate::error::StakingError;
use crate::states::helper::keys_equal;
use crate::states::helper::read_i64_le;
use crate::states::helper::read_u64_le;
use crate::states::helper::spec_i64_le;
use crate::states::helper::spec_u64_le;
use crate::states::helper::Pubkey;
use crate::states::oracle_config::OracleConfigInfo;

verus! {

/// What the host has read for an operation on an oracle record.
#[derive(Clone, Copy, Debug)]
pub struct OracleAccounts {
    pub oracle_authority: Pubkey,
    pub authority_is_signer: bool,
    pub oracle_config_account: Pubkey,
    /// The address derived for the record from the authority.
    pub oracle_config_pda: Pubkey,
    pub oracle_config_bump: u8,
    pub price_feed_account: Pubkey,
    /// Whether the record holds no data yet.
    pub oracle_config_is_empty: bool,
}

/// What the creation of an oracle record leads to: the record, or the first
/// check that it fails.
pub open spec fn init_oracle_result(accounts: OracleAccounts, data: Seq<u8>, now: i64) -> Result<
    OracleConfigInfo,
    StakingError,
> {
    if !accounts.authority_is_signer {
        Err(StakingError::InvalidAccountData)
    } else if data.len() < 16 {
        Err(StakingError::InvalidInstructionData)
    } else if accounts.oracle_config_account != accounts.oracle_config_pda {
        Err(StakingError::InvalidAccountData)
    } else if !accounts.oracle_config_is_empty {
        Err(StakingError::AccountAlreadyInitialized)
    } else {
        Ok(
            OracleConfigInfo {
                price_feed_account: accounts.price_feed_account,
                update_frequency_seconds: spec_i64_le(data, 0),
                oracle_authority: accounts.oracle_authority,
                last_update_timestamp: now,
                current_price: spec_u64_le(data, 8),
                oracle_account_bump: accounts.oracle_config_bump,
            },
        )
    }
}

/// What an update of the price leads to: the record with the new price and
/// the time of the update, or the first check that it fails.
pub open spec fn update_price_result(
    oracle: OracleConfigInfo,
    accounts: OracleAccounts,
    data: Seq<u8>,
    now: i64,
) -> Result<OracleConfigInfo, StakingError> {
    if !accounts.authority_is_signer {
        Err(StakingError::MissingRequiredSignature)
    } else if data.len() < 8 {
        Err(StakingError::InvalidInstructionData)
    } else if accounts.oracle_config_account != accounts.oracle_config_pda {
        Err(StakingError::InvalidAccountData)
    } else if oracle.oracle_authority != accounts.oracle_authority {
        Err(StakingError::InvalidAccountOwner)
    } else {
        Ok(
            OracleConfigInfo {
                current_price: spec_u64_le(data, 0),
                last_update_timestamp: now,
                ..oracle
            },
        )
    }
}

/// Creates the oracle record of an authority. The payload holds the update
/// frequency in seconds and the first price, eight bytes each, least
/// significant byte first.
pub fn process_init_oracle_config(
    accounts: &OracleAccounts,
    instruction_data: &[u8],
    current_timestamp: i64,
) -> (result: Result<OracleConfigInfo, StakingError>)
    ensures
        result == init_oracle_result(*accounts, instruction_data@, current_timestamp),
{
    if !accounts.authority_is_signer {
        return Err(StakingError::InvalidAccountData);
    }
    if instruction_data.len() < 16 {
        return Err(StakingError::InvalidInstructionData);
    }
    let update_frequency_seconds: i64 = read_i64_le(instruction_data, 0);
    let current_price: u64 = read_u64_le(instruction_data, 8);
    if !keys_equal(&accounts.oracle_config_account, &accounts.oracle_config_pda) {
        return Err(StakingError::InvalidAccountData);
    }
    if !accounts.oracle_config_is_empty {
        return Err(StakingError::AccountAlreadyInitialized);
    }
    Ok(
        OracleConfigInfo {
            price_feed_account: accounts.price_feed_account,
            update_frequency_seconds,
            oracle_authority: accounts.oracle_authority,
            last_update_timestamp: current_timestamp,
            current_price,
            oracle_account_bump: accounts.oracle_config_bump,
        },
    )
}

/// Stores a new price, eight bytes of payload, and the time of the update.
/// Only the authority of the record may do so; a refused update leaves the
/// record as it was.
pub fn process_update_price(
    oracle: &mut OracleConfigInfo,
    accounts: &OracleAccounts,
    instruction_data: &[u8],
    current_timestamp: i64,
) -> (result: Result<(), StakingError>)
    ensures
        match update_price_result(*old(oracle), *accounts, instruction_data@, current_timestamp) {
            Ok(updated) => result == Ok::<(), StakingError>(()) && *final(oracle) == updated,
            Err(e) => result == Err::<(), StakingError>(e) && *final(oracle) == *old(oracle),
        },
{
    if !accounts.authority_is_signer {
        return Err(StakingError::MissingRequiredSignature);
    }
    if instruction_data.len() < 8 {
        return Err(StakingError::InvalidInstructionData);
    }
    let new_price: u64 = read_u64_le(instruction_data, 0);
    if !keys_equal(&accounts.oracle_config_account, &accounts.oracle_config_pda) {
        return Err(StakingError::InvalidAccountData);
    }
    if !keys_equal(&oracle.oracle_authority, &accounts.oracle_authority) {
        return Err(StakingError::InvalidAccountOwner);
    }
    oracle.current_price = new_price;
    oracle.last_update_timestamp = current_timestamp;
    Ok(())
}

/// The price that the record holds, provided that the record is the one
/// derived for the authority.
pub fn get_oracle_price(oracle: &OracleConfigInfo, accounts: &OracleAccounts) -> (result: Result<
    u64,
    StakingError,
>)
    ensures
        result == if accounts.oracle_config_account != accounts.oracle_config_pda {
            Err::<u64, StakingError>(StakingError::InvalidAccountData)
        } else {
            Ok::<u64, StakingError>(oracle.current_price)
        },
{
    if !keys_equal(&accounts.oracle_config_account, &accounts.oracle_config_pda) {
        return Err(StakingError::InvalidAccountData);
    }
    Ok(oracle.current_price)
}

} // verus!
