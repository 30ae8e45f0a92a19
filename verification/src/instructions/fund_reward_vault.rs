use vstd::prelude::*;
use crate::error::StakingError;
use crate::instructions::TokenAccountData;
use crate::states::helper::keys_equal;
use crate::states::helper::read_u64_le;
use crate::states::helper::spec_u64_le;
use crate::states::helper::Pubkey;
use crate::states::staking_pool_account::StakingPool;

verus! {

/// What the host has read for a funding of the reward vault.
#[derive(Clone, Copy, Debug)]
pub struct FundVaultAccounts {
    pub authority: Pubkey,
    pub authority_is_signer: bool,
    pub reward_token_mint: Pubkey,
    pub reward_token_vault: Pubkey,
    pub global_config_account: Pubkey,
    pub authority_token: TokenAccountData,
    /// Whether the authority's asset account has been initialised.
    pub authority_token_is_initialized: bool,
    pub reward_vault: TokenAccountData,
}

/// What a funding leads to: the amount to move from the authority to the
/// vault, or the first check that it fails.
pub open spec fn fund_result(pool: StakingPool, accounts: FundVaultAccounts, data: Seq<u8>) -> Result<
    u64,
    StakingError,
> {
    if !accounts.authority_is_signer {
        Err(StakingError::MissingRequiredSignature)
    } else if data.len() < 8 {
        Err(StakingError::InvalidInstructionData)
    } else if spec_u64_le(data, 0) == 0 {
        Err(StakingError::InvalidArgument)
    } else if pool.reward_token_mint != accounts.reward_token_mint || pool.reward_token_vault
        != accounts.reward_token_vault || !accounts.authority_token_is_initialized
        || accounts.authority_token.mint != accounts.reward_token_mint
        || accounts.authority_token.owner != accounts.authority || accounts.reward_vault.mint
        != accounts.reward_token_mint || accounts.reward_vault.owner
        != accounts.global_config_account {
        Err(StakingError::InvalidAccountData)
    } else if accounts.authority_token.amount < spec_u64_le(data, 0) {
        Err(StakingError::InsufficientFunds)
    } else {
        Ok(spec_u64_le(data, 0))
    }
}

/// Checks a funding of the pool's reward vault and returns the amount to
/// move. The payload is the amount, eight bytes, least significant byte
/// first; it is not zero and not above the authority's balance.
pub fn process_fund_reward_vault(
    pool: &StakingPool,
    accounts: &FundVaultAccounts,
    instruction_data: &[u8],
) -> (result: Result<u64, StakingError>)
    ensures
        result == fund_result(*pool, *accounts, instruction_data@),
{
    if !accounts.authority_is_signer {
        return Err(StakingError::MissingRequiredSignature);
    }
    if instruction_data.len() < 8 {
        return Err(StakingError::InvalidInstructionData);
    }
    let reward_amount: u64 = read_u64_le(instruction_data, 0);
    if reward_amount == 0 {
        return Err(StakingError::InvalidArgument);
    }
    if !keys_equal(&pool.reward_token_mint, &accounts.reward_token_mint) || !keys_equal(
        &pool.reward_token_vault,
        &accounts.reward_token_vault,
    ) || !accounts.authority_token_is_initialized || !keys_equal(
        &accounts.authority_token.mint,
        &accounts.reward_token_mint,
    ) || !keys_equal(&accounts.authority_token.owner, &accounts.authority) || !keys_equal(
        &accounts.reward_vault.mint,
        &accounts.reward_token_mint,
    ) || !keys_equal(&accounts.reward_vault.owner, &accounts.global_config_account) {
        return Err(StakingError::InvalidAccountData);
    }
    if accounts.authority_token.amount < reward_amount {
        return Err(StakingError::InsufficientFunds);
    }
    Ok(reward_amount)
}

} // verus!
