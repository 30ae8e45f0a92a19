use vstd::prelude::*;
use crate::error::StakingError;
use crate::states::helper::keys_equal;
use crate::states::helper::Pubkey;
use crate::states::user_stake_account::ledger_consistent;
use crate::states::user_stake_account::new_ledger;
use crate::states::user_stake_account::totals_match;
use crate::states::user_stake_account::UserStakeAccount;

verus! {

/// What the host has read for the creation of a user's ledger.
#[derive(Clone, Copy, Debug)]
pub struct InitUserStakeAccounts {
    pub user: Pubkey,
    pub user_is_signer: bool,
    pub global_config_account: Pubkey,
    pub user_token_account: Pubkey,
    pub user_stake_account: Pubkey,
    /// The address derived for the platform configuration.
    pub global_config_pda: Pubkey,
    /// The address derived for the ledger.
    pub user_stake_pda: Pubkey,
    pub user_stake_bump: u8,
    /// Whether the ledger record holds no data yet.
    pub user_stake_is_empty: bool,
    /// Whether the user's asset account holds no data.
    pub user_token_is_empty: bool,
}

/// The first check that the creation of a ledger fails, in the order in
/// which they are made; `None` where it passes them all.
pub open spec fn init_user_rejection(accounts: InitUserStakeAccounts) -> Option<StakingError> {
    if !accounts.user_is_signer {
        Some(StakingError::MissingRequiredSignature)
    } else if !accounts.user_stake_is_empty {
        Some(StakingError::AccountAlreadyInitialized)
    } else if accounts.user_token_is_empty {
        Some(StakingError::UninitializedAccount)
    } else if accounts.global_config_account != accounts.global_config_pda
        || accounts.user_stake_account != accounts.user_stake_pda {
        Some(StakingError::InvalidAccountData)
    } else {
        None
    }
}

/// Creates the ledger of a user: owned by the signer, with ten inactive
/// positions and all totals at zero.
pub fn process_initialize_user_stake_account(
    accounts: &InitUserStakeAccounts,
    current_timestamp: i64,
) -> (result: Result<UserStakeAccount, StakingError>)
    ensures
        match init_user_rejection(*accounts) {
            Some(e) => result == Err::<UserStakeAccount, StakingError>(e),
            None => result is Ok && ({
                let ledger = result.unwrap();
                &&& ledger@ == new_ledger(
                    accounts.user,
                    accounts.global_config_account,
                    accounts.user_token_account,
                    current_timestamp,
                    accounts.user_stake_bump,
                )
                &&& ledger_consistent(ledger@)
                &&& totals_match(ledger@)
            }),
        },
{
    if !accounts.user_is_signer {
        return Err(StakingError::MissingRequiredSignature);
    }
    if !accounts.user_stake_is_empty {
        return Err(StakingError::AccountAlreadyInitialized);
    }
    if accounts.user_token_is_empty {
        return Err(StakingError::UninitializedAccount);
    }
    if !keys_equal(&accounts.global_config_account, &accounts.global_config_pda) || !keys_equal(
        &accounts.user_stake_account,
        &accounts.user_stake_pda,
    ) {
        return Err(StakingError::InvalidAccountData);
    }
    Ok(
        UserStakeAccount::new(
            accounts.user,
            accounts.global_config_account,
            accounts.user_token_account,
            current_timestamp,
            accounts.user_stake_bump,
        ),
    )
}

} // verus!
