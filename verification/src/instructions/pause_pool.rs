use vstd::prelude::*;
use crate::error::StakingError;
use crate::states::helper::keys_equal;
use crate::states::helper::Pubkey;
use crate::states::staking_pool_account::PoolStatusEnum;
use crate::states::staking_pool_account::StakingPool;

verus! {

/// What the host has read for a pause or a resume of a pool.
#[derive(Clone, Copy, Debug)]
pub struct PoolAuthorityAccounts {
    pub authority: Pubkey,
    pub authority_is_signer: bool,
    pub staking_pool_account: Pubkey,
    /// The address derived for the pool from the authority and the pool id
    /// of the payload.
    pub staking_pool_pda: Pubkey,
}

/// The status that a pause leaves: an active or paused pool is paused
/// afterwards, a pool in any other state cannot be paused.
pub open spec fn paused_from(status: u8) -> Option<u8> {
    if status == 0 || status == 1 {
        Some(1u8)
    } else {
        None
    }
}

/// The error with which a missing signature, a short payload or a record
/// that does not belong to the signer is refused.
pub open spec fn authority_rejection(
    pool: StakingPool,
    accounts: PoolAuthorityAccounts,
    data: Seq<u8>,
    unsigned: StakingError,
) -> Option<StakingError> {
    if !accounts.authority_is_signer {
        Some(unsigned)
    } else if data.len() < 8 {
        Some(StakingError::InvalidInstructionData)
    } else if accounts.staking_pool_account != accounts.staking_pool_pda || pool.authority
        != accounts.authority {
        Some(StakingError::InvalidAccountData)
    } else {
        None
    }
}

/// Pauses an active pool; a paused pool stays paused.
///
/// The payload starts with the pool id, eight bytes. The signer must be the
/// pool's authority, and the pool record the one derived for it. A pool that
/// is neither active nor paused, or whose status is unknown, is refused.
/// Nothing but the status ever changes.
pub fn process_pause_pool(
    pool: &mut StakingPool,
    accounts: &PoolAuthorityAccounts,
    instruction_data: &[u8],
) -> (result: Result<(), StakingError>)
    ensures
        match authority_rejection(
            *old(pool),
            *accounts,
            instruction_data@,
            StakingError::MissingRequiredSignature,
        ) {
            Some(e) => result == Err::<(), StakingError>(e) && *final(pool) == *old(pool),
            None => match paused_from(old(pool).pool_status) {
                Some(status) => result == Ok::<(), StakingError>(()) && *final(pool)
                    == (StakingPool { pool_status: status, ..*old(pool) }),
                None => result == Err::<(), StakingError>(StakingError::InvalidAccountData)
                    && *final(pool) == *old(pool),
            },
        },
{
    if !accounts.authority_is_signer {
        return Err(StakingError::MissingRequiredSignature);
    }
    if instruction_data.len() < 8 {
        return Err(StakingError::InvalidInstructionData);
    }
    if !keys_equal(&accounts.staking_pool_account, &accounts.staking_pool_pda) || !keys_equal(
        &pool.authority,
        &accounts.authority,
    ) {
        return Err(StakingError::InvalidAccountData);
    }
    match PoolStatusEnum::try_from(&pool.pool_status) {
        Ok(PoolStatusEnum::Active) => {
            pool.pool_status = PoolStatusEnum::Paused.ordinal();
            Ok(())
        },
        Ok(PoolStatusEnum::Paused) => Ok(()),
        _ => Err(StakingError::InvalidAccountData),
    }
}

} // verus!
