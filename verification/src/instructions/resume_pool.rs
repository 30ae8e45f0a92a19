use vstd::prelude::*;
use crate::error::StakingError;
use crate::instructions::pause_pool::authority_rejection;
use crate::instructions::pause_pool::paused_from;
use crate::instructions::pause_pool::PoolAuthorityAccounts;
use crate::states::helper::keys_equal;
use crate::states::staking_pool_account::PoolStatusEnum;
use crate::states::staking_pool_account::StakingPool;

verus! {

/// The status that a resume leaves: a paused or active pool is active
/// afterwards, a pool in any other state cannot be resumed.
pub open spec fn resumed_from(status: u8) -> Option<u8> {
    if status == 0 || status == 1 {
        Some(0u8)
    } else {
        None
    }
}

/// Resumes a paused pool; an active pool stays active.
///
/// The payload starts with the pool id, eight bytes. The signer must be the
/// pool's authority, and the pool record the one derived for it. A pool that
/// is neither paused nor active, or whose status is unknown, is refused.
/// Nothing but the status ever changes.
pub fn process_resume_pool(
    pool: &mut StakingPool,
    accounts: &PoolAuthorityAccounts,
    instruction_data: &[u8],
) -> (result: Result<(), StakingError>)
    ensures
        match authority_rejection(
            *old(pool),
            *accounts,
            instruction_data@,
            StakingError::InvalidAccountData,
        ) {
            Some(e) => result == Err::<(), StakingError>(e) && *final(pool) == *old(pool),
            None => match resumed_from(old(pool).pool_status) {
                Some(status) => result == Ok::<(), StakingError>(()) && *final(pool)
                    == (StakingPool { pool_status: status, ..*old(pool) }),
                None => result == Err::<(), StakingError>(StakingError::InvalidAccountData)
                    && *final(pool) == *old(pool),
            },
        },
{
    if !accounts.authority_is_signer {
        return Err(StakingError::InvalidAccountData);
    }
    if instruction_data.len() < 8 {
        return Err(StakingError::InvalidInstructionData);
    }
    if !keys_equal(&accounts.staking_pool_account, &accounts.staking_pool_pda) || !keys_equal(
        &pool.authority,
        &accounts.authority,
    ) {
        return Err(StakingError::InvalidAccountData);
    }
    match PoolStatusEnum::try_from(&pool.pool_status) {
        Ok(PoolStatusEnum::Paused) => {
            pool.pool_status = PoolStatusEnum::Active.ordinal();
            Ok(())
        },
        Ok(PoolStatusEnum::Active) => Ok(()),
        _ => Err(StakingError::InvalidAccountData),
    }
}

/// Pausing twice is pausing once, resuming twice is resuming once, and a
/// resume undoes a pause of an active pool.
pub proof fn lemma_pause_resume(status: u8)
    ensures
        paused_from(status) is Some ==> paused_from(paused_from(status).unwrap()) == paused_from(
            status,
        ),
        resumed_from(status) is Some ==> resumed_from(resumed_from(status).unwrap())
            == resumed_from(status),
        status == 0 ==> resumed_from(paused_from(status).unwrap()) == Some(status),
        status >= 2 ==> paused_from(status) is None && resumed_from(status) is None,
{
}

} // verus!
