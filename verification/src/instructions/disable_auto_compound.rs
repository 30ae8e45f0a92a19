use vstd::prelude::*;
use crate::error::StakingError;
use crate::states::helper::keys_equal;
use crate::states::helper::read_u64_le;
use crate::states::helper::spec_u64_le;
use crate::states::helper::Pubkey;
use crate::states::user_stake_account::first_active_position;
use crate::states::user_stake_account::ledger_consistent;
use crate::states::user_stake_account::lemma_count_active_update;
use crate::states::user_stake_account::lemma_first_active_position;
use crate::states::user_stake_account::lemma_staked_in_pool_update;
use crate::states::user_stake_account::staked_in_pool;
use crate::states::user_stake_account::lemma_total_active_stake_update;
use crate::states::user_stake_account::totals_match;
use crate::states::user_stake_account::StakePosition;
use crate::states::user_stake_account::UserStakeAccount;
use crate::states::user_stake_account::UserStakeView;
use crate::states::user_stake_account::MAX_POSITIONS;

verus! {

/// The first check that switching auto-compounding off fails, in the order
/// in which they are made; `None` where it passes them all.
pub open spec fn disable_rejection(
    ledger: UserStakeView,
    user: Pubkey,
    user_is_signer: bool,
    data: Seq<u8>,
) -> Option<StakingError> {
    if !user_is_signer {
        Some(StakingError::MissingRequiredSignature)
    } else if data.len() < 8 {
        Some(StakingError::InvalidInstructionData)
    } else if ledger.owner != user {
        Some(StakingError::InvalidAccountData)
    } else if first_active_position(ledger.positions, spec_u64_le(data, 0), 0) is None {
        Some(StakingError::PositionNotFound)
    } else {
        None
    }
}

/// The ledger after auto-compounding was switched off for the position in
/// the slot `index` at `now`.
pub open spec fn disable_ledger_after(ledger: UserStakeView, index: int, now: i64) -> UserStakeView {
    UserStakeView {
        positions: ledger.positions.update(
            index,
            StakePosition { auto_compound_enabled: false, ..ledger.positions[index] },
        ),
        last_update_timestamp: now,
        ..ledger
    }
}

/// Switches auto-compounding off for the user's active position in the pool
/// that the payload names (the pool id, eight bytes, least significant byte
/// first), and returns the slot of that position. Where a check of
/// `disable_rejection` fails nothing changes.
pub fn process_disable_auto_compound(
    user_stake: &mut UserStakeAccount,
    user: &Pubkey,
    user_is_signer: bool,
    instruction_data: &[u8],
    current_timestamp: i64,
) -> (result: Result<usize, StakingError>)
    ensures
        match disable_rejection(old(user_stake)@, *user, user_is_signer, instruction_data@) {
            Some(e) => result == Err::<usize, StakingError>(e) && *final(user_stake) == *old(
                user_stake,
            ),
            None => {
                let index = first_active_position(
                    old(user_stake)@.positions,
                    spec_u64_le(instruction_data@, 0),
                    0,
                ).unwrap();
                &&& index < MAX_POSITIONS
                &&& result == Ok::<usize, StakingError>(index)
                &&& final(user_stake)@ == disable_ledger_after(
                    old(user_stake)@,
                    index as int,
                    current_timestamp,
                )
            },
        },
        ledger_consistent(old(user_stake)@) ==> ledger_consistent(final(user_stake)@),
        totals_match(old(user_stake)@) ==> totals_match(final(user_stake)@),
{
    if !user_is_signer {
        return Err(StakingError::MissingRequiredSignature);
    }
    if instruction_data.len() < 8 {
        return Err(StakingError::InvalidInstructionData);
    }
    let pool_id: u64 = read_u64_le(instruction_data, 0);
    if !keys_equal(&user_stake.owner, user) {
        return Err(StakingError::InvalidAccountData);
    }
    let index: usize = match user_stake.find_active_position(pool_id) {
        Some(index) => index,
        None => {
            return Err(StakingError::PositionNotFound);
        },
    };
    let mut position: StakePosition = user_stake.positions[index];
    position.auto_compound_enabled = false;
    proof {
        lemma_count_active_update(user_stake@.positions, index as int, position);
        lemma_total_active_stake_update(user_stake@.positions, index as int, position);
    }
    user_stake.positions[index] = position;
    user_stake.last_update_timestamp = current_timestamp;
    Ok(index)
}

/// Switching auto-compounding off changes neither which positions are
/// active nor what they hold: the ledger stays consistent, and its stake in
/// every pool stays as it was.
pub proof fn lemma_disable_keeps_stake(
    ledger: UserStakeView,
    user: Pubkey,
    user_is_signer: bool,
    data: Seq<u8>,
    now: i64,
    pool_id: u64,
)
    requires
        ledger.positions.len() == MAX_POSITIONS,
        disable_rejection(ledger, user, user_is_signer, data) is None,
    ensures
        ({
            let index = first_active_position(ledger.positions, spec_u64_le(data, 0), 0).unwrap();
            let after = disable_ledger_after(ledger, index as int, now);
            &&& staked_in_pool(after.positions, pool_id) == staked_in_pool(
                ledger.positions,
                pool_id,
            )
            &&& ledger_consistent(ledger) ==> ledger_consistent(after)
        }),
{
    let index = first_active_position(ledger.positions, spec_u64_le(data, 0), 0).unwrap();
    lemma_first_active_position(ledger.positions, spec_u64_le(data, 0), 0);
    let switched = StakePosition { auto_compound_enabled: false, ..ledger.positions[index as int] };
    lemma_staked_in_pool_update(ledger.positions, index as int, switched, pool_id);
    lemma_count_active_update(ledger.positions, index as int, switched);
}

} // verus!
