use vstd::prelude::*;
use crate::error::StakingError;
use crate::instructions::TokenAccountData;
use crate::reward_math::basis_point_share;
use crate::reward_math::calculate_basis_point_share;
use crate::reward_math::calculate_projected_rewards;
use crate::reward_math::elapsed_seconds;
use crate::reward_math::projected_rewards;
use crate::reward_math::sat_add;
use crate::reward_math::sat_sub;
use crate::reward_math::seconds_between;
use crate::reward_math::BASIS_POINTS;
use crate::states::helper::keys_equal;
use crate::states::helper::read_u64_le;
use crate::states::helper::spec_u64_le;
use crate::states::helper::Pubkey;
use crate::states::staking_pool_account::pool_after_unstake;
use crate::states::staking_pool_account::refreshed_pool;
use crate::states::staking_pool_account::update_pool_rewards;
use crate::states::staking_pool_account::StakingPool;
use crate::states::user_stake_account::first_active_position;
use crate::states::user_stake_account::ledger_consistent;
use crate::states::user_stake_account::lemma_count_active_bound;
use crate::states::user_stake_account::lemma_count_active_update;
use crate::states::user_stake_account::lemma_first_active_position;
use crate::states::user_stake_account::lemma_staked_in_pool_update;
use crate::states::user_stake_account::lemma_total_active_stake_update;
use crate::states::user_stake_account::staked_in_pool;
use crate::states::user_stake_account::totals_match;
use crate::states::user_stake_account::StakePosition;
use crate::states::user_stake_account::UserStakeAccount;
use crate::states::user_stake_account::UserStakeView;
use crate::states::user_stake_account::MAX_POSITIONS;

verus! {

/// What the host has read for an unstake.
#[derive(Clone, Copy, Debug)]
pub struct UnstakeAccounts {
    pub user: Pubkey,
    pub user_is_signer: bool,
    pub global_config_account: Pubkey,
    /// The address derived for the platform configuration.
    pub global_config_pda: Pubkey,
    pub user_token: TokenAccountData,
    pub user_lst_token: TokenAccountData,
}

/// The asset movements of a committed unstake.
#[derive(Clone, Copy, Debug, PartialEq, Eq, Structural)]
pub struct UnstakeOutcome {
    pub position_index: usize,
    /// The derivative tokens to destroy.
    pub lst_burned: u64,
    /// The staked units to move from the vault to the user.
    pub underlying_returned: u64,
    /// The penalty that leaving a running lock would cost. It is worked out
    /// and reported, and taken off nothing.
    pub unapplied_penalty: u64,
    /// Whether the position was switched off because it is empty now.
    pub position_closed: bool,
}

/// The pool that an unstake payload names.
pub open spec fn unstake_pool_id(data: Seq<u8>) -> u64 {
    spec_u64_le(data, 0)
}

/// The number of derivative tokens that an unstake payload names.
pub open spec fn unstake_amount(data: Seq<u8>) -> u64 {
    spec_u64_le(data, 8)
}

/// The first check that an unstake fails, in the order in which they are
/// made; `None` where it passes them all.
pub open spec fn unstake_rejection(ledger: UserStakeView, accounts: UnstakeAccounts, data: Seq<u8>) -> Option<
    StakingError,
> {
    if !accounts.user_is_signer {
        Some(StakingError::MissingRequiredSignature)
    } else if data.len() < 16 {
        Some(StakingError::InvalidInstructionData)
    } else if unstake_amount(data) == 0 {
        Some(StakingError::InvalidArgument)
    } else if accounts.global_config_account != accounts.global_config_pda || ledger.owner
        != accounts.user {
        Some(StakingError::InvalidAccountData)
    } else {
        match first_active_position(ledger.positions, unstake_pool_id(data), 0) {
            None => Some(StakingError::PositionNotFound),
            Some(index) => if ledger.positions[index as int].lst_tokens < unstake_amount(data) {
                Some(StakingError::InsufficientFunds)
            } else if accounts.user_token.owner != accounts.user || accounts.user_lst_token.owner
                != accounts.user {
                Some(StakingError::InvalidAccountData)
            } else if accounts.user_lst_token.amount < unstake_amount(data) {
                Some(StakingError::InsufficientFunds)
            } else {
                None
            },
        }
    }
}

/// The rewards of a position over `time_elapsed` seconds at the pool's rate,
/// without any multiplier.
pub open spec fn elapsed_rewards(position: StakePosition, pool: StakingPool, time_elapsed: i64) -> u64 {
    if position.staked_amount == 0 || time_elapsed <= 0 {
        0
    } else {
        projected_rewards(position.staked_amount, pool.reward_rate_per_second, time_elapsed as int)
    }
}

/// The pending rewards of a position once those accrued up to `now` have
/// been added.
pub open spec fn settled_pending(position: StakePosition, pool: StakingPool, now: i64) -> u64 {
    let elapsed = elapsed_seconds(position.last_reward_update, now);
    if elapsed > 0 {
        sat_add(position.pending_rewards, elapsed_rewards(position, pool, elapsed as i64))
    } else {
        position.pending_rewards
    }
}

/// The penalty that an unstake of `amount` at `now` would cost while the
/// position's lock runs; zero once it has run out.
pub open spec fn unapplied_penalty(position: StakePosition, pool: StakingPool, amount: u64, now: i64) -> u64 {
    if position.lock_exipry_enable && now < position.lock_expiry {
        basis_point_share(amount, pool.early_withdraw_penalty)
    } else {
        0
    }
}

/// A position after `lst_amount` derivative tokens were redeemed at `now`:
/// its rewards are settled first, and it is switched off when no token is
/// left.
pub open spec fn unstaked_position(
    position: StakePosition,
    pool: StakingPool,
    lst_amount: u64,
    now: i64,
) -> StakePosition {
    StakePosition {
        staked_amount: sat_sub(position.staked_amount, lst_amount),
        lst_tokens: sat_sub(position.lst_tokens, lst_amount),
        pending_rewards: settled_pending(position, pool, now),
        last_reward_update: now,
        is_active: position.is_active && sat_sub(position.lst_tokens, lst_amount) != 0,
        ..position
    }
}

/// The ledger after `lst_amount` derivative tokens of the position in the
/// slot `index` were redeemed at `now`.
pub open spec fn unstake_ledger_after(
    ledger: UserStakeView,
    pool: StakingPool,
    index: int,
    lst_amount: u64,
    now: i64,
) -> UserStakeView {
    let position = unstaked_position(ledger.positions[index], pool, lst_amount, now);
    UserStakeView {
        positions: ledger.positions.update(index, position),
        active_positions: if position.lst_tokens == 0 && ledger.active_positions > 0 {
            (ledger.active_positions - 1) as u8
        } else {
            ledger.active_positions
        },
        total_staked_amount: sat_sub(ledger.total_staked_amount, lst_amount),
        total_lst_balance: sat_sub(ledger.total_lst_balance, lst_amount),
        last_update_timestamp: now,
        ..ledger
    }
}

/// The pool after an unstake of `lst_amount` at `now`: refreshed first, then
/// both totals lowered.
pub open spec fn unstake_pool_after(pool: StakingPool, lst_amount: u64, now: i64) -> StakingPool {
    pool_after_unstake(refreshed_pool(pool, now), lst_amount, lst_amount)
}

/// The penalty on leaving a lock early, at `penalty_rate` basis points.
pub fn calculate_early_withdrawal_penalty(amount: u64, penalty_rate: u64) -> (penalty: u64)
    ensures
        penalty == basis_point_share(amount, penalty_rate),
        penalty_rate <= BASIS_POINTS ==> penalty <= amount,
{
    calculate_basis_point_share(amount, penalty_rate)
}

/// The rewards of a position over `time_elapsed` seconds, without any
/// multiplier.
pub fn calculate_position_rewards(position: &StakePosition, pool: &StakingPool, time_elapsed: i64) -> (rewards:
    u64)
    ensures
        rewards == elapsed_rewards(*position, *pool, time_elapsed),
{
    if position.staked_amount == 0 || time_elapsed <= 0 {
        return 0;
    }
    calculate_projected_rewards(
        position.staked_amount,
        pool.reward_rate_per_second,
        time_elapsed as u64,
    )
}

/// Adds the rewards accrued since the position's last update to its pending
/// rewards.
pub fn calculate_and_distribute_rewards(
    position: &mut StakePosition,
    pool: &StakingPool,
    current_timestamp: i64,
)
    ensures
        *final(position) == (StakePosition {
            pending_rewards: settled_pending(*old(position), *pool, current_timestamp),
            ..*old(position)
        }),
{
    let time_staked: u64 = seconds_between(position.last_reward_update, current_timestamp);
    if time_staked > 0 {
        let rewards: u64 = calculate_position_rewards(position, pool, time_staked as i64);
        position.pending_rewards = position.pending_rewards.saturating_add(rewards);
    }
}

/// Redeems derivative tokens of the user's active position in the pool for
/// the same number of staked units.
///
/// The payload is the pool id and the number of derivative tokens, eight
/// bytes each, least significant byte first. The checks are made in the order
/// of `unstake_rejection`; where one fails nothing changes. Otherwise the
/// pool is refreshed to `current_timestamp`, the position's rewards are
/// settled, position, ledger and pool are lowered by the amount, and a
/// position left without tokens is switched off.
pub fn process_unstake(
    pool: &mut StakingPool,
    user_stake: &mut UserStakeAccount,
    accounts: &UnstakeAccounts,
    instruction_data: &[u8],
    current_timestamp: i64,
) -> (result: Result<UnstakeOutcome, StakingError>)
    ensures
        match unstake_rejection(old(user_stake)@, *accounts, instruction_data@) {
            Some(e) => result == Err::<UnstakeOutcome, StakingError>(e) && *final(pool) == *old(
                pool,
            ) && *final(user_stake) == *old(user_stake),
            None => {
                let amount = unstake_amount(instruction_data@);
                let index = first_active_position(
                    old(user_stake)@.positions,
                    unstake_pool_id(instruction_data@),
                    0,
                ).unwrap();
                let before = old(user_stake)@.positions[index as int];
                &&& index < MAX_POSITIONS
                &&& result == Ok::<UnstakeOutcome, StakingError>(
                    UnstakeOutcome {
                        position_index: index,
                        lst_burned: amount,
                        underlying_returned: amount,
                        unapplied_penalty: unapplied_penalty(
                            before,
                            *old(pool),
                            amount,
                            current_timestamp,
                        ),
                        position_closed: before.lst_tokens == amount,
                    },
                )
                &&& *final(pool) == unstake_pool_after(*old(pool), amount, current_timestamp)
                &&& final(user_stake)@ == unstake_ledger_after(
                    old(user_stake)@,
                    refreshed_pool(*old(pool), current_timestamp),
                    index as int,
                    amount,
                    current_timestamp,
                )
            },
        },
        final(pool).accumulated_reward_per_share >= old(pool).accumulated_reward_per_share,
        ledger_consistent(old(user_stake)@) ==> ledger_consistent(final(user_stake)@),
{
    if !accounts.user_is_signer {
        return Err(StakingError::MissingRequiredSignature);
    }
    if instruction_data.len() < 16 {
        return Err(StakingError::InvalidInstructionData);
    }
    let pool_id: u64 = read_u64_le(instruction_data, 0);
    let lst_amount: u64 = read_u64_le(instruction_data, 8);
    if lst_amount == 0 {
        return Err(StakingError::InvalidArgument);
    }
    if !keys_equal(&accounts.global_config_account, &accounts.global_config_pda) || !keys_equal(
        &user_stake.owner,
        &accounts.user,
    ) {
        return Err(StakingError::InvalidAccountData);
    }
    let index: usize = match user_stake.find_active_position(pool_id) {
        Some(index) => index,
        None => {
            return Err(StakingError::PositionNotFound);
        },
    };
    let mut position: StakePosition = user_stake.positions[index];
    if position.lst_tokens < lst_amount {
        return Err(StakingError::InsufficientFunds);
    }
    let penalty: u64 = if position.lock_exipry_enable && current_timestamp < position.lock_expiry {
        calculate_early_withdrawal_penalty(lst_amount, pool.early_withdraw_penalty)
    } else {
        0
    };
    if !keys_equal(&accounts.user_token.owner, &accounts.user) || !keys_equal(
        &accounts.user_lst_token.owner,
        &accounts.user,
    ) {
        return Err(StakingError::InvalidAccountData);
    }
    if accounts.user_lst_token.amount < lst_amount {
        return Err(StakingError::InsufficientFunds);
    }
    update_pool_rewards(pool, current_timestamp);
    calculate_and_distribute_rewards(&mut position, pool, current_timestamp);
    position.staked_amount = position.staked_amount.saturating_sub(lst_amount);
    position.lst_tokens = position.lst_tokens.saturating_sub(lst_amount);
    position.last_reward_update = current_timestamp;
    let closed: bool = position.lst_tokens == 0;
    proof {
        lemma_count_active_update(user_stake@.positions, index as int, position);
    }
    user_stake.positions[index] = position;
    if closed {
        user_stake.close_position(index);
    }
    proof {
        assert(user_stake@.positions =~= old(user_stake)@.positions.update(
            index as int,
            unstaked_position(
                old(user_stake)@.positions[index as int],
                *pool,
                lst_amount,
                current_timestamp,
            ),
        ));
    }
    user_stake.total_staked_amount = user_stake.total_staked_amount.saturating_sub(lst_amount);
    user_stake.total_lst_balance = user_stake.total_lst_balance.saturating_sub(lst_amount);
    user_stake.last_update_timestamp = current_timestamp;
    pool.record_unstake(lst_amount, lst_amount);
    Ok(
        UnstakeOutcome {
            position_index: index,
            lst_burned: lst_amount,
            underlying_returned: lst_amount,
            unapplied_penalty: penalty,
            position_closed: closed,
        },
    )
}

/// An unstake keeps the pool's total equal to the stake of all active
/// positions in it: where the total was the stake of this ledger in the pool
/// plus that of all other ledgers, and every position is backed one to one,
/// it still is afterwards.
pub proof fn lemma_unstake_conserves_pool_total(
    pool: StakingPool,
    ledger: UserStakeView,
    accounts: UnstakeAccounts,
    data: Seq<u8>,
    now: i64,
    others: nat,
)
    requires
        ledger_consistent(ledger),
        unstake_rejection(ledger, accounts, data) is None,
        pool.total_staked == staked_in_pool(ledger.positions, unstake_pool_id(data)) + others,
    ensures
        ({
            let index = first_active_position(ledger.positions, unstake_pool_id(data), 0).unwrap();
            unstake_pool_after(pool, unstake_amount(data), now).total_staked == staked_in_pool(
                unstake_ledger_after(
                    ledger,
                    refreshed_pool(pool, now),
                    index as int,
                    unstake_amount(data),
                    now,
                ).positions,
                unstake_pool_id(data),
            ) + others
        }),
{
    let pool_id = unstake_pool_id(data);
    let index = first_active_position(ledger.positions, pool_id, 0).unwrap();
    lemma_first_active_position(ledger.positions, pool_id, 0);
    let position = unstaked_position(
        ledger.positions[index as int],
        refreshed_pool(pool, now),
        unstake_amount(data),
        now,
    );
    lemma_staked_in_pool_update(ledger.positions, index as int, position, pool_id);
}

/// An unstake keeps a ledger consistent: the counter of active positions
/// still says how many are active, and every position is still backed one to
/// one.
pub proof fn lemma_unstake_keeps_consistency(
    pool: StakingPool,
    ledger: UserStakeView,
    accounts: UnstakeAccounts,
    data: Seq<u8>,
    now: i64,
)
    requires
        ledger_consistent(ledger),
        unstake_rejection(ledger, accounts, data) is None,
    ensures
        ({
            let index = first_active_position(ledger.positions, unstake_pool_id(data), 0).unwrap();
            ledger_consistent(
                unstake_ledger_after(ledger, pool, index as int, unstake_amount(data), now),
            )
        }),
{
    let pool_id = unstake_pool_id(data);
    let index = first_active_position(ledger.positions, pool_id, 0).unwrap();
    lemma_first_active_position(ledger.positions, pool_id, 0);
    let position = unstaked_position(ledger.positions[index as int], pool, unstake_amount(data), now);
    lemma_count_active_update(ledger.positions, index as int, position);
    lemma_count_active_bound(ledger.positions.update(index as int, position));
}

/// An unstake keeps the running totals of a ledger equal to the sums over
/// its active positions, where every position is backed one to one.
pub proof fn lemma_unstake_keeps_totals(
    pool: StakingPool,
    ledger: UserStakeView,
    accounts: UnstakeAccounts,
    data: Seq<u8>,
    now: i64,
)
    requires
        ledger_consistent(ledger),
        unstake_rejection(ledger, accounts, data) is None,
        totals_match(ledger),
    ensures
        ({
            let index = first_active_position(ledger.positions, unstake_pool_id(data), 0).unwrap();
            totals_match(unstake_ledger_after(ledger, pool, index as int, unstake_amount(data), now))
        }),
{
    let pool_id = unstake_pool_id(data);
    let index = first_active_position(ledger.positions, pool_id, 0).unwrap();
    lemma_first_active_position(ledger.positions, pool_id, 0);
    let position = unstaked_position(ledger.positions[index as int], pool, unstake_amount(data), now);
    lemma_total_active_stake_update(ledger.positions, index as int, position);
}

} // verus!
