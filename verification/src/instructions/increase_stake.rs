use vstd::prelude::*;
use crate::error::StakingError;
use crate::instructions::stake_tokens::exceeds_stake_limit;
use crate::instructions::stake_tokens::stake_amount;
use crate::instructions::stake_tokens::stake_pool_after;
use crate::instructions::stake_tokens::stake_pool_id;
use crate::instructions::stake_tokens::StakeOutcome;
use crate::instructions::TokenAccountData;
use crate::reward_math::sat_add;
use crate::states::global_config::GlobalConfig;
use crate::states::helper::keys_equal;
use crate::states::helper::read_u64_le;
use crate::states::helper::Pubkey;
use crate::states::staking_pool_account::update_pool_rewards;
use crate::states::staking_pool_account::StakingPool;
use crate::states::user_stake_account::first_active_position;
use crate::states::user_stake_account::ledger_consistent;
use crate::states::user_stake_account::lemma_count_active_update;
use crate::states::user_stake_account::lemma_first_active_position;
use crate::states::user_stake_account::lemma_staked_in_pool_update;
use crate::states::user_stake_account::lemma_total_active_stake_update;
use crate::states::user_stake_account::staked_in_pool;
use crate::states::user_stake_account::total_active_stake;
use crate::states::user_stake_account::totals_match;
use crate::states::user_stake_account::StakePosition;
use crate::states::user_stake_account::UserStakeAccount;
use crate::states::user_stake_account::UserStakeView;
use crate::states::user_stake_account::MAX_POSITIONS;

verus! {

/// What the host has read for an increase of a stake.
#[derive(Clone, Copy, Debug)]
pub struct IncreaseStakeAccounts {
    pub user: Pubkey,
    pub user_is_signer: bool,
    pub stake_token_mint: Pubkey,
    pub liquid_stake_mint: Pubkey,
    pub global_config_account: Pubkey,
    /// The address derived for the platform configuration.
    pub global_config_pda: Pubkey,
    pub user_token: TokenAccountData,
    pub stake_vault: TokenAccountData,
    pub user_lst_token: TokenAccountData,
}

/// The first check that an increase fails, in the order in which they are
/// made; `None` where it passes them all.
pub open spec fn increase_rejection(
    pool: StakingPool,
    ledger: UserStakeView,
    config: GlobalConfig,
    accounts: IncreaseStakeAccounts,
    data: Seq<u8>,
) -> Option<StakingError> {
    if !accounts.user_is_signer {
        Some(StakingError::MissingRequiredSignature)
    } else if data.len() < 16 {
        Some(StakingError::InvalidInstructionData)
    } else if stake_amount(data) == 0 {
        Some(StakingError::InvalidArgument)
    } else if accounts.global_config_account != accounts.global_config_pda {
        Some(StakingError::InvalidAccountData)
    } else if pool.pool_status != 0 {
        Some(StakingError::PoolNotActive)
    } else if pool.emergency_pause_flag {
        Some(StakingError::PoolEmergencyPaused)
    } else if config.emergency_pause {
        Some(StakingError::GlobalEmergencyPaused)
    } else if stake_amount(data) < pool.minimum_stake_amount || exceeds_stake_limit(
        pool,
        stake_amount(data),
    ) {
        Some(StakingError::InvalidArgument)
    } else if accounts.user_token.owner != accounts.user || accounts.user_token.mint
        != accounts.stake_token_mint {
        Some(StakingError::InvalidAccountData)
    } else if accounts.user_token.amount < stake_amount(data) {
        Some(StakingError::InsufficientFunds)
    } else if accounts.stake_vault.mint != pool.stake_token_mint || accounts.user_lst_token.owner
        != accounts.user || accounts.user_lst_token.mint != accounts.liquid_stake_mint
        || ledger.owner != accounts.user {
        Some(StakingError::InvalidAccountData)
    } else if first_active_position(ledger.positions, stake_pool_id(data), 0) is None {
        Some(StakingError::PositionNotFound)
    } else {
        None
    }
}

/// A position after `amount` was added to it at `now`.
pub open spec fn increased_position(position: StakePosition, amount: u64, now: i64) -> StakePosition {
    StakePosition {
        staked_amount: sat_add(position.staked_amount, amount),
        lst_tokens: sat_add(position.lst_tokens, amount),
        last_reward_update: now,
        ..position
    }
}

/// The ledger after `amount` was added to the position in the slot `index`
/// at `now`.
pub open spec fn increase_ledger_after(ledger: UserStakeView, index: int, amount: u64, now: i64) -> UserStakeView {
    UserStakeView {
        positions: ledger.positions.update(
            index,
            increased_position(ledger.positions[index], amount, now),
        ),
        total_staked_amount: sat_add(ledger.total_staked_amount, amount),
        total_lst_balance: sat_add(ledger.total_lst_balance, amount),
        last_update_timestamp: now,
        ..ledger
    }
}

/// Adds to the user's active position in the pool.
///
/// The payload is the pool id and the amount, eight bytes each, least
/// significant byte first. The checks are made in the order of
/// `increase_rejection`; where one fails nothing changes. Otherwise the pool
/// is refreshed to `current_timestamp`, and the amount is added to the first
/// active position of the pool and to the totals of pool and ledger.
pub fn process_increase_stake(
    pool: &mut StakingPool,
    user_stake: &mut UserStakeAccount,
    global_config: &GlobalConfig,
    accounts: &IncreaseStakeAccounts,
    instruction_data: &[u8],
    current_timestamp: i64,
) -> (result: Result<StakeOutcome, StakingError>)
    ensures
        match increase_rejection(
            *old(pool),
            old(user_stake)@,
            *global_config,
            *accounts,
            instruction_data@,
        ) {
            Some(e) => result == Err::<StakeOutcome, StakingError>(e) && *final(pool) == *old(pool)
                && *final(user_stake) == *old(user_stake),
            None => {
                let amount = stake_amount(instruction_data@);
                let index = first_active_position(
                    old(user_stake)@.positions,
                    stake_pool_id(instruction_data@),
                    0,
                ).unwrap();
                &&& index < MAX_POSITIONS
                &&& result == Ok::<StakeOutcome, StakingError>(
                    StakeOutcome { position_index: index, transfer_amount: amount, lst_minted: amount },
                )
                &&& *final(pool) == stake_pool_after(*old(pool), amount, current_timestamp)
                &&& final(user_stake)@ == increase_ledger_after(
                    old(user_stake)@,
                    index as int,
                    amount,
                    current_timestamp,
                )
            },
        },
        final(pool).accumulated_reward_per_share >= old(pool).accumulated_reward_per_share,
        ledger_consistent(old(user_stake)@) ==> ledger_consistent(final(user_stake)@),
{
    if !accounts.user_is_signer {
        return Err(StakingError::MissingRequiredSignature);
    }
    if instruction_data.len() < 16 {
        return Err(StakingError::InvalidInstructionData);
    }
    let pool_id: u64 = read_u64_le(instruction_data, 0);
    let amount: u64 = read_u64_le(instruction_data, 8);
    if amount == 0 {
        return Err(StakingError::InvalidArgument);
    }
    if !keys_equal(&accounts.global_config_account, &accounts.global_config_pda) {
        return Err(StakingError::InvalidAccountData);
    }
    if pool.pool_status != 0 {
        return Err(StakingError::PoolNotActive);
    }
    if pool.emergency_pause_flag {
        return Err(StakingError::PoolEmergencyPaused);
    }
    if global_config.emergency_pause {
        return Err(StakingError::GlobalEmergencyPaused);
    }
    if amount < pool.minimum_stake_amount || (pool.maximum_stake_limit > 0
        && pool.total_staked.saturating_add(amount) > pool.maximum_stake_limit) {
        return Err(StakingError::InvalidArgument);
    }
    if !keys_equal(&accounts.user_token.owner, &accounts.user) || !keys_equal(
        &accounts.user_token.mint,
        &accounts.stake_token_mint,
    ) {
        return Err(StakingError::InvalidAccountData);
    }
    if accounts.user_token.amount < amount {
        return Err(StakingError::InsufficientFunds);
    }
    if !keys_equal(&accounts.stake_vault.mint, &pool.stake_token_mint) || !keys_equal(
        &accounts.user_lst_token.owner,
        &accounts.user,
    ) || !keys_equal(&accounts.user_lst_token.mint, &accounts.liquid_stake_mint) || !keys_equal(
        &user_stake.owner,
        &accounts.user,
    ) {
        return Err(StakingError::InvalidAccountData);
    }
    let index: usize = match user_stake.find_active_position(pool_id) {
        Some(index) => index,
        None => {
            return Err(StakingError::PositionNotFound);
        },
    };
    update_pool_rewards(pool, current_timestamp);
    pool.record_stake(amount, amount);
    let mut position: StakePosition = user_stake.positions[index];
    position.staked_amount = position.staked_amount.saturating_add(amount);
    position.lst_tokens = position.lst_tokens.saturating_add(amount);
    position.last_reward_update = current_timestamp;
    proof {
        lemma_count_active_update(user_stake@.positions, index as int, position);
    }
    user_stake.positions[index] = position;
    user_stake.total_staked_amount = user_stake.total_staked_amount.saturating_add(amount);
    user_stake.total_lst_balance = user_stake.total_lst_balance.saturating_add(amount);
    user_stake.last_update_timestamp = current_timestamp;
    Ok(StakeOutcome { position_index: index, transfer_amount: amount, lst_minted: amount })
}

/// An increase keeps the pool's total equal to the stake of all active
/// positions in it: where the total was the stake of this ledger in the pool
/// plus that of all other ledgers, it still is afterwards, as long as the
/// total stays within the 64-bit range.
pub proof fn lemma_increase_conserves_pool_total(
    pool: StakingPool,
    ledger: UserStakeView,
    config: GlobalConfig,
    accounts: IncreaseStakeAccounts,
    data: Seq<u8>,
    now: i64,
    others: nat,
)
    requires
        ledger.positions.len() == MAX_POSITIONS,
        increase_rejection(pool, ledger, config, accounts, data) is None,
        pool.total_staked == staked_in_pool(ledger.positions, stake_pool_id(data)) + others,
        pool.total_staked + stake_amount(data) <= u64::MAX,
    ensures
        ({
            let index = first_active_position(ledger.positions, stake_pool_id(data), 0).unwrap();
            stake_pool_after(pool, stake_amount(data), now).total_staked == staked_in_pool(
                increase_ledger_after(ledger, index as int, stake_amount(data), now).positions,
                stake_pool_id(data),
            ) + others
        }),
{
    let pool_id = stake_pool_id(data);
    let index = first_active_position(ledger.positions, pool_id, 0).unwrap();
    lemma_first_active_position(ledger.positions, pool_id, 0);
    lemma_staked_in_pool_update(
        ledger.positions,
        index as int,
        increased_position(ledger.positions[index as int], stake_amount(data), now),
        pool_id,
    );
}

/// An increase keeps a ledger consistent: the counter of active positions
/// still says how many are active, and every position is still backed one to
/// one.
pub proof fn lemma_increase_keeps_consistency(
    pool: StakingPool,
    ledger: UserStakeView,
    config: GlobalConfig,
    accounts: IncreaseStakeAccounts,
    data: Seq<u8>,
    now: i64,
)
    requires
        ledger_consistent(ledger),
        increase_rejection(pool, ledger, config, accounts, data) is None,
    ensures
        ({
            let index = first_active_position(ledger.positions, stake_pool_id(data), 0).unwrap();
            ledger_consistent(increase_ledger_after(ledger, index as int, stake_amount(data), now))
        }),
{
    let pool_id = stake_pool_id(data);
    let index = first_active_position(ledger.positions, pool_id, 0).unwrap();
    lemma_first_active_position(ledger.positions, pool_id, 0);
    lemma_count_active_update(
        ledger.positions,
        index as int,
        increased_position(ledger.positions[index as int], stake_amount(data), now),
    );
}

/// An increase keeps the running totals of a ledger equal to the sums over
/// its active positions, as long as they stay within the 64-bit range.
pub proof fn lemma_increase_keeps_totals(
    pool: StakingPool,
    ledger: UserStakeView,
    config: GlobalConfig,
    accounts: IncreaseStakeAccounts,
    data: Seq<u8>,
    now: i64,
)
    requires
        ledger.positions.len() == MAX_POSITIONS,
        increase_rejection(pool, ledger, config, accounts, data) is None,
        totals_match(ledger),
        total_active_stake(ledger.positions) + stake_amount(data) <= u64::MAX,
    ensures
        ({
            let index = first_active_position(ledger.positions, stake_pool_id(data), 0).unwrap();
            totals_match(increase_ledger_after(ledger, index as int, stake_amount(data), now))
        }),
{
    let pool_id = stake_pool_id(data);
    let index = first_active_position(ledger.positions, pool_id, 0).unwrap();
    lemma_first_active_position(ledger.positions, pool_id, 0);
    lemma_total_active_stake_update(
        ledger.positions,
        index as int,
        increased_position(ledger.positions[index as int], stake_amount(data), now),
    );
}

} // verus!
