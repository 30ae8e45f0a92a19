use vstd::prelude::*;
use crate::error::StakingError;
use crate::instructions::TokenAccountData;
use crate::reward_math::sat_add;
use crate::reward_math::sat_add_i64;
use crate::reward_math::saturating_add_i64;
use crate::states::global_config::GlobalConfig;
use crate::states::helper::keys_equal;
use crate::states::helper::read_u64_le;
use crate::states::helper::spec_u64_le;
use crate::states::helper::Pubkey;
use crate::states::staking_pool_account::pool_after_stake;
use crate::states::staking_pool_account::refreshed_pool;
use crate::states::staking_pool_account::update_pool_rewards;
use crate::states::staking_pool_account::StakingPool;
use crate::states::user_stake_account::count_active;
use crate::states::user_stake_account::first_free_slot;
use crate::states::user_stake_account::ledger_after_close;
use crate::states::user_stake_account::ledger_after_open;
use crate::states::user_stake_account::ledger_consistent;
use crate::states::user_stake_account::lemma_capacity_boundary;
use crate::states::user_stake_account::lemma_count_active_bound;
use crate::states::user_stake_account::lemma_count_active_update;
use crate::states::user_stake_account::lemma_no_free_slot_iff_all_active;
use crate::states::user_stake_account::lemma_staked_in_pool_update;
use crate::states::user_stake_account::lemma_total_active_stake_update;
use crate::states::user_stake_account::staked_in_pool;
use crate::states::user_stake_account::total_active_stake;
use crate::states::user_stake_account::totals_match;
use crate::states::user_stake_account::StakePosition;
use crate::states::user_stake_account::UserStakeAccount;
use crate::states::user_stake_account::UserStakeView;
use crate::states::user_stake_account::MAX_POSITIONS;

verus! {

/// What the host has read for a stake: who signed, the identities of the
/// records it was handed, the addresses it derived for them, and the asset
/// accounts involved.
#[derive(Clone, Copy, Debug)]
pub struct StakeAccounts {
    pub user: Pubkey,
    pub user_is_signer: bool,
    pub stake_token_mint: Pubkey,
    pub stake_token_vault: Pubkey,
    pub liquid_stake_mint: Pubkey,
    pub global_config_account: Pubkey,
    pub staking_pool_account: Pubkey,
    pub user_stake_account: Pubkey,
    pub user_lst_token_account: Pubkey,
    /// The address derived for the platform configuration.
    pub global_config_pda: Pubkey,
    /// The address derived for the pool from its creator and the pool id.
    pub staking_pool_pda: Pubkey,
    /// The address derived for the vault of the staked asset.
    pub stake_token_vault_pda: Pubkey,
    /// The address derived for the derivative asset.
    pub liquid_stake_mint_pda: Pubkey,
    /// The address derived for the user's ledger.
    pub user_stake_pda: Pubkey,
    pub user_token: TokenAccountData,
    pub stake_vault: TokenAccountData,
    pub user_lst_token: TokenAccountData,
}

/// The asset movements of a committed stake.
#[derive(Clone, Copy, Debug, PartialEq, Eq, Structural)]
pub struct StakeOutcome {
    /// The slot in which the position was opened.
    pub position_index: usize,
    /// The staked units to move from the user to the vault.
    pub transfer_amount: u64,
    /// The derivative tokens to issue to the user.
    pub lst_minted: u64,
}

/// The pool that a stake payload names.
pub open spec fn stake_pool_id(data: Seq<u8>) -> u64 {
    spec_u64_le(data, 0)
}

/// The amount that a stake payload names.
pub open spec fn stake_amount(data: Seq<u8>) -> u64 {
    spec_u64_le(data, 8)
}

/// Whether the pool takes no stake of `amount` because of its limit.
pub open spec fn exceeds_stake_limit(pool: StakingPool, amount: u64) -> bool {
    pool.maximum_stake_limit > 0 && sat_add(pool.total_staked, amount) > pool.maximum_stake_limit
}

/// The first check that a stake fails, in the order in which they are made;
/// `None` where it passes them all.
pub open spec fn stake_rejection(
    pool: StakingPool,
    ledger: UserStakeView,
    config: GlobalConfig,
    accounts: StakeAccounts,
    data: Seq<u8>,
) -> Option<StakingError> {
    if !accounts.user_is_signer {
        Some(StakingError::MissingRequiredSignature)
    } else if data.len() < 16 {
        Some(StakingError::InvalidInstructionData)
    } else if stake_amount(data) == 0 {
        Some(StakingError::InvalidArgument)
    } else if accounts.global_config_account != accounts.global_config_pda
        || accounts.staking_pool_account != accounts.staking_pool_pda
        || accounts.stake_token_vault != accounts.stake_token_vault_pda
        || accounts.liquid_stake_mint != accounts.liquid_stake_mint_pda
        || accounts.user_stake_account != accounts.user_stake_pda {
        Some(StakingError::InvalidAccountData)
    } else if pool.pool_status != 0 {
        Some(StakingError::PoolNotActive)
    } else if pool.emergency_pause_flag {
        Some(StakingError::PoolEmergencyPaused)
    } else if config.emergency_pause {
        Some(StakingError::GlobalEmergencyPaused)
    } else if stake_amount(data) < pool.minimum_stake_amount || stake_amount(data)
        < config.min_stake_amount || exceeds_stake_limit(pool, stake_amount(data)) {
        Some(StakingError::InvalidArgument)
    } else if accounts.user_token.owner != accounts.user || accounts.user_token.mint
        != accounts.stake_token_mint {
        Some(StakingError::InvalidAccountData)
    } else if accounts.user_token.amount < stake_amount(data) {
        Some(StakingError::InsufficientFunds)
    } else if accounts.stake_vault.owner != accounts.global_config_account
        || accounts.stake_vault.mint != pool.stake_token_mint || accounts.user_lst_token.owner
        != accounts.user || accounts.user_lst_token.mint != accounts.liquid_stake_mint
        || ledger.owner != accounts.user {
        Some(StakingError::InvalidAccountData)
    } else if first_free_slot(ledger.positions, 0) is None {
        Some(StakingError::PositionCapacityExceeded)
    } else {
        None
    }
}

/// The position that a stake of `amount` opens at `now`.
pub open spec fn staked_position(
    pool: StakingPool,
    accounts: StakeAccounts,
    pool_id: u64,
    amount: u64,
    now: i64,
) -> StakePosition {
    StakePosition {
        pool_id,
        staking_pool: accounts.staking_pool_account,
        lst_token_account: accounts.user_lst_token_account,
        staked_amount: amount,
        lst_tokens: amount,
        last_reward_update: now,
        pending_rewards: 0,
        stake_timestamp: now,
        lock_exipry_enable: pool.lock_period_enabled,
        lock_expiry: if pool.lock_period_enabled {
            sat_add_i64(now, pool.lock_period_duration)
        } else {
            0
        },
        auto_compound_enabled: false,
        compound_frequency_hours: 0,
        min_compound_amount: 0,
        last_compound_timestamp: now,
        compound_count: 0,
        is_active: true,
        bump: 0,
    }
}

/// The pool after a stake of `amount` at `now`: refreshed first, then both
/// totals raised.
pub open spec fn stake_pool_after(pool: StakingPool, amount: u64, now: i64) -> StakingPool {
    pool_after_stake(refreshed_pool(pool, now), amount, amount)
}

/// The ledger after `position` was opened in the slot `index` for a stake of
/// `amount` at `now`.
pub open spec fn stake_ledger_after(
    ledger: UserStakeView,
    index: int,
    position: StakePosition,
    amount: u64,
    now: i64,
) -> UserStakeView {
    UserStakeView {
        total_staked_amount: sat_add(ledger.total_staked_amount, amount),
        total_lst_balance: sat_add(ledger.total_lst_balance, amount),
        last_update_timestamp: now,
        ..ledger_after_open(ledger, index, position)
    }
}

/// Opens a position for the user in the pool.
///
/// The payload is the pool id and the amount, eight bytes each, least
/// significant byte first. The checks are made in the order of
/// `stake_rejection`; where one fails nothing changes. Otherwise the pool is
/// refreshed to `current_timestamp`, the position is opened in the first
/// free slot with as many derivative tokens as staked units, and the totals
/// of pool and ledger rise by the amount.
pub fn process_stake_tokens(
    pool: &mut StakingPool,
    user_stake: &mut UserStakeAccount,
    global_config: &GlobalConfig,
    accounts: &StakeAccounts,
    instruction_data: &[u8],
    current_timestamp: i64,
) -> (result: Result<StakeOutcome, StakingError>)
    ensures
        match stake_rejection(
            *old(pool),
            old(user_stake)@,
            *global_config,
            *accounts,
            instruction_data@,
        ) {
            Some(e) => result == Err::<StakeOutcome, StakingError>(e) && *final(pool) == *old(pool)
                && *final(user_stake) == *old(user_stake),
            None => {
                let amount = stake_amount(instruction_data@);
                let index = first_free_slot(old(user_stake)@.positions, 0).unwrap();
                &&& index < MAX_POSITIONS
                &&& result == Ok::<StakeOutcome, StakingError>(
                    StakeOutcome { position_index: index, transfer_amount: amount, lst_minted: amount },
                )
                &&& *final(pool) == stake_pool_after(*old(pool), amount, current_timestamp)
                &&& final(user_stake)@ == stake_ledger_after(
                    old(user_stake)@,
                    index as int,
                    staked_position(
                        *old(pool),
                        *accounts,
                        stake_pool_id(instruction_data@),
                        amount,
                        current_timestamp,
                    ),
                    amount,
                    current_timestamp,
                )
            },
        },
        final(pool).accumulated_reward_per_share >= old(pool).accumulated_reward_per_share,
        ledger_consistent(old(user_stake)@) ==> ledger_consistent(final(user_stake)@),
{
    if !accounts.user_is_signer {
        return Err(StakingError::MissingRequiredSignature);
    }
    if instruction_data.len() < 16 {
        return Err(StakingError::InvalidInstructionData);
    }
    let pool_id: u64 = read_u64_le(instruction_data, 0);
    let amount: u64 = read_u64_le(instruction_data, 8);
    if amount == 0 {
        return Err(StakingError::InvalidArgument);
    }
    if !keys_equal(&accounts.global_config_account, &accounts.global_config_pda) || !keys_equal(
        &accounts.staking_pool_account,
        &accounts.staking_pool_pda,
    ) || !keys_equal(&accounts.stake_token_vault, &accounts.stake_token_vault_pda) || !keys_equal(
        &accounts.liquid_stake_mint,
        &accounts.liquid_stake_mint_pda,
    ) || !keys_equal(&accounts.user_stake_account, &accounts.user_stake_pda) {
        return Err(StakingError::InvalidAccountData);
    }
    if pool.pool_status != 0 {
        return Err(StakingError::PoolNotActive);
    }
    if pool.emergency_pause_flag {
        return Err(StakingError::PoolEmergencyPaused);
    }
    if global_config.emergency_pause {
        return Err(StakingError::GlobalEmergencyPaused);
    }
    if amount < pool.minimum_stake_amount || amount < global_config.min_stake_amount || (
    pool.maximum_stake_limit > 0 && pool.total_staked.saturating_add(amount)
        > pool.maximum_stake_limit) {
        return Err(StakingError::InvalidArgument);
    }
    if !keys_equal(&accounts.user_token.owner, &accounts.user) || !keys_equal(
        &accounts.user_token.mint,
        &accounts.stake_token_mint,
    ) {
        return Err(StakingError::InvalidAccountData);
    }
    if accounts.user_token.amount < amount {
        return Err(StakingError::InsufficientFunds);
    }
    if !keys_equal(&accounts.stake_vault.owner, &accounts.global_config_account) || !keys_equal(
        &accounts.stake_vault.mint,
        &pool.stake_token_mint,
    ) || !keys_equal(&accounts.user_lst_token.owner, &accounts.user) || !keys_equal(
        &accounts.user_lst_token.mint,
        &accounts.liquid_stake_mint,
    ) || !keys_equal(&user_stake.owner, &accounts.user) {
        return Err(StakingError::InvalidAccountData);
    }
    let position = StakePosition {
        pool_id,
        staking_pool: accounts.staking_pool_account,
        lst_token_account: accounts.user_lst_token_account,
        staked_amount: amount,
        lst_tokens: amount,
        last_reward_update: current_timestamp,
        pending_rewards: 0,
        stake_timestamp: current_timestamp,
        lock_exipry_enable: pool.lock_period_enabled,
        lock_expiry: if pool.lock_period_enabled {
            saturating_add_i64(current_timestamp, pool.lock_period_duration)
        } else {
            0
        },
        auto_compound_enabled: false,
        compound_frequency_hours: 0,
        min_compound_amount: 0,
        last_compound_timestamp: current_timestamp,
        compound_count: 0,
        is_active: true,
        bump: 0,
    };
    let index: usize = match user_stake.open_position(position) {
        Ok(index) => index,
        Err(e) => {
            return Err(e);
        },
    };
    update_pool_rewards(pool, current_timestamp);
    pool.record_stake(amount, amount);
    user_stake.total_staked_amount = user_stake.total_staked_amount.saturating_add(amount);
    user_stake.total_lst_balance = user_stake.total_lst_balance.saturating_add(amount);
    user_stake.last_update_timestamp = current_timestamp;
    Ok(StakeOutcome { position_index: index, transfer_amount: amount, lst_minted: amount })
}

/// A stake keeps the pool's total equal to the stake of all active positions
/// in it: where the total was the stake of this ledger in the pool plus that
/// of all other ledgers, it still is afterwards, as long as the total stays
/// within the 64-bit range.
pub proof fn lemma_stake_conserves_pool_total(
    pool: StakingPool,
    ledger: UserStakeView,
    config: GlobalConfig,
    accounts: StakeAccounts,
    data: Seq<u8>,
    now: i64,
    others: nat,
)
    requires
        ledger.positions.len() == MAX_POSITIONS,
        stake_rejection(pool, ledger, config, accounts, data) is None,
        pool.total_staked == staked_in_pool(ledger.positions, stake_pool_id(data)) + others,
        pool.total_staked + stake_amount(data) <= u64::MAX,
    ensures
        ({
            let index = first_free_slot(ledger.positions, 0).unwrap();
            let position = staked_position(
                pool,
                accounts,
                stake_pool_id(data),
                stake_amount(data),
                now,
            );
            stake_pool_after(pool, stake_amount(data), now).total_staked == staked_in_pool(
                stake_ledger_after(ledger, index as int, position, stake_amount(data), now).positions,
                stake_pool_id(data),
            ) + others
        }),
{
    let index = first_free_slot(ledger.positions, 0).unwrap();
    let position = staked_position(pool, accounts, stake_pool_id(data), stake_amount(data), now);
    lemma_no_free_slot_iff_all_active(ledger.positions, 0);
    lemma_staked_in_pool_update(ledger.positions, index as int, position, stake_pool_id(data));
}

/// A ledger takes a new position exactly while one of its slots is free: a
/// stake into a ledger with ten active positions is refused, and where a
/// stake is refused for want of a slot, all ten are active.
pub proof fn lemma_stake_capacity(
    pool: StakingPool,
    ledger: UserStakeView,
    config: GlobalConfig,
    accounts: StakeAccounts,
    data: Seq<u8>,
)
    requires
        ledger.positions.len() == MAX_POSITIONS,
    ensures
        count_active(ledger.positions) == MAX_POSITIONS ==> stake_rejection(
            pool,
            ledger,
            config,
            accounts,
            data,
        ) is Some,
        stake_rejection(pool, ledger, config, accounts, data) == Some(
            StakingError::PositionCapacityExceeded,
        ) ==> count_active(ledger.positions) == MAX_POSITIONS,
{
    lemma_capacity_boundary(ledger.positions);
}

/// Once a position of a ledger has been switched off, a stake is no longer
/// refused for want of a slot.
pub proof fn lemma_closed_slot_is_used_again(
    pool: StakingPool,
    ledger: UserStakeView,
    closed: int,
    config: GlobalConfig,
    accounts: StakeAccounts,
    data: Seq<u8>,
)
    requires
        ledger.positions.len() == MAX_POSITIONS,
        0 <= closed < MAX_POSITIONS,
    ensures
        stake_rejection(pool, ledger_after_close(ledger, closed), config, accounts, data) != Some(
            StakingError::PositionCapacityExceeded,
        ),
{
    let after = ledger_after_close(ledger, closed);
    lemma_no_free_slot_iff_all_active(after.positions, 0);
    assert(!after.positions[closed].is_active);
}

/// A stake keeps a ledger consistent: the counter of active positions still
/// says how many are active, and every position is still backed one to one.
pub proof fn lemma_stake_keeps_consistency(
    pool: StakingPool,
    ledger: UserStakeView,
    config: GlobalConfig,
    accounts: StakeAccounts,
    data: Seq<u8>,
    now: i64,
)
    requires
        ledger_consistent(ledger),
        stake_rejection(pool, ledger, config, accounts, data) is None,
    ensures
        ({
            let index = first_free_slot(ledger.positions, 0).unwrap();
            let position = staked_position(
                pool,
                accounts,
                stake_pool_id(data),
                stake_amount(data),
                now,
            );
            ledger_consistent(
                stake_ledger_after(ledger, index as int, position, stake_amount(data), now),
            )
        }),
{
    let index = first_free_slot(ledger.positions, 0).unwrap();
    let position = staked_position(pool, accounts, stake_pool_id(data), stake_amount(data), now);
    lemma_no_free_slot_iff_all_active(ledger.positions, 0);
    lemma_count_active_update(ledger.positions, index as int, position);
    lemma_count_active_bound(ledger.positions.update(index as int, position));
}

/// A stake keeps the running totals of a ledger equal to the sums over its
/// active positions, as long as they stay within the 64-bit range.
pub proof fn lemma_stake_keeps_totals(
    pool: StakingPool,
    ledger: UserStakeView,
    config: GlobalConfig,
    accounts: StakeAccounts,
    data: Seq<u8>,
    now: i64,
)
    requires
        ledger.positions.len() == MAX_POSITIONS,
        stake_rejection(pool, ledger, config, accounts, data) is None,
        totals_match(ledger),
        total_active_stake(ledger.positions) + stake_amount(data) <= u64::MAX,
    ensures
        ({
            let index = first_free_slot(ledger.positions, 0).unwrap();
            let position = staked_position(
                pool,
                accounts,
                stake_pool_id(data),
                stake_amount(data),
                now,
            );
            totals_match(
                stake_ledger_after(ledger, index as int, position, stake_amount(data), now),
            )
        }),
{
    let index = first_free_slot(ledger.positions, 0).unwrap();
    let position = staked_position(pool, accounts, stake_pool_id(data), stake_amount(data), now);
    lemma_no_free_slot_iff_all_active(ledger.positions, 0);
    lemma_total_active_stake_update(ledger.positions, index as int, position);
}

} // verus!
