use vstd::prelude::*;
use crate::error::StakingError;
use crate::instructions::TokenAccountData;
use crate::reward_math::basis_point_share;
use crate::reward_math::emergency_penalty_rate;
use crate::reward_math::sat_sub;
use crate::reward_math::MAX_EMERGENCY_PENALTY_RATE;
use crate::states::global_config::GlobalConfig;
use crate::states::helper::keys_equal;
use crate::states::helper::read_u64_le;
use crate::states::helper::spec_u64_le;
use crate::states::helper::Pubkey;
use crate::states::staking_pool_account::pool_after_unstake;
use crate::states::staking_pool_account::StakingPool;
use crate::states::user_stake_account::count_active;
use crate::states::user_stake_account::first_active_position;
use crate::states::user_stake_account::ledger_consistent;
use crate::states::user_stake_account::lemma_count_active_update;
use crate::states::user_stake_account::lemma_first_active_position;
use crate::states::user_stake_account::lemma_staked_in_pool_update;
use crate::states::user_stake_account::lemma_total_active_stake_update;
use crate::states::user_stake_account::staked_in_pool;
use crate::states::user_stake_account::totals_match;
use crate::states::user_stake_account::StakePosition;
use crate::states::user_stake_account::UserStakeAccount;
use crate::states::user_stake_account::UserStakeView;
use crate::states::user_stake_account::MAX_POSITIONS;

verus! {

/// What the host has read for an emergency withdrawal.
#[derive(Clone, Copy, Debug)]
pub struct EmergencyWithdrawAccounts {
    pub user: Pubkey,
    pub user_is_signer: bool,
    pub global_config_account: Pubkey,
    /// The address derived for the platform configuration.
    pub global_config_pda: Pubkey,
    pub user_token: TokenAccountData,
    pub user_lst_token: TokenAccountData,
}

/// The asset movements of a committed emergency withdrawal.
#[derive(Clone, Copy, Debug, PartialEq, Eq, Structural)]
pub struct EmergencyWithdrawOutcome {
    pub position_index: usize,
    /// The derivative tokens to destroy: all that the position held.
    pub lst_burned: u64,
    /// The staked units to move from the vault to the treasury.
    pub penalty: u64,
    /// The staked units to move from the vault to the user.
    pub returned: u64,
}

/// The pool that an emergency-withdrawal payload names.
pub open spec fn emergency_pool_id(data: Seq<u8>) -> u64 {
    spec_u64_le(data, 0)
}

/// Whether a slashing event has been detected for the pool. None ever is:
/// detection belongs to a subsystem outside this crate.
pub open spec fn slashing_event_detected(pool: StakingPool) -> bool {
    false
}

/// Whether an emergency exit is open: the platform or the pool is paused,
/// the pool is deprecated, or a slashing event was detected.
pub open spec fn emergency_condition(config: GlobalConfig, pool: StakingPool) -> bool {
    config.emergency_pause || pool.emergency_pause_flag || pool.pool_status == 2 || (
    pool.slashing_enabled && slashing_event_detected(pool))
}

/// The penalty of an emergency exit with `amount` from `pool`.
pub open spec fn emergency_penalty(amount: u64, pool: StakingPool) -> u64 {
    basis_point_share(amount, emergency_penalty_rate(pool.early_withdraw_penalty))
}

/// The first check that an emergency withdrawal fails, in the order in which
/// they are made; `None` where it passes them all.
pub open spec fn emergency_rejection(
    pool: StakingPool,
    ledger: UserStakeView,
    config: GlobalConfig,
    accounts: EmergencyWithdrawAccounts,
    data: Seq<u8>,
) -> Option<StakingError> {
    if !accounts.user_is_signer {
        Some(StakingError::MissingRequiredSignature)
    } else if data.len() < 8 {
        Some(StakingError::InvalidInstructionData)
    } else if accounts.global_config_account != accounts.global_config_pda || ledger.owner
        != accounts.user {
        Some(StakingError::InvalidAccountData)
    } else if !emergency_condition(config, pool) {
        Some(StakingError::NoEmergencyCondition)
    } else {
        match first_active_position(ledger.positions, emergency_pool_id(data), 0) {
            None => Some(StakingError::PositionNotFound),
            Some(index) => if ledger.positions[index as int].lst_tokens == 0 {
                Some(StakingError::NothingToWithdraw)
            } else if accounts.user_token.owner != accounts.user || accounts.user_lst_token.owner
                != accounts.user {
                Some(StakingError::InvalidAccountData)
            } else if accounts.user_lst_token.amount < ledger.positions[index as int].lst_tokens {
                Some(StakingError::InsufficientFunds)
            } else {
                None
            },
        }
    }
}

/// A position after its emergency exit at `now`: emptied and switched off.
pub open spec fn withdrawn_position(position: StakePosition, now: i64) -> StakePosition {
    StakePosition {
        staked_amount: 0,
        lst_tokens: 0,
        is_active: false,
        last_reward_update: now,
        ..position
    }
}

/// The ledger after the emergency exit of the position in the slot `index`.
pub open spec fn emergency_ledger_after(ledger: UserStakeView, index: int, now: i64) -> UserStakeView {
    UserStakeView {
        positions: ledger.positions.update(index, withdrawn_position(ledger.positions[index], now)),
        total_staked_amount: sat_sub(
            ledger.total_staked_amount,
            ledger.positions[index].staked_amount,
        ),
        total_lst_balance: sat_sub(ledger.total_lst_balance, ledger.positions[index].lst_tokens),
        active_positions: if ledger.active_positions == 0 {
            0u8
        } else {
            (ledger.active_positions - 1) as u8
        },
        last_update_timestamp: now,
        ..ledger
    }
}

/// Whether a slashing event has been detected for the pool.
pub fn has_slashing_event(pool: &StakingPool) -> (detected: bool)
    ensures
        detected == slashing_event_detected(*pool),
{
    false
}

/// Whether a fault of the platform itself has been detected. None ever is.
pub fn detect_vulnerability() -> (detected: bool)
    ensures
        !detected,
{
    false
}

/// Whether an emergency exit from the pool is open.
pub fn check_emergency_conditions(global_config: &GlobalConfig, staking_pool: &StakingPool) -> (open:
    bool)
    ensures
        open == emergency_condition(*global_config, *staking_pool),
{
    if global_config.emergency_pause {
        return true;
    }
    if staking_pool.emergency_pause_flag {
        return true;
    }
    if staking_pool.pool_status == 2 {
        return true;
    }
    if staking_pool.slashing_enabled && has_slashing_event(staking_pool) {
        return true;
    }
    detect_vulnerability()
}

/// The penalty of an emergency exit: the pool's early-withdrawal rate raised
/// by half, at most half of `amount`.
pub fn calculate_emergency_penalty(amount: u64, pool: &StakingPool) -> (penalty: u64)
    ensures
        penalty == emergency_penalty(amount, *pool),
        penalty == amount * emergency_penalty_rate(pool.early_withdraw_penalty) / 10_000,
        emergency_penalty_rate(pool.early_withdraw_penalty) <= MAX_EMERGENCY_PENALTY_RATE,
        2 * penalty <= amount,
{
    crate::reward_math::calculate_emergency_penalty(amount, pool.early_withdraw_penalty)
}

/// Takes the user's whole position out of the pool while an emergency
/// condition holds.
///
/// The payload is the pool id, eight bytes, least significant byte first.
/// The checks are made in the order of `emergency_rejection`; where one fails
/// nothing changes. Otherwise all derivative tokens of the position are
/// burned, the raised penalty goes to the treasury and the rest of the stake
/// to the user, the position is emptied and switched off, and the totals of
/// ledger and pool are lowered by what it held.
pub fn process_emergency_withdraw(
    pool: &mut StakingPool,
    user_stake: &mut UserStakeAccount,
    global_config: &GlobalConfig,
    accounts: &EmergencyWithdrawAccounts,
    instruction_data: &[u8],
    current_timestamp: i64,
) -> (result: Result<EmergencyWithdrawOutcome, StakingError>)
    ensures
        match emergency_rejection(
            *old(pool),
            old(user_stake)@,
            *global_config,
            *accounts,
            instruction_data@,
        ) {
            Some(e) => result == Err::<EmergencyWithdrawOutcome, StakingError>(e) && *final(pool)
                == *old(pool) && *final(user_stake) == *old(user_stake),
            None => {
                let index = first_active_position(
                    old(user_stake)@.positions,
                    emergency_pool_id(instruction_data@),
                    0,
                ).unwrap();
                let before = old(user_stake)@.positions[index as int];
                let penalty = emergency_penalty(before.staked_amount, *old(pool));
                &&& index < MAX_POSITIONS
                &&& result == Ok::<EmergencyWithdrawOutcome, StakingError>(
                    EmergencyWithdrawOutcome {
                        position_index: index,
                        lst_burned: before.lst_tokens,
                        penalty,
                        returned: (before.staked_amount - penalty) as u64,
                    },
                )
                &&& 2 * penalty <= before.staked_amount
                &&& *final(pool) == pool_after_unstake(
                    *old(pool),
                    before.staked_amount,
                    before.lst_tokens,
                )
                &&& final(user_stake)@ == emergency_ledger_after(
                    old(user_stake)@,
                    index as int,
                    current_timestamp,
                )
                &&& !final(user_stake)@.positions[index as int].is_active
                &&& count_active(final(user_stake)@.positions) + 1 == count_active(
                    old(user_stake)@.positions,
                )
            },
        },
        final(pool).accumulated_reward_per_share >= old(pool).accumulated_reward_per_share,
        ledger_consistent(old(user_stake)@) ==> ledger_consistent(final(user_stake)@),
{
    if !accounts.user_is_signer {
        return Err(StakingError::MissingRequiredSignature);
    }
    if instruction_data.len() < 8 {
        return Err(StakingError::InvalidInstructionData);
    }
    let pool_id: u64 = read_u64_le(instruction_data, 0);
    if !keys_equal(&accounts.global_config_account, &accounts.global_config_pda) || !keys_equal(
        &user_stake.owner,
        &accounts.user,
    ) {
        return Err(StakingError::InvalidAccountData);
    }
    if !check_emergency_conditions(global_config, pool) {
        return Err(StakingError::NoEmergencyCondition);
    }
    let index: usize = match user_stake.find_active_position(pool_id) {
        Some(index) => index,
        None => {
            return Err(StakingError::PositionNotFound);
        },
    };
    let mut position: StakePosition = user_stake.positions[index];
    if position.lst_tokens == 0 {
        return Err(StakingError::NothingToWithdraw);
    }
    let lst_amount: u64 = position.lst_tokens;
    let underlying: u64 = position.staked_amount;
    let penalty: u64 = calculate_emergency_penalty(underlying, pool);
    let returned: u64 = underlying.saturating_sub(penalty);
    if !keys_equal(&accounts.user_token.owner, &accounts.user) || !keys_equal(
        &accounts.user_lst_token.owner,
        &accounts.user,
    ) {
        return Err(StakingError::InvalidAccountData);
    }
    if accounts.user_lst_token.amount < lst_amount {
        return Err(StakingError::InsufficientFunds);
    }
    position.staked_amount = 0;
    position.lst_tokens = 0;
    position.last_reward_update = current_timestamp;
    proof {
        lemma_count_active_update(user_stake@.positions, index as int, position);
    }
    user_stake.positions[index] = position;
    user_stake.close_position(index);
    proof {
        let closed = withdrawn_position(old(user_stake)@.positions[index as int], current_timestamp);
        assert(user_stake@.positions =~= old(user_stake)@.positions.update(index as int, closed));
        lemma_count_active_update(old(user_stake)@.positions, index as int, closed);
    }
    user_stake.total_staked_amount = user_stake.total_staked_amount.saturating_sub(underlying);
    user_stake.total_lst_balance = user_stake.total_lst_balance.saturating_sub(lst_amount);
    user_stake.last_update_timestamp = current_timestamp;
    pool.record_unstake(underlying, lst_amount);
    Ok(EmergencyWithdrawOutcome { position_index: index, lst_burned: lst_amount, penalty, returned })
}

/// An emergency exit pays out the whole stake: penalty and returned amount
/// add up to what the position held, and the penalty is at most half of it.
pub proof fn lemma_emergency_split_is_exact(amount: u64, pool: StakingPool)
    ensures
        emergency_penalty(amount, pool) + sat_sub(amount, emergency_penalty(amount, pool))
            == amount,
        2 * emergency_penalty(amount, pool) <= amount,
        pool.early_withdraw_penalty * 3 > 10_000 ==> emergency_penalty(amount, pool) == amount / 2,
{
    let rate = emergency_penalty_rate(pool.early_withdraw_penalty);
    assert(amount * rate <= amount * 5_000) by (nonlinear_arith)
        requires
            rate <= 5_000,
            amount >= 0,
    ;
    if pool.early_withdraw_penalty * 3 > 10_000 {
        assert(rate == 5_000);
        assert(amount * 5_000 / 10_000 == amount / 2) by (nonlinear_arith);
    }
}

/// An emergency exit switches exactly one position off: the ledger's counter
/// of active positions falls by one.
pub proof fn lemma_emergency_closes_one_position(
    pool: StakingPool,
    ledger: UserStakeView,
    config: GlobalConfig,
    accounts: EmergencyWithdrawAccounts,
    data: Seq<u8>,
    now: i64,
)
    requires
        ledger_consistent(ledger),
        emergency_rejection(pool, ledger, config, accounts, data) is None,
    ensures
        ({
            let index = first_active_position(ledger.positions, emergency_pool_id(data), 0).unwrap();
            let after = emergency_ledger_after(ledger, index as int, now);
            &&& after.active_positions + 1 == ledger.active_positions
            &&& !after.positions[index as int].is_active
            &&& after.positions[index as int].staked_amount == 0
            &&& after.positions[index as int].lst_tokens == 0
        }),
{
    let index = first_active_position(ledger.positions, emergency_pool_id(data), 0).unwrap();
    lemma_first_active_position(ledger.positions, emergency_pool_id(data), 0);
    lemma_count_active_update(
        ledger.positions,
        index as int,
        withdrawn_position(ledger.positions[index as int], now),
    );
}

/// An emergency exit keeps a ledger consistent: the counter of active
/// positions still says how many are active, and every position is still
/// backed one to one.
pub proof fn lemma_emergency_keeps_consistency(
    pool: StakingPool,
    ledger: UserStakeView,
    config: GlobalConfig,
    accounts: EmergencyWithdrawAccounts,
    data: Seq<u8>,
    now: i64,
)
    requires
        ledger_consistent(ledger),
        emergency_rejection(pool, ledger, config, accounts, data) is None,
    ensures
        ({
            let index = first_active_position(ledger.positions, emergency_pool_id(data), 0).unwrap();
            ledger_consistent(emergency_ledger_after(ledger, index as int, now))
        }),
{
    let index = first_active_position(ledger.positions, emergency_pool_id(data), 0).unwrap();
    lemma_first_active_position(ledger.positions, emergency_pool_id(data), 0);
    lemma_count_active_update(
        ledger.positions,
        index as int,
        withdrawn_position(ledger.positions[index as int], now),
    );
}

/// An emergency exit keeps the pool's total equal to the stake of all active
/// positions in it: where the total was the stake of this ledger in the pool
/// plus that of all other ledgers, it still is afterwards.
pub proof fn lemma_emergency_conserves_pool_total(
    pool: StakingPool,
    ledger: UserStakeView,
    config: GlobalConfig,
    accounts: EmergencyWithdrawAccounts,
    data: Seq<u8>,
    now: i64,
    others: nat,
)
    requires
        ledger_consistent(ledger),
        emergency_rejection(pool, ledger, config, accounts, data) is None,
        pool.total_staked == staked_in_pool(ledger.positions, emergency_pool_id(data)) + others,
    ensures
        ({
            let index = first_active_position(ledger.positions, emergency_pool_id(data), 0).unwrap();
            let before = ledger.positions[index as int];
            pool_after_unstake(pool, before.staked_amount, before.lst_tokens).total_staked
                == staked_in_pool(
                emergency_ledger_after(ledger, index as int, now).positions,
                emergency_pool_id(data),
            ) + others
        }),
{
    let pool_id = emergency_pool_id(data);
    let index = first_active_position(ledger.positions, pool_id, 0).unwrap();
    lemma_first_active_position(ledger.positions, pool_id, 0);
    lemma_staked_in_pool_update(
        ledger.positions,
        index as int,
        withdrawn_position(ledger.positions[index as int], now),
        pool_id,
    );
}

/// An emergency exit keeps the running totals of a ledger equal to the sums
/// over its active positions.
pub proof fn lemma_emergency_keeps_totals(
    pool: StakingPool,
    ledger: UserStakeView,
    config: GlobalConfig,
    accounts: EmergencyWithdrawAccounts,
    data: Seq<u8>,
    now: i64,
)
    requires
        ledger_consistent(ledger),
        emergency_rejection(pool, ledger, config, accounts, data) is None,
        totals_match(ledger),
    ensures
        ({
            let index = first_active_position(ledger.positions, emergency_pool_id(data), 0).unwrap();
            totals_match(emergency_ledger_after(ledger, index as int, now))
        }),
{
    let pool_id = emergency_pool_id(data);
    let index = first_active_position(ledger.positions, pool_id, 0).unwrap();
    lemma_first_active_position(ledger.positions, pool_id, 0);
    lemma_total_active_stake_update(
        ledger.positions,
        index as int,
        withdrawn_position(ledger.positions[index as int], now),
    );
}

} // verus!
