use vstd::prelude::*;
use crate::error::StakingError;
use crate::instructions::TokenAccountData;
use crate::reward_math::apply_reward_multiplier;
use crate::reward_math::basis_point_share;
use crate::reward_math::calculate_projected_rewards;
use crate::reward_math::calculate_protocol_fee;
use crate::reward_math::elapsed_seconds;
use crate::reward_math::lemma_fee_split_is_exact;
use crate::reward_math::multiplied_rewards;
use crate::reward_math::projected_rewards;
use crate::reward_math::sat_add;
use crate::reward_math::sat_sub;
use crate::reward_math::seconds_between;
use crate::reward_math::BASIS_POINTS;
use crate::states::global_config::GlobalConfig;
use crate::states::helper::keys_equal;
use crate::states::helper::read_u64_le;
use crate::states::helper::spec_u64_le;
use crate::states::helper::Pubkey;
use crate::states::staking_pool_account::pool_after_distribution;
use crate::states::staking_pool_account::refreshed_pool;
use crate::states::staking_pool_account::update_pool_rewards;
use crate::states::staking_pool_account::StakingPool;
use crate::states::user_stake_account::count_active;
use crate::states::user_stake_account::first_active_position;
use crate::states::user_stake_account::ledger_consistent;
use crate::states::user_stake_account::lemma_count_active_update;
use crate::states::user_stake_account::lemma_first_active_position;
use crate::states::user_stake_account::lemma_staked_in_pool_update;
use crate::states::user_stake_account::lemma_total_active_stake_update;
use crate::states::user_stake_account::positions_backed;
use crate::states::user_stake_account::shifted_history;
use crate::states::user_stake_account::staked_in_pool;
use crate::states::user_stake_account::total_active_stake;
use crate::states::user_stake_account::totals_match;
use crate::states::user_stake_account::ClaimEvent;
use crate::states::user_stake_account::StakePosition;
use crate::states::user_stake_account::UserStakeAccount;
use crate::states::user_stake_account::UserStakeView;
use crate::states::user_stake_account::MAX_POSITIONS;

verus! {

/// What the host has read for a claim of the rewards of one position.
#[derive(Clone, Copy, Debug)]
pub struct ClaimAccounts {
    pub user: Pubkey,
    pub user_is_signer: bool,
    pub reward_token_mint: Pubkey,
    pub global_config_account: Pubkey,
    /// The address derived for the platform configuration.
    pub global_config_pda: Pubkey,
    pub user_reward_token: TokenAccountData,
    pub reward_vault: TokenAccountData,
}

/// What the host has read for a claim of all pending rewards of a ledger.
#[derive(Clone, Copy, Debug)]
pub struct ClaimAllAccounts {
    pub user: Pubkey,
    pub user_is_signer: bool,
    pub global_config_account: Pubkey,
    /// The address derived for the platform configuration.
    pub global_config_pda: Pubkey,
}

/// The asset movements of a committed claim.
#[derive(Clone, Copy, Debug, PartialEq, Eq, Structural)]
pub struct ClaimOutcome {
    /// Everything that was claimed.
    pub total_claimable: u64,
    /// The part that the protocol keeps; it goes from the reward vault to the
    /// treasury.
    pub protocol_fee: u64,
    /// The part that goes from the reward vault to the user.
    pub user_rewards: u64,
}

/// The pool that a claim payload names.
pub open spec fn claim_pool_id(data: Seq<u8>) -> u64 {
    spec_u64_le(data, 0)
}

/// Whether a position's lock still runs at `now`.
pub open spec fn lock_running(position: StakePosition, now: i64) -> bool {
    position.lock_exipry_enable && now < position.lock_expiry
}

/// The rewards that a position has accrued since its last update, projected
/// from the pool's rate, and multiplied while its lock runs.
pub open spec fn accrued_rewards(position: StakePosition, pool: StakingPool, now: i64) -> u64 {
    let elapsed = elapsed_seconds(position.last_reward_update, now);
    if position.staked_amount == 0 || !position.is_active || elapsed == 0 {
        0
    } else {
        let base = projected_rewards(position.staked_amount, pool.reward_rate_per_second, elapsed);
        if lock_running(position, now) {
            multiplied_rewards(base, pool.reward_multiplier)
        } else {
            base
        }
    }
}

/// What a claim of a position yields at `now`: the accrued rewards and those
/// already pending.
pub open spec fn claimable_rewards(position: StakePosition, pool: StakingPool, now: i64) -> u64 {
    sat_add(accrued_rewards(position, pool, now), position.pending_rewards)
}

/// How a claimed amount is split at `fee_rate` basis points.
pub open spec fn claim_split(total_claimable: u64, fee_rate: u16) -> ClaimOutcome {
    let fee = basis_point_share(total_claimable, fee_rate as u64);
    ClaimOutcome { total_claimable, protocol_fee: fee, user_rewards: sat_sub(total_claimable, fee) }
}

/// The first check that a claim fails, in the order in which they are made;
/// `None` where it passes them all.
pub open spec fn claim_rejection(
    pool: StakingPool,
    ledger: UserStakeView,
    config: GlobalConfig,
    accounts: ClaimAccounts,
    data: Seq<u8>,
    now: i64,
) -> Option<StakingError> {
    if !accounts.user_is_signer {
        Some(StakingError::MissingRequiredSignature)
    } else if data.len() < 8 {
        Some(StakingError::InvalidInstructionData)
    } else if accounts.global_config_account != accounts.global_config_pda || ledger.owner
        != accounts.user {
        Some(StakingError::InvalidAccountData)
    } else if ledger.is_paused {
        Some(StakingError::UserPaused)
    } else if config.emergency_pause {
        Some(StakingError::GlobalEmergencyPaused)
    } else {
        match first_active_position(ledger.positions, claim_pool_id(data), 0) {
            None => Some(StakingError::PositionNotFound),
            Some(index) => {
                let total = claimable_rewards(ledger.positions[index as int], pool, now);
                if total == 0 {
                    Some(StakingError::NothingToClaim)
                } else if accounts.user_reward_token.owner != accounts.user
                    || accounts.user_reward_token.mint != accounts.reward_token_mint
                    || accounts.reward_vault.mint != pool.reward_token_mint {
                    Some(StakingError::InvalidAccountData)
                } else if accounts.reward_vault.amount < total {
                    Some(StakingError::InsufficientVaultBalance)
                } else {
                    None
                }
            },
        }
    }
}

/// A position after its rewards were paid out at `now`.
pub open spec fn claimed_position(position: StakePosition, now: i64) -> StakePosition {
    StakePosition { pending_rewards: 0, last_reward_update: now, ..position }
}

/// The ledger after the rewards of the position in the slot `index` were
/// paid out at `now`.
pub open spec fn claim_ledger_after(
    ledger: UserStakeView,
    index: int,
    split: ClaimOutcome,
    now: i64,
) -> UserStakeView {
    UserStakeView {
        positions: ledger.positions.update(index, claimed_position(ledger.positions[index], now)),
        total_earned: sat_add(ledger.total_earned, split.total_claimable),
        total_claimed: sat_add(ledger.total_claimed, split.user_rewards),
        pending_rewards: sat_sub(ledger.pending_rewards, split.total_claimable),
        last_claim_timestamp: now,
        last_update_timestamp: now,
        claim_history: shifted_history(
            ledger.claim_history,
            ClaimEvent { amount: split.user_rewards, timestamp: now },
        ),
        ..ledger
    }
}

/// The pool after a claim of `total_claimable` at `now`.
pub open spec fn claim_pool_after(pool: StakingPool, total_claimable: u64, now: i64) -> StakingPool {
    pool_after_distribution(refreshed_pool(pool, now), total_claimable)
}

/// Whether a claim of everything collects the pending rewards of a position.
pub open spec fn collectable(position: StakePosition) -> bool {
    position.is_active && position.staked_amount > 0
}

/// The pending rewards of all collectable positions together.
pub open spec fn collected_pending(positions: Seq<StakePosition>) -> u64
    decreases positions.len(),
{
    if positions.len() == 0 {
        0
    } else if collectable(positions.last()) {
        sat_add(collected_pending(positions.drop_last()), positions.last().pending_rewards)
    } else {
        collected_pending(positions.drop_last())
    }
}

/// The positions after the pending rewards of the collectable ones were paid
/// out at `now`.
pub open spec fn collected_positions(positions: Seq<StakePosition>, now: i64) -> Seq<StakePosition> {
    Seq::new(
        positions.len(),
        |i: int|
            if collectable(positions[i]) {
                claimed_position(positions[i], now)
            } else {
                positions[i]
            },
    )
}

/// What a claim of everything yields: the pending rewards of the collectable
/// positions and those pending on the ledger itself.
pub open spec fn claimable_in_all(ledger: UserStakeView) -> u64 {
    sat_add(collected_pending(ledger.positions), ledger.pending_rewards)
}

/// The first check that a claim of everything fails, in the order in which
/// they are made; `None` where it passes them all.
pub open spec fn claim_all_rejection(
    ledger: UserStakeView,
    config: GlobalConfig,
    accounts: ClaimAllAccounts,
) -> Option<StakingError> {
    if !accounts.user_is_signer {
        Some(StakingError::MissingRequiredSignature)
    } else if accounts.global_config_account != accounts.global_config_pda || ledger.owner
        != accounts.user {
        Some(StakingError::InvalidAccountData)
    } else if ledger.is_paused || config.emergency_pause {
        Some(StakingError::GlobalEmergencyPaused)
    } else if claimable_in_all(ledger) == 0 {
        Some(StakingError::NothingToClaim)
    } else {
        None
    }
}

/// The ledger after everything pending was paid out at `now`.
pub open spec fn claim_all_ledger_after(ledger: UserStakeView, split: ClaimOutcome, now: i64) -> UserStakeView {
    UserStakeView {
        positions: collected_positions(ledger.positions, now),
        total_earned: sat_add(ledger.total_earned, split.total_claimable),
        total_claimed: sat_add(ledger.total_claimed, split.user_rewards),
        pending_rewards: 0,
        last_claim_timestamp: now,
        last_update_timestamp: now,
        claim_history: shifted_history(
            ledger.claim_history,
            ClaimEvent { amount: split.user_rewards, timestamp: now },
        ),
        ..ledger
    }
}

/// The rewards that a position has accrued since its last update, projected
/// from the pool's rate, and multiplied while its lock runs.
pub fn calculate_position_rewards(
    position: &StakePosition,
    pool: &StakingPool,
    current_timestamp: i64,
) -> (rewards: u64)
    ensures
        rewards == accrued_rewards(*position, *pool, current_timestamp),
{
    if position.staked_amount == 0 || !position.is_active {
        return 0;
    }
    let time_elapsed: u64 = seconds_between(position.last_reward_update, current_timestamp);
    if time_elapsed == 0 {
        return 0;
    }
    let base_rewards: u64 = calculate_projected_rewards(
        position.staked_amount,
        pool.reward_rate_per_second,
        time_elapsed,
    );
    if position.lock_exipry_enable && current_timestamp < position.lock_expiry {
        apply_reward_multiplier(base_rewards, pool.reward_multiplier)
    } else {
        base_rewards
    }
}

/// Records a paid claim in the ledger's history.
pub fn add_claim_to_history(user_stake: &mut UserStakeAccount, amount: u64, timestamp: i64)
    ensures
        final(user_stake)@ == (UserStakeView {
            claim_history: shifted_history(
                old(user_stake)@.claim_history,
                ClaimEvent { amount, timestamp },
            ),
            ..old(user_stake)@
        }),
{
    user_stake.push_claim_history(ClaimEvent { amount, timestamp });
}

/// Pays out the rewards of the user's active position in the pool.
///
/// The payload is the pool id, eight bytes, least significant byte first.
/// The checks are made in the order of `claim_rejection`; where one fails
/// nothing changes. Otherwise the pool is refreshed to `current_timestamp`,
/// the claimable amount is split into the protocol's fee and the user's
/// rewards, the position's pending rewards are cleared, and ledger, history
/// and pool record the payout.
pub fn process_claim_rewards(
    pool: &mut StakingPool,
    user_stake: &mut UserStakeAccount,
    global_config: &GlobalConfig,
    accounts: &ClaimAccounts,
    instruction_data: &[u8],
    current_timestamp: i64,
) -> (result: Result<ClaimOutcome, StakingError>)
    ensures
        match claim_rejection(
            *old(pool),
            old(user_stake)@,
            *global_config,
            *accounts,
            instruction_data@,
            current_timestamp,
        ) {
            Some(e) => result == Err::<ClaimOutcome, StakingError>(e) && *final(pool) == *old(pool)
                && *final(user_stake) == *old(user_stake),
            None => {
                let index = first_active_position(
                    old(user_stake)@.positions,
                    claim_pool_id(instruction_data@),
                    0,
                ).unwrap();
                let split = claim_split(
                    claimable_rewards(
                        old(user_stake)@.positions[index as int],
                        *old(pool),
                        current_timestamp,
                    ),
                    global_config.protocol_fee_rate,
                );
                &&& index < MAX_POSITIONS
                &&& result == Ok::<ClaimOutcome, StakingError>(split)
                &&& split.total_claimable > 0
                &&& global_config.protocol_fee_rate <= BASIS_POINTS ==> split.user_rewards
                    + split.protocol_fee == split.total_claimable
                &&& *final(pool) == claim_pool_after(
                    *old(pool),
                    split.total_claimable,
                    current_timestamp,
                )
                &&& final(user_stake)@ == claim_ledger_after(
                    old(user_stake)@,
                    index as int,
                    split,
                    current_timestamp,
                )
            },
        },
        final(pool).accumulated_reward_per_share >= old(pool).accumulated_reward_per_share,
        ledger_consistent(old(user_stake)@) ==> ledger_consistent(final(user_stake)@),
        totals_match(old(user_stake)@) ==> totals_match(final(user_stake)@),
{
    if !accounts.user_is_signer {
        return Err(StakingError::MissingRequiredSignature);
    }
    if instruction_data.len() < 8 {
        return Err(StakingError::InvalidInstructionData);
    }
    let pool_id: u64 = read_u64_le(instruction_data, 0);
    if !keys_equal(&accounts.global_config_account, &accounts.global_config_pda) || !keys_equal(
        &user_stake.owner,
        &accounts.user,
    ) {
        return Err(StakingError::InvalidAccountData);
    }
    if user_stake.is_paused {
        return Err(StakingError::UserPaused);
    }
    if global_config.emergency_pause {
        return Err(StakingError::GlobalEmergencyPaused);
    }
    let index: usize = match user_stake.find_active_position(pool_id) {
        Some(index) => index,
        None => {
            return Err(StakingError::PositionNotFound);
        },
    };
    let mut position: StakePosition = user_stake.positions[index];
    let accrued: u64 = calculate_position_rewards(&position, pool, current_timestamp);
    let total_claimable: u64 = accrued.saturating_add(position.pending_rewards);
    if total_claimable == 0 {
        return Err(StakingError::NothingToClaim);
    }
    if !keys_equal(&accounts.user_reward_token.owner, &accounts.user) || !keys_equal(
        &accounts.user_reward_token.mint,
        &accounts.reward_token_mint,
    ) || !keys_equal(&accounts.reward_vault.mint, &pool.reward_token_mint) {
        return Err(StakingError::InvalidAccountData);
    }
    if accounts.reward_vault.amount < total_claimable {
        return Err(StakingError::InsufficientVaultBalance);
    }
    let protocol_fee: u64 = calculate_protocol_fee(total_claimable, global_config.protocol_fee_rate);
    let user_rewards: u64 = total_claimable.saturating_sub(protocol_fee);
    update_pool_rewards(pool, current_timestamp);
    pool.record_reward_distribution(total_claimable);
    position.pending_rewards = 0;
    position.last_reward_update = current_timestamp;
    proof {
        lemma_count_active_update(user_stake@.positions, index as int, position);
        lemma_total_active_stake_update(user_stake@.positions, index as int, position);
    }
    user_stake.positions[index] = position;
    user_stake.total_earned = user_stake.total_earned.saturating_add(total_claimable);
    user_stake.total_claimed = user_stake.total_claimed.saturating_add(user_rewards);
    user_stake.pending_rewards = user_stake.pending_rewards.saturating_sub(total_claimable);
    user_stake.last_claim_timestamp = current_timestamp;
    user_stake.last_update_timestamp = current_timestamp;
    add_claim_to_history(user_stake, user_rewards, current_timestamp);
    Ok(ClaimOutcome { total_claimable, protocol_fee, user_rewards })
}

/// Pays out everything that is pending on a ledger: the pending rewards of
/// every active position with stake, and those of the ledger itself.
///
/// The checks are made in the order of `claim_all_rejection`; where one
/// fails nothing changes. Otherwise the amount is split into the protocol's
/// fee and the user's rewards, the pending rewards are cleared, and ledger
/// and history record the payout.
pub fn process_claim_all_rewards(
    user_stake: &mut UserStakeAccount,
    global_config: &GlobalConfig,
    accounts: &ClaimAllAccounts,
    current_timestamp: i64,
) -> (result: Result<ClaimOutcome, StakingError>)
    ensures
        match claim_all_rejection(old(user_stake)@, *global_config, *accounts) {
            Some(e) => result == Err::<ClaimOutcome, StakingError>(e) && *final(user_stake)
                == *old(user_stake),
            None => {
                let split = claim_split(
                    claimable_in_all(old(user_stake)@),
                    global_config.protocol_fee_rate,
                );
                &&& result == Ok::<ClaimOutcome, StakingError>(split)
                &&& split.total_claimable > 0
                &&& global_config.protocol_fee_rate <= BASIS_POINTS ==> split.user_rewards
                    + split.protocol_fee == split.total_claimable
                &&& final(user_stake)@ == claim_all_ledger_after(
                    old(user_stake)@,
                    split,
                    current_timestamp,
                )
            },
        },
        ledger_consistent(old(user_stake)@) ==> ledger_consistent(final(user_stake)@),
        totals_match(old(user_stake)@) ==> totals_match(final(user_stake)@),
{
    if !accounts.user_is_signer {
        return Err(StakingError::MissingRequiredSignature);
    }
    if !keys_equal(&accounts.global_config_account, &accounts.global_config_pda) || !keys_equal(
        &user_stake.owner,
        &accounts.user,
    ) {
        return Err(StakingError::InvalidAccountData);
    }
    if user_stake.is_paused || global_config.emergency_pause {
        return Err(StakingError::GlobalEmergencyPaused);
    }
    let mut collected: u64 = 0;
    let mut i: usize = 0;
    while i < MAX_POSITIONS
        invariant
            i <= MAX_POSITIONS,
            *user_stake == *old(user_stake),
            collected == collected_pending(user_stake@.positions.subrange(0, i as int)),
        decreases MAX_POSITIONS - i,
    {
        proof {
            assert(user_stake@.positions.subrange(0, i + 1).drop_last()
                =~= user_stake@.positions.subrange(0, i as int));
        }
        if user_stake.positions[i].is_active && user_stake.positions[i].staked_amount > 0 {
            collected = collected.saturating_add(user_stake.positions[i].pending_rewards);
        }
        i += 1;
    }
    proof {
        assert(user_stake@.positions.subrange(0, MAX_POSITIONS as int) =~= user_stake@.positions);
    }
    let total_claimable: u64 = collected.saturating_add(user_stake.pending_rewards);
    if total_claimable == 0 {
        return Err(StakingError::NothingToClaim);
    }
    let protocol_fee: u64 = calculate_protocol_fee(total_claimable, global_config.protocol_fee_rate);
    let user_rewards: u64 = total_claimable.saturating_sub(protocol_fee);
    let mut k: usize = 0;
    while k < MAX_POSITIONS
        invariant
            k <= MAX_POSITIONS,
            user_stake@ == (UserStakeView { positions: user_stake@.positions, ..old(user_stake)@ }),
            user_stake@.positions.len() == MAX_POSITIONS,
            forall|j: int|
                0 <= j < k ==> user_stake@.positions[j] == collected_positions(
                    old(user_stake)@.positions,
                    current_timestamp,
                )[j],
            forall|j: int|
                k <= j < MAX_POSITIONS ==> user_stake@.positions[j] == old(user_stake)@.positions[j],
        decreases MAX_POSITIONS - k,
    {
        let mut position: StakePosition = user_stake.positions[k];
        if position.is_active && position.staked_amount > 0 {
            position.pending_rewards = 0;
            position.last_reward_update = current_timestamp;
            user_stake.positions[k] = position;
        }
        k += 1;
    }
    proof {
        assert(user_stake@.positions =~= collected_positions(
            old(user_stake)@.positions,
            current_timestamp,
        ));
        lemma_collection_keeps_stake(old(user_stake)@.positions, current_timestamp);
    }
    user_stake.total_earned = user_stake.total_earned.saturating_add(total_claimable);
    user_stake.total_claimed = user_stake.total_claimed.saturating_add(user_rewards);
    user_stake.pending_rewards = 0;
    user_stake.last_claim_timestamp = current_timestamp;
    user_stake.last_update_timestamp = current_timestamp;
    add_claim_to_history(user_stake, user_rewards, current_timestamp);
    Ok(ClaimOutcome { total_claimable, protocol_fee, user_rewards })
}

/// Paying out pending rewards changes neither which positions are active
/// nor what they hold.
pub proof fn lemma_collection_keeps_stake(positions: Seq<StakePosition>, now: i64)
    ensures
        count_active(collected_positions(positions, now)) == count_active(positions),
        total_active_stake(collected_positions(positions, now)) == total_active_stake(positions),
        positions_backed(positions) ==> positions_backed(collected_positions(positions, now)),
    decreases positions.len(),
{
    if positions.len() > 0 {
        lemma_collection_keeps_stake(positions.drop_last(), now);
        assert(collected_positions(positions, now).drop_last() =~= collected_positions(
            positions.drop_last(),
            now,
        ));
    }
}

/// Paying out pending rewards leaves the stake in every pool as it was.
pub proof fn lemma_collection_keeps_pool_stake(
    positions: Seq<StakePosition>,
    now: i64,
    pool_id: u64,
)
    ensures
        staked_in_pool(collected_positions(positions, now), pool_id) == staked_in_pool(
            positions,
            pool_id,
        ),
    decreases positions.len(),
{
    if positions.len() > 0 {
        lemma_collection_keeps_pool_stake(positions.drop_last(), now, pool_id);
        assert(collected_positions(positions, now).drop_last() =~= collected_positions(
            positions.drop_last(),
            now,
        ));
    }
}

/// A claim changes neither which positions are active nor what they hold:
/// the ledger stays consistent, and its stake in every pool stays as it was.
pub proof fn lemma_claim_keeps_stake(
    pool: StakingPool,
    ledger: UserStakeView,
    config: GlobalConfig,
    accounts: ClaimAccounts,
    data: Seq<u8>,
    now: i64,
    pool_id: u64,
)
    requires
        ledger.positions.len() == MAX_POSITIONS,
        claim_rejection(pool, ledger, config, accounts, data, now) is None,
    ensures
        ({
            let index = first_active_position(ledger.positions, claim_pool_id(data), 0).unwrap();
            let split = claim_split(
                claimable_rewards(ledger.positions[index as int], pool, now),
                config.protocol_fee_rate,
            );
            let after = claim_ledger_after(ledger, index as int, split, now);
            &&& staked_in_pool(after.positions, pool_id) == staked_in_pool(
                ledger.positions,
                pool_id,
            )
            &&& ledger_consistent(ledger) ==> ledger_consistent(after)
            &&& claim_pool_after(pool, split.total_claimable, now).total_staked
                == pool.total_staked
        }),
{
    let index = first_active_position(ledger.positions, claim_pool_id(data), 0).unwrap();
    lemma_first_active_position(ledger.positions, claim_pool_id(data), 0);
    let claimed = claimed_position(ledger.positions[index as int], now);
    lemma_staked_in_pool_update(ledger.positions, index as int, claimed, pool_id);
    lemma_count_active_update(ledger.positions, index as int, claimed);
}

/// A claim of everything changes neither which positions are active nor
/// what they hold: the ledger stays consistent, and its stake in every pool
/// stays as it was.
pub proof fn lemma_claim_all_keeps_stake(
    ledger: UserStakeView,
    split: ClaimOutcome,
    now: i64,
    pool_id: u64,
)
    ensures
        staked_in_pool(claim_all_ledger_after(ledger, split, now).positions, pool_id)
            == staked_in_pool(ledger.positions, pool_id),
        ledger_consistent(ledger) ==> ledger_consistent(claim_all_ledger_after(ledger, split, now)),
{
    lemma_collection_keeps_pool_stake(ledger.positions, now, pool_id);
    lemma_collection_keeps_stake(ledger.positions, now);
}

/// Once the pending rewards have been paid out, none are left to collect.
pub proof fn lemma_nothing_left_to_collect(positions: Seq<StakePosition>, now: i64)
    ensures
        collected_pending(collected_positions(positions, now)) == 0,
    decreases positions.len(),
{
    if positions.len() > 0 {
        lemma_nothing_left_to_collect(positions.drop_last(), now);
        assert(collected_positions(positions, now).drop_last() =~= collected_positions(
            positions.drop_last(),
            now,
        ));
    }
}

/// A second claim of everything after a committed one finds nothing: it is
/// refused because the claimable amount is zero.
pub proof fn lemma_second_claim_all_finds_nothing(
    ledger: UserStakeView,
    config: GlobalConfig,
    accounts: ClaimAllAccounts,
    now: i64,
)
    requires
        claim_all_rejection(ledger, config, accounts) is None,
    ensures
        claim_all_rejection(
            claim_all_ledger_after(
                ledger,
                claim_split(claimable_in_all(ledger), config.protocol_fee_rate),
                now,
            ),
            config,
            accounts,
        ) == Some(StakingError::NothingToClaim),
{
    lemma_nothing_left_to_collect(ledger.positions, now);
}

/// The fee and the user's part of a claim add up to the claimed amount
/// exactly, as long as the fee rate is at most one whole.
pub proof fn lemma_claim_split_conserves(total_claimable: u64, fee_rate: u16)
    requires
        fee_rate <= BASIS_POINTS,
    ensures
        claim_split(total_claimable, fee_rate).user_rewards + claim_split(
            total_claimable,
            fee_rate,
        ).protocol_fee == total_claimable,
        claim_split(total_claimable, fee_rate).total_claimable == total_claimable,
{
    lemma_fee_split_is_exact(total_claimable, fee_rate);
}

/// A second claim at the time of a committed one finds nothing: it is
/// refused because the claimable amount is zero.
pub proof fn lemma_second_claim_finds_nothing(
    pool: StakingPool,
    ledger: UserStakeView,
    config: GlobalConfig,
    accounts: ClaimAccounts,
    again: ClaimAccounts,
    data: Seq<u8>,
    now: i64,
)
    requires
        ledger.positions.len() == MAX_POSITIONS,
        claim_rejection(pool, ledger, config, accounts, data, now) is None,
        again.user == accounts.user,
        again.user_is_signer == accounts.user_is_signer,
        again.global_config_account == accounts.global_config_account,
        again.global_config_pda == accounts.global_config_pda,
    ensures
        ({
            let index = first_active_position(ledger.positions, claim_pool_id(data), 0).unwrap();
            let position = ledger.positions[index as int];
            let split = claim_split(claimable_rewards(position, pool, now), config.protocol_fee_rate);
            let pool_after = claim_pool_after(pool, split.total_claimable, now);
            let ledger_after = claim_ledger_after(ledger, index as int, split, now);
            &&& claimable_rewards(ledger_after.positions[index as int], pool_after, now) == 0
            &&& claim_rejection(pool_after, ledger_after, config, again, data, now) == Some(
                StakingError::NothingToClaim,
            )
        }),
{
    let pool_id = claim_pool_id(data);
    let index = first_active_position(ledger.positions, pool_id, 0).unwrap();
    lemma_first_active_position(ledger.positions, pool_id, 0);
    let position = ledger.positions[index as int];
    let split = claim_split(claimable_rewards(position, pool, now), config.protocol_fee_rate);
    let ledger_after = claim_ledger_after(ledger, index as int, split, now);
    lemma_first_active_position(ledger_after.positions, pool_id, 0);
    let again_index = first_active_position(ledger_after.positions, pool_id, 0);
    assert(ledger_after.positions[index as int].is_active);
    assert(ledger_after.positions[index as int].pool_id == pool_id);
    assert forall|j: int| 0 <= j < index implies !(ledger_after.positions[j].is_active
        && ledger_after.positions[j].pool_id == pool_id) by {
        assert(ledger_after.positions[j] == ledger.positions[j]);
    }
    assert(again_index == Some(index));
}

} // verus!
