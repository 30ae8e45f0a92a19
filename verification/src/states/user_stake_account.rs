use vstd::prelude::*;
use crate::error::StakingError;
use crate::states::helper::zero_key;
use crate::states::helper::Pubkey;

verus! {

/// The number of position slots of a ledger.
pub const MAX_POSITIONS: usize = 10;

/// The number of entries that each history of a ledger keeps.
pub const MAX_HISTORY: usize = 10;

/// One user's stake in one pool. A slot is never removed: it is switched off
/// and used again.
#[derive(Clone, Copy, Debug)]
pub struct StakePosition {
    pub pool_id: u64,
    pub staking_pool: Pubkey,
    pub lst_token_account: Pubkey,
    pub staked_amount: u64,
    pub lst_tokens: u64,
    pub last_reward_update: i64,
    pub pending_rewards: u64,
    pub stake_timestamp: i64,
    pub lock_exipry_enable: bool,
    pub lock_expiry: i64,
    pub auto_compound_enabled: bool,
    pub compound_frequency_hours: u32,
    pub min_compound_amount: u64,
    pub last_compound_timestamp: i64,
    pub compound_count: u32,
    pub is_active: bool,
    pub bump: u8,
}

/// One paid claim.
#[derive(Clone, Copy, Debug)]
pub struct ClaimEvent {
    pub amount: u64,
    pub timestamp: i64,
}

/// One penalty; kept for a slashing subsystem, no operation of this crate
/// fills it in.
#[derive(Clone, Copy, Debug)]
pub struct PenaltyEvent {
    /// The ordinal of a `PenaltyType`.
    pub penalty_type: u8,
    pub penalty_id: u64,
    pub amount: u64,
    pub timestamp: i64,
    pub grace_period_end: i64,
    pub is_resolved: bool,
    pub resolution_timestamp: i64,
    pub pool_id: u64,
    pub user: Pubkey,
    pub validator: Pubkey,
    pub original_stake_amount: u64,
    pub recovery_period: u32,
}

/// Why a penalty was raised.
#[derive(Clone, Copy, Debug, PartialEq, Eq, Structural)]
pub enum PenaltyType {
    Slashing,
    EarlyUnstake,
    ValidatorMisbehavior,
    Inactivity,
}

impl PenaltyType {
    /// The kind with the given ordinal, if there is one.
    pub open spec fn spec_from_ordinal(value: u8) -> Option<PenaltyType> {
        if value == 0 {
            Some(PenaltyType::Slashing)
        } else if value == 1 {
            Some(PenaltyType::EarlyUnstake)
        } else if value == 2 {
            Some(PenaltyType::ValidatorMisbehavior)
        } else if value == 3 {
            Some(PenaltyType::Inactivity)
        } else {
            None
        }
    }

    /// Decodes a stored ordinal; an unknown one is refused.
    pub fn try_from(value: &u8) -> (result: Result<PenaltyType, StakingError>)
        ensures
            match Self::spec_from_ordinal(*value) {
                Some(kind) => result == Ok::<PenaltyType, StakingError>(kind),
                None => result == Err::<PenaltyType, StakingError>(
                    StakingError::InvalidAccountData,
                ),
            },
    {
        match *value {
            0 => Ok(PenaltyType::Slashing),
            1 => Ok(PenaltyType::EarlyUnstake),
            2 => Ok(PenaltyType::ValidatorMisbehavior),
            3 => Ok(PenaltyType::Inactivity),
            _ => Err(StakingError::InvalidAccountData),
        }
    }
}

/// One user's ledger: the positions, the running totals and the histories.
#[derive(Clone, Debug)]
pub struct UserStakeAccount {
    pub owner: Pubkey,
    pub global_config: Pubkey,
    pub user_token_account: Pubkey,
    pub total_lst_balance: u64,
    pub total_staked_amount: u64,
    pub total_pending_rewards: u64,
    pub creation_timestamp: i64,
    pub active_positions: u8,
    pub is_paused: bool,
    pub positions: [StakePosition; MAX_POSITIONS],
    pub total_earned: u64,
    pub total_claimed: u64,
    pub pending_rewards: u64,
    pub last_claim_timestamp: i64,
    pub last_update_timestamp: i64,
    pub claim_history: [ClaimEvent; MAX_HISTORY],
    pub total_penalties: u64,
    pub active_penalties: u64,
    pub penalty_type_count: u8,
    pub penalty_history: [PenaltyEvent; MAX_HISTORY],
    pub bump: u8,
}

/// A ledger as a mathematical value: the three arrays as sequences.
pub struct UserStakeView {
    pub owner: Pubkey,
    pub global_config: Pubkey,
    pub user_token_account: Pubkey,
    pub total_lst_balance: u64,
    pub total_staked_amount: u64,
    pub total_pending_rewards: u64,
    pub creation_timestamp: i64,
    pub active_positions: u8,
    pub is_paused: bool,
    pub positions: Seq<StakePosition>,
    pub total_earned: u64,
    pub total_claimed: u64,
    pub pending_rewards: u64,
    pub last_claim_timestamp: i64,
    pub last_update_timestamp: i64,
    pub claim_history: Seq<ClaimEvent>,
    pub total_penalties: u64,
    pub active_penalties: u64,
    pub penalty_type_count: u8,
    pub penalty_history: Seq<PenaltyEvent>,
    pub bump: u8,
}

impl View for UserStakeAccount {
    type V = UserStakeView;

    open spec fn view(&self) -> UserStakeView {
        UserStakeView {
            owner: self.owner,
            global_config: self.global_config,
            user_token_account: self.user_token_account,
            total_lst_balance: self.total_lst_balance,
            total_staked_amount: self.total_staked_amount,
            total_pending_rewards: self.total_pending_rewards,
            creation_timestamp: self.creation_timestamp,
            active_positions: self.active_positions,
            is_paused: self.is_paused,
            positions: self.positions@,
            total_earned: self.total_earned,
            total_claimed: self.total_claimed,
            pending_rewards: self.pending_rewards,
            last_claim_timestamp: self.last_claim_timestamp,
            last_update_timestamp: self.last_update_timestamp,
            claim_history: self.claim_history@,
            total_penalties: self.total_penalties,
            active_penalties: self.active_penalties,
            penalty_type_count: self.penalty_type_count,
            penalty_history: self.penalty_history@,
            bump: self.bump,
        }
    }
}

/// The zeroed, inactive position.
pub open spec fn empty_position() -> StakePosition {
    StakePosition {
        pool_id: 0,
        staking_pool: zero_key(),
        lst_token_account: zero_key(),
        staked_amount: 0,
        lst_tokens: 0,
        last_reward_update: 0,
        pending_rewards: 0,
        stake_timestamp: 0,
        lock_exipry_enable: false,
        lock_expiry: 0,
        auto_compound_enabled: false,
        compound_frequency_hours: 0,
        min_compound_amount: 0,
        last_compound_timestamp: 0,
        compound_count: 0,
        is_active: false,
        bump: 0,
    }
}

/// The zeroed entry of the claim history.
pub open spec fn empty_claim() -> ClaimEvent {
    ClaimEvent { amount: 0, timestamp: 0 }
}

/// The zeroed entry of the penalty history.
pub open spec fn empty_penalty() -> PenaltyEvent {
    PenaltyEvent {
        penalty_type: 0,
        penalty_id: 0,
        amount: 0,
        timestamp: 0,
        grace_period_end: 0,
        is_resolved: false,
        resolution_timestamp: 0,
        pool_id: 0,
        user: zero_key(),
        validator: zero_key(),
        original_stake_amount: 0,
        recovery_period: 0,
    }
}

/// A ledger as it is created: no position is active, every total is zero,
/// both histories are empty.
pub open spec fn new_ledger(
    owner: Pubkey,
    global_config: Pubkey,
    user_token_account: Pubkey,
    creation_timestamp: i64,
    bump: u8,
) -> UserStakeView {
    UserStakeView {
        owner,
        global_config,
        user_token_account,
        total_lst_balance: 0,
        total_staked_amount: 0,
        total_pending_rewards: 0,
        creation_timestamp,
        active_positions: 0,
        is_paused: false,
        positions: Seq::new(MAX_POSITIONS as nat, |i: int| empty_position()),
        total_earned: 0,
        total_claimed: 0,
        pending_rewards: 0,
        last_claim_timestamp: 0,
        last_update_timestamp: 0,
        claim_history: Seq::new(MAX_HISTORY as nat, |i: int| empty_claim()),
        total_penalties: 0,
        active_penalties: 0,
        penalty_type_count: 0,
        penalty_history: Seq::new(MAX_HISTORY as nat, |i: int| empty_penalty()),
        bump,
    }
}

/// Whether the position is an active one of the pool `pool_id`.
pub open spec fn is_active_in(position: StakePosition, pool_id: u64) -> bool {
    position.is_active && position.pool_id == pool_id
}

/// The first index from `from` on that holds an active position of the pool.
pub open spec fn first_active_position(positions: Seq<StakePosition>, pool_id: u64, from: int) -> Option<
    usize,
>
    decreases positions.len() - from,
{
    if from < 0 || from >= positions.len() {
        None
    } else if is_active_in(positions[from], pool_id) {
        Some(from as usize)
    } else {
        first_active_position(positions, pool_id, from + 1)
    }
}

/// The first index from `from` on that holds an inactive position.
pub open spec fn first_free_slot(positions: Seq<StakePosition>, from: int) -> Option<usize>
    decreases positions.len() - from,
{
    if from < 0 || from >= positions.len() {
        None
    } else if !positions[from].is_active {
        Some(from as usize)
    } else {
        first_free_slot(positions, from + 1)
    }
}

/// The number of active positions.
pub open spec fn count_active(positions: Seq<StakePosition>) -> nat
    decreases positions.len(),
{
    if positions.len() == 0 {
        0
    } else {
        count_active(positions.drop_last()) + if positions.last().is_active {
            1nat
        } else {
            0nat
        }
    }
}

/// What one position adds to the stake of the pool `pool_id`.
pub open spec fn stake_in_pool(position: StakePosition, pool_id: u64) -> nat {
    if is_active_in(position, pool_id) {
        position.staked_amount as nat
    } else {
        0
    }
}

/// The stake that the active positions hold in the pool `pool_id`.
pub open spec fn staked_in_pool(positions: Seq<StakePosition>, pool_id: u64) -> nat
    decreases positions.len(),
{
    if positions.len() == 0 {
        0
    } else {
        staked_in_pool(positions.drop_last(), pool_id) + stake_in_pool(positions.last(), pool_id)
    }
}

/// What one position adds to the stake of its ledger.
pub open spec fn active_stake(position: StakePosition) -> nat {
    if position.is_active {
        position.staked_amount as nat
    } else {
        0
    }
}

/// The stake that the active positions hold in all pools together.
pub open spec fn total_active_stake(positions: Seq<StakePosition>) -> nat
    decreases positions.len(),
{
    if positions.len() == 0 {
        0
    } else {
        total_active_stake(positions.drop_last()) + active_stake(positions.last())
    }
}

/// Every position is backed one to one: it holds as many derivative tokens
/// as staked units.
pub open spec fn positions_backed(positions: Seq<StakePosition>) -> bool {
    forall|i: int|
        0 <= i < positions.len() ==> (#[trigger] positions[i]).lst_tokens
            == positions[i].staked_amount
}

/// The counter of active positions says how many positions are active, and
/// every position is backed one to one.
pub open spec fn ledger_consistent(ledger: UserStakeView) -> bool {
    &&& ledger.positions.len() == MAX_POSITIONS
    &&& ledger.active_positions == count_active(ledger.positions)
    &&& positions_backed(ledger.positions)
}

/// The running totals of stake and derivative tokens are the sums over the
/// active positions.
pub open spec fn totals_match(ledger: UserStakeView) -> bool {
    &&& ledger.total_staked_amount == total_active_stake(ledger.positions)
    &&& ledger.total_lst_balance == total_active_stake(ledger.positions)
}

/// A history after `event` was pushed: the oldest entry is gone, the others
/// have moved down by one, and `event` is the last.
pub open spec fn shifted_history<T>(history: Seq<T>, event: T) -> Seq<T> {
    history.subrange(1, history.len() as int).push(event)
}

/// The ledger after `position` was switched on in the slot `index`.
pub open spec fn ledger_after_open(ledger: UserStakeView, index: int, position: StakePosition) -> UserStakeView {
    UserStakeView {
        positions: ledger.positions.update(index, StakePosition { is_active: true, ..position }),
        active_positions: if ledger.active_positions == u8::MAX {
            u8::MAX
        } else {
            (ledger.active_positions + 1) as u8
        },
        ..ledger
    }
}

/// The ledger after the slot `index` was switched off.
pub open spec fn ledger_after_close(ledger: UserStakeView, index: int) -> UserStakeView {
    UserStakeView {
        positions: ledger.positions.update(
            index,
            StakePosition { is_active: false, ..ledger.positions[index] },
        ),
        active_positions: if ledger.active_positions == 0 {
            0u8
        } else {
            (ledger.active_positions - 1) as u8
        },
        ..ledger
    }
}

impl StakePosition {
    /// The zeroed, inactive position.
    pub fn empty() -> (position: StakePosition)
        ensures
            position == empty_position(),
    {
        StakePosition {
            pool_id: 0,
            staking_pool: [0u8; 32],
            lst_token_account: [0u8; 32],
            staked_amount: 0,
            lst_tokens: 0,
            last_reward_update: 0,
            pending_rewards: 0,
            stake_timestamp: 0,
            lock_exipry_enable: false,
            lock_expiry: 0,
            auto_compound_enabled: false,
            compound_frequency_hours: 0,
            min_compound_amount: 0,
            last_compound_timestamp: 0,
            compound_count: 0,
            is_active: false,
            bump: 0,
        }
    }
}

impl ClaimEvent {
    /// The zeroed entry.
    pub fn empty() -> (event: ClaimEvent)
        ensures
            event == empty_claim(),
    {
        ClaimEvent { amount: 0, timestamp: 0 }
    }
}

impl PenaltyEvent {
    /// The zeroed entry.
    pub fn empty() -> (event: PenaltyEvent)
        ensures
            event == empty_penalty(),
    {
        PenaltyEvent {
            penalty_type: 0,
            penalty_id: 0,
            amount: 0,
            timestamp: 0,
            grace_period_end: 0,
            is_resolved: false,
            resolution_timestamp: 0,
            pool_id: 0,
            user: [0u8; 32],
            validator: [0u8; 32],
            original_stake_amount: 0,
            recovery_period: 0,
        }
    }
}

impl UserStakeAccount {
    /// A ledger as it is created: no position is active, every total is zero.
    pub fn new(
        owner: Pubkey,
        global_config: Pubkey,
        user_token_account: Pubkey,
        creation_timestamp: i64,
        bump: u8,
    ) -> (ledger: UserStakeAccount)
        ensures
            ledger@ == new_ledger(owner, global_config, user_token_account, creation_timestamp, bump),
            ledger_consistent(ledger@),
            totals_match(ledger@),
    {
        let ledger = UserStakeAccount {
            owner,
            global_config,
            user_token_account,
            total_lst_balance: 0,
            total_staked_amount: 0,
            total_pending_rewards: 0,
            creation_timestamp,
            active_positions: 0,
            is_paused: false,
            positions: [StakePosition::empty(); MAX_POSITIONS],
            total_earned: 0,
            total_claimed: 0,
            pending_rewards: 0,
            last_claim_timestamp: 0,
            last_update_timestamp: 0,
            claim_history: [ClaimEvent::empty(); MAX_HISTORY],
            total_penalties: 0,
            active_penalties: 0,
            penalty_type_count: 0,
            penalty_history: [PenaltyEvent::empty(); MAX_HISTORY],
            bump,
        };
        proof {
            lemma_all_inactive(ledger@.positions);
            let created = new_ledger(
                owner,
                global_config,
                user_token_account,
                creation_timestamp,
                bump,
            );
            assert(ledger@.positions =~= created.positions);
            assert(ledger@.claim_history =~= created.claim_history);
            assert(ledger@.penalty_history =~= created.penalty_history);
        }
        ledger
    }

    /// The first active position of the pool `pool_id`.
    pub fn find_active_position(&self, pool_id: u64) -> (found: Option<usize>)
        ensures
            found == first_active_position(self@.positions, pool_id, 0),
            match found {
                Some(index) => index < MAX_POSITIONS && is_active_in(
                    self@.positions[index as int],
                    pool_id,
                ) && forall|j: int| 0 <= j < index ==> !is_active_in(self@.positions[j], pool_id),
                None => forall|j: int|
                    0 <= j < MAX_POSITIONS ==> !is_active_in(self@.positions[j], pool_id),
            },
    {
        let mut i: usize = 0;
        while i < MAX_POSITIONS
            invariant
                i <= MAX_POSITIONS,
                first_active_position(self@.positions, pool_id, 0) == first_active_position(
                    self@.positions,
                    pool_id,
                    i as int,
                ),
                forall|j: int| 0 <= j < i ==> !is_active_in(self@.positions[j], pool_id),
            decreases MAX_POSITIONS - i,
        {
            if self.positions[i].is_active && self.positions[i].pool_id == pool_id {
                return Some(i);
            }
            i += 1;
        }
        None
    }

    /// The first inactive slot.
    pub fn find_free_slot(&self) -> (found: Option<usize>)
        ensures
            found == first_free_slot(self@.positions, 0),
            match found {
                Some(index) => index < MAX_POSITIONS && !self@.positions[index as int].is_active
                    && forall|j: int| 0 <= j < index ==> self@.positions[j].is_active,
                None => forall|j: int| 0 <= j < MAX_POSITIONS ==> self@.positions[j].is_active,
            },
    {
        let mut i: usize = 0;
        while i < MAX_POSITIONS
            invariant
                i <= MAX_POSITIONS,
                first_free_slot(self@.positions, 0) == first_free_slot(self@.positions, i as int),
                forall|j: int| 0 <= j < i ==> self@.positions[j].is_active,
            decreases MAX_POSITIONS - i,
        {
            if !self.positions[i].is_active {
                return Some(i);
            }
            i += 1;
        }
        None
    }

    /// Switches `position` on in the first inactive slot and returns the
    /// slot; refuses where every slot is active.
    pub fn open_position(&mut self, position: StakePosition) -> (result: Result<
        usize,
        StakingError,
    >)
        ensures
            match first_free_slot(old(self)@.positions, 0) {
                Some(index) => result == Ok::<usize, StakingError>(index) && index
                    < MAX_POSITIONS && final(self)@ == ledger_after_open(
                    old(self)@,
                    index as int,
                    position,
                ),
                None => result == Err::<usize, StakingError>(
                    StakingError::PositionCapacityExceeded,
                ) && *final(self) == *old(self),
            },
            ledger_consistent(old(self)@) && position.lst_tokens == position.staked_amount
                ==> ledger_consistent(final(self)@),
    {
        match self.find_free_slot() {
            None => Err(StakingError::PositionCapacityExceeded),
            Some(index) => {
                let mut opened: StakePosition = position;
                opened.is_active = true;
                proof {
                    lemma_count_active_update(self@.positions, index as int, opened);
                    lemma_count_active_bound(self@.positions);
                }
                self.positions[index] = opened;
                self.active_positions = self.active_positions.saturating_add(1);
                Ok(index)
            },
        }
    }

    /// Switches the slot `index` off; it can be opened again.
    pub fn close_position(&mut self, index: usize)
        requires
            index < MAX_POSITIONS,
        ensures
            final(self)@ == ledger_after_close(old(self)@, index as int),
            ledger_consistent(old(self)@) && old(self)@.positions[index as int].is_active
                ==> ledger_consistent(final(self)@),
    {
        let mut closed: StakePosition = self.positions[index];
        closed.is_active = false;
        proof {
            lemma_count_active_update(self@.positions, index as int, closed);
            lemma_count_active_bound(self@.positions);
        }
        self.positions[index] = closed;
        self.active_positions = self.active_positions.saturating_sub(1);
    }

    /// Records a claim: the oldest entry is dropped, the others move down by
    /// one, and `event` becomes the last.
    pub fn push_claim_history(&mut self, event: ClaimEvent)
        ensures
            final(self)@ == (UserStakeView {
                claim_history: shifted_history(old(self)@.claim_history, event),
                ..old(self)@
            }),
    {
        let mut i: usize = 1;
        while i < MAX_HISTORY
            invariant
                1 <= i <= MAX_HISTORY,
                self@ == (UserStakeView { claim_history: self@.claim_history, ..old(self)@ }),
                forall|j: int|
                    0 <= j < i - 1 ==> self@.claim_history[j] == old(self)@.claim_history[j + 1],
                forall|j: int|
                    i - 1 <= j < MAX_HISTORY ==> self@.claim_history[j] == old(
                        self,
                    )@.claim_history[j],
            decreases MAX_HISTORY - i,
        {
            self.claim_history[i - 1] = self.claim_history[i];
            i += 1;
        }
        self.claim_history[MAX_HISTORY - 1] = event;
        assert(self@.claim_history =~= shifted_history(old(self)@.claim_history, event));
    }

    /// Records a penalty: the oldest entry is dropped, the others move down
    /// by one, and `event` becomes the last.
    pub fn push_penalty_history(&mut self, event: PenaltyEvent)
        ensures
            final(self)@ == (UserStakeView {
                penalty_history: shifted_history(old(self)@.penalty_history, event),
                ..old(self)@
            }),
    {
        let mut i: usize = 1;
        while i < MAX_HISTORY
            invariant
                1 <= i <= MAX_HISTORY,
                self@ == (UserStakeView { penalty_history: self@.penalty_history, ..old(self)@ }),
                forall|j: int|
                    0 <= j < i - 1 ==> self@.penalty_history[j] == old(self)@.penalty_history[j
                        + 1],
                forall|j: int|
                    i - 1 <= j < MAX_HISTORY ==> self@.penalty_history[j] == old(
                        self,
                    )@.penalty_history[j],
            decreases MAX_HISTORY - i,
        {
            self.penalty_history[i - 1] = self.penalty_history[i];
            i += 1;
        }
        self.penalty_history[MAX_HISTORY - 1] = event;
        assert(self@.penalty_history =~= shifted_history(old(self)@.penalty_history, event));
    }
}

/// Where no position is active, the count and both sums are zero.
pub proof fn lemma_all_inactive(positions: Seq<StakePosition>)
    requires
        forall|i: int| 0 <= i < positions.len() ==> !positions[i].is_active,
    ensures
        count_active(positions) == 0,
        total_active_stake(positions) == 0,
        forall|pool_id: u64| staked_in_pool(positions, pool_id) == 0,
    decreases positions.len(),
{
    if positions.len() > 0 {
        lemma_all_inactive(positions.drop_last());
        assert forall|pool_id: u64| staked_in_pool(positions, pool_id) == 0 by {
            assert(staked_in_pool(positions.drop_last(), pool_id) == 0);
        }
    } else {
        assert forall|pool_id: u64| staked_in_pool(positions, pool_id) == 0 by {}
    }
}

/// No more positions are active than there are slots.
pub proof fn lemma_count_active_bound(positions: Seq<StakePosition>)
    ensures
        count_active(positions) <= positions.len(),
    decreases positions.len(),
{
    if positions.len() > 0 {
        lemma_count_active_bound(positions.drop_last());
    }
}

/// Replacing one position changes the count of active ones by what the old
/// and the new position add to it.
pub proof fn lemma_count_active_update(
    positions: Seq<StakePosition>,
    index: int,
    position: StakePosition,
)
    requires
        0 <= index < positions.len(),
    ensures
        count_active(positions.update(index, position)) + (if positions[index].is_active {
            1int
        } else {
            0int
        }) == count_active(positions) + (if position.is_active {
            1int
        } else {
            0int
        }),
    decreases positions.len(),
{
    let updated = positions.update(index, position);
    if index == positions.len() - 1 {
        assert(updated.drop_last() =~= positions.drop_last());
    } else {
        lemma_count_active_update(positions.drop_last(), index, position);
        assert(updated.drop_last() =~= positions.drop_last().update(index, position));
    }
}

/// Replacing one position changes the stake in a pool by what the old and
/// the new position add to it.
pub proof fn lemma_staked_in_pool_update(
    positions: Seq<StakePosition>,
    index: int,
    position: StakePosition,
    pool_id: u64,
)
    requires
        0 <= index < positions.len(),
    ensures
        staked_in_pool(positions.update(index, position), pool_id) + stake_in_pool(
            positions[index],
            pool_id,
        ) == staked_in_pool(positions, pool_id) + stake_in_pool(position, pool_id),
        stake_in_pool(positions[index], pool_id) <= staked_in_pool(positions, pool_id),
    decreases positions.len(),
{
    let updated = positions.update(index, position);
    if index == positions.len() - 1 {
        assert(updated.drop_last() =~= positions.drop_last());
    } else {
        lemma_staked_in_pool_update(positions.drop_last(), index, position, pool_id);
        assert(updated.drop_last() =~= positions.drop_last().update(index, position));
    }
}

/// Replacing one position changes the stake of the ledger by what the old
/// and the new position add to it.
pub proof fn lemma_total_active_stake_update(
    positions: Seq<StakePosition>,
    index: int,
    position: StakePosition,
)
    requires
        0 <= index < positions.len(),
    ensures
        total_active_stake(positions.update(index, position)) + active_stake(positions[index])
            == total_active_stake(positions) + active_stake(position),
        active_stake(positions[index]) <= total_active_stake(positions),
    decreases positions.len(),
{
    let updated = positions.update(index, position);
    if index == positions.len() - 1 {
        assert(updated.drop_last() =~= positions.drop_last());
    } else {
        lemma_total_active_stake_update(positions.drop_last(), index, position);
        assert(updated.drop_last() =~= positions.drop_last().update(index, position));
    }
}

/// What a search for an active position of a pool finds is an index of the
/// ledger that holds one, and the first such from `from` on.
pub proof fn lemma_first_active_position(positions: Seq<StakePosition>, pool_id: u64, from: int)
    requires
        0 <= from,
        positions.len() <= usize::MAX,
    ensures
        match first_active_position(positions, pool_id, from) {
            Some(index) => from <= index < positions.len() && positions[index as int].is_active
                && positions[index as int].pool_id == pool_id && forall|j: int|
                from <= j < index ==> !(positions[j].is_active && positions[j].pool_id == pool_id),
            None => forall|j: int|
                from <= j < positions.len() ==> !(positions[j].is_active && positions[j].pool_id
                    == pool_id),
        },
    decreases positions.len() - from,
{
    if from < positions.len() {
        lemma_first_active_position(positions, pool_id, from + 1);
    }
}

/// Every slot is active exactly when as many positions are active as there
/// are slots.
pub proof fn lemma_full_iff_all_active(positions: Seq<StakePosition>)
    ensures
        count_active(positions) == positions.len() <==> (forall|i: int|
            0 <= i < positions.len() ==> positions[i].is_active),
    decreases positions.len(),
{
    if positions.len() > 0 {
        let front = positions.drop_last();
        lemma_full_iff_all_active(front);
        lemma_count_active_bound(front);
        if count_active(positions) == positions.len() {
            assert forall|i: int| 0 <= i < positions.len() implies positions[i].is_active by {
                if i < front.len() {
                    assert(front[i].is_active);
                }
            }
        }
        if forall|i: int| 0 <= i < positions.len() ==> positions[i].is_active {
            assert forall|i: int| 0 <= i < front.len() implies front[i].is_active by {
                assert(positions[i].is_active);
            }
        }
    }
}

/// A search for a free slot from `from` on fails exactly when every slot from
/// there on is active.
pub proof fn lemma_no_free_slot_iff_all_active(positions: Seq<StakePosition>, from: int)
    requires
        0 <= from,
        positions.len() <= usize::MAX,
    ensures
        first_free_slot(positions, from) is None <==> (forall|i: int|
            from <= i < positions.len() ==> positions[i].is_active),
        match first_free_slot(positions, from) {
            Some(index) => from <= index < positions.len() && !positions[index as int].is_active,
            None => true,
        },
    decreases positions.len() - from,
{
    if from < positions.len() {
        lemma_no_free_slot_iff_all_active(positions, from + 1);
    }
}

/// A ledger refuses a new position exactly when all of its slots are active:
/// with ten active positions there is no free slot, and as soon as one is
/// switched off there is one again.
pub proof fn lemma_capacity_boundary(positions: Seq<StakePosition>)
    requires
        positions.len() == MAX_POSITIONS,
    ensures
        first_free_slot(positions, 0) is None <==> count_active(positions) == MAX_POSITIONS,
{
    lemma_no_free_slot_iff_all_active(positions, 0);
    lemma_full_iff_all_active(positions);
}

} // verus!
