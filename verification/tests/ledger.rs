use staking_platform::error::StakingError;
use staking_platform::instructions::claim_rewards::add_claim_to_history;
use staking_platform::states::addresses;
use staking_platform::states::addresses::u64_to_le;
use staking_platform::states::helper::read_u64_le;
use staking_platform::states::staking_pool_account::PoolStatusEnum;
use staking_platform::states::staking_pool_account::SlashTypeEnum;
use staking_platform::states::user_stake_account::ClaimEvent;
use staking_platform::states::user_stake_account::PenaltyEvent;
use staking_platform::states::user_stake_account::PenaltyType;
use staking_platform::states::user_stake_account::StakePosition;
use staking_platform::states::user_stake_account::UserStakeAccount;
use staking_platform::states::user_stake_account::MAX_HISTORY;
use staking_platform::states::user_stake_account::MAX_POSITIONS;

fn new_ledger() -> UserStakeAccount {
    UserStakeAccount::new([1; 32], [2; 32], [3; 32], 42, 254)
}

fn position_in(pool_id: u64, staked: u64) -> StakePosition {
    let mut position = StakePosition::empty();
    position.pool_id = pool_id;
    position.staked_amount = staked;
    position.lst_tokens = staked;
    position
}

#[test]
fn new_ledger_is_empty() {
    let ledger = new_ledger();
    assert_eq!(ledger.owner, [1; 32]);
    assert_eq!(ledger.global_config, [2; 32]);
    assert_eq!(ledger.user_token_account, [3; 32]);
    assert_eq!(ledger.creation_timestamp, 42);
    assert_eq!(ledger.bump, 254);
    assert_eq!(ledger.active_positions, 0);
    assert_eq!(ledger.total_staked_amount, 0);
    assert_eq!(ledger.total_lst_balance, 0);
    assert!(!ledger.is_paused);
    assert_eq!(ledger.positions.len(), MAX_POSITIONS);
    assert_eq!(ledger.claim_history.len(), MAX_HISTORY);
    assert_eq!(ledger.penalty_history.len(), MAX_HISTORY);
    for position in ledger.positions.iter() {
        assert!(!position.is_active);
        assert_eq!(position.staked_amount, 0);
        assert_eq!(position.lst_tokens, 0);
        assert_eq!(position.staking_pool, [0; 32]);
    }
    assert_eq!(ledger.find_free_slot(), Some(0));
    assert_eq!(ledger.find_active_position(0), None);
}

#[test]
fn open_position_takes_the_first_free_slot() {
    let mut ledger = new_ledger();
    assert_eq!(ledger.open_position(position_in(5, 10)), Ok(0));
    assert_eq!(ledger.open_position(position_in(6, 20)), Ok(1));
    assert_eq!(ledger.open_position(position_in(7, 30)), Ok(2));
    assert_eq!(ledger.active_positions, 3);
    assert!(ledger.positions[1].is_active);
    assert_eq!(ledger.positions[1].pool_id, 6);
    assert_eq!(ledger.positions[1].staked_amount, 20);
    assert_eq!(ledger.find_active_position(6), Some(1));
    assert_eq!(ledger.find_active_position(8), None);
    assert_eq!(ledger.find_free_slot(), Some(3));

    ledger.close_position(1);
    assert!(!ledger.positions[1].is_active);
    assert_eq!(ledger.positions[1].pool_id, 6);
    assert_eq!(ledger.active_positions, 2);
    assert_eq!(ledger.find_active_position(6), None);
    assert_eq!(ledger.find_free_slot(), Some(1));
    assert_eq!(ledger.open_position(position_in(9, 1)), Ok(1));
    assert_eq!(ledger.find_active_position(9), Some(1));
    assert_eq!(ledger.active_positions, 3);
}

#[test]
fn open_position_refuses_a_full_ledger() {
    let mut ledger = new_ledger();
    for i in 0..MAX_POSITIONS {
        assert_eq!(ledger.open_position(position_in(i as u64, 1)), Ok(i));
    }
    assert_eq!(ledger.active_positions, 10);
    assert_eq!(ledger.find_free_slot(), None);
    assert_eq!(
        ledger.open_position(position_in(99, 1)),
        Err(StakingError::PositionCapacityExceeded)
    );
    assert_eq!(ledger.active_positions, 10);
    assert_eq!(ledger.find_active_position(99), None);
    ledger.close_position(9);
    assert_eq!(ledger.open_position(position_in(99, 1)), Ok(9));
    assert_eq!(
        ledger.open_position(position_in(100, 1)),
        Err(StakingError::PositionCapacityExceeded)
    );
}

#[test]
fn find_active_position_returns_the_first_match() {
    let mut ledger = new_ledger();
    ledger.open_position(position_in(5, 10)).unwrap();
    ledger.open_position(position_in(5, 20)).unwrap();
    assert_eq!(ledger.find_active_position(5), Some(0));
    ledger.close_position(0);
    assert_eq!(ledger.find_active_position(5), Some(1));
}

#[test]
fn claim_history_drops_the_oldest_entry() {
    let mut ledger = new_ledger();
    for i in 1..=12u64 {
        ledger.push_claim_history(ClaimEvent { amount: i, timestamp: 100 + i as i64 });
    }
    let amounts: Vec<u64> = ledger.claim_history.iter().map(|e| e.amount).collect();
    assert_eq!(amounts, vec![3, 4, 5, 6, 7, 8, 9, 10, 11, 12]);
    let times: Vec<i64> = ledger.claim_history.iter().map(|e| e.timestamp).collect();
    assert_eq!(times, vec![103, 104, 105, 106, 107, 108, 109, 110, 111, 112]);
    add_claim_to_history(&mut ledger, 13, 113);
    assert_eq!(ledger.claim_history[0].amount, 4);
    assert_eq!(ledger.claim_history[9].amount, 13);
    assert_eq!(ledger.claim_history[9].timestamp, 113);
    assert_eq!(ledger.active_positions, 0);
}

#[test]
fn first_claim_goes_to_the_last_index() {
    let mut ledger = new_ledger();
    ledger.push_claim_history(ClaimEvent { amount: 7, timestamp: 1 });
    assert_eq!(ledger.claim_history[9].amount, 7);
    for i in 0..9 {
        assert_eq!(ledger.claim_history[i].amount, 0);
    }
    ledger.push_claim_history(ClaimEvent { amount: 8, timestamp: 2 });
    assert_eq!(ledger.claim_history[8].amount, 7);
    assert_eq!(ledger.claim_history[9].amount, 8);
}

#[test]
fn penalty_history_drops_the_oldest_entry() {
    let mut ledger = new_ledger();
    for i in 1..=11u64 {
        let mut event = PenaltyEvent::empty();
        event.penalty_id = i;
        event.amount = i * 10;
        ledger.push_penalty_history(event);
    }
    let ids: Vec<u64> = ledger.penalty_history.iter().map(|e| e.penalty_id).collect();
    assert_eq!(ids, vec![2, 3, 4, 5, 6, 7, 8, 9, 10, 11]);
    assert_eq!(ledger.penalty_history[9].amount, 110);
    assert_eq!(ledger.claim_history[9].amount, 0);
}

#[test]
fn pool_status_ordinals() {
    assert_eq!(PoolStatusEnum::try_from(&0), Ok(PoolStatusEnum::Active));
    assert_eq!(PoolStatusEnum::try_from(&1), Ok(PoolStatusEnum::Paused));
    assert_eq!(PoolStatusEnum::try_from(&2), Ok(PoolStatusEnum::Deprecated));
    assert_eq!(PoolStatusEnum::try_from(&3), Ok(PoolStatusEnum::Emergency));
    assert_eq!(PoolStatusEnum::try_from(&4), Err(StakingError::InvalidAccountData));
    assert_eq!(PoolStatusEnum::try_from(&255), Err(StakingError::InvalidAccountData));
    assert_eq!(PoolStatusEnum::Active.ordinal(), 0);
    assert_eq!(PoolStatusEnum::Paused.ordinal(), 1);
    assert_eq!(PoolStatusEnum::Deprecated.ordinal(), 2);
    assert_eq!(PoolStatusEnum::Emergency.ordinal(), 3);
}

#[test]
fn slash_type_ordinals() {
    assert_eq!(SlashTypeEnum::try_from(&0), Ok(SlashTypeEnum::DownTime));
    assert_eq!(SlashTypeEnum::try_from(&1), Ok(SlashTypeEnum::DoubleSign));
    assert_eq!(SlashTypeEnum::try_from(&2), Ok(SlashTypeEnum::InvalidAttestation));
    assert_eq!(SlashTypeEnum::try_from(&3), Ok(SlashTypeEnum::Censorship));
    assert_eq!(SlashTypeEnum::try_from(&4), Ok(SlashTypeEnum::Custom));
    assert_eq!(SlashTypeEnum::try_from(&5), Err(StakingError::InvalidAccountData));
}

#[test]
fn penalty_type_ordinals() {
    assert_eq!(PenaltyType::try_from(&0), Ok(PenaltyType::Slashing));
    assert_eq!(PenaltyType::try_from(&1), Ok(PenaltyType::EarlyUnstake));
    assert_eq!(PenaltyType::try_from(&2), Ok(PenaltyType::ValidatorMisbehavior));
    assert_eq!(PenaltyType::try_from(&3), Ok(PenaltyType::Inactivity));
    assert_eq!(PenaltyType::try_from(&4), Err(StakingError::InvalidAccountData));
}

#[test]
fn domain_errors_have_codes() {
    assert_eq!(StakingError::PositionNotFound.custom_code(), Some(1002));
    assert_eq!(StakingError::NoEmergencyCondition.custom_code(), Some(2001));
    assert_eq!(StakingError::NothingToWithdraw.custom_code(), Some(2002));
    assert_eq!(StakingError::NothingToClaim.custom_code(), Some(3001));
    assert_eq!(StakingError::InsufficientVaultBalance.custom_code(), Some(3002));
    assert_eq!(StakingError::UserPaused.custom_code(), Some(4001));
    assert_eq!(StakingError::GlobalEmergencyPaused.custom_code(), Some(4002));
    assert_eq!(StakingError::PoolEmergencyPaused.custom_code(), Some(4003));
    assert_eq!(StakingError::AutoCompoundDisabled.custom_code(), Some(5001));
    assert_eq!(StakingError::BelowMinimumCompound.custom_code(), Some(5002));
    assert_eq!(StakingError::IntervalNotElapsed.custom_code(), Some(5004));
    assert_eq!(StakingError::UnsupportedCrossAssetCompound.custom_code(), Some(5005));
    assert_eq!(StakingError::InvalidArgument.custom_code(), None);
    assert_eq!(StakingError::PositionCapacityExceeded.custom_code(), None);
}

#[test]
fn address_seeds_follow_the_scheme() {
    let a = [0xAAu8; 32];
    let b = [0xBBu8; 32];
    assert_eq!(
        addresses::global_config_seeds(&a),
        vec![b"global_config_account".to_vec(), a.to_vec()]
    );
    assert_eq!(
        addresses::staking_pool_seeds(&a, 0x0102_0304_0506_0708),
        vec![b"staking_pool".to_vec(), a.to_vec(), vec![8, 7, 6, 5, 4, 3, 2, 1]]
    );
    assert_eq!(
        addresses::stake_vault_seeds(&a, &b),
        vec![b"stake_token_vault".to_vec(), a.to_vec(), b.to_vec()]
    );
    assert_eq!(
        addresses::reward_vault_seeds(&a, &b),
        vec![b"reward_token_vault".to_vec(), a.to_vec(), b.to_vec()]
    );
    assert_eq!(
        addresses::liquid_stake_mint_seeds(&a),
        vec![b"liquid_stake_mint".to_vec(), a.to_vec()]
    );
    assert_eq!(
        addresses::user_stake_seeds(&a, &b),
        vec![b"user_stake_account".to_vec(), a.to_vec(), b.to_vec()]
    );
    assert_eq!(
        addresses::treasury_seeds(&a, &b),
        vec![b"treasury_account".to_vec(), a.to_vec(), b.to_vec()]
    );
    assert_eq!(
        addresses::oracle_config_seeds(&b),
        vec![b"oracle_config_account".to_vec(), b.to_vec()]
    );
}

#[test]
fn numbers_are_encoded_least_significant_byte_first() {
    for x in [0u64, 1, 255, 256, 0x0102_0304_0506_0708, u64::MAX, u64::MAX - 1, 1 << 63] {
        assert_eq!(u64_to_le(x), x.to_le_bytes().to_vec());
        assert_eq!(read_u64_le(&u64_to_le(x), 0), x);
    }
    assert_eq!(staking_platform::states::addresses::key_bytes(&[7u8; 32]), vec![7u8; 32]);
}
