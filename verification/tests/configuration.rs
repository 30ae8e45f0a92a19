use staking_platform::error::StakingError;
use staking_platform::instructions::create_staking_pool::process_create_staking_pool;
use staking_platform::instructions::create_staking_pool::CreatePoolAccounts;
use staking_platform::instructions::fund_reward_vault::process_fund_reward_vault;
use staking_platform::instructions::fund_reward_vault::FundVaultAccounts;
use staking_platform::instructions::init_global_config::process_initialize_global_config;
use staking_platform::instructions::init_global_config::InitConfigAccounts;
use staking_platform::instructions::initi_user_stake_account::process_initialize_user_stake_account;
use staking_platform::instructions::initi_user_stake_account::InitUserStakeAccounts;
use staking_platform::instructions::oracle::get_oracle_price;
use staking_platform::instructions::oracle::process_init_oracle_config;
use staking_platform::instructions::oracle::process_update_price;
use staking_platform::instructions::oracle::OracleAccounts;
use staking_platform::instructions::pause_pool::process_pause_pool;
use staking_platform::instructions::pause_pool::PoolAuthorityAccounts;
use staking_platform::instructions::resume_pool::process_resume_pool;
use staking_platform::instructions::update_global_config::process_update_authority;
use staking_platform::instructions::update_global_config::process_update_protocol_fee;
use staking_platform::instructions::update_global_config::ConfigAuthorityAccounts;
use staking_platform::instructions::update_pool_config::apply_pool_update;
use staking_platform::instructions::update_pool_config::parse_pool_update;
use staking_platform::instructions::update_pool_config::process_update_pool_config;
use staking_platform::instructions::update_pool_config::PoolUpdateType;
use staking_platform::instructions::update_pool_config::UpdatePoolAccounts;
use staking_platform::instructions::StakingInstructions;
use staking_platform::instructions::TokenAccountData;
use staking_platform::process_instruction;
use staking_platform::states::global_config::GlobalConfig;
use staking_platform::states::staking_pool_account::StakingPool;

type Key = [u8; 32];

const AUTHORITY: Key = [3; 32];
const STRANGER: Key = [2; 32];
const STAKE_MINT: Key = [4; 32];
const REWARD_MINT: Key = [5; 32];
const CONFIG: Key = [7; 32];
const POOL_ACCOUNT: Key = [8; 32];
const FEED: Key = [20; 32];

fn test_pool() -> StakingPool {
    StakingPool::new(AUTHORITY, 7, 0, STAKE_MINT, REWARD_MINT, 5)
}

fn authority_accounts() -> PoolAuthorityAccounts {
    PoolAuthorityAccounts {
        authority: AUTHORITY,
        authority_is_signer: true,
        staking_pool_account: POOL_ACCOUNT,
        staking_pool_pda: POOL_ACCOUNT,
    }
}

fn update_accounts() -> UpdatePoolAccounts {
    UpdatePoolAccounts { authority: AUTHORITY, authority_is_signer: true, price_feed_account: FEED }
}

fn update(tag: u8, pool_id: u64, value: &[u8]) -> Vec<u8> {
    let mut data = vec![tag];
    data.extend_from_slice(&pool_id.to_le_bytes());
    data.extend_from_slice(value);
    data
}

fn init_accounts() -> InitConfigAccounts {
    InitConfigAccounts {
        authority: AUTHORITY,
        authority_is_signer: true,
        global_config_account: CONFIG,
        treasury_account: [13; 32],
        global_config_pda: CONFIG,
        global_config_bump: 250,
        treasury_pda: [13; 32],
        treasury_bump: 251,
        treasury_is_empty: true,
        global_config_is_empty: true,
    }
}

fn init_payload(fee: u16, min_stake: u64, max_pools: u32) -> Vec<u8> {
    let mut data = fee.to_le_bytes().to_vec();
    data.extend_from_slice(&min_stake.to_le_bytes());
    data.extend_from_slice(&max_pools.to_le_bytes());
    data
}

fn new_config() -> GlobalConfig {
    process_initialize_global_config(&init_accounts(), &init_payload(500, 1_000_000, 100)).unwrap()
}

fn create_accounts() -> CreatePoolAccounts {
    CreatePoolAccounts {
        authority: AUTHORITY,
        creator: [30; 32],
        creator_is_signer: true,
        stake_token_mint: STAKE_MINT,
        reward_token_mint: REWARD_MINT,
        stake_token_vault: [31; 32],
        reward_token_vault: [32; 32],
        staking_pool_account: POOL_ACCOUNT,
        liquid_stake_mint: [33; 32],
        price_feed_account: FEED,
        staking_pool_pda: POOL_ACCOUNT,
        staking_pool_bump: 249,
        stake_token_vault_pda: [31; 32],
        reward_token_vault_pda: [32; 32],
        liquid_stake_mint_pda: [33; 32],
    }
}

fn create_payload(multiplier: u16, slash: u16, max_stake: u64, min_stake: u64) -> Vec<u8> {
    let mut data = Vec::new();
    data.extend_from_slice(&77u64.to_le_bytes()); // pool id
    data.extend_from_slice(&1_000_000u64.to_le_bytes()); // reward rate
    data.push(1); // lock enabled
    data.extend_from_slice(&86_400i64.to_le_bytes()); // lock duration
    data.extend_from_slice(&multiplier.to_le_bytes());
    data.extend_from_slice(&250u64.to_le_bytes()); // early withdraw penalty
    data.push(0); // slashing enabled
    data.push(4); // slashing condition
    data.extend_from_slice(&slash.to_le_bytes());
    data.push(3); // evidence
    data.extend_from_slice(&(-5i64).to_le_bytes()); // cooldown
    data.extend_from_slice(&max_stake.to_le_bytes());
    data.extend_from_slice(&min_stake.to_le_bytes());
    data
}

fn oracle_accounts() -> OracleAccounts {
    OracleAccounts {
        oracle_authority: AUTHORITY,
        authority_is_signer: true,
        oracle_config_account: [40; 32],
        oracle_config_pda: [40; 32],
        oracle_config_bump: 200,
        price_feed_account: FEED,
        oracle_config_is_empty: true,
    }
}

#[test]
fn discriminators_select_the_operations() {
    let expected = [
        StakingInstructions::InitConfigAccount,
        StakingInstructions::UpdateAuthority,
        StakingInstructions::UpdateProtocolFee,
        StakingInstructions::CreateStakingPool,
        StakingInstructions::UpdatePoolConfig,
        StakingInstructions::InitOracleConfig,
        StakingInstructions::UpdateOraclePrice,
        StakingInstructions::GetOraclePrice,
        StakingInstructions::PausePool,
        StakingInstructions::ResumePool,
        StakingInstructions::DeprecatePool,
        StakingInstructions::InitUserStakeAccount,
        StakingInstructions::FundRewardVault,
    ];
    for (byte, instruction) in expected.iter().enumerate() {
        assert_eq!(StakingInstructions::try_from(&(byte as u8)), Ok(*instruction));
        assert_eq!(instruction.discriminator(), byte as u8);
    }
    assert_eq!(StakingInstructions::try_from(&13), Err(StakingError::InvalidInstructionData));
    assert_eq!(StakingInstructions::try_from(&255), Err(StakingError::InvalidInstructionData));
}

#[test]
fn instruction_data_is_split_after_the_discriminator() {
    let dispatch = process_instruction(&[8, 1, 2, 3]).unwrap();
    assert_eq!(dispatch.instruction, StakingInstructions::PausePool);
    assert_eq!(dispatch.payload_offset, 1);
    let bare = process_instruction(&[12]).unwrap();
    assert_eq!(bare.instruction, StakingInstructions::FundRewardVault);
    assert_eq!(process_instruction(&[]).err(), Some(StakingError::InvalidInstructionData));
    assert_eq!(process_instruction(&[13, 0]).err(), Some(StakingError::InvalidInstructionData));
}

#[test]
fn pause_and_resume_follow_the_lifecycle() {
    let mut pool = test_pool();
    let data = 7u64.to_le_bytes();
    assert_eq!(process_resume_pool(&mut pool, &authority_accounts(), &data), Ok(()));
    assert_eq!(pool.pool_status, 0);
    assert_eq!(process_pause_pool(&mut pool, &authority_accounts(), &data), Ok(()));
    assert_eq!(pool.pool_status, 1);
    assert_eq!(process_pause_pool(&mut pool, &authority_accounts(), &data), Ok(()));
    assert_eq!(pool.pool_status, 1);
    assert_eq!(process_resume_pool(&mut pool, &authority_accounts(), &data), Ok(()));
    assert_eq!(pool.pool_status, 0);
    for status in [2u8, 3, 4, 200] {
        pool.pool_status = status;
        assert_eq!(
            process_pause_pool(&mut pool, &authority_accounts(), &data),
            Err(StakingError::InvalidAccountData)
        );
        assert_eq!(
            process_resume_pool(&mut pool, &authority_accounts(), &data),
            Err(StakingError::InvalidAccountData)
        );
        assert_eq!(pool.pool_status, status);
    }
}

#[test]
fn pause_and_resume_need_the_authority() {
    let mut pool = test_pool();
    let data = 7u64.to_le_bytes();
    let mut unsigned = authority_accounts();
    unsigned.authority_is_signer = false;
    assert_eq!(
        process_pause_pool(&mut pool, &unsigned, &data),
        Err(StakingError::MissingRequiredSignature)
    );
    assert_eq!(
        process_resume_pool(&mut pool, &unsigned, &data),
        Err(StakingError::InvalidAccountData)
    );
    assert_eq!(
        process_pause_pool(&mut pool, &authority_accounts(), &data[..7]),
        Err(StakingError::InvalidInstructionData)
    );
    assert_eq!(
        process_resume_pool(&mut pool, &authority_accounts(), &[]),
        Err(StakingError::InvalidInstructionData)
    );
    let mut wrong_address = authority_accounts();
    wrong_address.staking_pool_pda = STRANGER;
    assert_eq!(
        process_pause_pool(&mut pool, &wrong_address, &data),
        Err(StakingError::InvalidAccountData)
    );
    let mut stranger = authority_accounts();
    stranger.authority = STRANGER;
    assert_eq!(
        process_pause_pool(&mut pool, &stranger, &data),
        Err(StakingError::InvalidAccountData)
    );
    assert_eq!(pool.pool_status, 0);
}

#[test]
fn update_payloads_are_decoded_by_tag() {
    let rate = parse_pool_update(&update(0, 7, &9u64.to_le_bytes()), &FEED).unwrap();
    assert!(matches!(rate, PoolUpdateType::RewardRatePerSecond(9)));
    let lock = parse_pool_update(&update(1, 7, &3600i64.to_le_bytes()), &FEED).unwrap();
    assert!(matches!(lock, PoolUpdateType::LockPeriodDuration(3600)));
    let multiplier = parse_pool_update(&update(2, 7, &150u16.to_le_bytes()), &FEED).unwrap();
    assert!(matches!(multiplier, PoolUpdateType::RewardMultiplier(150)));
    let penalty = parse_pool_update(&update(3, 7, &0u64.to_le_bytes()), &FEED).unwrap();
    assert!(matches!(penalty, PoolUpdateType::EarlyWithdrawPenalty(0)));
    let slash = parse_pool_update(&update(4, 7, &10_000u16.to_le_bytes()), &FEED).unwrap();
    assert!(matches!(slash, PoolUpdateType::SlashPercentage(10_000)));
    let evidence = parse_pool_update(&update(5, 7, &[3]), &FEED).unwrap();
    assert!(matches!(evidence, PoolUpdateType::MinEvidenceRequired(3)));
    let cooldown = parse_pool_update(&update(6, 7, &1i64.to_le_bytes()), &FEED).unwrap();
    assert!(matches!(cooldown, PoolUpdateType::CooldownPeriod(1)));
    let limit = parse_pool_update(&update(7, 7, &0u64.to_le_bytes()), &FEED).unwrap();
    assert!(matches!(limit, PoolUpdateType::MaximumStakeLimit(0)));
    let floor = parse_pool_update(&update(8, 7, &5u64.to_le_bytes()), &FEED).unwrap();
    assert!(matches!(floor, PoolUpdateType::MinimumStakeAmount(5)));
    let lock_on = parse_pool_update(&update(9, 7, &[1]), &FEED).unwrap();
    assert!(matches!(lock_on, PoolUpdateType::LockPeriodEnabled(true)));
    let slashing_off = parse_pool_update(&update(10, 7, &[0]), &FEED).unwrap();
    assert!(matches!(slashing_off, PoolUpdateType::SlashingEnabled(false)));
    let condition = parse_pool_update(&update(11, 7, &[4]), &FEED).unwrap();
    assert!(matches!(condition, PoolUpdateType::SlashingConditionType(4)));
    let feed = parse_pool_update(&update(12, 7, &[]), &FEED).unwrap();
    assert!(matches!(feed, PoolUpdateType::PriceFeedAccount(key) if key == FEED));
    let status = parse_pool_update(&update(13, 7, &[2]), &FEED).unwrap();
    assert!(matches!(status, PoolUpdateType::PoolStatus(2)));
    let pause = parse_pool_update(&update(14, 7, &[1]), &FEED).unwrap();
    assert!(matches!(pause, PoolUpdateType::EmergencyPause(true)));
}

#[test]
fn update_payloads_out_of_range_are_refused() {
    let refused = |data: Vec<u8>| parse_pool_update(&data, &FEED).err();
    let invalid = Some(StakingError::InvalidInstructionData);
    assert_eq!(refused(vec![]), invalid);
    assert_eq!(refused(vec![0; 8]), invalid);
    assert_eq!(refused(update(0, 7, &0u64.to_le_bytes())), invalid);
    assert_eq!(refused(update(0, 7, &[1; 7])), invalid);
    assert_eq!(refused(update(1, 7, &0i64.to_le_bytes())), invalid);
    assert_eq!(refused(update(1, 7, &(-1i64).to_le_bytes())), invalid);
    assert_eq!(refused(update(2, 7, &0u16.to_le_bytes())), invalid);
    assert_eq!(refused(update(2, 7, &[1])), invalid);
    assert_eq!(refused(update(4, 7, &10_001u16.to_le_bytes())), invalid);
    assert_eq!(refused(update(5, 7, &[0])), invalid);
    assert_eq!(refused(update(5, 7, &[])), invalid);
    assert_eq!(refused(update(6, 7, &i64::MIN.to_le_bytes())), invalid);
    assert_eq!(refused(update(8, 7, &0u64.to_le_bytes())), invalid);
    assert_eq!(refused(update(9, 7, &[2])), invalid);
    assert_eq!(refused(update(10, 7, &[255])), invalid);
    assert_eq!(refused(update(14, 7, &[2])), invalid);
    assert_eq!(refused(update(15, 7, &[0; 8])), invalid);
    assert_eq!(refused(update(255, 7, &[0; 8])), invalid);
    assert_eq!(refused(update(11, 7, &[5])), Some(StakingError::InvalidAccountData));
    assert_eq!(refused(update(13, 7, &[4])), Some(StakingError::InvalidAccountData));
}

#[test]
fn updates_change_exactly_their_field() {
    let mut pool = test_pool();
    let accounts = update_accounts();
    assert_eq!(
        process_update_pool_config(&mut pool, &accounts, &update(0, 7, &9u64.to_le_bytes())),
        Ok(())
    );
    assert_eq!(pool.reward_rate_per_second, 9);
    process_update_pool_config(&mut pool, &accounts, &update(1, 7, &3600i64.to_le_bytes())).unwrap();
    assert_eq!(pool.lock_period_duration, 3600);
    process_update_pool_config(&mut pool, &accounts, &update(2, 7, &150u16.to_le_bytes())).unwrap();
    assert_eq!(pool.reward_multiplier, 150);
    process_update_pool_config(&mut pool, &accounts, &update(3, 7, &77u64.to_le_bytes())).unwrap();
    assert_eq!(pool.early_withdraw_penalty, 77);
    process_update_pool_config(&mut pool, &accounts, &update(4, 7, &88u16.to_le_bytes())).unwrap();
    assert_eq!(pool.slash_percentage, 88);
    process_update_pool_config(&mut pool, &accounts, &update(5, 7, &[6])).unwrap();
    assert_eq!(pool.min_evidence_required, 6);
    process_update_pool_config(&mut pool, &accounts, &update(6, 7, &99i64.to_le_bytes())).unwrap();
    assert_eq!(pool.cooldown_period, 99);
    process_update_pool_config(&mut pool, &accounts, &update(7, 7, &1000u64.to_le_bytes())).unwrap();
    assert_eq!(pool.maximum_stake_limit, 1000);
    process_update_pool_config(&mut pool, &accounts, &update(8, 7, &10u64.to_le_bytes())).unwrap();
    assert_eq!(pool.minimum_stake_amount, 10);
    process_update_pool_config(&mut pool, &accounts, &update(9, 7, &[1])).unwrap();
    assert!(pool.lock_period_enabled);
    process_update_pool_config(&mut pool, &accounts, &update(10, 7, &[1])).unwrap();
    assert!(pool.slashing_enabled);
    process_update_pool_config(&mut pool, &accounts, &update(11, 7, &[3])).unwrap();
    assert_eq!(pool.slashing_condition_type, 3);
    process_update_pool_config(&mut pool, &accounts, &update(12, 7, &[])).unwrap();
    assert_eq!(pool.price_feed_account, FEED);
    process_update_pool_config(&mut pool, &accounts, &update(13, 7, &[2])).unwrap();
    assert_eq!(pool.pool_status, 2);
    assert_eq!(pool.pool_id, 7);
    assert_eq!(pool.authority, AUTHORITY);
    assert_eq!(pool.total_staked, 0);
    assert!(!pool.emergency_pause_flag);
}

#[test]
fn stake_bounds_are_checked_against_each_other() {
    let mut pool = test_pool();
    pool.total_staked = 500;
    pool.minimum_stake_amount = 100;
    let accounts = update_accounts();
    let invalid = Err(StakingError::InvalidInstructionData);
    assert_eq!(
        process_update_pool_config(&mut pool, &accounts, &update(7, 7, &499u64.to_le_bytes())),
        invalid
    );
    assert_eq!(pool.maximum_stake_limit, 0);
    pool.total_staked = 0;
    assert_eq!(
        process_update_pool_config(&mut pool, &accounts, &update(7, 7, &99u64.to_le_bytes())),
        invalid
    );
    assert_eq!(
        process_update_pool_config(&mut pool, &accounts, &update(7, 7, &100u64.to_le_bytes())),
        Ok(())
    );
    assert_eq!(pool.maximum_stake_limit, 100);
    assert_eq!(
        process_update_pool_config(&mut pool, &accounts, &update(8, 7, &101u64.to_le_bytes())),
        invalid
    );
    assert_eq!(pool.minimum_stake_amount, 100);
    assert_eq!(
        process_update_pool_config(&mut pool, &accounts, &update(7, 7, &0u64.to_le_bytes())),
        Ok(())
    );
    assert_eq!(
        process_update_pool_config(&mut pool, &accounts, &update(8, 7, &101u64.to_le_bytes())),
        Ok(())
    );
    assert_eq!(pool.minimum_stake_amount, 101);
    assert_eq!(
        apply_pool_update(&mut pool, PoolUpdateType::MaximumStakeLimit(100)),
        Err(StakingError::InvalidInstructionData)
    );
    assert_eq!(apply_pool_update(&mut pool, PoolUpdateType::MaximumStakeLimit(101)), Ok(()));
    assert_eq!(pool.maximum_stake_limit, 101);
}

#[test]
fn emergency_pause_freezes_the_configuration() {
    let mut pool = test_pool();
    let accounts = update_accounts();
    process_update_pool_config(&mut pool, &accounts, &update(14, 7, &[1])).unwrap();
    assert!(pool.emergency_pause_flag);
    assert_eq!(pool.pool_status, 3);
    let frozen = pool;
    for (tag, value) in [
        (0u8, 9u64.to_le_bytes().to_vec()),
        (2, 150u16.to_le_bytes().to_vec()),
        (5, vec![1]),
        (7, 0u64.to_le_bytes().to_vec()),
        (9, vec![1]),
        (11, vec![1]),
        (12, vec![]),
    ] {
        assert_eq!(
            process_update_pool_config(&mut pool, &accounts, &update(tag, 7, &value)),
            Err(StakingError::InvalidAccountData)
        );
    }
    assert_eq!(pool.reward_rate_per_second, frozen.reward_rate_per_second);
    assert_eq!(pool.reward_multiplier, frozen.reward_multiplier);
    assert_eq!(pool.price_feed_account, frozen.price_feed_account);
    // the status can still be written, and the pause lifted
    process_update_pool_config(&mut pool, &accounts, &update(13, 7, &[2])).unwrap();
    assert_eq!(pool.pool_status, 2);
    assert!(pool.emergency_pause_flag);
    process_update_pool_config(&mut pool, &accounts, &update(14, 7, &[0])).unwrap();
    assert!(!pool.emergency_pause_flag);
    assert_eq!(pool.pool_status, 2);
    process_update_pool_config(&mut pool, &accounts, &update(0, 7, &9u64.to_le_bytes())).unwrap();
    assert_eq!(pool.reward_rate_per_second, 9);
}

#[test]
fn updates_need_the_authority_and_the_pool_id() {
    let mut pool = test_pool();
    let data = update(0, 7, &9u64.to_le_bytes());
    let mut unsigned = update_accounts();
    unsigned.authority_is_signer = false;
    assert_eq!(
        process_update_pool_config(&mut pool, &unsigned, &data),
        Err(StakingError::MissingRequiredSignature)
    );
    let mut stranger = update_accounts();
    stranger.authority = STRANGER;
    assert_eq!(
        process_update_pool_config(&mut pool, &stranger, &data),
        Err(StakingError::InvalidAccountData)
    );
    assert_eq!(
        process_update_pool_config(&mut pool, &update_accounts(), &update(0, 8, &9u64.to_le_bytes())),
        Err(StakingError::InvalidAccountData)
    );
    assert_eq!(pool.reward_rate_per_second, 5);
}

#[test]
fn global_config_starts_paused_and_empty() {
    let config = new_config();
    assert_eq!(config.authority, AUTHORITY);
    assert_eq!(config.treasury, [13; 32]);
    assert_eq!(config.protocol_fee_rate, 500);
    assert_eq!(config.min_stake_amount, 1_000_000);
    assert_eq!(config.max_pools, 100);
    assert!(config.emergency_pause);
    assert_eq!(config.total_pools_created, 0);
    assert_eq!(config.active_pools, 0);
    assert!(config.active_pool_keys.is_empty());
    assert_eq!(config.bump, 250);
    assert_eq!(config.treasury_bump, 251);
}

#[test]
fn global_config_is_refused_with_the_first_failing_check() {
    let refused = |accounts: InitConfigAccounts, data: Vec<u8>| {
        process_initialize_global_config(&accounts, &data).err()
    };
    let good = init_payload(500, 1, 1);
    let mut unsigned = init_accounts();
    unsigned.authority_is_signer = false;
    assert_eq!(refused(unsigned, good.clone()), Some(StakingError::InvalidAccountData));
    assert_eq!(
        refused(init_accounts(), good[..13].to_vec()),
        Some(StakingError::InvalidInstructionData)
    );
    assert_eq!(
        refused(init_accounts(), init_payload(10_001, 1, 1)),
        Some(StakingError::InvalidArgument)
    );
    assert_eq!(refused(init_accounts(), init_payload(500, 0, 1)), Some(StakingError::InvalidArgument));
    assert_eq!(refused(init_accounts(), init_payload(500, 1, 0)), Some(StakingError::InvalidArgument));
    let mut wrong_treasury = init_accounts();
    wrong_treasury.treasury_pda = STRANGER;
    assert_eq!(refused(wrong_treasury, good.clone()), Some(StakingError::InvalidAccountData));
    let mut used_treasury = init_accounts();
    used_treasury.treasury_is_empty = false;
    assert_eq!(refused(used_treasury, good.clone()), Some(StakingError::AccountAlreadyInitialized));
    let mut used_config = init_accounts();
    used_config.global_config_is_empty = false;
    assert_eq!(refused(used_config, good.clone()), Some(StakingError::AccountAlreadyInitialized));
    assert!(process_initialize_global_config(&init_accounts(), &init_payload(10_000, 1, 1)).is_ok());
}

#[test]
fn authority_and_fee_are_changed_by_the_authority_only() {
    let mut config = new_config();
    let accounts = ConfigAuthorityAccounts {
        authority: AUTHORITY,
        authority_is_signer: true,
        global_config_account: CONFIG,
        global_config_pda: CONFIG,
    };
    let mut unsigned = accounts;
    unsigned.authority_is_signer = false;
    let mut stranger = accounts;
    stranger.authority = STRANGER;
    let mut wrong_address = accounts;
    wrong_address.global_config_pda = STRANGER;

    assert_eq!(
        process_update_protocol_fee(&mut config, &unsigned, &250u16.to_le_bytes()),
        Err(StakingError::InvalidAccountData)
    );
    assert_eq!(
        process_update_protocol_fee(&mut config, &accounts, &[250]),
        Err(StakingError::InvalidInstructionData)
    );
    assert_eq!(
        process_update_protocol_fee(&mut config, &accounts, &10_001u16.to_le_bytes()),
        Err(StakingError::InvalidArgument)
    );
    assert_eq!(
        process_update_protocol_fee(&mut config, &stranger, &250u16.to_le_bytes()),
        Err(StakingError::InvalidAccountData)
    );
    assert_eq!(
        process_update_protocol_fee(&mut config, &wrong_address, &250u16.to_le_bytes()),
        Err(StakingError::InvalidAccountData)
    );
    assert_eq!(config.protocol_fee_rate, 500);
    assert_eq!(process_update_protocol_fee(&mut config, &accounts, &250u16.to_le_bytes()), Ok(()));
    assert_eq!(config.protocol_fee_rate, 250);
    assert_eq!(
        process_update_protocol_fee(&mut config, &accounts, &10_000u16.to_le_bytes()),
        Ok(())
    );
    assert_eq!(config.protocol_fee_rate, 10_000);

    let successor: Vec<u8> = (100u8..132).collect();
    assert_eq!(
        process_update_authority(&mut config, &unsigned, &successor),
        Err(StakingError::InvalidAccountData)
    );
    assert_eq!(
        process_update_authority(&mut config, &accounts, &successor[..31]),
        Err(StakingError::InvalidInstructionData)
    );
    assert_eq!(
        process_update_authority(&mut config, &stranger, &successor),
        Err(StakingError::InvalidAccountData)
    );
    assert_eq!(config.authority, AUTHORITY);
    assert_eq!(process_update_authority(&mut config, &accounts, &successor), Ok(()));
    assert_eq!(config.authority.to_vec(), successor);
    assert_eq!(config.protocol_fee_rate, 10_000);
    // the former authority has no say any more
    assert_eq!(
        process_update_authority(&mut config, &accounts, &successor),
        Err(StakingError::InvalidAccountData)
    );
}

#[test]
fn created_pool_takes_its_settings_from_the_payload() {
    let mut config = new_config();
    let pool = process_create_staking_pool(
        &mut config,
        &create_accounts(),
        &create_payload(150, 10_000, 5000, 100),
        1234,
    )
    .unwrap();
    assert_eq!(pool.authority, AUTHORITY);
    assert_eq!(pool.pool_id, 77);
    assert_eq!(pool.creation_timestamp, 1234);
    assert_eq!(pool.last_reward_timestamp, 1234);
    assert_eq!(pool.pool_status, 0);
    assert_eq!(pool.stake_token_mint, STAKE_MINT);
    assert_eq!(pool.reward_token_mint, REWARD_MINT);
    assert_eq!(pool.stake_token_vault, [31; 32]);
    assert_eq!(pool.reward_token_vault, [32; 32]);
    assert_eq!(pool.liquid_stake_mint, [33; 32]);
    assert_eq!(pool.price_feed_account, FEED);
    assert_eq!(pool.total_staked, 0);
    assert_eq!(pool.total_reward_distributed, 0);
    assert_eq!(pool.accumulated_reward_per_share, 0);
    assert_eq!(pool.liquid_stake_supply, 0);
    assert_eq!(pool.reward_rate_per_second, 1_000_000);
    assert!(pool.lock_period_enabled);
    assert_eq!(pool.lock_period_duration, 86_400);
    assert_eq!(pool.reward_multiplier, 150);
    assert_eq!(pool.early_withdraw_penalty, 250);
    assert!(!pool.slashing_enabled);
    assert_eq!(pool.slashing_condition_type, 4);
    assert_eq!(pool.slash_percentage, 10_000);
    assert_eq!(pool.min_evidence_required, 3);
    assert_eq!(pool.cooldown_period, -5);
    assert_eq!(pool.maximum_stake_limit, 5000);
    assert_eq!(pool.minimum_stake_amount, 100);
    assert!(!pool.emergency_pause_flag);
    assert_eq!(pool.stake_pool_bump, 249);
    assert_eq!(config.total_pools_created, 1);
    assert_eq!(config.active_pools, 1);
    assert_eq!(config.active_pool_keys, vec![POOL_ACCOUNT]);
    assert_eq!(config.protocol_fee_rate, 500);
}

#[test]
fn pool_creation_is_refused_with_the_first_failing_check() {
    let mut config = new_config();
    let good = create_payload(100, 0, 0, 1);
    let mut unsigned = create_accounts();
    unsigned.creator_is_signer = false;
    assert_eq!(
        process_create_staking_pool(&mut config, &unsigned, &good, 0).err(),
        Some(StakingError::MissingRequiredSignature)
    );
    let invalid = Some(StakingError::InvalidInstructionData);
    assert_eq!(
        process_create_staking_pool(&mut config, &create_accounts(), &good[..63], 0).err(),
        invalid
    );
    for bad in [
        create_payload(0, 0, 0, 1),
        create_payload(100, 10_001, 0, 1),
        create_payload(100, 0, 0, 0),
        create_payload(100, 0, 9, 10),
    ] {
        assert_eq!(
            process_create_staking_pool(&mut config, &create_accounts(), &bad, 0).err(),
            invalid
        );
    }
    let mut wrong_vault = create_accounts();
    wrong_vault.reward_token_vault_pda = STRANGER;
    assert_eq!(
        process_create_staking_pool(&mut config, &wrong_vault, &good, 0).err(),
        Some(StakingError::InvalidAccountData)
    );
    config.total_pools_created = u64::MAX;
    assert_eq!(
        process_create_staking_pool(&mut config, &create_accounts(), &good, 0).err(),
        Some(StakingError::ArithmeticOverflow)
    );
    config.total_pools_created = 3;
    config.active_pools = u64::MAX;
    assert_eq!(
        process_create_staking_pool(&mut config, &create_accounts(), &good, 0).err(),
        Some(StakingError::ArithmeticOverflow)
    );
    config.active_pools = 0;
    assert_eq!(config.total_pools_created, 3);
    assert!(config.active_pool_keys.is_empty());
    assert!(process_create_staking_pool(&mut config, &create_accounts(), &create_payload(100, 0, 10, 10), 0)
        .is_ok());
}

#[test]
fn registry_holds_ten_pools() {
    let mut config = new_config();
    let good = create_payload(100, 0, 0, 1);
    for i in 0..10u8 {
        let mut accounts = create_accounts();
        accounts.staking_pool_account = [100 + i; 32];
        accounts.staking_pool_pda = [100 + i; 32];
        assert!(process_create_staking_pool(&mut config, &accounts, &good, 0).is_ok());
    }
    assert_eq!(config.active_pool_keys.len(), 10);
    assert_eq!(config.active_pool_keys[9], [109; 32]);
    assert_eq!(
        process_create_staking_pool(&mut config, &create_accounts(), &good, 0).err(),
        Some(StakingError::PoolRegistryFull)
    );
    assert_eq!(config.total_pools_created, 10);
    assert_eq!(config.active_pools, 10);
    assert_eq!(config.active_pool_keys.len(), 10);
}

#[test]
fn oracle_record_is_created_and_updated() {
    let mut data = 60i64.to_le_bytes().to_vec();
    data.extend_from_slice(&1_500u64.to_le_bytes());
    let mut oracle = process_init_oracle_config(&oracle_accounts(), &data, 10).unwrap();
    assert_eq!(oracle.price_feed_account, FEED);
    assert_eq!(oracle.update_frequency_seconds, 60);
    assert_eq!(oracle.oracle_authority, AUTHORITY);
    assert_eq!(oracle.last_update_timestamp, 10);
    assert_eq!(oracle.current_price, 1_500);
    assert_eq!(oracle.oracle_account_bump, 200);
    assert_eq!(get_oracle_price(&oracle, &oracle_accounts()), Ok(1_500));

    assert_eq!(
        process_update_price(&mut oracle, &oracle_accounts(), &1_600u64.to_le_bytes(), 20),
        Ok(())
    );
    assert_eq!(oracle.current_price, 1_600);
    assert_eq!(oracle.last_update_timestamp, 20);
    assert_eq!(oracle.update_frequency_seconds, 60);
    assert_eq!(get_oracle_price(&oracle, &oracle_accounts()), Ok(1_600));
}

#[test]
fn oracle_operations_are_refused_with_the_first_failing_check() {
    let data = [0u8; 16];
    let mut unsigned = oracle_accounts();
    unsigned.authority_is_signer = false;
    let mut wrong_address = oracle_accounts();
    wrong_address.oracle_config_pda = STRANGER;
    let mut used = oracle_accounts();
    used.oracle_config_is_empty = false;
    let mut stranger = oracle_accounts();
    stranger.oracle_authority = STRANGER;

    assert_eq!(
        process_init_oracle_config(&unsigned, &data, 0).err(),
        Some(StakingError::InvalidAccountData)
    );
    assert_eq!(
        process_init_oracle_config(&oracle_accounts(), &data[..15], 0).err(),
        Some(StakingError::InvalidInstructionData)
    );
    assert_eq!(
        process_init_oracle_config(&wrong_address, &data, 0).err(),
        Some(StakingError::InvalidAccountData)
    );
    assert_eq!(
        process_init_oracle_config(&used, &data, 0).err(),
        Some(StakingError::AccountAlreadyInitialized)
    );

    let mut oracle = process_init_oracle_config(&oracle_accounts(), &data, 0).unwrap();
    assert_eq!(
        process_update_price(&mut oracle, &unsigned, &data[..8], 5),
        Err(StakingError::MissingRequiredSignature)
    );
    assert_eq!(
        process_update_price(&mut oracle, &oracle_accounts(), &data[..7], 5),
        Err(StakingError::InvalidInstructionData)
    );
    assert_eq!(
        process_update_price(&mut oracle, &wrong_address, &data[..8], 5),
        Err(StakingError::InvalidAccountData)
    );
    assert_eq!(
        process_update_price(&mut oracle, &stranger, &9u64.to_le_bytes(), 5),
        Err(StakingError::InvalidAccountOwner)
    );
    assert_eq!(oracle.current_price, 0);
    assert_eq!(oracle.last_update_timestamp, 0);
    assert_eq!(get_oracle_price(&oracle, &wrong_address), Err(StakingError::InvalidAccountData));
}

#[test]
fn funding_is_checked_against_the_pool_and_the_balance() {
    let mut pool = test_pool();
    pool.reward_token_vault = [50; 32];
    let accounts = FundVaultAccounts {
        authority: AUTHORITY,
        authority_is_signer: true,
        reward_token_mint: REWARD_MINT,
        reward_token_vault: [50; 32],
        global_config_account: CONFIG,
        authority_token: TokenAccountData { owner: AUTHORITY, mint: REWARD_MINT, amount: 1000 },
        authority_token_is_initialized: true,
        reward_vault: TokenAccountData { owner: CONFIG, mint: REWARD_MINT, amount: 0 },
    };
    assert_eq!(process_fund_reward_vault(&pool, &accounts, &1000u64.to_le_bytes()), Ok(1000));
    assert_eq!(process_fund_reward_vault(&pool, &accounts, &1u64.to_le_bytes()), Ok(1));
    assert_eq!(
        process_fund_reward_vault(&pool, &accounts, &1001u64.to_le_bytes()),
        Err(StakingError::InsufficientFunds)
    );
    assert_eq!(
        process_fund_reward_vault(&pool, &accounts, &0u64.to_le_bytes()),
        Err(StakingError::InvalidArgument)
    );
    assert_eq!(
        process_fund_reward_vault(&pool, &accounts, &[1, 0, 0]),
        Err(StakingError::InvalidInstructionData)
    );
    let mut unsigned = accounts;
    unsigned.authority_is_signer = false;
    assert_eq!(
        process_fund_reward_vault(&pool, &unsigned, &1u64.to_le_bytes()),
        Err(StakingError::MissingRequiredSignature)
    );
    let mut wrong_mint = accounts;
    wrong_mint.reward_token_mint = STAKE_MINT;
    let mut wrong_vault = accounts;
    wrong_vault.reward_token_vault = STRANGER;
    let mut uninitialized = accounts;
    uninitialized.authority_token_is_initialized = false;
    let mut foreign_source = accounts;
    foreign_source.authority_token.owner = STRANGER;
    let mut foreign_vault = accounts;
    foreign_vault.reward_vault.owner = STRANGER;
    for bad in [wrong_mint, wrong_vault, uninitialized, foreign_source, foreign_vault] {
        assert_eq!(
            process_fund_reward_vault(&pool, &bad, &1u64.to_le_bytes()),
            Err(StakingError::InvalidAccountData)
        );
    }
}

#[test]
fn user_ledger_is_created_for_the_signer() {
    let accounts = InitUserStakeAccounts {
        user: [60; 32],
        user_is_signer: true,
        global_config_account: CONFIG,
        user_token_account: [61; 32],
        user_stake_account: [62; 32],
        global_config_pda: CONFIG,
        user_stake_pda: [62; 32],
        user_stake_bump: 99,
        user_stake_is_empty: true,
        user_token_is_empty: false,
    };
    let ledger = process_initialize_user_stake_account(&accounts, 500).unwrap();
    assert_eq!(ledger.owner, [60; 32]);
    assert_eq!(ledger.global_config, CONFIG);
    assert_eq!(ledger.user_token_account, [61; 32]);
    assert_eq!(ledger.creation_timestamp, 500);
    assert_eq!(ledger.bump, 99);
    assert_eq!(ledger.active_positions, 0);
    assert!(ledger.positions.iter().all(|p| !p.is_active && p.staked_amount == 0));

    let mut unsigned = accounts;
    unsigned.user_is_signer = false;
    assert_eq!(
        process_initialize_user_stake_account(&unsigned, 0).err(),
        Some(StakingError::MissingRequiredSignature)
    );
    let mut used = accounts;
    used.user_stake_is_empty = false;
    assert_eq!(
        process_initialize_user_stake_account(&used, 0).err(),
        Some(StakingError::AccountAlreadyInitialized)
    );
    let mut no_source = accounts;
    no_source.user_token_is_empty = true;
    assert_eq!(
        process_initialize_user_stake_account(&no_source, 0).err(),
        Some(StakingError::UninitializedAccount)
    );
    let mut wrong_address = accounts;
    wrong_address.user_stake_pda = STRANGER;
    assert_eq!(
        process_initialize_user_stake_account(&wrong_address, 0).err(),
        Some(StakingError::InvalidAccountData)
    );
}
