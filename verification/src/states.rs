//! The persistent records of the platform.

pub mod addresses;
pub mod global_config;
pub mod helper;
pub mod oracle_config;
pub mod staking_pool_account;
pub mod user_stake_account;
