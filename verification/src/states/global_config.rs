use vstd::prelude::*;
use crate::states::helper::Pubkey;

verus! {

/// The most pools that the registry of active pools holds.
pub const MAX_POOLS: usize = 10;

/// The platform-wide configuration.
#[derive(Clone, Debug)]
pub struct GlobalConfig {
    pub authority: Pubkey,
    pub treasury: Pubkey,
    /// In basis points.
    pub protocol_fee_rate: u16,
    pub max_pools: u32,
    pub min_stake_amount: u64,
    pub emergency_pause: bool,
    pub total_pools_created: u64,
    pub active_pools: u64,
    pub active_pool_keys: Vec<Pubkey>,
    pub bump: u8,
    pub treasury_bump: u8,
}

} // verus!
