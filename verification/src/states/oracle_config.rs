use vstd::prelude::*;
use crate::states::helper::Pubkey;

verus! {

/// The price record of one oracle authority.
#[derive(Clone, Copy, Debug)]
pub struct OracleConfigInfo {
    pub price_feed_account: Pubkey,
    pub update_frequency_seconds: i64,
    pub oracle_authority: Pubkey,
    pub last_update_timestamp: i64,
    pub current_price: u64,
    pub oracle_account_bump: u8,
}

} // verus!
