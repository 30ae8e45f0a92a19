//! The stake of a pool over a whole history: however the operations of any
//! number of users follow one another, the pool's total stays the sum of
//! what the active positions of all ledgers hold in it.

use vstd::prelude::*;
use crate::instructions::claim_rewards::claim_all_ledger_after;
use crate::instructions::claim_rewards::claim_all_rejection;
use crate::instructions::claim_rewards::claim_ledger_after;
use crate::instructions::claim_rewards::claim_pool_after;
use crate::instructions::claim_rewards::claim_pool_id;
use crate::instructions::claim_rewards::claim_rejection;
use crate::instructions::claim_rewards::claim_split;
use crate::instructions::claim_rewards::claimable_in_all;
use crate::instructions::claim_rewards::claimable_rewards;
use crate::instructions::claim_rewards::lemma_claim_all_keeps_stake;
use crate::instructions::claim_rewards::lemma_claim_keeps_stake;
use crate::instructions::claim_rewards::ClaimAccounts;
use crate::instructions::claim_rewards::ClaimAllAccounts;
use crate::instructions::disable_auto_compound::disable_ledger_after;
use crate::instructions::disable_auto_compound::disable_rejection;
use crate::instructions::disable_auto_compound::lemma_disable_keeps_stake;
use crate::instructions::execute_auto_compound::compound_ledger_after;
use crate::instructions::execute_auto_compound::compound_pool_after;
use crate::instructions::execute_auto_compound::compound_pool_id;
use crate::instructions::execute_auto_compound::compound_rejection;
use crate::instructions::execute_auto_compound::compound_split;
use crate::instructions::execute_auto_compound::compoundable_rewards;
use crate::instructions::execute_auto_compound::lemma_compound_conserves_pool_total;
use crate::instructions::execute_auto_compound::lemma_compound_keeps_consistency;
use crate::instructions::execute_auto_compound::AutoCompoundAccounts;
use crate::instructions::execute_auto_compound::CompoundOutcome;
use crate::instructions::increase_stake::increase_ledger_after;
use crate::instructions::increase_stake::increase_rejection;
use crate::instructions::increase_stake::lemma_increase_conserves_pool_total;
use crate::instructions::increase_stake::lemma_increase_keeps_consistency;
use crate::instructions::increase_stake::IncreaseStakeAccounts;
use crate::instructions::stake_tokens::lemma_stake_conserves_pool_total;
use crate::instructions::stake_tokens::lemma_stake_keeps_consistency;
use crate::instructions::stake_tokens::stake_amount;
use crate::instructions::stake_tokens::stake_ledger_after;
use crate::instructions::stake_tokens::stake_pool_after;
use crate::instructions::stake_tokens::stake_pool_id;
use crate::instructions::stake_tokens::stake_rejection;
use crate::instructions::stake_tokens::staked_position;
use crate::instructions::stake_tokens::StakeAccounts;
use crate::instructions::unstake_tokens::lemma_unstake_conserves_pool_total;
use crate::instructions::unstake_tokens::lemma_unstake_keeps_consistency;
use crate::instructions::unstake_tokens::unstake_amount;
use crate::instructions::unstake_tokens::unstake_ledger_after;
use crate::instructions::unstake_tokens::unstake_pool_after;
use crate::instructions::unstake_tokens::unstake_pool_id;
use crate::instructions::unstake_tokens::unstake_rejection;
use crate::instructions::unstake_tokens::UnstakeAccounts;
use crate::instructions::withdraw_funds::emergency_ledger_after;
use crate::instructions::withdraw_funds::emergency_pool_id;
use crate::instructions::withdraw_funds::emergency_rejection;
use crate::instructions::withdraw_funds::lemma_emergency_conserves_pool_total;
use crate::instructions::withdraw_funds::lemma_emergency_keeps_consistency;
use crate::instructions::withdraw_funds::EmergencyWithdrawAccounts;
use crate::states::global_config::GlobalConfig;
use crate::states::helper::spec_u64_le;
use crate::states::helper::Pubkey;
use crate::states::staking_pool_account::pool_after_unstake;
use crate::states::staking_pool_account::refreshed_pool;
use crate::states::staking_pool_account::StakingPool;
use crate::states::user_stake_account::first_active_position;
use crate::states::user_stake_account::first_free_slot;
use crate::states::user_stake_account::ledger_consistent;
use crate::states::user_stake_account::staked_in_pool;
use crate::states::user_stake_account::UserStakeView;

verus! {

/// One pool together with the ledgers of all its users.
pub struct Market {
    pub pool: StakingPool,
    pub ledgers: Seq<UserStakeView>,
}

/// One request against a market: which ledger it works on, and what the
/// operation was handed.
#[allow(inconsistent_fields)]
pub enum MarketOperation {
    Stake { who: int, config: GlobalConfig, accounts: StakeAccounts, data: Seq<u8>, now: i64 },
    Increase {
        who: int,
        config: GlobalConfig,
        accounts: IncreaseStakeAccounts,
        data: Seq<u8>,
        now: i64,
    },
    Unstake { who: int, accounts: UnstakeAccounts, data: Seq<u8>, now: i64 },
    EmergencyWithdraw {
        who: int,
        config: GlobalConfig,
        accounts: EmergencyWithdrawAccounts,
        data: Seq<u8>,
        now: i64,
    },
    Compound {
        who: int,
        config: GlobalConfig,
        accounts: AutoCompoundAccounts,
        data: Seq<u8>,
        now: i64,
    },
    Claim { who: int, config: GlobalConfig, accounts: ClaimAccounts, data: Seq<u8>, now: i64 },
    ClaimAll { who: int, config: GlobalConfig, accounts: ClaimAllAccounts, now: i64 },
    DisableAutoCompound { who: int, user: Pubkey, user_is_signer: bool, data: Seq<u8>, now: i64 },
}

/// The ledger that a request works on.
pub open spec fn operation_ledger(operation: MarketOperation) -> int {
    match operation {
        MarketOperation::Stake { who, .. } => who,
        MarketOperation::Increase { who, .. } => who,
        MarketOperation::Unstake { who, .. } => who,
        MarketOperation::EmergencyWithdraw { who, .. } => who,
        MarketOperation::Compound { who, .. } => who,
        MarketOperation::Claim { who, .. } => who,
        MarketOperation::ClaimAll { who, .. } => who,
        MarketOperation::DisableAutoCompound { who, .. } => who,
    }
}

/// Whether a request works on the pool `pool_id`: its payload names that
/// pool, or it touches no pool at all.
pub open spec fn operation_in_pool(operation: MarketOperation, pool_id: u64) -> bool {
    match operation {
        MarketOperation::Stake { data, .. } => stake_pool_id(data) == pool_id,
        MarketOperation::Increase { data, .. } => stake_pool_id(data) == pool_id,
        MarketOperation::Unstake { data, .. } => unstake_pool_id(data) == pool_id,
        MarketOperation::EmergencyWithdraw { data, .. } => emergency_pool_id(data) == pool_id,
        MarketOperation::Compound { data, .. } => compound_pool_id(data) == pool_id,
        MarketOperation::Claim { data, .. } => claim_pool_id(data) == pool_id,
        MarketOperation::ClaimAll { .. } => true,
        MarketOperation::DisableAutoCompound { .. } => true,
    }
}

/// Whether a request is refused on a market. One that names no ledger of the
/// market is.
pub open spec fn operation_refused(market: Market, operation: MarketOperation) -> bool {
    let who = operation_ledger(operation);
    if !(0 <= who < market.ledgers.len()) {
        true
    } else {
        match operation {
            MarketOperation::Stake { config, accounts, data, .. } => stake_rejection(
                market.pool,
                market.ledgers[who],
                config,
                accounts,
                data,
            ) is Some,
            MarketOperation::Increase { config, accounts, data, .. } => increase_rejection(
                market.pool,
                market.ledgers[who],
                config,
                accounts,
                data,
            ) is Some,
            MarketOperation::Unstake { accounts, data, .. } => unstake_rejection(
                market.ledgers[who],
                accounts,
                data,
            ) is Some,
            MarketOperation::EmergencyWithdraw {
                config,
                accounts,
                data,
                ..
            } => emergency_rejection(market.pool, market.ledgers[who], config, accounts, data)
                is Some,
            MarketOperation::Compound { config, accounts, data, now, .. } => compound_rejection(
                market.pool,
                market.ledgers[who],
                config,
                accounts,
                data,
                now,
            ) is Some,
            MarketOperation::Claim { config, accounts, data, now, .. } => claim_rejection(
                market.pool,
                market.ledgers[who],
                config,
                accounts,
                data,
                now,
            ) is Some,
            MarketOperation::ClaimAll { config, accounts, .. } => claim_all_rejection(
                market.ledgers[who],
                config,
                accounts,
            ) is Some,
            MarketOperation::DisableAutoCompound {
                user,
                user_is_signer,
                data,
                ..
            } => disable_rejection(market.ledgers[who], user, user_is_signer, data) is Some,
        }
    }
}

/// How the rewards of a compounding request are split on a market.
pub open spec fn market_compound_split(
    market: Market,
    who: int,
    config: GlobalConfig,
    data: Seq<u8>,
    now: i64,
) -> CompoundOutcome {
    let ledger = market.ledgers[who];
    let index = first_active_position(ledger.positions, compound_pool_id(data), 0).unwrap();
    compound_split(
        index,
        compoundable_rewards(ledger.positions[index as int], market.pool, now),
        config.protocol_fee_rate,
    )
}

/// The market after one request: as it was where the request is refused,
/// else with the pool and the ledger as the operation leaves them.
pub open spec fn market_after(market: Market, operation: MarketOperation) -> Market {
    let who = operation_ledger(operation);
    if operation_refused(market, operation) {
        market
    } else {
        let ledger = market.ledgers[who];
        match operation {
            MarketOperation::Stake { accounts, data, now, .. } => Market {
                pool: stake_pool_after(market.pool, stake_amount(data), now),
                ledgers: market.ledgers.update(
                    who,
                    stake_ledger_after(
                        ledger,
                        first_free_slot(ledger.positions, 0).unwrap() as int,
                        staked_position(
                            market.pool,
                            accounts,
                            stake_pool_id(data),
                            stake_amount(data),
                            now,
                        ),
                        stake_amount(data),
                        now,
                    ),
                ),
            },
            MarketOperation::Increase { data, now, .. } => Market {
                pool: stake_pool_after(market.pool, stake_amount(data), now),
                ledgers: market.ledgers.update(
                    who,
                    increase_ledger_after(
                        ledger,
                        first_active_position(ledger.positions, stake_pool_id(data), 0).unwrap() as int,
                        stake_amount(data),
                        now,
                    ),
                ),
            },
            MarketOperation::Unstake { data, now, .. } => Market {
                pool: unstake_pool_after(market.pool, unstake_amount(data), now),
                ledgers: market.ledgers.update(
                    who,
                    unstake_ledger_after(
                        ledger,
                        refreshed_pool(market.pool, now),
                        first_active_position(ledger.positions, unstake_pool_id(data), 0).unwrap() as int,
                        unstake_amount(data),
                        now,
                    ),
                ),
            },
            MarketOperation::EmergencyWithdraw { data, now, .. } => {
                let index = first_active_position(
                    ledger.positions,
                    emergency_pool_id(data),
                    0,
                ).unwrap();
                Market {
                    pool: pool_after_unstake(
                        market.pool,
                        ledger.positions[index as int].staked_amount,
                        ledger.positions[index as int].lst_tokens,
                    ),
                    ledgers: market.ledgers.update(
                        who,
                        emergency_ledger_after(ledger, index as int, now),
                    ),
                }
            },
            MarketOperation::Compound { config, data, now, .. } => {
                let split = market_compound_split(market, who, config, data, now);
                Market {
                    pool: compound_pool_after(market.pool, split, now),
                    ledgers: market.ledgers.update(who, compound_ledger_after(ledger, split, now)),
                }
            },
            MarketOperation::Claim { config, data, now, .. } => {
                let index = first_active_position(ledger.positions, claim_pool_id(data), 0).unwrap();
                let split = claim_split(
                    claimable_rewards(ledger.positions[index as int], market.pool, now),
                    config.protocol_fee_rate,
                );
                Market {
                    pool: claim_pool_after(market.pool, split.total_claimable, now),
                    ledgers: market.ledgers.update(
                        who,
                        claim_ledger_after(ledger, index as int, split, now),
                    ),
                }
            },
            MarketOperation::ClaimAll { config, now, .. } => Market {
                pool: market.pool,
                ledgers: market.ledgers.update(
                    who,
                    claim_all_ledger_after(
                        ledger,
                        claim_split(claimable_in_all(ledger), config.protocol_fee_rate),
                        now,
                    ),
                ),
            },
            MarketOperation::DisableAutoCompound { data, now, .. } => Market {
                pool: market.pool,
                ledgers: market.ledgers.update(
                    who,
                    disable_ledger_after(
                        ledger,
                        first_active_position(ledger.positions, spec_u64_le(data, 0), 0).unwrap() as int,
                        now,
                    ),
                ),
            },
        }
    }
}

/// The market after a sequence of requests, each applied in turn.
pub open spec fn market_after_all(market: Market, operations: Seq<MarketOperation>) -> Market
    decreases operations.len(),
{
    if operations.len() == 0 {
        market
    } else {
        market_after(market_after_all(market, operations.drop_last()), operations.last())
    }
}

/// Whether a request leaves the pool's total within the 64-bit range: a
/// stake, an increase or a compounding that is accepted does not lift it
/// above the top.
pub open spec fn stays_in_range(market: Market, operation: MarketOperation) -> bool {
    operation_refused(market, operation) || match operation {
        MarketOperation::Stake { data, .. } => market.pool.total_staked + stake_amount(data)
            <= u64::MAX,
        MarketOperation::Increase { data, .. } => market.pool.total_staked + stake_amount(data)
            <= u64::MAX,
        MarketOperation::Compound { who, config, data, now, .. } => market.pool.total_staked
            + market_compound_split(market, who, config, data, now).compound_amount <= u64::MAX,
        _ => true,
    }
}

/// Whether every request of a sequence leaves the pool's total within the
/// 64-bit range, each taken on the market that the requests before it left.
pub open spec fn all_stay_in_range(market: Market, operations: Seq<MarketOperation>) -> bool
    decreases operations.len(),
{
    operations.len() == 0 || (all_stay_in_range(market, operations.drop_last()) && stays_in_range(
        market_after_all(market, operations.drop_last()),
        operations.last(),
    ))
}

/// What the active positions of all ledgers hold in the pool `pool_id`.
pub open spec fn staked_by_all(ledgers: Seq<UserStakeView>, pool_id: u64) -> nat
    decreases ledgers.len(),
{
    if ledgers.len() == 0 {
        0
    } else {
        staked_by_all(ledgers.drop_last(), pool_id) + staked_in_pool(
            ledgers.last().positions,
            pool_id,
        )
    }
}

/// The pool's total is the stake of all active positions in it, and every
/// ledger is consistent.
pub open spec fn market_balanced(market: Market, pool_id: u64) -> bool {
    &&& market.pool.total_staked == staked_by_all(market.ledgers, pool_id)
    &&& forall|i: int| 0 <= i < market.ledgers.len() ==> ledger_consistent(#[trigger] market.ledgers[i])
}

/// Replacing one ledger changes the stake of all by what the old and the new
/// ledger hold.
pub proof fn lemma_staked_by_all_update(
    ledgers: Seq<UserStakeView>,
    who: int,
    ledger: UserStakeView,
    pool_id: u64,
)
    requires
        0 <= who < ledgers.len(),
    ensures
        staked_by_all(ledgers.update(who, ledger), pool_id) + staked_in_pool(
            ledgers[who].positions,
            pool_id,
        ) == staked_by_all(ledgers, pool_id) + staked_in_pool(ledger.positions, pool_id),
        staked_in_pool(ledgers[who].positions, pool_id) <= staked_by_all(ledgers, pool_id),
    decreases ledgers.len(),
{
    let updated = ledgers.update(who, ledger);
    if who == ledgers.len() - 1 {
        assert(updated.drop_last() =~= ledgers.drop_last());
    } else {
        lemma_staked_by_all_update(ledgers.drop_last(), who, ledger, pool_id);
        assert(updated.drop_last() =~= ledgers.drop_last().update(who, ledger));
    }
}

/// One operation on a balanced market leaves it balanced, as long as the
/// pool's total stays within the 64-bit range.
pub proof fn lemma_operation_keeps_balance(market: Market, operation: MarketOperation, pool_id: u64)
    requires
        market_balanced(market, pool_id),
        operation_in_pool(operation, pool_id),
        stays_in_range(market, operation),
    ensures
        market_balanced(market_after(market, operation), pool_id),
        market_after(market, operation).ledgers.len() == market.ledgers.len(),
{
    if !operation_refused(market, operation) {
        let who = operation_ledger(operation);
        let ledger = market.ledgers[who];
        let after = market_after(market, operation);
        let others = (staked_by_all(market.ledgers, pool_id) - staked_in_pool(
            ledger.positions,
            pool_id,
        )) as nat;
        lemma_staked_by_all_update(market.ledgers, who, after.ledgers[who], pool_id);
        assert(ledger_consistent(ledger));
        match operation {
            MarketOperation::Stake { config, accounts, data, now, .. } => {
                lemma_stake_conserves_pool_total(
                    market.pool,
                    ledger,
                    config,
                    accounts,
                    data,
                    now,
                    others,
                );
                lemma_stake_keeps_consistency(market.pool, ledger, config, accounts, data, now);
            },
            MarketOperation::Increase { config, accounts, data, now, .. } => {
                lemma_increase_conserves_pool_total(
                    market.pool,
                    ledger,
                    config,
                    accounts,
                    data,
                    now,
                    others,
                );
                lemma_increase_keeps_consistency(market.pool, ledger, config, accounts, data, now);
            },
            MarketOperation::Unstake { accounts, data, now, .. } => {
                lemma_unstake_conserves_pool_total(market.pool, ledger, accounts, data, now, others);
                lemma_unstake_keeps_consistency(
                    refreshed_pool(market.pool, now),
                    ledger,
                    accounts,
                    data,
                    now,
                );
            },
            MarketOperation::EmergencyWithdraw { config, accounts, data, now, .. } => {
                lemma_emergency_conserves_pool_total(
                    market.pool,
                    ledger,
                    config,
                    accounts,
                    data,
                    now,
                    others,
                );
                lemma_emergency_keeps_consistency(market.pool, ledger, config, accounts, data, now);
            },
            MarketOperation::Compound { config, accounts, data, now, .. } => {
                lemma_compound_conserves_pool_total(
                    market.pool,
                    ledger,
                    config,
                    accounts,
                    data,
                    now,
                    others,
                );
                lemma_compound_keeps_consistency(market.pool, ledger, config, accounts, data, now);
            },
            MarketOperation::Claim { config, accounts, data, now, .. } => {
                lemma_claim_keeps_stake(market.pool, ledger, config, accounts, data, now, pool_id);
            },
            MarketOperation::ClaimAll { config, now, .. } => {
                lemma_claim_all_keeps_stake(
                    ledger,
                    claim_split(claimable_in_all(ledger), config.protocol_fee_rate),
                    now,
                    pool_id,
                );
            },
            MarketOperation::DisableAutoCompound { user, user_is_signer, data, now, .. } => {
                lemma_disable_keeps_stake(ledger, user, user_is_signer, data, now, pool_id);
            },
        }
        assert forall|i: int| 0 <= i < after.ledgers.len() implies ledger_consistent(
            #[trigger] after.ledgers[i],
        ) by {
            if i != who {
                assert(after.ledgers[i] == market.ledgers[i]);
            }
        }
    }
}

/// Over any sequence of stakes, increases, unstakes, emergency exits,
/// compoundings and claims on one pool, by any of its users, the pool's total
/// stays the sum of what the active positions of all ledgers hold in it, as
/// long as it stays within the 64-bit range.
pub proof fn lemma_market_stays_balanced(
    market: Market,
    operations: Seq<MarketOperation>,
    pool_id: u64,
)
    requires
        market_balanced(market, pool_id),
        forall|k: int|
            0 <= k < operations.len() ==> operation_in_pool(#[trigger] operations[k], pool_id),
        all_stay_in_range(market, operations),
    ensures
        market_balanced(market_after_all(market, operations), pool_id),
        market_after_all(market, operations).ledgers.len() == market.ledgers.len(),
    decreases operations.len(),
{
    if operations.len() > 0 {
        let earlier = operations.drop_last();
        assert forall|k: int| 0 <= k < earlier.len() implies operation_in_pool(
            #[trigger] earlier[k],
            pool_id,
        ) by {
            assert(earlier[k] == operations[k]);
        }
        lemma_market_stays_balanced(market, earlier, pool_id);
        lemma_operation_keeps_balance(
            market_after_all(market, earlier),
            operations.last(),
            pool_id,
        );
    }
}

/// The balance holds after each request of a sequence, not only at its end.
pub proof fn lemma_market_balanced_after_each(
    market: Market,
    operations: Seq<MarketOperation>,
    pool_id: u64,
    done: int,
)
    requires
        market_balanced(market, pool_id),
        forall|k: int|
            0 <= k < operations.len() ==> operation_in_pool(#[trigger] operations[k], pool_id),
        all_stay_in_range(market, operations),
        0 <= done <= operations.len(),
    ensures
        market_balanced(market_after_all(market, operations.subrange(0, done)), pool_id),
    decreases operations.len(),
{
    if done == operations.len() {
        assert(operations.subrange(0, done) =~= operations);
        lemma_market_stays_balanced(market, operations, pool_id);
    } else {
        let earlier = operations.drop_last();
        assert forall|k: int| 0 <= k < earlier.len() implies operation_in_pool(
            #[trigger] earlier[k],
            pool_id,
        ) by {
            assert(earlier[k] == operations[k]);
        }
        assert(earlier.subrange(0, done) =~= operations.subrange(0, done));
        lemma_market_balanced_after_each(market, earlier, pool_id, done);
    }
}

} // verus!
