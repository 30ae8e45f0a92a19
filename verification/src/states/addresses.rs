use vstd::prelude::*;
use vstd::string::StrSliceExecFns;
use vstd::string::StringSliceAdditionalSpecFns;
use crate::states::helper::spec_u64_le;
use crate::states::helper::Pubkey;

verus! {

/// The eight bytes of `x`, least significant first.
pub open spec fn spec_u64_to_le(x: u64) -> Seq<u8> {
    seq![
        (x % 0x100) as u8,
        (x / 0x100 % 0x100) as u8,
        (x / 0x1_0000 % 0x100) as u8,
        (x / 0x100_0000 % 0x100) as u8,
        (x / 0x1_0000_0000 % 0x100) as u8,
        (x / 0x100_0000_0000 % 0x100) as u8,
        (x / 0x1_0000_0000_0000 % 0x100) as u8,
        (x / 0x100_0000_0000_0000 % 0x100) as u8,
    ]
}

/// The seeds from which the address of the platform configuration of
/// `authority` is derived.
pub open spec fn global_config_seed_list(authority: Pubkey) -> Seq<Seq<u8>> {
    seq!["global_config_account".spec_bytes(), authority@]
}

/// The seeds from which the address of the pool `pool_id` of `creator` is
/// derived.
pub open spec fn staking_pool_seed_list(creator: Pubkey, pool_id: u64) -> Seq<Seq<u8>> {
    seq!["staking_pool".spec_bytes(), creator@, spec_u64_to_le(pool_id)]
}

/// The seeds from which the address of the vault of the staked asset `mint`
/// under the configuration `global_config` is derived.
pub open spec fn stake_vault_seed_list(mint: Pubkey, global_config: Pubkey) -> Seq<Seq<u8>> {
    seq!["stake_token_vault".spec_bytes(), mint@, global_config@]
}

/// The seeds from which the address of the vault of the reward asset `mint`
/// under the configuration `global_config` is derived.
pub open spec fn reward_vault_seed_list(mint: Pubkey, global_config: Pubkey) -> Seq<Seq<u8>> {
    seq!["reward_token_vault".spec_bytes(), mint@, global_config@]
}

/// The seeds from which the address of the derivative asset of the pools of
/// `creator` is derived.
pub open spec fn liquid_stake_mint_seed_list(creator: Pubkey) -> Seq<Seq<u8>> {
    seq!["liquid_stake_mint".spec_bytes(), creator@]
}

/// The seeds from which the address of the ledger of `user` under the
/// configuration `global_config` is derived.
pub open spec fn user_stake_seed_list(user: Pubkey, global_config: Pubkey) -> Seq<Seq<u8>> {
    seq!["user_stake_account".spec_bytes(), user@, global_config@]
}

/// The seeds from which the address of the treasury of `authority` for the
/// asset `mint` is derived.
pub open spec fn treasury_seed_list(mint: Pubkey, authority: Pubkey) -> Seq<Seq<u8>> {
    seq!["treasury_account".spec_bytes(), mint@, authority@]
}

/// The seeds from which the address of the oracle record of `authority` is
/// derived.
pub open spec fn oracle_config_seed_list(authority: Pubkey) -> Seq<Seq<u8>> {
    seq!["oracle_config_account".spec_bytes(), authority@]
}

/// The bytes of an identity.
pub fn key_bytes(key: &Pubkey) -> (bytes: Vec<u8>)
    ensures
        bytes@ == key@,
{
    let mut bytes: Vec<u8> = Vec::new();
    let mut i: usize = 0;
    while i < 32
        invariant
            i <= 32,
            bytes@.len() == i,
            forall|j: int| 0 <= j < i ==> bytes@[j] == key[j],
        decreases 32 - i,
    {
        bytes.push(key[i]);
        i += 1;
    }
    assert(bytes@ =~= key@);
    bytes
}

/// The eight bytes of `x`, least significant first.
pub fn u64_to_le(x: u64) -> (bytes: Vec<u8>)
    ensures
        bytes@ == spec_u64_to_le(x),
        bytes@.len() == 8,
        spec_u64_le(bytes@, 0) == x,
{
    let mut bytes: Vec<u8> = Vec::new();
    bytes.push((x % 0x100) as u8);
    bytes.push((x / 0x100 % 0x100) as u8);
    bytes.push((x / 0x1_0000 % 0x100) as u8);
    bytes.push((x / 0x100_0000 % 0x100) as u8);
    bytes.push((x / 0x1_0000_0000 % 0x100) as u8);
    bytes.push((x / 0x100_0000_0000 % 0x100) as u8);
    bytes.push((x / 0x1_0000_0000_0000 % 0x100) as u8);
    bytes.push((x / 0x100_0000_0000_0000 % 0x100) as u8);
    proof {
        assert(bytes@ =~= spec_u64_to_le(x));
        lemma_u64_le_round_trip(x);
    }
    bytes
}

/// A label followed by one identity.
fn labelled_seeds_1(label: &str, first: &Pubkey) -> (seeds: Vec<Vec<u8>>)
    ensures
        seeds.deep_view() == seq![label.spec_bytes(), first@],
{
    let mut seeds: Vec<Vec<u8>> = Vec::new();
    seeds.push(label.as_bytes_vec());
    seeds.push(key_bytes(first));
    assert(seeds.deep_view() =~~= seq![label.spec_bytes(), first@]);
    seeds
}

/// A label followed by two identities.
fn labelled_seeds_2(label: &str, first: &Pubkey, second: &Pubkey) -> (seeds: Vec<Vec<u8>>)
    ensures
        seeds.deep_view() == seq![label.spec_bytes(), first@, second@],
{
    let mut seeds: Vec<Vec<u8>> = Vec::new();
    seeds.push(label.as_bytes_vec());
    seeds.push(key_bytes(first));
    seeds.push(key_bytes(second));
    assert(seeds.deep_view() =~~= seq![label.spec_bytes(), first@, second@]);
    seeds
}

/// The seeds of the platform configuration of `authority`.
pub fn global_config_seeds(authority: &Pubkey) -> (seeds: Vec<Vec<u8>>)
    ensures
        seeds.deep_view() == global_config_seed_list(*authority),
{
    labelled_seeds_1("global_config_account", authority)
}

/// The seeds of the pool `pool_id` of `creator`.
pub fn staking_pool_seeds(creator: &Pubkey, pool_id: u64) -> (seeds: Vec<Vec<u8>>)
    ensures
        seeds.deep_view() == staking_pool_seed_list(*creator, pool_id),
{
    let mut seeds: Vec<Vec<u8>> = Vec::new();
    seeds.push("staking_pool".as_bytes_vec());
    seeds.push(key_bytes(creator));
    seeds.push(u64_to_le(pool_id));
    assert(seeds.deep_view() =~~= staking_pool_seed_list(*creator, pool_id));
    seeds
}

/// The seeds of the vault of the staked asset.
pub fn stake_vault_seeds(mint: &Pubkey, global_config: &Pubkey) -> (seeds: Vec<Vec<u8>>)
    ensures
        seeds.deep_view() == stake_vault_seed_list(*mint, *global_config),
{
    labelled_seeds_2("stake_token_vault", mint, global_config)
}

/// The seeds of the vault of the reward asset.
pub fn reward_vault_seeds(mint: &Pubkey, global_config: &Pubkey) -> (seeds: Vec<Vec<u8>>)
    ensures
        seeds.deep_view() == reward_vault_seed_list(*mint, *global_config),
{
    labelled_seeds_2("reward_token_vault", mint, global_config)
}

/// The seeds of the derivative asset of the pools of `creator`.
pub fn liquid_stake_mint_seeds(creator: &Pubkey) -> (seeds: Vec<Vec<u8>>)
    ensures
        seeds.deep_view() == liquid_stake_mint_seed_list(*creator),
{
    labelled_seeds_1("liquid_stake_mint", creator)
}

/// The seeds of the ledger of `user`.
pub fn user_stake_seeds(user: &Pubkey, global_config: &Pubkey) -> (seeds: Vec<Vec<u8>>)
    ensures
        seeds.deep_view() == user_stake_seed_list(*user, *global_config),
{
    labelled_seeds_2("user_stake_account", user, global_config)
}

/// The seeds of the treasury of `authority` for the asset `mint`.
pub fn treasury_seeds(mint: &Pubkey, authority: &Pubkey) -> (seeds: Vec<Vec<u8>>)
    ensures
        seeds.deep_view() == treasury_seed_list(*mint, *authority),
{
    labelled_seeds_2("treasury_account", mint, authority)
}

/// The seeds of the oracle record of `authority`.
pub fn oracle_config_seeds(authority: &Pubkey) -> (seeds: Vec<Vec<u8>>)
    ensures
        seeds.deep_view() == oracle_config_seed_list(*authority),
{
    labelled_seeds_1("oracle_config_account", authority)
}

/// Decoding the eight bytes of a number, least significant first, gives the
/// number back.
pub proof fn lemma_u64_le_round_trip(x: u64)
    ensures
        spec_u64_le(spec_u64_to_le(x), 0) == x,
{
    let b = spec_u64_to_le(x);
    let x0 = x as int;
    let x1 = x0 / 0x100;
    let x2 = x1 / 0x100;
    let x3 = x2 / 0x100;
    let x4 = x3 / 0x100;
    let x5 = x4 / 0x100;
    let x6 = x5 / 0x100;
    let x7 = x6 / 0x100;
    assert(x1 == x0 / 0x100 && x2 == x0 / 0x1_0000 && x3 == x0 / 0x100_0000 && x4 == x0
        / 0x1_0000_0000 && x5 == x0 / 0x100_0000_0000 && x6 == x0 / 0x1_0000_0000_0000 && x7
        == x0 / 0x100_0000_0000_0000);
    assert(x7 < 0x100);
    assert(x0 == x0 % 0x100 + 0x100 * x1);
    assert(x1 == x1 % 0x100 + 0x100 * x2);
    assert(x2 == x2 % 0x100 + 0x100 * x3);
    assert(x3 == x3 % 0x100 + 0x100 * x4);
    assert(x4 == x4 % 0x100 + 0x100 * x5);
    assert(x5 == x5 % 0x100 + 0x100 * x6);
    assert(x6 == x6 % 0x100 + 0x100 * x7);
    assert(b[0] == x0 % 0x100);
    assert(b[1] == x1 % 0x100);
    assert(b[2] == x2 % 0x100);
    assert(b[3] == x3 % 0x100);
    assert(b[4] == x4 % 0x100);
    assert(b[5] == x5 % 0x100);
    assert(b[6] == x6 % 0x100);
    assert(b[7] == x7 % 0x100);
}

} // verus!
