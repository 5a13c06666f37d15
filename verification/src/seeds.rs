//! The seed tuples from which the programs' own addresses are derived.
//!
//! Every record stores the bump seed of its address, so that a program can rebuild the
//! full tuple from stored fields whenever it has to sign for the record.

use vstd::prelude::*;
use vstd::bytes::{spec_u64_to_le_bytes, u64_to_le_bytes};
use vstd::slice::slice_to_vec;
use vstd::utf8::encode_utf8;
use crate::address::{push_seed, seeds_view, Address};

verus! {

/// The bytes of `vault`.
pub open spec fn spec_vault_tag() -> Seq<u8> {
    seq![118u8, 97u8, 117u8, 108u8, 116u8]
}

/// The bytes of `escrow`.
pub open spec fn spec_escrow_tag() -> Seq<u8> {
    seq![101u8, 115u8, 99u8, 114u8, 111u8, 119u8]
}

/// The bytes of `marketplace`.
pub open spec fn spec_marketplace_tag() -> Seq<u8> {
    seq![109u8, 97u8, 114u8, 107u8, 101u8, 116u8, 112u8, 108u8, 97u8, 99u8, 101u8]
}

/// The bytes of `treasury`.
pub open spec fn spec_treasury_tag() -> Seq<u8> {
    seq![116u8, 114u8, 101u8, 97u8, 115u8, 117u8, 114u8, 121u8]
}

/// The bytes of `rewards`.
pub open spec fn spec_rewards_tag() -> Seq<u8> {
    seq![114u8, 101u8, 119u8, 97u8, 114u8, 100u8, 115u8]
}

/// The bytes of `state`.
pub open spec fn spec_state_tag() -> Seq<u8> {
    seq![115u8, 116u8, 97u8, 116u8, 101u8]
}

/// The bytes of `config`.
pub open spec fn spec_config_tag() -> Seq<u8> {
    seq![99u8, 111u8, 110u8, 102u8, 105u8, 103u8]
}

/// Seeds of a vesting contract: the company name, the creator and the mint.
pub open spec fn spec_vesting_contract_seeds(
    company_name: Seq<char>,
    creator: Address,
    mint: Address,
) -> Seq<Seq<u8>> {
    seq![encode_utf8(company_name), creator@, mint@]
}

/// Seeds of a vesting contract's vault: `vault`, the mint and the creator.
pub open spec fn spec_vesting_vault_seeds(mint: Address, creator: Address) -> Seq<Seq<u8>> {
    seq![spec_vault_tag(), mint@, creator@]
}

/// Seeds of a vesting record: the contract's address, the beneficiary and the mint.
pub open spec fn spec_vesting_record_seeds(
    contract: Address,
    beneficiary: Address,
    mint: Address,
) -> Seq<Seq<u8>> {
    seq![contract@, beneficiary@, mint@]
}

/// Seeds of an escrow record: `escrow`, the maker and the offer's seed in little-endian
/// bytes.
pub open spec fn spec_escrow_seeds(maker: Address, seed: u64) -> Seq<Seq<u8>> {
    seq![spec_escrow_tag(), maker@, spec_u64_to_le_bytes(seed)]
}

/// Seeds of a marketplace: `marketplace` and its name.
pub open spec fn spec_marketplace_seeds(name: Seq<char>) -> Seq<Seq<u8>> {
    seq![spec_marketplace_tag(), encode_utf8(name)]
}

/// Seeds of a marketplace's treasury: `treasury` and the marketplace's address.
pub open spec fn spec_treasury_seeds(marketplace: Address) -> Seq<Seq<u8>> {
    seq![spec_treasury_tag(), marketplace@]
}

/// Seeds of a rewards mint: `rewards` and the address of the record that owns it.
pub open spec fn spec_rewards_seeds(owner: Address) -> Seq<Seq<u8>> {
    seq![spec_rewards_tag(), owner@]
}

/// Seeds of a listing: the marketplace's address and the mint of the listed token.
pub open spec fn spec_listing_seeds(marketplace: Address, maker_mint: Address) -> Seq<Seq<u8>> {
    seq![marketplace@, maker_mint@]
}

/// Seeds of a custody vault's state record: `state` and the depositor.
pub open spec fn spec_vault_state_seeds(signer: Address) -> Seq<Seq<u8>> {
    seq![spec_state_tag(), signer@]
}

/// Seeds of a custody vault: `vault` and the depositor.
pub open spec fn spec_custody_vault_seeds(signer: Address) -> Seq<Seq<u8>> {
    seq![spec_vault_tag(), signer@]
}

/// Seeds of the staking configuration: `config`.
pub open spec fn spec_stake_config_seeds() -> Seq<Seq<u8>> {
    seq![spec_config_tag()]
}

/// The seeds followed by the bump seed: the tuple with which a program signs.
pub open spec fn spec_with_bump(seeds: Seq<Seq<u8>>, bump: u8) -> Seq<Seq<u8>> {
    seeds.push(seq![bump])
}

/// The UTF-8 bytes of a text.
pub fn text_bytes(text: &String) -> (r: Vec<u8>)
    ensures
        r@ == encode_utf8(text@),
{
    slice_to_vec(text.as_str().as_bytes())
}

fn vault_tag() -> (r: Vec<u8>)
    ensures
        r@ == spec_vault_tag(),
{
    let r = vec![118u8, 97u8, 117u8, 108u8, 116u8];
    assert(r@ =~= spec_vault_tag());
    r
}

fn escrow_tag() -> (r: Vec<u8>)
    ensures
        r@ == spec_escrow_tag(),
{
    let r = vec![101u8, 115u8, 99u8, 114u8, 111u8, 119u8];
    assert(r@ =~= spec_escrow_tag());
    r
}

fn marketplace_tag() -> (r: Vec<u8>)
    ensures
        r@ == spec_marketplace_tag(),
{
    let r = vec![109u8, 97u8, 114u8, 107u8, 101u8, 116u8, 112u8, 108u8, 97u8, 99u8, 101u8];
    assert(r@ =~= spec_marketplace_tag());
    r
}

fn treasury_tag() -> (r: Vec<u8>)
    ensures
        r@ == spec_treasury_tag(),
{
    let r = vec![116u8, 114u8, 101u8, 97u8, 115u8, 117u8, 114u8, 121u8];
    assert(r@ =~= spec_treasury_tag());
    r
}

fn rewards_tag() -> (r: Vec<u8>)
    ensures
        r@ == spec_rewards_tag(),
{
    let r = vec![114u8, 101u8, 119u8, 97u8, 114u8, 100u8, 115u8];
    assert(r@ =~= spec_rewards_tag());
    r
}

fn state_tag() -> (r: Vec<u8>)
    ensures
        r@ == spec_state_tag(),
{
    let r = vec![115u8, 116u8, 97u8, 116u8, 101u8];
    assert(r@ =~= spec_state_tag());
    r
}

fn config_tag() -> (r: Vec<u8>)
    ensures
        r@ == spec_config_tag(),
{
    let r = vec![99u8, 111u8, 110u8, 102u8, 105u8, 103u8];
    assert(r@ =~= spec_config_tag());
    r
}

fn one(a: Vec<u8>) -> (r: Vec<Vec<u8>>)
    ensures
        seeds_view(r@) == seq![a@],
{
    let mut r: Vec<Vec<u8>> = Vec::new();
    assert(seeds_view(r@) =~= Seq::<Seq<u8>>::empty());
    push_seed(&mut r, a);
    assert(seeds_view(r@) =~= seq![a@]);
    r
}

fn two(a: Vec<u8>, b: Vec<u8>) -> (r: Vec<Vec<u8>>)
    ensures
        seeds_view(r@) == seq![a@, b@],
{
    let mut r = one(a);
    push_seed(&mut r, b);
    assert(seeds_view(r@) =~= seq![a@, b@]);
    r
}

fn three(a: Vec<u8>, b: Vec<u8>, c: Vec<u8>) -> (r: Vec<Vec<u8>>)
    ensures
        seeds_view(r@) == seq![a@, b@, c@],
{
    let mut r = two(a, b);
    push_seed(&mut r, c);
    assert(seeds_view(r@) =~= seq![a@, b@, c@]);
    r
}

/// Builds the seeds of a vesting contract.
pub fn vesting_contract_seeds(company_name: &String, creator: &Address, mint: &Address) -> (r: Vec<
    Vec<u8>,
>)
    ensures
        seeds_view(r@) == spec_vesting_contract_seeds(company_name@, *creator, *mint),
{
    three(text_bytes(company_name), creator.to_seed(), mint.to_seed())
}

/// Builds the seeds of a vesting contract's vault.
pub fn vesting_vault_seeds(mint: &Address, creator: &Address) -> (r: Vec<Vec<u8>>)
    ensures
        seeds_view(r@) == spec_vesting_vault_seeds(*mint, *creator),
{
    three(vault_tag(), mint.to_seed(), creator.to_seed())
}

/// Builds the seeds of a vesting record.
pub fn vesting_record_seeds(contract: &Address, beneficiary: &Address, mint: &Address) -> (r: Vec<
    Vec<u8>,
>)
    ensures
        seeds_view(r@) == spec_vesting_record_seeds(*contract, *beneficiary, *mint),
{
    three(contract.to_seed(), beneficiary.to_seed(), mint.to_seed())
}

/// Builds the seeds of an escrow record.
pub fn escrow_seeds(maker: &Address, seed: u64) -> (r: Vec<Vec<u8>>)
    ensures
        seeds_view(r@) == spec_escrow_seeds(*maker, seed),
{
    three(escrow_tag(), maker.to_seed(), u64_to_le_bytes(seed))
}

/// Builds the seeds of a marketplace.
pub fn marketplace_seeds(name: &String) -> (r: Vec<Vec<u8>>)
    ensures
        seeds_view(r@) == spec_marketplace_seeds(name@),
{
    two(marketplace_tag(), text_bytes(name))
}

/// Builds the seeds of a marketplace's treasury.
pub fn treasury_seeds(marketplace: &Address) -> (r: Vec<Vec<u8>>)
    ensures
        seeds_view(r@) == spec_treasury_seeds(*marketplace),
{
    two(treasury_tag(), marketplace.to_seed())
}

/// Builds the seeds of a rewards mint.
pub fn rewards_seeds(owner: &Address) -> (r: Vec<Vec<u8>>)
    ensures
        seeds_view(r@) == spec_rewards_seeds(*owner),
{
    two(rewards_tag(), owner.to_seed())
}

/// Builds the seeds of a listing.
pub fn listing_seeds(marketplace: &Address, maker_mint: &Address) -> (r: Vec<Vec<u8>>)
    ensures
        seeds_view(r@) == spec_listing_seeds(*marketplace, *maker_mint),
{
    two(marketplace.to_seed(), maker_mint.to_seed())
}

/// Builds the seeds of a custody vault's state record.
pub fn vault_state_seeds(signer: &Address) -> (r: Vec<Vec<u8>>)
    ensures
        seeds_view(r@) == spec_vault_state_seeds(*signer),
{
    two(state_tag(), signer.to_seed())
}

/// Builds the seeds of a custody vault.
pub fn custody_vault_seeds(signer: &Address) -> (r: Vec<Vec<u8>>)
    ensures
        seeds_view(r@) == spec_custody_vault_seeds(*signer),
{
    two(vault_tag(), signer.to_seed())
}

/// Builds the seeds of the staking configuration.
pub fn stake_config_seeds() -> (r: Vec<Vec<u8>>)
    ensures
        seeds_view(r@) == spec_stake_config_seeds(),
{
    one(config_tag())
}

/// Appends the bump seed, which completes the tuple with which a program signs.
pub fn with_bump(seeds: Vec<Vec<u8>>, bump: u8) -> (r: Vec<Vec<u8>>)
    ensures
        seeds_view(r@) == spec_with_bump(seeds_view(seeds@), bump),
{
    let mut r = seeds;
    let mut last: Vec<u8> = Vec::new();
    last.push(bump);
    assert(last@ =~= seq![bump]);
    push_seed(&mut r, last);
    r
}

} // verus!
