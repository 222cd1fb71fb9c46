//! Deterministic addresses: the seed lists from which the address of each
//! record is derived, and the derivation itself.

use vstd::prelude::*;
use anchor_lang::prelude::Pubkey;
use crate::constants::{CONFIG_SEED, REWARDS_MINT_SEED, STAKE_SEED, USER_SEED};
use crate::state::Key;

verus! {

/// Seeds of the configuration record: its tag alone.
pub open spec fn spec_config_seeds() -> Seq<Seq<u8>> {
    seq![CONFIG_SEED@]
}

/// Seeds of the reward mint: its tag and the configuration's address.
pub open spec fn spec_rewards_mint_seeds(config: Key) -> Seq<Seq<u8>> {
    seq![REWARDS_MINT_SEED@, config.bytes@]
}

/// Seeds of a holder account: its tag and the holder's identity.
pub open spec fn spec_user_seeds(owner: Key) -> Seq<Seq<u8>> {
    seq![USER_SEED@, owner.bytes@]
}

/// Seeds of a stake record: its tag, the asset's identity and the
/// configuration's address.
pub open spec fn spec_stake_seeds(mint: Key, config: Key) -> Seq<Seq<u8>> {
    seq![STAKE_SEED@, mint.bytes@, config.bytes@]
}

/// A seed list followed by a one-byte bump seed.
pub open spec fn spec_with_bump(seeds: Seq<Seq<u8>>, bump: u8) -> Seq<Seq<u8>> {
    seeds.push(seq![bump])
}

/// An ordered list of byte strings from which an address is derived.
#[derive(Debug, PartialEq, Eq)]
pub struct Seeds {
    /// The seeds in the order in which they are hashed.
    pub parts: Vec<Vec<u8>>,
}

impl View for Seeds {
    type V = Seq<Seq<u8>>;

    open spec fn view(&self) -> Seq<Seq<u8>> {
        Seq::new(self.parts@.len(), |i: int| self.parts@[i]@)
    }
}

/// A derived address with the bump seed of its derivation.
#[derive(Clone, Copy, Debug, PartialEq, Eq)]
pub struct Derived {
    /// The address.
    pub key: Key,
    /// The last seed of the derivation, chosen so that the address has no
    /// private key.
    pub bump: u8,
}

/// The address and bump seed that `Pubkey::try_find_program_address` of
/// `anchor_lang` finds for `seeds` under `program`, or `None` where it finds
/// none.
pub uninterp spec fn canonical_address(seeds: Seq<Seq<u8>>, program: Key) -> Option<Derived>;

/// Searches for the address of `seeds` under `program` by calling
/// `Pubkey::try_find_program_address` of `anchor_lang`.
///
/// Not verified: the contract is taken on trust. It claims that the search
/// is a function of the seeds and the program alone, so that its result is
/// the one named by `canonical_address`, and nothing else.
#[verifier::external_body]
pub(crate) fn try_find_program_address(seeds: &Seeds, program: &Key) -> (found: Option<Derived>)
    ensures
        found == canonical_address(seeds@, *program),
{
    let parts: Vec<&[u8]> = seeds.parts.iter().map(|part| part.as_slice()).collect();
    match Pubkey::try_find_program_address(&parts, &Pubkey::new_from_array(program.bytes)) {
        Some((address, bump)) => Some(Derived { key: Key { bytes: address.to_bytes() }, bump }),
        None => None,
    }
}

fn bytes_of<const N: usize>(tag: &[u8; N]) -> (out: Vec<u8>)
    ensures
        out@ == tag@,
{
    let mut out: Vec<u8> = Vec::new();
    let mut i: usize = 0;
    while i < N
        invariant
            i <= N,
            out@ == tag@.subrange(0, i as int),
        decreases N - i,
    {
        out.push(tag[i]);
        i += 1;
    }
    out
}

/// Builds the seeds of the configuration record.
pub fn config_seeds() -> (seeds: Seeds)
    ensures
        seeds@ == spec_config_seeds(),
{
    let mut parts: Vec<Vec<u8>> = Vec::new();
    parts.push(bytes_of(&CONFIG_SEED));
    Seeds { parts }
}

/// Builds the seeds of the reward mint.
pub fn rewards_mint_seeds(config: &Key) -> (seeds: Seeds)
    ensures
        seeds@ == spec_rewards_mint_seeds(*config),
{
    let mut parts: Vec<Vec<u8>> = Vec::new();
    parts.push(bytes_of(&REWARDS_MINT_SEED));
    parts.push(config.to_vec());
    Seeds { parts }
}

/// Builds the seeds of a holder account.
pub fn user_seeds(owner: &Key) -> (seeds: Seeds)
    ensures
        seeds@ == spec_user_seeds(*owner),
{
    let mut parts: Vec<Vec<u8>> = Vec::new();
    parts.push(bytes_of(&USER_SEED));
    parts.push(owner.to_vec());
    Seeds { parts }
}

/// Builds the seeds of a stake record.
pub fn stake_seeds(mint: &Key, config: &Key) -> (seeds: Seeds)
    ensures
        seeds@ == spec_stake_seeds(*mint, *config),
{
    let mut parts: Vec<Vec<u8>> = Vec::new();
    parts.push(bytes_of(&STAKE_SEED));
    parts.push(mint.to_vec());
    parts.push(config.to_vec());
    Seeds { parts }
}

/// Appends a bump seed, which turns a record's seeds into the signer seeds
/// that prove control of the record's address.
pub fn with_bump(seeds: Seeds, bump: u8) -> (signer: Seeds)
    ensures
        signer@ == spec_with_bump(seeds@, bump),
{
    let mut parts = seeds.parts;
    let mut last: Vec<u8> = Vec::new();
    last.push(bump);
    parts.push(last);
    Seeds { parts }
}

} // verus!
