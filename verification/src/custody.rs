//! The custody protocol: what the ledger asks of the asset registry when an
//! asset is staked and when it is withdrawn, and what it asks of the reward
//! mint when points are redeemed.
//!
//! The ledger never takes title to an asset. On stake it asks that the
//! holder delegate the asset to the stake record's address and that the
//! asset be frozen; on unstake it asks for the thaw and for the delegation
//! to be revoked. Both requests carry the bump seed that lets the ledger
//! sign as the delegate, which nobody else can.

use vstd::prelude::*;
use crate::address::{config_seeds, spec_config_seeds, spec_stake_seeds, spec_with_bump, stake_seeds, with_bump, Seeds};
use crate::state::Key;

verus! {

/// The registry's statement of who holds how much of an asset.
#[derive(Clone, Copy, Debug, PartialEq, Eq)]
pub struct TokenAccount {
    /// The asset held.
    pub mint: Key,
    /// The registered holder.
    pub owner: Key,
    /// How many units of the asset are held; a collectible has one.
    pub amount: u64,
}

impl TokenAccount {
    /// The account shows that `holder` holds the collectible `mint`.
    pub open spec fn proves_ownership(self, mint: Key, holder: Key) -> bool {
        self.mint == mint && self.owner == holder && self.amount == 1
    }
}

/// A collection as named in an asset's metadata.
#[derive(Clone, Copy, Debug, PartialEq, Eq)]
pub struct Collection {
    /// The collection's identity.
    pub key: Key,
    /// Whether the collection has confirmed that the asset belongs to it.
    pub verified: bool,
}

/// The registry's metadata of an asset, as far as staking reads it.
#[derive(Clone, Copy, Debug, PartialEq, Eq)]
pub struct Metadata {
    /// The collection that the asset claims to belong to, if any.
    pub collection: Option<Collection>,
}

/// What a staker presents about the asset to stake.
#[derive(Clone, Copy, Debug, PartialEq, Eq)]
pub struct AssetProof {
    /// The collection that the asset is said to belong to.
    pub collection_mint: Key,
    /// The registry's statement of who holds the asset.
    pub mint_ata: TokenAccount,
    /// The registry's metadata of the asset.
    pub metadata: Metadata,
}

/// The two halves of the custody handshake. Each is one atomic request: both
/// of its steps take effect, or neither.
#[derive(Clone, Copy, Debug, PartialEq, Eq, Structural)]
pub enum CustodyAction {
    /// Delegate the asset to the ledger, then freeze it.
    DelegateAndFreeze,
    /// Thaw the asset, then revoke the ledger's delegation.
    ThawAndRevoke,
}

/// A request to the asset registry about one asset.
#[derive(Clone, Copy, Debug, PartialEq, Eq)]
pub struct CustodyRequest {
    /// Which half of the handshake is asked for.
    pub action: CustodyAction,
    /// The asset.
    pub mint: Key,
    /// The asset's registered holder, who grants or regains control.
    pub holder: Key,
    /// The ledger's authority over the asset: the stake record's address.
    pub delegate: Key,
    /// The configuration's address, part of the delegate's derivation.
    pub config: Key,
    /// The bump seed of the delegate's derivation.
    pub bump: u8,
}

impl CustodyRequest {
    /// The seeds with which the ledger signs as the delegate.
    pub open spec fn spec_signer_seeds(self) -> Seq<Seq<u8>> {
        spec_with_bump(spec_stake_seeds(self.mint, self.config), self.bump)
    }

    /// Builds the seeds with which the ledger signs as the delegate.
    pub fn signer_seeds(&self) -> (seeds: Seeds)
        ensures
            seeds@ == self.spec_signer_seeds(),
    {
        with_bump(stake_seeds(&self.mint, &self.config), self.bump)
    }
}

/// A request to the reward mint: create `amount` reward units for
/// `recipient`, by the authority of the configuration record.
#[derive(Clone, Copy, Debug, PartialEq, Eq)]
pub struct MintRequest {
    /// The reward mint.
    pub mint: Key,
    /// The holder who receives the reward units.
    pub recipient: Key,
    /// How many whole reward units to create.
    pub amount: u32,
    /// The mint's authority: the configuration's address.
    pub authority: Key,
    /// The bump seed of the authority's derivation.
    pub bump: u8,
}

impl MintRequest {
    /// The seeds with which the ledger signs as the mint's authority.
    pub open spec fn spec_signer_seeds(self) -> Seq<Seq<u8>> {
        spec_with_bump(spec_config_seeds(), self.bump)
    }

    /// The amount in the mint's smallest denomination, of which a whole
    /// reward unit holds a million.
    pub fn base_units(&self) -> (units: u64)
        ensures
            units == self.amount * 1_000_000,
    {
        self.amount as u64 * 1_000_000
    }

    /// Builds the seeds with which the ledger signs as the mint's authority.
    pub fn signer_seeds(&self) -> (seeds: Seeds)
        ensures
            seeds@ == self.spec_signer_seeds(),
    {
        with_bump(config_seeds(), self.bump)
    }
}

} // verus!
