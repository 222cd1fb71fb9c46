//! Identities and the persistent records of the staking ledger.
//!
//! A record lives in a slot at a deterministic address. A slot that was
//! created and never filled reads as all zero; `stored` tells the two apart.

use vstd::prelude::*;
use crate::constants::REWARD_DECIMALS;

verus! {

/// A 32-byte identity: a holder, an asset, or the storage address of a record.
/// Two identities are equal when their bytes are.
#[derive(Clone, Copy, Debug, Eq)]
pub struct Key {
    /// The bytes of the identity.
    pub bytes: [u8; 32],
}

impl PartialEq for Key {
    fn eq(&self, other: &Key) -> (same: bool) {
        let mut i: usize = 0;
        while i < 32
            invariant
                i <= 32,
                forall|j: int| 0 <= j < i ==> self.bytes[j] == other.bytes[j],
            decreases 32 - i,
        {
            if self.bytes[i] != other.bytes[i] {
                return false;
            }
            i += 1;
        }
        assert(self.bytes =~= other.bytes);
        true
    }
}

impl vstd::std_specs::cmp::PartialEqSpecImpl for Key {
    open spec fn obeys_eq_spec() -> bool {
        true
    }

    open spec fn eq_spec(&self, other: &Key) -> bool {
        *self == *other
    }
}

impl Key {
    /// The identity whose bytes are all zero, as a record holds it that was
    /// created and not yet filled.
    pub open spec fn spec_zero() -> Key {
        Key { bytes: vstd::array::spec_array_fill_for_copy_type::<u8, 32>(0u8) }
    }

    /// The identity whose bytes are all zero.
    pub fn zero() -> (key: Key)
        ensures
            key == Key::spec_zero(),
            forall|i: int| 0 <= i < 32 ==> key.bytes[i] == 0,
    {
        Key { bytes: [0u8; 32] }
    }

    /// The identity's bytes as seed material.
    pub fn to_vec(&self) -> (out: Vec<u8>)
        ensures
            out@ == self.bytes@,
    {
        let mut out: Vec<u8> = Vec::new();
        let mut i: usize = 0;
        while i < 32
            invariant
                i <= 32,
                out@ == self.bytes@.subrange(0, i as int),
            decreases 32 - i,
        {
            out.push(self.bytes[i]);
            i += 1;
        }
        out
    }
}

/// What a storage slot holds, together with the slot's address.
#[derive(Debug, PartialEq, Eq)]
pub struct Account<T> {
    /// The deterministic address of the slot.
    pub key: Key,
    /// What the slot holds.
    pub data: T,
}

impl<T: Copy> Clone for Account<T> {
    fn clone(&self) -> (copy: Self)
        ensures
            copy == *self,
    {
        *self
    }
}

impl<T: Copy> Copy for Account<T> {}

/// The global configuration: one per ledger, fixed once created.
#[derive(Clone, Copy, Debug, PartialEq, Eq, Structural)]
pub struct StakeConfig {
    /// Points granted for each full day an asset stays staked.
    pub points_per_stake: u8,
    /// Most assets one holder may have staked at once.
    pub max_stake: u8,
    /// Seconds an asset must stay staked before it can be withdrawn.
    pub freeze_period: u32,
    /// Bump seed of the reward mint's address.
    pub reward_bump: u8,
    /// Bump seed of this record's own address.
    pub bump: u8,
}

impl StakeConfig {
    /// The three tunable parameters are all strictly positive.
    pub open spec fn valid(self) -> bool {
        &&& self.points_per_stake > 0
        &&& self.max_stake > 0
        &&& self.freeze_period > 0
    }

    /// The content of a configuration slot that was never filled: all zero.
    pub open spec fn blank() -> StakeConfig {
        StakeConfig { points_per_stake: 0, max_stake: 0, freeze_period: 0, reward_bump: 0, bump: 0 }
    }

    /// What a configuration slot holds whose content reads `data`: nothing
    /// where every field is zero, and else the configuration `data`. A valid
    /// configuration is never taken for nothing.
    pub fn stored(data: StakeConfig) -> (slot: Option<StakeConfig>)
        ensures
            slot == if data == StakeConfig::blank() {
                None
            } else {
                Some(data)
            },
            data.valid() ==> slot == Some(data),
    {
        if data.points_per_stake == 0 && data.max_stake == 0 && data.freeze_period == 0
            && data.reward_bump == 0 && data.bump == 0 {
            None
        } else {
            Some(data)
        }
    }
}

/// The reward mint as the ledger creates it: the only one who can create
/// reward units is the mint's authority.
#[derive(Clone, Copy, Debug, PartialEq, Eq)]
pub struct RewardsMint {
    /// Who may create reward units: the configuration record's address.
    pub authority: Key,
    /// Decimal places of one reward unit.
    pub decimals: u8,
    /// Reward units created so far, in the mint's smallest denomination.
    pub supply: u64,
}

impl RewardsMint {
    /// The reward mint as it is created under `authority`: no supply yet,
    /// and the fixed number of decimal places.
    pub open spec fn created(authority: Key) -> RewardsMint {
        RewardsMint { authority, decimals: REWARD_DECIMALS, supply: 0 }
    }

    /// Builds the reward mint as it is created under `authority`.
    pub fn new(authority: Key) -> (mint: RewardsMint)
        ensures
            mint == RewardsMint::created(authority),
    {
        RewardsMint { authority, decimals: REWARD_DECIMALS, supply: 0 }
    }
}

/// A holder's account: how many assets they have staked and the points they
/// have accrued and not yet redeemed.
#[derive(Clone, Copy, Debug, PartialEq, Eq)]
pub struct User {
    /// The depositor this account belongs to.
    pub owner: Key,
    /// Accrued, unredeemed reward points.
    pub points: u32,
    /// Number of assets currently staked.
    pub amount_staked: u8,
    /// Bump seed of this record's own address.
    pub bump: u8,
}

impl User {
    /// The account of `owner` before their first stake: no points, nothing
    /// staked.
    pub open spec fn blank(owner: Key, bump: u8) -> User {
        User { owner, points: 0, amount_staked: 0, bump }
    }

    /// Creates the account of `owner` as it is before their first stake.
    pub fn new(owner: Key, bump: u8) -> (account: User)
        ensures
            account == User::blank(owner, bump),
    {
        User { owner, points: 0, amount_staked: 0, bump }
    }
}

/// The record of one staked asset. It exists exactly while the asset is staked.
#[derive(Clone, Copy, Debug, PartialEq, Eq)]
pub struct StakeAccount {
    /// Who staked the asset; the only one who may withdraw it.
    pub owner: Key,
    /// The staked asset.
    pub mint: Key,
    /// When the asset was staked, in seconds.
    pub last_update: i64,
    /// Bump seed of this record's own address.
    pub bump: u8,
}

impl StakeAccount {
    /// The content of a stake record's slot that was never filled: all zero.
    pub open spec fn blank() -> StakeAccount {
        StakeAccount { owner: Key::spec_zero(), mint: Key::spec_zero(), last_update: 0, bump: 0 }
    }

    /// What a stake record's slot holds whose content reads `data`: nothing
    /// where every field is zero, and else the stake record `data`.
    pub fn stored(data: StakeAccount) -> (slot: Option<StakeAccount>)
        ensures
            slot == if data == StakeAccount::blank() {
                None
            } else {
                Some(data)
            },
    {
        let zero = Key::zero();
        if data.owner == zero && data.mint == zero && data.last_update == 0 && data.bump == 0 {
            None
        } else {
            Some(data)
        }
    }
}

} // verus!
