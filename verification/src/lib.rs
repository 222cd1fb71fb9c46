//! A staking ledger for collectible assets.
//!
//! A holder stakes an asset: the asset is delegated to the ledger and
//! frozen, and from then on earns reward points for each full day it stays
//! staked. After a minimum holding period the holder, and nobody else, can
//! withdraw it; the points can be redeemed for reward units.
//!
//! The crate has two layers. The [`instructions`] decide one transaction on
//! the records it names: they check, change the records and return what is
//! to be asked of the asset registry or of the reward mint ([`custody`]).
//! The [`ledger`] holds all records, finds those that a transaction names
//! and stores what its instruction left; [`model`] states what every
//! transaction does to the ledger and proves what holds of them. The
//! records are in [`state`], the reward arithmetic in [`rewards`], the
//! seeds and the derivation of addresses in [`address`].

use vstd::prelude::*;
use crate::address::{config_seeds, rewards_mint_seeds, try_find_program_address};
use crate::error::LedgerError;
use crate::ledger::Ledger;

pub mod address;
pub mod constants;
pub mod custody;
pub mod error;
pub mod instructions;
pub mod ledger;
pub mod model;
pub mod rewards;
pub mod state;
pub mod table;

verus! {

/// Bootstraps the ledger: creates the global configuration and the reward
/// mint at the addresses that the derivation finds for them.
///
/// This happens once. It is refused where a configuration exists, where an
/// address cannot be derived, and where a parameter is zero; the ledger then
/// stays as it was.
pub fn initialize(
    ledger: &mut Ledger,
    points_per_stake: u8,
    max_stake: u8,
    freeze_period: u32,
) -> (res: Result<(), LedgerError>)
    requires
        old(ledger).wf(),
    ensures
        final(ledger).wf(),
        (final(ledger)@, res) == old(ledger)@.initialize(
            points_per_stake,
            max_stake,
            freeze_period,
        ),
{
    let program_id = ledger.program_id();
    let config_slot = try_find_program_address(&config_seeds(), &program_id);
    let mint_slot = match config_slot {
        Some(config) => try_find_program_address(&rewards_mint_seeds(&config.key), &program_id),
        None => None,
    };
    ledger.configure(points_per_stake, max_stake, freeze_period, config_slot, mint_slot)
}

} // verus!
