//! Fixed parameters of the staking program.

use vstd::prelude::*;

verus! {

/// Length of one reward day in seconds.
pub const SECONDS_PER_DAY: i64 = 86400;

/// Decimal places of the reward mint.
pub const REWARD_DECIMALS: u8 = 6;

/// Seed tag of the configuration record: the bytes of `config`.
pub const CONFIG_SEED: [u8; 6] = [99, 111, 110, 102, 105, 103];

/// Seed tag of a holder account: the bytes of `user`.
pub const USER_SEED: [u8; 4] = [117, 115, 101, 114];

/// Seed tag of a stake record: the bytes of `stake`.
pub const STAKE_SEED: [u8; 5] = [115, 116, 97, 107, 101];

/// Seed tag of the reward mint: the bytes of `rewards_mint`.
pub const REWARDS_MINT_SEED: [u8; 12] = [114, 101, 119, 97, 114, 100, 115, 95, 109, 105, 110, 116];

} // verus!
