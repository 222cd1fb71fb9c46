//! The ways in which a staking instruction is rejected.

use vstd::prelude::*;

verus! {

/// Why an instruction was rejected. A rejected instruction changes nothing.
#[derive(Clone, Copy, Debug, PartialEq, Eq, Structural)]
pub enum StakeError {
    /// The asset is not one that its presenter can stake: the token account
    /// presented does not hold it for them, or it is staked already.
    IncorrectMint,
    /// The asset does not belong to the expected collection.
    IncorrectCollection,
    /// The asset's collection membership has not been verified.
    CollectionNotVerified,
    /// The holder already has the maximum number of assets staked.
    MaxStakeReached,
    /// The minimum holding period has not yet elapsed.
    UnstakeDelayNotMet,
    /// The requester is not the one who staked the asset, or the asset is
    /// not staked.
    Unauthorized,
    /// The holder has no points to redeem.
    NoPointsToClaim,
    /// The ledger cannot be configured so: a parameter is zero, or a
    /// configuration exists already.
    InvalidConfiguration,
    /// A count or a point total left its range.
    ArithmeticOverflow,
}

/// Why the ledger refused a transaction. A refused transaction changes
/// nothing.
#[derive(Clone, Copy, Debug, PartialEq, Eq, Structural)]
pub enum LedgerError {
    /// A record that the transaction would create exists already.
    AlreadyInUse,
    /// A record that the transaction names does not exist.
    NotInitialized,
    /// No address can be derived for a record that the transaction would
    /// create.
    NoAddress,
    /// The instruction itself rejected the transaction.
    Rejected(StakeError),
}

impl StakeError {
    /// The text shown to a client for this rejection.
    pub open spec fn text(self) -> Seq<char> {
        match self {
            StakeError::IncorrectMint => "Incorrect mint"@,
            StakeError::IncorrectCollection => "Incorrect collection"@,
            StakeError::CollectionNotVerified => "Collection not verified"@,
            StakeError::MaxStakeReached => "Max stake reached"@,
            StakeError::UnstakeDelayNotMet => "Unstake delay not met"@,
            StakeError::Unauthorized => "Unauthorized - not the owner"@,
            StakeError::NoPointsToClaim => "No points to claim"@,
            StakeError::InvalidConfiguration => "Invalid configuration"@,
            StakeError::ArithmeticOverflow => "Arithmetic overflow"@,
        }
    }

    /// The text shown to a client for this rejection.
    pub fn message(&self) -> (msg: String)
        ensures
            msg@ == self.text(),
    {
        match self {
            StakeError::IncorrectMint => "Incorrect mint".to_owned(),
            StakeError::IncorrectCollection => "Incorrect collection".to_owned(),
            StakeError::CollectionNotVerified => "Collection not verified".to_owned(),
            StakeError::MaxStakeReached => "Max stake reached".to_owned(),
            StakeError::UnstakeDelayNotMet => "Unstake delay not met".to_owned(),
            StakeError::Unauthorized => "Unauthorized - not the owner".to_owned(),
            StakeError::NoPointsToClaim => "No points to claim".to_owned(),
            StakeError::InvalidConfiguration => "Invalid configuration".to_owned(),
            StakeError::ArithmeticOverflow => "Arithmetic overflow".to_owned(),
        }
    }
}

} // verus!
