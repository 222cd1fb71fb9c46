//! Staking an asset.

use vstd::prelude::*;
use crate::custody::{CustodyAction, CustodyRequest, Metadata, TokenAccount};
use crate::error::StakeError;
use crate::state::{Account, Key, StakeAccount, StakeConfig, User};

verus! {

/// The bump seed of the address that the instruction creates.
#[derive(Clone, Copy, Debug, PartialEq, Eq, Structural)]
pub struct StakeBumps {
    /// Bump seed of the stake record's address.
    pub stake_account: u8,
}

/// The records named by a request to stake an asset.
#[derive(Clone, Copy, Debug, PartialEq, Eq)]
pub struct Stake {
    /// Who stakes the asset.
    pub user: Key,
    /// The asset to stake.
    pub mint: Key,
    /// The collection that the asset must belong to.
    pub collection_mint: Key,
    /// The registry's statement of who holds the asset.
    pub mint_ata: TokenAccount,
    /// The registry's metadata of the asset.
    pub metadata: Metadata,
    /// The global configuration.
    pub config: Account<StakeConfig>,
    /// The slot of the asset's stake record: empty while the asset is not
    /// staked.
    pub stake_account: Account<Option<StakeAccount>>,
    /// The staker's holder account.
    pub user_account: Account<User>,
}

impl Stake {
    /// Whether the asset may be staked, and if not, why not.
    ///
    /// An asset whose slot holds a stake record is staked already and is
    /// not one to stake, whoever asks. Then ownership is tested, then the
    /// collection and its verification, last the holder's capacity.
    pub open spec fn verdict(self) -> Result<(), StakeError> {
        if self.stake_account.data is Some {
            Err(StakeError::IncorrectMint)
        } else if !self.mint_ata.proves_ownership(self.mint, self.user) {
            Err(StakeError::IncorrectMint)
        } else if !(self.metadata.collection matches Some(c) && c.key == self.collection_mint) {
            Err(StakeError::IncorrectCollection)
        } else if !self.metadata.collection->0.verified {
            Err(StakeError::CollectionNotVerified)
        } else if self.user_account.data.amount_staked >= self.config.data.max_stake {
            Err(StakeError::MaxStakeReached)
        } else {
            Ok(())
        }
    }

    /// The records after the asset was staked at `now`: the slot holds a
    /// stake record that names the staker and the time, and the holder has
    /// one stake more.
    pub open spec fn staked(self, now: i64, bumps: StakeBumps) -> Stake {
        Stake {
            stake_account: Account {
                data: Some(
                    StakeAccount {
                        owner: self.user,
                        mint: self.mint,
                        last_update: now,
                        bump: bumps.stake_account,
                    },
                ),
                ..self.stake_account
            },
            user_account: Account {
                data: User {
                    amount_staked: (self.user_account.data.amount_staked + 1) as u8,
                    ..self.user_account.data
                },
                ..self.user_account
            },
            ..self
        }
    }

    /// The request that puts the asset under the ledger's control: delegate
    /// to the stake record's address and freeze.
    pub open spec fn lock(self, bumps: StakeBumps) -> CustodyRequest {
        CustodyRequest {
            action: CustodyAction::DelegateAndFreeze,
            mint: self.mint,
            holder: self.user,
            delegate: self.stake_account.key,
            config: self.config.key,
            bump: bumps.stake_account,
        }
    }

    /// The whole transition at `now`: the records afterwards and the result.
    /// A stake that is allowed fills the stake record and asks for the lock;
    /// one that is not leaves every record as it was.
    pub open spec fn outcome(self, now: i64, bumps: StakeBumps) -> (
        Stake,
        Result<CustodyRequest, StakeError>,
    ) {
        match self.verdict() {
            Ok(_) => (self.staked(now, bumps), Ok(self.lock(bumps))),
            Err(e) => (self, Err(e)),
        }
    }

    /// Stakes the asset at time `now`.
    ///
    /// On success the slot holds the new stake record, the holder's stake
    /// count is raised by one and the custody lock to be carried out is
    /// returned. On any error nothing changes: a slot that holds a stake
    /// record keeps it.
    pub fn stake(&mut self, now: i64, bumps: &StakeBumps) -> (res: Result<CustodyRequest, StakeError>)
        ensures
            (*final(self), res) == old(self).outcome(now, *bumps),
    {
        if self.stake_account.data.is_some() {
            return Err(StakeError::IncorrectMint);
        }
        if !(self.mint_ata.mint == self.mint && self.mint_ata.owner == self.user
            && self.mint_ata.amount == 1) {
            return Err(StakeError::IncorrectMint);
        }
        let collection = match self.metadata.collection {
            Some(c) => c,
            None => {
                return Err(StakeError::IncorrectCollection);
            },
        };
        if collection.key != self.collection_mint {
            return Err(StakeError::IncorrectCollection);
        }
        if !collection.verified {
            return Err(StakeError::CollectionNotVerified);
        }
        if self.user_account.data.amount_staked >= self.config.data.max_stake {
            return Err(StakeError::MaxStakeReached);
        }
        self.stake_account.data = Some(
            StakeAccount {
                owner: self.user,
                mint: self.mint,
                last_update: now,
                bump: bumps.stake_account,
            },
        );
        self.user_account.data.amount_staked = self.user_account.data.amount_staked + 1;
        Ok(
            CustodyRequest {
                action: CustodyAction::DelegateAndFreeze,
                mint: self.mint,
                holder: self.user,
                delegate: self.stake_account.key,
                config: self.config.key,
                bump: bumps.stake_account,
            },
        )
    }
}

/// After a successful stake the slot, empty before, holds a stake record
/// that names the staker as its owner and the time as its start, and the
/// holder's stake count has grown by exactly one and does not exceed the
/// maximum.
pub proof fn lemma_stake_records_owner(ctx: Stake, now: i64, bumps: StakeBumps)
    requires
        ctx.outcome(now, bumps).1 is Ok,
    ensures
        ctx.stake_account.data is None,
        ctx.outcome(now, bumps).0.stake_account.data is Some,
        ctx.outcome(now, bumps).0.stake_account.data->0.owner == ctx.user,
        ctx.outcome(now, bumps).0.stake_account.data->0.mint == ctx.mint,
        ctx.outcome(now, bumps).0.stake_account.data->0.last_update == now,
        ctx.outcome(now, bumps).0.user_account.data.amount_staked
            == ctx.user_account.data.amount_staked + 1,
        ctx.outcome(now, bumps).0.user_account.data.amount_staked <= ctx.config.data.max_stake,
{
}

/// An asset is staked once. Where the slot holds a stake record, every
/// stake is rejected, whoever asks and whatever they present, and changes
/// nothing; and a stake that succeeded leaves such a slot, so that no
/// second stake of the asset can follow it while the record exists.
pub proof fn lemma_stake_only_once(first: Stake, second: Stake, times: (i64, i64), bumps: (
    StakeBumps,
    StakeBumps,
))
    ensures
        second.stake_account.data is Some ==> second.outcome(times.1, bumps.1) == (
            second,
            Err::<CustodyRequest, StakeError>(StakeError::IncorrectMint),
        ),
        first.outcome(times.0, bumps.0).1 is Ok && second.stake_account == first.outcome(
            times.0,
            bumps.0,
        ).0.stake_account ==> second.outcome(times.1, bumps.1) == (
            second,
            Err::<CustodyRequest, StakeError>(StakeError::IncorrectMint),
        ),
{
}

/// The maximum is a hard ceiling: a holder who has reached it cannot stake,
/// and the attempt changes nothing. For an asset that is not staked yet and
/// is otherwise acceptable the rejection names the capacity.
pub proof fn lemma_stake_at_capacity(ctx: Stake, now: i64, bumps: StakeBumps)
    requires
        ctx.user_account.data.amount_staked >= ctx.config.data.max_stake,
    ensures
        ctx.outcome(now, bumps).1 is Err,
        ctx.outcome(now, bumps).0 == ctx,
        ctx.stake_account.data is None && ctx.mint_ata.proves_ownership(ctx.mint, ctx.user)
            && ctx.metadata.collection == Some(
            crate::custody::Collection { key: ctx.collection_mint, verified: true },
        ) ==> ctx.outcome(now, bumps).1 == Err::<CustodyRequest, StakeError>(
            StakeError::MaxStakeReached,
        ),
{
}

} // verus!
