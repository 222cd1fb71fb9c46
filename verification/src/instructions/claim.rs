//! Redeeming accrued points for reward units.

use vstd::prelude::*;
use crate::custody::MintRequest;
use crate::error::StakeError;
use crate::state::{Account, Key, StakeConfig, User};

verus! {

/// The records named by a request to redeem points.
#[derive(Clone, Copy, Debug, PartialEq, Eq)]
pub struct Claim {
    /// The holder who redeems.
    pub user: Key,
    /// The reward mint.
    pub rewards_mint: Key,
    /// The global configuration, whose address is the mint's authority.
    pub config: Account<StakeConfig>,
    /// The holder's account.
    pub user_account: Account<User>,
}

impl Claim {
    /// The records after all points were redeemed.
    pub open spec fn claimed(self) -> Claim {
        Claim {
            user_account: Account {
                data: User { points: 0, ..self.user_account.data },
                ..self.user_account
            },
            ..self
        }
    }

    /// The request that creates one reward unit for each point held.
    pub open spec fn payout(self) -> MintRequest {
        MintRequest {
            mint: self.rewards_mint,
            recipient: self.user,
            amount: self.user_account.data.points,
            authority: self.config.key,
            bump: self.config.data.bump,
        }
    }

    /// The whole transition: the records afterwards and the result. A
    /// holder with points loses them all and is owed as many reward units;
    /// a holder without points is rejected and keeps every record as it was.
    pub open spec fn outcome(self) -> (Claim, Result<MintRequest, StakeError>) {
        if self.user_account.data.points > 0 {
            (self.claimed(), Ok(self.payout()))
        } else {
            (self, Err(StakeError::NoPointsToClaim))
        }
    }

    /// Redeems all of the holder's points.
    ///
    /// Succeeds exactly when the holder has points. The points are then set
    /// to zero and the request to create as many reward units is returned.
    /// Without points the claim is rejected and nothing changes.
    pub fn claim(&mut self) -> (res: Result<MintRequest, StakeError>)
        ensures
            (*final(self), res) == old(self).outcome(),
    {
        if self.user_account.data.points == 0 {
            return Err(StakeError::NoPointsToClaim);
        }
        let request = MintRequest {
            mint: self.rewards_mint,
            recipient: self.user,
            amount: self.user_account.data.points,
            authority: self.config.key,
            bump: self.config.data.bump,
        };
        self.user_account.data.points = 0;
        Ok(request)
    }
}

/// A claim is all or nothing. Without points it is rejected and changes
/// nothing; with `n` points it leaves none and asks for exactly `n` reward
/// units for the holder. No result debits points without the matching
/// request, or asks for units without the debit.
pub proof fn lemma_claim_all_or_nothing(ctx: Claim)
    ensures
        ctx.user_account.data.points == 0 ==> ctx.outcome() == (
            ctx,
            Err::<MintRequest, StakeError>(StakeError::NoPointsToClaim),
        ),
        ctx.user_account.data.points > 0 ==> {
            &&& ctx.outcome().1 matches Ok(request)
            &&& request.amount == ctx.user_account.data.points
            &&& request.recipient == ctx.user
            &&& ctx.outcome().0.user_account.data.points == 0
            &&& ctx.outcome().0.user_account.data.amount_staked
                == ctx.user_account.data.amount_staked
        },
        ctx.outcome().1 is Err ==> ctx.outcome().0 == ctx,
{
}

} // verus!
