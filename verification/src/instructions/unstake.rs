//! Withdrawing a staked asset.

use vstd::prelude::*;
use crate::custody::{CustodyAction, CustodyRequest};
use crate::error::StakeError;
use crate::rewards::{accrue, points_earned};
use crate::state::{Account, Key, StakeAccount, StakeConfig, User};

verus! {

/// The records named by a request to withdraw a staked asset.
#[derive(Clone, Copy, Debug, PartialEq, Eq)]
pub struct UnStake {
    /// Who asks for the withdrawal.
    pub user: Key,
    /// The asset to withdraw.
    pub mint: Key,
    /// The global configuration.
    pub config: Account<StakeConfig>,
    /// The slot of the asset's stake record: empty when the asset is not
    /// staked.
    pub stake_account: Account<Option<StakeAccount>>,
    /// The requester's holder account.
    pub user_account: Account<User>,
}

impl UnStake {
    /// The asset's stake record, where the slot holds one.
    pub open spec fn record(self) -> StakeAccount {
        self.stake_account.data->0
    }

    /// Seconds for which the asset has been staked at `now`.
    pub open spec fn elapsed(self, now: i64) -> int {
        now - self.record().last_update
    }

    /// Points that the stake has earned at `now`.
    pub open spec fn earned(self, now: i64) -> int {
        points_earned(
            self.record().last_update as int,
            now as int,
            self.config.data.points_per_stake as int,
        )
    }

    /// Whether the withdrawal is allowed at `now`, and if not, why not.
    ///
    /// An asset whose slot holds no stake record is staked by nobody, so
    /// nobody is authorized to withdraw it. Of a staked asset the holding
    /// period is tested first, then the requester; last, that the holder's
    /// stake count and point total stay in range.
    pub open spec fn verdict(self, now: i64) -> Result<(), StakeError> {
        if self.stake_account.data is None {
            Err(StakeError::Unauthorized)
        } else if self.elapsed(now) < self.config.data.freeze_period {
            Err(StakeError::UnstakeDelayNotMet)
        } else if self.record().owner != self.user {
            Err(StakeError::Unauthorized)
        } else if self.user_account.data.amount_staked == 0 || self.user_account.data.points
            + self.earned(now) > u32::MAX {
            Err(StakeError::ArithmeticOverflow)
        } else {
            Ok(())
        }
    }

    /// The records after a withdrawal at `now`: the stake record is gone,
    /// and the holder has one stake fewer and the earned points more.
    pub open spec fn settled(self, now: i64) -> UnStake {
        UnStake {
            stake_account: Account { data: None, ..self.stake_account },
            user_account: Account {
                data: User {
                    amount_staked: (self.user_account.data.amount_staked - 1) as u8,
                    points: (self.user_account.data.points + self.earned(now)) as u32,
                    ..self.user_account.data
                },
                ..self.user_account
            },
            ..self
        }
    }

    /// The request that hands the asset back: thaw and revoke, signed as
    /// the stake record's address.
    pub open spec fn release(self) -> CustodyRequest {
        CustodyRequest {
            action: CustodyAction::ThawAndRevoke,
            mint: self.mint,
            holder: self.user,
            delegate: self.stake_account.key,
            config: self.config.key,
            bump: self.record().bump,
        }
    }

    /// The whole transition at `now`: the records afterwards and the result.
    /// A withdrawal that is allowed destroys the stake record, settles the
    /// holder account and asks for the release; one that is not leaves every
    /// record as it was.
    pub open spec fn outcome(self, now: i64) -> (UnStake, Result<CustodyRequest, StakeError>) {
        match self.verdict(now) {
            Ok(_) => (self.settled(now), Ok(self.release())),
            Err(e) => (self, Err(e)),
        }
    }

    /// Withdraws the asset at time `now`.
    ///
    /// On success the stake record is destroyed, the holder account is
    /// settled and the custody release to be carried out is returned, so
    /// that the same stake cannot be withdrawn, nor its points credited,
    /// twice. On any error nothing changes.
    pub fn unstake(&mut self, now: i64) -> (res: Result<CustodyRequest, StakeError>)
        ensures
            (*final(self), res) == old(self).outcome(now),
    {
        let record = match self.stake_account.data {
            Some(record) => record,
            None => {
                return Err(StakeError::Unauthorized);
            },
        };
        let elapsed: i128 = now as i128 - record.last_update as i128;
        if elapsed < self.config.data.freeze_period as i128 {
            return Err(StakeError::UnstakeDelayNotMet);
        }
        if record.owner != self.user {
            return Err(StakeError::Unauthorized);
        }
        if self.user_account.data.amount_staked == 0 {
            return Err(StakeError::ArithmeticOverflow);
        }
        let earned = match accrue(
            record.last_update,
            now,
            self.config.data.points_per_stake,
        ) {
            Ok(points) => points,
            Err(e) => {
                return Err(e);
            },
        };
        let points = match self.user_account.data.points.checked_add(earned) {
            Some(total) => total,
            None => {
                return Err(StakeError::ArithmeticOverflow);
            },
        };
        self.stake_account.data = None;
        self.user_account.data.amount_staked = self.user_account.data.amount_staked - 1;
        self.user_account.data.points = points;
        Ok(
            CustodyRequest {
                action: CustodyAction::ThawAndRevoke,
                mint: self.mint,
                holder: self.user,
                delegate: self.stake_account.key,
                config: self.config.key,
                bump: record.bump,
            },
        )
    }
}

/// While the holding period of a staked asset has not elapsed, a withdrawal
/// is rejected for its timing, whoever asks for it, and no record changes.
pub proof fn lemma_unstake_before_delay(ctx: UnStake, now: i64)
    requires
        ctx.stake_account.data is Some,
        ctx.elapsed(now) < ctx.config.data.freeze_period,
    ensures
        ctx.outcome(now) == (ctx, Err::<CustodyRequest, StakeError>(StakeError::UnstakeDelayNotMet)),
{
}

/// Once the holding period has elapsed, a withdrawal asked for by anyone but
/// the one who staked the asset is rejected as unauthorized, and no record
/// changes.
pub proof fn lemma_unstake_by_stranger(ctx: UnStake, now: i64)
    requires
        ctx.stake_account.data is Some,
        ctx.elapsed(now) >= ctx.config.data.freeze_period,
        ctx.user != ctx.record().owner,
    ensures
        ctx.outcome(now) == (ctx, Err::<CustodyRequest, StakeError>(StakeError::Unauthorized)),
{
}

/// A stake withdrawn `k` full days and `r` further seconds after it was made
/// has earned `k` times the daily rate, whatever `r` is; the holding period
/// is met as soon as the `k` days cover it; and a withdrawal that succeeds
/// credits exactly those points and takes one from the stake count.
pub proof fn lemma_reward_counts_full_days(ctx: UnStake, k: nat, r: nat, now: i64)
    requires
        ctx.stake_account.data is Some,
        r < 86400,
        now == ctx.record().last_update + k * 86400 + r,
        k * 86400 >= ctx.config.data.freeze_period,
    ensures
        ctx.earned(now) == k * ctx.config.data.points_per_stake,
        ctx.elapsed(now) >= ctx.config.data.freeze_period,
        ctx.outcome(now).1 is Ok ==> {
            &&& ctx.outcome(now).0.user_account.data.points == ctx.user_account.data.points + k
                * ctx.config.data.points_per_stake
            &&& ctx.outcome(now).0.user_account.data.amount_staked + 1
                == ctx.user_account.data.amount_staked
        },
        ctx.outcome(now).1 is Ok <==> {
            &&& ctx.user == ctx.record().owner
            &&& ctx.user_account.data.amount_staked > 0
            &&& ctx.user_account.data.points + k * ctx.config.data.points_per_stake <= u32::MAX
        },
{
    crate::rewards::lemma_full_days(ctx.record().last_update as int, k, r);
}

/// A stake is withdrawn once. A withdrawal that succeeded leaves the slot
/// empty, and where the slot is empty every withdrawal is rejected, whoever
/// asks and whenever, and changes nothing: no second withdrawal can credit
/// the points of the same stake again.
pub proof fn lemma_unstake_only_once(ctx: UnStake, first: i64, second: UnStake, later: i64)
    ensures
        second.stake_account.data is None ==> second.outcome(later) == (
            second,
            Err::<CustodyRequest, StakeError>(StakeError::Unauthorized),
        ),
        ctx.outcome(first).1 is Ok ==> {
            &&& ctx.outcome(first).0.stake_account.data is None
            &&& ctx.outcome(first).0.outcome(later) == (
                ctx.outcome(first).0,
                Err::<CustodyRequest, StakeError>(StakeError::Unauthorized),
            )
        },
{
}

} // verus!
