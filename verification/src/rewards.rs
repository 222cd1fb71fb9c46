//! Reward accrual: the points earned by holding an asset for a span of time.

use vstd::prelude::*;
use crate::constants::SECONDS_PER_DAY;
use crate::error::StakeError;

verus! {

/// Full days between `last_update` and `now`; part of a day counts for nothing.
pub open spec fn days_staked(last_update: int, now: int) -> int {
    (now - last_update) / 86400
}

/// Points earned between `last_update` and `now` at `points_per_stake` a day.
pub open spec fn points_earned(last_update: int, now: int, points_per_stake: int) -> int {
    days_staked(last_update, now) * points_per_stake
}

/// A span of `k` full days and `r` further seconds, `r` less than a day,
/// counts as `k` days whatever `r` is.
pub proof fn lemma_full_days(last_update: int, k: nat, r: nat)
    requires
        r < 86400,
    ensures
        days_staked(last_update, last_update + k * 86400 + r) == k,
{
    assert((k * 86400 + r) / 86400 == k) by (nonlinear_arith)
        requires
            r < 86400,
    ;
}

/// The product of a day count and a rate is bounded by their bounds' product.
proof fn lemma_points_bounded(days: int, rate: int)
    requires
        0 <= days <= 0x1_0000_0000_0000,
        0 <= rate <= 255,
    ensures
        0 <= days * rate <= 0x1_0000_0000_0000 * 255,
{
    assert(0 <= days * rate <= 0x1_0000_0000_0000 * 255) by (nonlinear_arith)
        requires
            0 <= days <= 0x1_0000_0000_0000,
            0 <= rate <= 255,
    ;
}

/// Computes the points earned between `last_update` and `now`.
///
/// The count is taken in a width that holds every pair of timestamps, so the
/// result is exact whenever it is a `u32`; otherwise, and when `now` lies
/// before `last_update`, the computation is rejected.
pub fn accrue(last_update: i64, now: i64, points_per_stake: u8) -> (res: Result<u32, StakeError>)
    ensures
        res is Ok <==> last_update <= now && points_earned(
            last_update as int,
            now as int,
            points_per_stake as int,
        ) <= u32::MAX,
        res matches Ok(points) ==> points == points_earned(
            last_update as int,
            now as int,
            points_per_stake as int,
        ),
        res matches Err(e) ==> e == StakeError::ArithmeticOverflow,
{
    if now < last_update {
        return Err(StakeError::ArithmeticOverflow);
    }
    let elapsed: i128 = now as i128 - last_update as i128;
    let days: i128 = elapsed / (SECONDS_PER_DAY as i128);
    proof {
        lemma_points_bounded(days as int, points_per_stake as int);
    }
    let earned: i128 = days * (points_per_stake as i128);
    if earned > u32::MAX as i128 {
        Err(StakeError::ArithmeticOverflow)
    } else {
        Ok(earned as u32)
    }
}

} // verus!
