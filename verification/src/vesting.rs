//! Linear release of an amount between a start and an end, behind a cliff.

use vstd::prelude::*;
use crate::arith::{lemma_mul_div_floor_bounded, lemma_mul_div_floor_monotonic, mul_div, mul_div_floor};

verus! {

/// Why a claim against a schedule is turned down.
#[derive(Clone, Copy, Debug, PartialEq, Eq, Structural)]
pub enum VestingError {
    /// The cliff has not passed yet.
    StillInCliff,
    /// Everything vested so far has been released already.
    NothingToClaim,
}

/// Seconds from `start` to `now`, zero while `now` has not reached `start`.
pub open spec fn elapsed_since(start: int, now: int) -> int {
    if now > start {
        now - start
    } else {
        0
    }
}

/// The amount vested at `now`: nothing before `start`, the whole from `end`
/// on, and in between the elapsed fraction of the whole, rounded down.
pub open spec fn vested_amount(total: int, start: int, end: int, now: int) -> int {
    let elapsed = elapsed_since(start, now);
    let duration = elapsed_since(start, end);
    if elapsed >= duration {
        total
    } else {
        mul_div_floor(total, elapsed, duration)
    }
}

/// What has vested at `now` and has not been released.
pub open spec fn unreleased_amount(total: int, released: int, start: int, end: int, now: int) -> int {
    let vested = vested_amount(total, start, end, now);
    if vested > released {
        vested - released
    } else {
        0
    }
}

/// What can be paid out at `now`: nothing while the cliff of `cliff` seconds
/// after `start` stands, and from then on what has vested and has not been
/// released.
pub open spec fn claimable_amount(
    total: int,
    released: int,
    start: int,
    end: int,
    cliff: int,
    now: int,
) -> int {
    if now < start + cliff {
        0
    } else {
        unreleased_amount(total, released, start, end, now)
    }
}

/// The outcome of a claim at `now` against a schedule with a cliff of `cliff`
/// seconds after `start`.
pub open spec fn claim_outcome(
    total: int,
    released: int,
    start: int,
    end: int,
    cliff: int,
    now: int,
) -> Result<int, VestingError> {
    if now < start + cliff {
        Err(VestingError::StillInCliff)
    } else if claimable_amount(total, released, start, end, cliff, now) == 0 {
        Err(VestingError::NothingToClaim)
    } else {
        Ok(claimable_amount(total, released, start, end, cliff, now))
    }
}

/// The vested amount never exceeds the whole.
pub proof fn lemma_vested_bounded(total: int, start: int, end: int, now: int)
    requires
        0 <= total,
    ensures
        0 <= vested_amount(total, start, end, now) <= total,
{
    let elapsed = elapsed_since(start, now);
    let duration = elapsed_since(start, end);
    if elapsed < duration {
        lemma_mul_div_floor_bounded(total, elapsed, duration);
    }
}

/// The vested amount never decreases as time passes.
pub proof fn lemma_vested_monotonic(total: int, start: int, end: int, t1: int, t2: int)
    requires
        0 <= total,
        t1 <= t2,
    ensures
        vested_amount(total, start, end, t1) <= vested_amount(total, start, end, t2),
{
    let e1 = elapsed_since(start, t1);
    let e2 = elapsed_since(start, t2);
    let duration = elapsed_since(start, end);
    lemma_vested_bounded(total, start, end, t1);
    if e2 < duration {
        lemma_mul_div_floor_monotonic(total, e1, total, e2, duration);
    }
}

/// From the end of the schedule on, the whole amount is vested.
pub proof fn lemma_vested_at_end(total: int, start: int, end: int, now: int)
    requires
        now >= end,
    ensures
        vested_amount(total, start, end, now) == total,
        vested_amount(total, start, end, end) == total,
{
}

/// Once the whole amount has been released, nothing is claimable at any
/// time, whatever the cliff.
pub proof fn lemma_nothing_after_full_release(
    total: int,
    start: int,
    end: int,
    cliff: int,
    now: int,
)
    requires
        0 <= total,
    ensures
        unreleased_amount(total, total, start, end, now) == 0,
        claimable_amount(total, total, start, end, cliff, now) == 0,
{
    lemma_vested_bounded(total, start, end, now);
}

/// While the cliff stands nothing is claimable, and a claim is refused.
pub proof fn lemma_nothing_claimable_in_cliff(
    total: int,
    released: int,
    start: int,
    end: int,
    cliff: int,
    now: int,
)
    requires
        now < start + cliff,
    ensures
        claimable_amount(total, released, start, end, cliff, now) == 0,
        claim_outcome(total, released, start, end, cliff, now) == Err::<int, VestingError>(
            VestingError::StillInCliff,
        ),
{
}

/// Releasing what is claimable never takes the released amount past the whole.
pub proof fn lemma_release_bounded(
    total: int,
    released: int,
    start: int,
    end: int,
    cliff: int,
    now: int,
)
    requires
        0 <= released <= total,
    ensures
        released <= released + claimable_amount(total, released, start, end, cliff, now) <= total,
        released <= released + unreleased_amount(total, released, start, end, now) <= total,
{
    lemma_vested_bounded(total, start, end, now);
}

/// Computes the amount vested at `now`.
pub fn vested(total: u64, start: i64, end: i64, now: i64) -> (amount: u64)
    ensures
        amount == vested_amount(total as int, start as int, end as int, now as int),
        amount <= total,
{
    proof {
        lemma_vested_bounded(total as int, start as int, end as int, now as int);
    }
    let elapsed: u64 = if now > start {
        (now as i128 - start as i128) as u64
    } else {
        0
    };
    let duration: u64 = if end > start {
        (end as i128 - start as i128) as u64
    } else {
        0
    };
    if elapsed >= duration {
        total
    } else {
        proof {
            lemma_mul_div_floor_bounded(total as int, elapsed as int, duration as int);
        }
        match mul_div(total, elapsed, duration) {
            Some(amount) => amount,
            None => total,
        }
    }
}

/// Computes what has vested at `now` and has not been released.
pub fn unreleased(total: u64, released: u64, start: i64, end: i64, now: i64) -> (amount: u64)
    ensures
        amount == unreleased_amount(
            total as int,
            released as int,
            start as int,
            end as int,
            now as int,
        ),
{
    let vested_to_date = vested(total, start, end, now);
    if vested_to_date > released {
        vested_to_date - released
    } else {
        0
    }
}

/// Computes what can be paid out at `now`: nothing while the cliff stands.
pub fn claimable(total: u64, released: u64, start: i64, end: i64, cliff: i64, now: i64) -> (amount:
    u64)
    ensures
        amount == claimable_amount(
            total as int,
            released as int,
            start as int,
            end as int,
            cliff as int,
            now as int,
        ),
{
    if (now as i128) < start as i128 + cliff as i128 {
        0
    } else {
        unreleased(total, released, start, end, now)
    }
}

/// Decides a claim at `now`: the cliff must have passed and something must be
/// claimable.  Returns the amount to pay out.
pub fn claim(total: u64, released: u64, start: i64, end: i64, cliff: i64, now: i64) -> (outcome:
    Result<u64, VestingError>)
    ensures
        match outcome {
            Ok(amount) => claim_outcome(
                total as int,
                released as int,
                start as int,
                end as int,
                cliff as int,
                now as int,
            ) == Ok::<int, VestingError>(amount as int),
            Err(e) => claim_outcome(
                total as int,
                released as int,
                start as int,
                end as int,
                cliff as int,
                now as int,
            ) == Err::<int, VestingError>(e),
        },
{
    if (now as i128) < start as i128 + cliff as i128 {
        return Err(VestingError::StillInCliff);
    }
    let amount = claimable(total, released, start, end, cliff, now);
    if amount == 0 {
        Err(VestingError::NothingToClaim)
    } else {
        Ok(amount)
    }
}

} // verus!
