//! Fixed-point percentage arithmetic.  Products are formed in 128 bits, so no
//! intermediate value wraps; a quotient that does not fit in 64 bits is
//! reported, never truncated.

use vstd::prelude::*;
use vstd::arithmetic::div_mod::{lemma_div_is_ordered, lemma_div_pos_is_pos};
use vstd::arithmetic::mul::{lemma_mul_inequality, lemma_mul_upper_bound, lemma_mul_nonnegative, lemma_mul_is_commutative};

verus! {

/// One hundred percent, in basis points.
pub const BPS_DENOMINATOR: u64 = 10_000;

/// `floor(a * b / d)` over the integers.
pub open spec fn mul_div_floor(a: int, b: int, d: int) -> int {
    (a * b) / d
}

/// The part of `total` that `bps` basis points select, rounded down.
pub open spec fn bps_share(total: int, bps: int) -> int {
    mul_div_floor(total, bps, 10_000)
}

/// The part of `total` that `pct` percent select, rounded down.
pub open spec fn percent_share(total: int, pct: int) -> int {
    mul_div_floor(total, pct, 100)
}

/// A share never exceeds the whole when the rate is at most the denominator.
pub proof fn lemma_mul_div_floor_bounded(a: int, b: int, d: int)
    requires
        0 <= a,
        0 <= b <= d,
        0 < d,
    ensures
        0 <= mul_div_floor(a, b, d) <= a,
{
    lemma_mul_nonnegative(a, b);
    lemma_div_pos_is_pos(a * b, d);
    lemma_mul_inequality(b, d, a);
    lemma_mul_is_commutative(a, b);
    lemma_mul_is_commutative(a, d);
    lemma_div_is_ordered(a * b, a * d, d);
    assert((a * d) / d == a) by (nonlinear_arith)
        requires
            0 < d,
    ;
}

/// A share grows with the rate and with the whole.
pub proof fn lemma_mul_div_floor_monotonic(a1: int, b1: int, a2: int, b2: int, d: int)
    requires
        0 <= a1 <= a2,
        0 <= b1 <= b2,
        0 < d,
    ensures
        0 <= mul_div_floor(a1, b1, d) <= mul_div_floor(a2, b2, d),
{
    lemma_mul_nonnegative(a1, b1);
    lemma_div_pos_is_pos(a1 * b1, d);
    assert(a1 * b1 <= a2 * b2) by (nonlinear_arith)
        requires
            0 <= a1 <= a2,
            0 <= b1 <= b2,
    ;
    lemma_div_is_ordered(a1 * b1, a2 * b2, d);
}

/// `floor(a * b / d)`, or `None` when `d` is zero or the quotient exceeds
/// `u64::MAX`.
pub fn mul_div(a: u64, b: u64, d: u64) -> (q: Option<u64>)
    ensures
        q is Some <==> d != 0 && mul_div_floor(a as int, b as int, d as int) <= u64::MAX,
        q is Some ==> q->0 == mul_div_floor(a as int, b as int, d as int),
{
    if d == 0 {
        return None;
    }
    proof {
        lemma_mul_upper_bound(a as int, u64::MAX as int, b as int, u64::MAX as int);
        lemma_mul_nonnegative(a as int, b as int);
        assert(0xffff_ffff_ffff_ffff * 0xffff_ffff_ffff_ffff
            <= 0xffff_ffff_ffff_ffff_ffff_ffff_ffff_ffff) by (nonlinear_arith);
    }
    let product: u128 = (a as u128) * (b as u128);
    let quotient: u128 = product / (d as u128);
    if quotient > u64::MAX as u128 {
        None
    } else {
        Some(quotient as u64)
    }
}

/// Splits `total` into a fee of `fee_bps` basis points, rounded down, and the
/// remainder.  Fails only when the fee would exceed `total`, which a rate of at
/// most 10000 never does.
pub fn split(total: u64, fee_bps: u16) -> (parts: Option<(u64, u64)>)
    ensures
        parts is Some <==> bps_share(total as int, fee_bps as int) <= total,
        fee_bps <= 10_000 ==> parts is Some,
        parts is Some ==> {
            let (fee, remainder) = parts->0;
            &&& fee == bps_share(total as int, fee_bps as int)
            &&& fee + remainder == total
        },
{
    proof {
        if fee_bps <= 10_000 {
            lemma_mul_div_floor_bounded(total as int, fee_bps as int, 10_000);
        }
    }
    match mul_div(total, fee_bps as u64, BPS_DENOMINATOR) {
        Some(fee) => {
            if fee > total {
                None
            } else {
                Some((fee, total - fee))
            }
        },
        None => None,
    }
}

/// The part of `total` that `pct` percent select, rounded down, or `None`
/// when it exceeds `u64::MAX`.
pub fn percent_of(total: u64, pct: u8) -> (share: Option<u64>)
    ensures
        share is Some <==> percent_share(total as int, pct as int) <= u64::MAX,
        pct <= 100 ==> share is Some,
        share is Some ==> share->0 == percent_share(total as int, pct as int),
        share is Some && pct <= 100 ==> share->0 <= total,
{
    proof {
        if pct <= 100 {
            lemma_mul_div_floor_bounded(total as int, pct as int, 100);
        }
    }
    mul_div(total, pct as u64, 100)
}

/// For every amount and every rate of at most 100%, the fee is the floor of
/// the exact product and the two parts add up to the amount.
pub proof fn lemma_split_exact(total: u64, fee_bps: u16)
    requires
        fee_bps <= 10_000,
    ensures
        0 <= bps_share(total as int, fee_bps as int) <= total,
        bps_share(total as int, fee_bps as int) == (total as int * fee_bps as int) / 10_000,
        bps_share(total as int, fee_bps as int) + (total - bps_share(total as int, fee_bps as int))
            == total,
        fee_bps == 0 ==> bps_share(total as int, fee_bps as int) == 0,
        fee_bps == 10_000 ==> bps_share(total as int, fee_bps as int) == total,
{
    lemma_mul_div_floor_bounded(total as int, fee_bps as int, 10_000);
    if fee_bps == 0 {
        assert(total as int * 0 == 0);
    }
    if fee_bps == 10_000 {
        assert((total as int * 10_000) / 10_000 == total as int) by (nonlinear_arith);
    }
}

} // verus!
