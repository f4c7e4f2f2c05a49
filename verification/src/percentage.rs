//! Used-memory percentage: exact rounding in integers, then a clamp into the
//! signed byte that the panel has room for.

use vstd::prelude::*;
use vstd::arithmetic::div_mod::lemma_fundamental_div_mod;
use crate::error::CollectionError;

verus! {

/// Largest percentage that a snapshot can hold.
pub const MAX_PERCENTAGE: i8 = 127;

/// `used / total * 100`, rounded to the nearest integer, halves upwards.
///
/// Only meaningful for `total > 0`.
pub open spec fn rounded_percentage(used: nat, total: nat) -> nat {
    (200 * used + total) / (2 * total)
}

/// The lossy step: values beyond the signed byte's range stay at its end.
pub open spec fn clamp_percentage(value: nat) -> int {
    if value > 127 { 127 } else { value as int }
}

/// The percentage stored in a snapshot for a memory pair with `total > 0`.
pub open spec fn percentage_of(used: nat, total: nat) -> int {
    clamp_percentage(rounded_percentage(used, total))
}

/// The rounded percentage is the one integer `p` whose distance from the
/// exact quotient is at most one half, ties going up:
/// `(2p - 1) * total <= 200 * used < (2p + 1) * total`.
pub proof fn lemma_rounded_percentage_is_nearest(used: nat, total: nat)
    requires
        total > 0,
    ensures
        (2 * rounded_percentage(used, total) - 1) * total <= 200 * used,
        200 * used < (2 * rounded_percentage(used, total) + 1) * total,
{
    let n: int = (200 * used + total) as int;
    let d: int = (2 * total) as int;
    let p: int = n / d;
    lemma_fundamental_div_mod(n, d);
    assert(0 <= n % d < d);
    assert(d * p == 2 * p * total) by (nonlinear_arith)
        requires d == 2 * total;
    assert((2 * p - 1) * total == 2 * p * total - total) by (nonlinear_arith);
    assert((2 * p + 1) * total == 2 * p * total + total) by (nonlinear_arith);
}

/// Any integer that is nearest to the exact quotient in the sense above is
/// the rounded percentage: the rounding has exactly one answer.
pub proof fn lemma_rounded_percentage_unique(used: nat, total: nat, p: nat)
    requires
        total > 0,
        (2 * p - 1) * total <= 200 * used,
        200 * used < (2 * p + 1) * total,
    ensures
        p == rounded_percentage(used, total),
{
    let q: nat = rounded_percentage(used, total);
    lemma_rounded_percentage_is_nearest(used, total);
    if p < q {
        assert((2 * p + 1) * total <= (2 * q - 1) * total) by (nonlinear_arith)
            requires p + 1 <= q, total > 0;
    } else if q < p {
        assert((2 * q + 1) * total <= (2 * p - 1) * total) by (nonlinear_arith)
            requires q + 1 <= p, total > 0;
    }
}

/// For a memory pair with `used <= total` the percentage lies in `[0, 100]`
/// and the clamp changes nothing.
pub proof fn lemma_percentage_within_hundred(used: nat, total: nat)
    requires
        total > 0,
        used <= total,
    ensures
        rounded_percentage(used, total) <= 100,
        percentage_of(used, total) == rounded_percentage(used, total),
        0 <= percentage_of(used, total) <= 100,
{
    let p: nat = rounded_percentage(used, total);
    lemma_rounded_percentage_is_nearest(used, total);
    if p > 100 {
        assert((2 * p - 1) * total >= 201 * total) by (nonlinear_arith)
            requires p >= 101, total > 0;
    }
}

/// Computes the percentage of `total` that `used` makes up.
///
/// A total of zero is refused. Otherwise the exact quotient is rounded to
/// the nearest integer and clamped to `MAX_PERCENTAGE`.
pub fn used_memory_percentage(used: u64, total: u64) -> (res: Result<i8, CollectionError>)
    ensures
        total == 0 ==> res == Err::<i8, CollectionError>(CollectionError::ZeroTotalMemory),
        total > 0 ==> res == Ok::<i8, CollectionError>(percentage_of(used as nat, total as nat) as i8),
{
    if total == 0 {
        return Err(CollectionError::ZeroTotalMemory);
    }
    let numerator: u128 = 200u128 * (used as u128) + (total as u128);
    let denominator: u128 = 2u128 * (total as u128);
    let rounded: u128 = numerator / denominator;
    if rounded > 127 {
        Ok(MAX_PERCENTAGE)
    } else {
        Ok(rounded as i8)
    }
}

} // verus!
