//! Percentages of a usage window, in fixed point (see `decimal`).
use vstd::prelude::*;

use crate::decimal::{lemma_pow10_values, lemma_scaled_bound, Decimal, FULL_PERCENT};

verus! {

/// `value.clamp(0.0, 100.0)` of a percentage, in fixed point.
pub open spec fn clamped(d: Decimal) -> int {
    if d.is_below_zero() {
        0
    } else if d.is_above(100) {
        FULL_PERCENT as int
    } else {
        d.scaled_magnitude(9) as int
    }
}

/// A percentage that may be written as a fraction: values in `[0, 1]` are multiplied by 100,
/// everything is then clamped to `[0, 100]`.
pub open spec fn normalized(d: Decimal) -> int {
    if d.is_within(1) {
        d.scaled_magnitude(11) as int
    } else {
        clamped(d)
    }
}

/// `value.clamp(0.0, 100.0)`.
pub fn clamp_percent(d: &Decimal) -> (res: i64)
    ensures
        res == clamped(*d),
        0 <= res <= FULL_PERCENT,
{
    if d.below_zero() {
        0
    } else if d.above(100) {
        FULL_PERCENT
    } else {
        proof {
            crate::decimal::lemma_pow10_values();
        }
        d.scaled(9)
    }
}

/// `normalize_percent`: fractions in `[0, 1]` are read as shares of 100, then clamped.
pub fn normalize_percent(d: &Decimal) -> (res: i64)
    ensures
        res == normalized(*d),
        0 <= res <= FULL_PERCENT,
{
    if d.within(1) {
        proof {
            crate::decimal::lemma_within_one(*d);
            crate::decimal::lemma_pow10_values();
        }
        d.scaled(11)
    } else {
        clamp_percent(d)
    }
}

/// A clamped percentage lies in `[0, 100%]`.
pub proof fn lemma_clamped_range(d: Decimal)
    ensures
        0 <= clamped(d) <= FULL_PERCENT,
{
    if !d.is_below_zero() && !d.is_above(100) {
        assert(d.is_within(100));
        lemma_scaled_bound(d, 100, 9);
        lemma_pow10_values();
    }
}

/// A normalized percentage lies in `[0, 100%]`.
pub proof fn lemma_normalized_range(d: Decimal)
    ensures
        0 <= normalized(d) <= FULL_PERCENT,
{
    if d.is_within(1) {
        lemma_scaled_bound(d, 1, 11);
        lemma_pow10_values();
    } else {
        lemma_clamped_range(d);
    }
}

/// `100 - p` for a percentage in `[0, 100]`.
pub fn complement(p: i64) -> (res: i64)
    requires
        0 <= p <= FULL_PERCENT,
    ensures
        res == FULL_PERCENT - p,
        0 <= res <= FULL_PERCENT,
{
    FULL_PERCENT - p
}

} // verus!
