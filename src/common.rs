//! Rounding and clamping shared by every worksheet line.

use crate::decimal::{
    in_range, lemma_round_bounded, lemma_round_midpoint_away_from_zero,
    lemma_round_to_cent_idempotent, round_millionths_to_cents, round_to_cent, Decimal, CENT,
    MAX_UNITS,
};
use vstd::prelude::*;

verus! {

/// Rounds to exactly two decimal places, a midpoint going away from zero
/// (`123.455` to `123.46`, `-123.455` to `-123.46`).
pub fn round_half_up(value: Decimal) -> (r: Decimal)
    ensures
        r@ == round_to_cent(value@),
        in_range(r@),
{
    let u = value.units();
    let k = round_millionths_to_cents(u);
    proof {
        assert(MAX_UNITS == 99_999_999_999_999 * CENT);
        lemma_round_bounded(u as int, 99_999_999_999_999, CENT as int);
    }
    let r = Decimal::from_units(k * CENT);
    r.unwrap()
}

/// The larger of two values.
pub fn max(a: Decimal, b: Decimal) -> (r: Decimal)
    ensures
        r@ == if a@ > b@ { a@ } else { b@ },
        r == a || r == b,
{
    if b.lt(&a) {
        a
    } else {
        b
    }
}

/// The smaller of two values.
pub fn min(a: Decimal, b: Decimal) -> (r: Decimal)
    ensures
        r@ == if a@ < b@ { a@ } else { b@ },
        r == a || r == b,
{
    if a.lt(&b) {
        a
    } else {
        b
    }
}

/// Rounding twice gives what rounding once gives.
pub proof fn round_half_up_is_idempotent(x: Decimal)
    ensures
        round_to_cent(round_to_cent(x@)) == round_to_cent(x@),
{
    lemma_round_to_cent_idempotent(x@);
}

/// A value exactly half a cent past a whole cent rounds to the next cent away
/// from zero, whatever its sign.
pub proof fn round_half_up_breaks_ties_away_from_zero(x: Decimal)
    ensures
        x@ >= 0 && x@ % (CENT as int) == CENT / 2 ==> round_to_cent(x@) == x@ + CENT / 2,
        x@ < 0 && (-x@) % (CENT as int) == CENT / 2 ==> round_to_cent(x@) == x@ - CENT / 2,
{
    lemma_round_midpoint_away_from_zero(x@);
}

} // verus!
