//! Exact fixed-point decimal amounts and the paper-form rounding rule.
//!
//! A [`Decimal`] is a count of millionths. Sums and products are formed
//! exactly on integers and then rounded once to the cent, half away from
//! zero, which is the rounding printed on the worksheets.

use vstd::arithmetic::div_mod::{
    lemma_div_is_ordered, lemma_div_pos_is_pos, lemma_fundamental_div_mod,
    lemma_fundamental_div_mod_converse_div, lemma_mod_bound,
};
use crate::text::{append_nat, append_padded, drop_trailing_zeros, nat_text, padded_digits};
use vstd::prelude::*;

verus! {

/// Number of fractional digits that a [`Decimal`] holds.
pub const SCALE: u32 = 6;

/// One whole unit (1.000000) in millionths.
pub const UNIT: i128 = 1_000_000;

/// One cent (0.01) in millionths.
pub const CENT: i128 = 10_000;

/// Bound on the magnitude of the integers that rounding divides.
const QUOTIENT_LIMIT: i128 = 10_000_000_000_000_000_000_000_000_000_000_000_000;

/// Largest magnitude, in millionths, that a [`Decimal`] holds: 999,999,999,999.99.
pub const MAX_UNITS: i128 = 999_999_999_999_990_000;

/// An exact decimal number with six fractional digits, stored as a count of millionths.
#[derive(Clone, Copy, Debug, PartialEq, Eq, Structural, Hash)]
pub struct Decimal {
    units: i128,
}

/// Whether a count of millionths lies in the range a [`Decimal`] can hold.
pub open spec fn in_range(u: int) -> bool {
    -MAX_UNITS <= u <= MAX_UNITS
}

/// `n / d` rounded to the nearest integer, a midpoint going away from zero.
pub open spec fn round_half_away(n: int, d: int) -> int {
    if n >= 0 {
        (2 * n + d) / (2 * d)
    } else {
        -((d - 2 * n) / (2 * d))
    }
}

/// The absolute value of an integer.
pub open spec fn magnitude(n: int) -> int {
    if n < 0 {
        -n
    } else {
        n
    }
}

/// An amount in millionths rounded to whole cents (still in millionths).
pub open spec fn round_to_cent(u: int) -> int {
    round_half_away(u, CENT as int) * CENT
}

/// The exact product of two amounts in millionths, rounded to whole cents (in millionths).
pub open spec fn round_product(a: int, b: int) -> int {
    round_half_away(a * b, UNIT * CENT) * CENT
}

/// `a * num / den` for an amount `a` in millionths, rounded to whole cents (in millionths).
pub open spec fn round_ratio(a: int, num: int, den: int) -> int {
    round_half_away(a * num, den * CENT) * CENT
}

/// Whether an amount in millionths is a whole number of cents.
pub open spec fn is_cents(u: int) -> bool {
    u % (CENT as int) == 0
}

/// Largest mantissa magnitude of a 96-bit decimal.
pub const MAX_MANTISSA: i128 = 79_228_162_514_264_337_593_543_950_335;

/// The value in millionths of `mantissa × 10^(-scale)`, if it is a whole number
/// of millionths in range.
pub open spec fn exact_units(mantissa: int, scale: nat) -> Option<int> {
    if scale <= SCALE {
        let u = mantissa * pow10((SCALE - scale) as nat);
        if in_range(u) {
            Some(u)
        } else {
            None
        }
    } else {
        let p = pow10((scale - SCALE) as nat);
        let q = magnitude(mantissa) / p;
        let u = if mantissa < 0 { -q } else { q };
        if magnitude(mantissa) % p == 0 && in_range(u) {
            Some(u)
        } else {
            None
        }
    }
}

/// What rust_decimal's `Decimal::from_str` reads from a text: its mantissa and
/// scale, or `None` where the text is not a decimal.
pub uninterp spec fn decimal_literal_of(text: Seq<char>) -> Option<(int, int)>;

/// The value in millionths of a decimal text, if it is one that a [`Decimal`] holds exactly.
pub open spec fn text_units(text: Seq<char>) -> Option<int> {
    match decimal_literal_of(text) {
        Some(ms) => if ms.1 >= 0 {
            exact_units(ms.0, ms.1 as nat)
        } else {
            None
        },
        None => None,
    }
}

/// Relies on rust_decimal's `impl FromStr for Decimal`: the decimal a text spells,
/// taken apart into its mantissa (at most 96 bits) and its scale (at most 28).
#[verifier::external_body]
fn read_decimal_literal(text: &str) -> (r: Option<(i128, u32)>)
    ensures
        r is Some <==> decimal_literal_of(text@) is Some,
        r is Some ==> decimal_literal_of(text@) == Some((r.unwrap().0 as int, r.unwrap().1 as int)),
        r is Some ==> -MAX_MANTISSA <= r.unwrap().0 <= MAX_MANTISSA && r.unwrap().1 <= 28,
{
    match <rust_decimal::Decimal as std::str::FromStr>::from_str(text) {
        Ok(d) => Some((d.mantissa(), d.scale())),
        Err(_) => None,
    }
}

/// An amount in millionths written in decimal: a `-` when negative, the whole
/// part, then a point and the fraction without its trailing zeros, if it has one.
pub open spec fn decimal_text_of(units: int) -> Seq<char> {
    let a = magnitude(units);
    let frac = a % (UNIT as int);
    let kept = drop_trailing_zeros(frac as nat, 6);
    (if units < 0 { "-"@ } else { Seq::empty() }) + nat_text((a / (UNIT as int)) as nat) + (if frac == 0 {
        Seq::empty()
    } else {
        "."@ + padded_digits(kept.0, kept.1)
    })
}

/// An amount in millionths rounded to the cent and written with exactly two
/// decimal places, with a `-` when the rounded amount is negative.
pub open spec fn two_place_text_of(units: int) -> Seq<char> {
    let c = round_half_away(units, CENT as int);
    let a = magnitude(c);
    (if c < 0 { "-"@ } else { Seq::empty() }) + nat_text((a / 100) as nat) + "."@ + padded_digits(
        (a % 100) as nat,
        2,
    )
}

/// `10` to the power `n`.
pub open spec fn pow10(n: nat) -> int
    decreases n,
{
    if n == 0 {
        1
    } else {
        10 * pow10((n - 1) as nat)
    }
}

impl View for Decimal {
    type V = int;

    closed spec fn view(&self) -> int {
        self.units as int
    }
}

/// The rounded quotient equals the integer below or above `n / d` in the way the
/// worksheet rule demands: the remainder decides, at least one half rounds up.
proof fn lemma_round_by_remainder(m: int, d: int)
    requires
        m >= 0,
        d > 0,
    ensures
        round_half_away(m, d) == (if 2 * (m % d) >= d { m / d + 1 } else { m / d }),
        m / d >= 0,
{
    lemma_fundamental_div_mod(m, d);
    lemma_mod_bound(m, d);
    lemma_div_pos_is_pos(m, d);
    let q = m / d;
    let r = m % d;
    assert(2 * m + d == (2 * d) * q + (2 * r + d)) by (nonlinear_arith)
        requires
            m == d * q + r,
    ;
    if 2 * r >= d {
        assert(2 * m + d == (2 * d) * (q + 1) + (2 * r - d)) by (nonlinear_arith)
            requires
                2 * m + d == (2 * d) * q + (2 * r + d),
        ;
        lemma_fundamental_div_mod_converse_div(2 * m + d, 2 * d, q + 1, 2 * r - d);
    } else {
        lemma_fundamental_div_mod_converse_div(2 * m + d, 2 * d, q, 2 * r + d);
    }
}

/// Rounding never moves a larger quotient below a smaller one.
pub proof fn lemma_round_monotonic(n1: int, n2: int, d: int)
    requires
        n1 <= n2,
        d > 0,
    ensures
        round_half_away(n1, d) <= round_half_away(n2, d),
{
    if n1 >= 0 {
        lemma_div_is_ordered(2 * n1 + d, 2 * n2 + d, 2 * d);
    } else if n2 < 0 {
        lemma_div_is_ordered(d - 2 * n2, d - 2 * n1, 2 * d);
    } else {
        lemma_div_pos_is_pos(d - 2 * n1, 2 * d);
        lemma_div_pos_is_pos(2 * n2 + d, 2 * d);
    }
}

/// A whole multiple of the divisor rounds to itself.
pub proof fn lemma_round_multiple(k: int, d: int)
    requires
        d > 0,
    ensures
        round_half_away(k * d, d) == k,
{
    if k >= 0 {
        assert(k * d >= 0) by (nonlinear_arith)
            requires
                k >= 0,
                d > 0,
        ;
        assert(2 * (k * d) + d == (2 * d) * k + d) by (nonlinear_arith);
        lemma_fundamental_div_mod_converse_div(2 * (k * d) + d, 2 * d, k, d);
    } else {
        assert(k * d < 0) by (nonlinear_arith)
            requires
                k < 0,
                d > 0,
        ;
        assert(d - 2 * (k * d) == (2 * d) * (-k) + d) by (nonlinear_arith);
        lemma_fundamental_div_mod_converse_div(d - 2 * (k * d), 2 * d, -k, d);
    }
}

/// Rounding a magnitude within `c * d` gives at most `c` in magnitude.
pub(crate) proof fn lemma_round_bounded(n: int, c: int, d: int)
    requires
        d > 0,
        c >= 0,
        -(c * d) <= n <= c * d,
    ensures
        -c <= round_half_away(n, d) <= c,
{
    assert(-c * d == (-c) * d) by (nonlinear_arith);
    assert(-(c * d) == -c * d) by (nonlinear_arith);
    lemma_round_monotonic(n, c * d, d);
    lemma_round_monotonic(-c * d, n, d);
    lemma_round_multiple(c, d);
    lemma_round_multiple(-c, d);
}

/// Rounding to the cent is idempotent: a rounded amount rounds to itself.
pub proof fn lemma_round_to_cent_idempotent(u: int)
    ensures
        round_to_cent(round_to_cent(u)) == round_to_cent(u),
        is_cents(round_to_cent(u)),
{
    let k = round_half_away(u, CENT as int);
    lemma_round_multiple(k, CENT as int);
    vstd::arithmetic::div_mod::lemma_mod_multiples_basic(k, CENT as int);
}

/// An amount that is exactly half a cent past a whole cent rounds away from zero:
/// up for a positive amount, down for a negative one.
pub proof fn lemma_round_midpoint_away_from_zero(u: int)
    ensures
        u >= 0 && u % (CENT as int) == CENT / 2 ==> round_to_cent(u) == u + CENT / 2,
        u < 0 && (-u) % (CENT as int) == CENT / 2 ==> round_to_cent(u) == u - CENT / 2,
{
    let d = CENT as int;
    if u >= 0 && u % d == d / 2 {
        lemma_round_by_remainder(u, d);
        lemma_fundamental_div_mod(u, d);
    }
    if u < 0 && (-u) % d == d / 2 {
        lemma_round_by_remainder(-u, d);
        lemma_fundamental_div_mod(-u, d);
    }
}

/// `n / d` rounded half away from zero, on machine integers.
fn round_scaled(n: i128, d: i128) -> (r: i128)
    requires
        d > 0,
        -QUOTIENT_LIMIT <= n <= QUOTIENT_LIMIT,
    ensures
        r == round_half_away(n as int, d as int),
        -(magnitude(n as int) / (d as int) + 1) <= r <= magnitude(n as int) / (d as int) + 1,
{
    let m: i128 = if n < 0 { -n } else { n };
    let q: i128 = m / d;
    let rem: i128 = m % d;
    proof {
        lemma_round_by_remainder(m as int, d as int);
        lemma_mod_bound(m as int, d as int);
        vstd::arithmetic::div_mod::lemma_div_is_ordered_by_denominator(m as int, 1, d as int);
    }
    let k: i128 = if rem >= d - rem { q + 1 } else { q };
    if n < 0 {
        -k
    } else {
        k
    }
}

/// Relies on rust_decimal's `Decimal::round_dp_with_strategy` with
/// `MidpointAwayFromZero`: from six fractional digits to two, the magnitude is
/// divided by 10^4 and raised by one where the remainder is at least half, the
/// sign is kept, and the result has scale 2, so its mantissa counts cents.
#[verifier::external_body]
pub(crate) fn round_millionths_to_cents(units: i128) -> (r: i128)
    requires
        in_range(units as int),
    ensures
        r == round_half_away(units as int, CENT as int),
{
    rust_decimal::Decimal::from_i128_with_scale(units, SCALE).round_dp_with_strategy(
        2,
        rust_decimal::RoundingStrategy::MidpointAwayFromZero,
    ).mantissa()
}

/// Makes a decimal from a whole number of cents, if it is in range.
fn from_cents(k: i128) -> (r: Option<Decimal>)
    requires
        -QUOTIENT_LIMIT <= k * 1000 <= QUOTIENT_LIMIT,
    ensures
        r.is_some() == in_range(k * CENT),
        r.is_some() ==> r.unwrap()@ == k * CENT,
{
    let u: i128 = k * CENT;
    if -MAX_UNITS <= u && u <= MAX_UNITS {
        Some(Decimal { units: u })
    } else {
        None
    }
}

impl Decimal {
    #[verifier::type_invariant]
    spec fn inv(self) -> bool {
        in_range(self.units as int)
    }

    /// The decimal `num × 10^(-scale)`: `num` with its last `scale` digits after the point.
    pub fn new(num: i64, scale: u32) -> (r: Decimal)
        requires
            scale <= SCALE,
            in_range(num * pow10((SCALE - scale) as nat)),
        ensures
            r@ == num * pow10((SCALE - scale) as nat),
    {
        proof {
            lemma_pow10_positive((SCALE - scale) as nat);
            lemma_scaled_bound(num as int, pow10((SCALE - scale) as nat), MAX_UNITS as int);
        }
        let mut u: i128 = num as i128;
        let mut s: u32 = scale;
        while s < SCALE
            invariant
                scale <= s <= SCALE,
                u * pow10((SCALE - s) as nat) == num * pow10((SCALE - scale) as nat),
                in_range(num * pow10((SCALE - scale) as nat)),
                -MAX_UNITS <= u <= MAX_UNITS,
            decreases SCALE - s,
        {
            proof {
                let e = (SCALE - s - 1) as nat;
                assert(pow10((SCALE - s) as nat) == 10 * pow10(e));
                lemma_pow10_positive(e);
                assert(u * pow10((SCALE - s) as nat) == (u * 10) * pow10(e)) by (nonlinear_arith)
                    requires
                        pow10((SCALE - s) as nat) == 10 * pow10(e),
                ;
                lemma_scaled_bound(u as int * 10, pow10(e), MAX_UNITS as int);
            }
            u = u * 10;
            s = s + 1;
        }
        Decimal { units: u }
    }

    /// One.
    pub fn one() -> (r: Decimal)
        ensures
            r@ == UNIT,
    {
        Decimal { units: UNIT }
    }

    /// The decimal `mantissa × 10^(-scale)`, if it has at most six fractional
    /// digits that are not zero and lies in range.
    pub fn from_mantissa_scale(mantissa: i128, scale: u32) -> (r: Option<Decimal>)
        requires
            -MAX_MANTISSA <= mantissa <= MAX_MANTISSA,
            scale <= 28,
        ensures
            r is Some <==> exact_units(mantissa as int, scale as nat) is Some,
            r is Some ==> r.unwrap()@ == exact_units(mantissa as int, scale as nat).unwrap(),
    {
        if scale <= SCALE {
            let mut u: i128 = mantissa;
            let mut k: u32 = scale;
            while k < SCALE
                invariant
                    scale <= k <= SCALE,
                    u * pow10((SCALE - k) as nat) == mantissa * pow10((SCALE - scale) as nat),
                    -MAX_MANTISSA * 1_000_000 <= u <= MAX_MANTISSA * 1_000_000,
                decreases SCALE - k,
            {
                let ghost e = (SCALE - k - 1) as nat;
                proof {
                    lemma_pow10_positive(e);
                    assert(pow10((SCALE - k) as nat) == 10 * pow10(e));
                    assert(u * pow10((SCALE - k) as nat) == (u * 10) * pow10(e)) by (nonlinear_arith)
                        requires
                            pow10((SCALE - k) as nat) == 10 * pow10(e),
                    ;
                }
                if u > MAX_UNITS || u < -MAX_UNITS {
                    proof {
                        assert(!in_range(u * pow10((SCALE - k) as nat))) by (nonlinear_arith)
                            requires
                                u > MAX_UNITS || u < -MAX_UNITS,
                                pow10((SCALE - k) as nat) >= 1,
                                MAX_UNITS > 0,
                        {
                        }
                    }
                    return None;
                }
                u = u * 10;
                k = k + 1;
            }
            Decimal::from_units(u)
        } else {
            let mut p: i128 = 1;
            let mut k: u32 = SCALE;
            while k < scale
                invariant
                    SCALE <= k <= scale,
                    scale <= 28,
                    p == pow10((k - SCALE) as nat),
                    1 <= p <= pow10((k - SCALE) as nat),
                    p <= 10_000_000_000_000_000_000_000,
                decreases scale - k,
            {
                proof {
                    lemma_pow10_bound((k - SCALE) as nat);
                }
                p = p * 10;
                k = k + 1;
            }
            let a: i128 = if mantissa < 0 { -mantissa } else { mantissa };
            if a % p != 0 {
                return None;
            }
            let q: i128 = a / p;
            let u: i128 = if mantissa < 0 { -q } else { q };
            Decimal::from_units(u)
        }
    }

    /// The decimal a text spells, if it is one that a [`Decimal`] holds exactly.
    pub fn parse_text(text: &str) -> (r: Option<Decimal>)
        ensures
            r is Some <==> text_units(text@) is Some,
            r is Some ==> r.unwrap()@ == text_units(text@).unwrap(),
    {
        match read_decimal_literal(text) {
            Some((m, s)) => Decimal::from_mantissa_scale(m, s),
            None => None,
        }
    }

    /// The decimal written out, trailing fractional zeros dropped (`123.45`, `-0.5`, `100`).
    pub fn to_string(&self) -> (r: String)
        ensures
            r@ == decimal_text_of(self@),
    {
        proof {
            use_type_invariant(self);
        }
        let a: u64 = if self.units < 0 { (-self.units) as u64 } else { self.units as u64 };
        let frac: u64 = a % 1_000_000;
        let mut out = if self.units < 0 { String::from_str("-") } else { String::new() };
        let ghost sign = out@;
        append_nat(&mut out, a / 1_000_000);
        let ghost head = out@;
        if frac != 0 {
            let mut f: u64 = frac;
            let mut n: u32 = 6;
            while n > 0 && f % 10 == 0
                invariant
                    n <= 6,
                    drop_trailing_zeros(frac as nat, 6) == drop_trailing_zeros(f as nat, n as nat),
                decreases n,
            {
                f = f / 10;
                n = n - 1;
            }
            out.append(".");
            append_padded(&mut out, f, n);
            proof {
                reveal_strlit(".");
                assert(out@ =~= head + ("."@ + padded_digits(f as nat, n as nat)));
            }
        } else {
            proof {
                assert(out@ =~= head + Seq::<char>::empty());
            }
        }
        out
    }

    /// The decimal rounded to the cent and written with exactly two decimal
    /// places (`14129.55`, `100.00`, `-0.50`).
    pub fn to_string_2dp(&self) -> (r: String)
        ensures
            r@ == two_place_text_of(self@),
    {
        proof {
            use_type_invariant(self);
            assert(MAX_UNITS == 99_999_999_999_999 * CENT);
            lemma_round_bounded(self.units as int, 99_999_999_999_999, CENT as int);
        }
        let c = round_millionths_to_cents(self.units);
        let a: u64 = if c < 0 { (-c) as u64 } else { c as u64 };
        let mut out = if c < 0 { String::from_str("-") } else { String::new() };
        append_nat(&mut out, a / 100);
        out.append(".");
        append_padded(&mut out, a % 100, 2);
        out
    }

    /// Zero.
    pub fn zero() -> (r: Decimal)
        ensures
            r@ == 0,
            in_range(r@),
    {
        Decimal { units: 0 }
    }

    /// The number of millionths this decimal holds.
    pub fn units(&self) -> (r: i128)
        ensures
            r == self@,
            in_range(r as int),
    {
        proof {
            use_type_invariant(self);
        }
        self.units
    }

    /// The decimal holding `units` millionths, if that is in range.
    pub fn from_units(units: i128) -> (r: Option<Decimal>)
        ensures
            r.is_some() == in_range(units as int),
            r.is_some() ==> r.unwrap()@ == units,
    {
        if -MAX_UNITS <= units && units <= MAX_UNITS {
            Some(Decimal { units })
        } else {
            None
        }
    }

    /// Whether `self < other`.
    pub fn lt(&self, other: &Decimal) -> (r: bool)
        ensures
            r == (self@ < other@),
    {
        self.units < other.units
    }

    /// Whether `self <= other`.
    pub fn le(&self, other: &Decimal) -> (r: bool)
        ensures
            r == (self@ <= other@),
    {
        self.units <= other.units
    }

    /// Whether the decimal is above zero.
    pub fn is_positive(&self) -> (r: bool)
        ensures
            r == (self@ > 0),
    {
        self.units > 0
    }

    /// `round_half_up(self + other)`, or `None` where that leaves the range.
    pub fn add_round(&self, other: &Decimal) -> (r: Option<Decimal>)
        ensures
            r.is_some() == in_range(round_to_cent(self@ + other@)),
            r.is_some() ==> r.unwrap()@ == round_to_cent(self@ + other@),
    {
        proof {
            use_type_invariant(self);
            use_type_invariant(other);
        }
        let k = round_scaled(self.units + other.units, CENT);
        from_cents(k)
    }

    /// `round_half_up(self - other)`, or `None` where that leaves the range.
    pub fn sub_round(&self, other: &Decimal) -> (r: Option<Decimal>)
        ensures
            r.is_some() == in_range(round_to_cent(self@ - other@)),
            r.is_some() ==> r.unwrap()@ == round_to_cent(self@ - other@),
    {
        proof {
            use_type_invariant(self);
            use_type_invariant(other);
        }
        let k = round_scaled(self.units - other.units, CENT);
        from_cents(k)
    }

    /// `round_half_up(self × other)`, the product taken exactly, or `None` where
    /// that leaves the range.
    pub fn mul_round(&self, other: &Decimal) -> (r: Option<Decimal>)
        ensures
            r.is_some() == in_range(round_product(self@, other@)),
            r.is_some() ==> r.unwrap()@ == round_product(self@, other@),
    {
        proof {
            use_type_invariant(self);
            use_type_invariant(other);
            lemma_product_bound(self.units as int, other.units as int);
        }
        let k = round_scaled(self.units * other.units, UNIT * CENT);
        proof {
            lemma_quotient_bound(self.units as int * other.units as int, (UNIT * CENT) as int);
        }
        from_cents(k)
    }

    /// `round_half_up(self + (x - y) × rate)`, all of it taken exactly before the
    /// one rounding, or `None` where that leaves the range.
    pub fn mul_add_round(&self, x: &Decimal, y: &Decimal, rate: &Decimal) -> (r: Option<Decimal>)
        ensures
            r.is_some() == in_range(round_half_away(self@ * UNIT + (x@ - y@) * rate@, UNIT * CENT) * CENT),
            r.is_some() ==> r.unwrap()@ == round_half_away(self@ * UNIT + (x@ - y@) * rate@, UNIT * CENT) * CENT,
    {
        proof {
            use_type_invariant(self);
            use_type_invariant(x);
            use_type_invariant(y);
            use_type_invariant(rate);
            let d = x.units as int - y.units as int;
            let p = rate.units as int;
            assert(-(2 * MAX_UNITS * MAX_UNITS) <= d * p <= 2 * MAX_UNITS * MAX_UNITS) by (nonlinear_arith)
                requires
                    -2 * MAX_UNITS <= d <= 2 * MAX_UNITS,
                    -MAX_UNITS <= p <= MAX_UNITS,
            ;
            lemma_product_bound(self.units as int, UNIT as int);
        }
        let n: i128 = self.units * UNIT + (x.units - y.units) * rate.units;
        let k = round_scaled(n, UNIT * CENT);
        proof {
            lemma_quotient_bound(n as int, (UNIT * CENT) as int);
        }
        from_cents(k)
    }

    /// `round_half_up(self + b + c)`, or `None` where that leaves the range.
    pub fn add3_round(&self, b: &Decimal, c: &Decimal) -> (r: Option<Decimal>)
        ensures
            r.is_some() == in_range(round_to_cent(self@ + b@ + c@)),
            r.is_some() ==> r.unwrap()@ == round_to_cent(self@ + b@ + c@),
    {
        proof {
            use_type_invariant(self);
            use_type_invariant(b);
            use_type_invariant(c);
        }
        let k = round_scaled(self.units + b.units + c.units, CENT);
        from_cents(k)
    }

    /// `round_half_up(self × num / den)` for a small exact fraction, or `None` where
    /// that leaves the range.
    pub(crate) fn mul_ratio_round(&self, num: i128, den: i128) -> (r: Option<Decimal>)
        requires
            1 <= den <= 1000,
            -1000 <= num <= 1000,
        ensures
            r.is_some() == in_range(round_ratio(self@, num as int, den as int)),
            r.is_some() ==> r.unwrap()@ == round_ratio(self@, num as int, den as int),
    {
        proof {
            use_type_invariant(self);
            assert(-1000 * MAX_UNITS <= self.units * num <= 1000 * MAX_UNITS) by (nonlinear_arith)
                requires
                    -MAX_UNITS <= self.units <= MAX_UNITS,
                    -1000 <= num <= 1000,
            ;
        }
        let k = round_scaled(self.units * num, den * CENT);
        proof {
            let n = self.units as int * num as int;
            let d = den as int * CENT as int;
            vstd::arithmetic::div_mod::lemma_div_is_ordered_by_denominator(magnitude(n), CENT as int, d);
            lemma_quotient_bound(n, CENT as int);
        }
        from_cents(k)
    }
}

proof fn lemma_pow10_positive(n: nat)
    ensures
        pow10(n) >= 1,
    decreases n,
{
    if n > 0 {
        lemma_pow10_positive((n - 1) as nat);
    }
}

proof fn lemma_pow10_bound(n: nat)
    requires
        n <= 21,
    ensures
        10 * pow10(n) <= 10_000_000_000_000_000_000_000,
    decreases 21 - n,
{
    if n < 21 {
        lemma_pow10_bound(n + 1);
        lemma_pow10_positive(n);
        assert(pow10(n + 1) == 10 * pow10(n));
    } else {
        reveal_with_fuel(pow10, 22);
    }
}

proof fn lemma_scaled_bound(a: int, p: int, m: int)
    requires
        p >= 1,
        -m <= a * p <= m,
    ensures
        -m <= a <= m,
{
    assert(-m <= a <= m) by (nonlinear_arith)
        requires
            p >= 1,
            -m <= a * p <= m,
    ;
}

proof fn lemma_product_bound(a: int, b: int)
    requires
        in_range(a),
        in_range(b),
    ensures
        -(MAX_UNITS * MAX_UNITS) <= a * b <= MAX_UNITS * MAX_UNITS,
{
    assert(-(MAX_UNITS * MAX_UNITS) <= a * b <= MAX_UNITS * MAX_UNITS) by (nonlinear_arith)
        requires
            -MAX_UNITS <= a <= MAX_UNITS,
            -MAX_UNITS <= b <= MAX_UNITS,
    ;
}

proof fn lemma_quotient_bound(n: int, d: int)
    requires
        d >= CENT,
        magnitude(n) <= 3 * MAX_UNITS * MAX_UNITS,
    ensures
        (magnitude(n) / d + 1) * 1000 <= QUOTIENT_LIMIT,
{
    let b: int = 300_000_000_000_000_000_000_000_000_000_000;
    vstd::arithmetic::div_mod::lemma_div_is_ordered_by_denominator(magnitude(n), CENT as int, d);
    assert(3 * MAX_UNITS * MAX_UNITS <= b * CENT);
    vstd::arithmetic::div_mod::lemma_div_is_ordered(magnitude(n), b * CENT, CENT as int);
    vstd::arithmetic::div_mod::lemma_div_by_multiple(b, CENT as int);
}

} // verus!
