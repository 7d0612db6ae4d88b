//! The Estimated Tax Worksheet.
//!
//! Taxable income is AGI less the chosen deduction and the QBI deduction; the
//! tax on it comes from a progressive bracket table; AMT, credits, other taxes
//! and refundable credits lead to the total estimated tax, and from that and
//! the prior year's tax to the required annual payment and whether quarterly
//! payments are due. Every line is rounded to the cent.

use crate::common::{max, min, round_half_up};
use crate::decimal::{decimal_text_of, in_range, round_half_away, round_product, round_ratio, round_to_cent, Decimal, CENT, UNIT};
use crate::models::TaxBracket;
use vstd::prelude::*;

verus! {

/// Why an estimated tax worksheet could not be computed.
#[derive(Clone, Copy, Debug, PartialEq, Eq, Structural)]
pub enum EstimatedTaxWorksheetError {
    /// The bracket table is empty.
    NoTaxBrackets,
    /// No bracket holds this positive taxable income.
    NoMatchingBracket(Decimal),
    /// A worksheet line came out beyond the range of [`Decimal`].
    AmountOutOfRange,
}

impl EstimatedTaxWorksheetError {
    /// A message that says what is missing or out of range.
    pub fn message(&self) -> (r: String)
        ensures
            *self == EstimatedTaxWorksheetError::NoTaxBrackets ==> r@ == "no tax brackets provided"@,
            self matches EstimatedTaxWorksheetError::NoMatchingBracket(t) ==> r@
                == "no tax bracket found for taxable income "@ + decimal_text_of(t@),
            *self == EstimatedTaxWorksheetError::AmountOutOfRange ==> r@
                == "a worksheet line is out of range"@,
    {
        match self {
            EstimatedTaxWorksheetError::NoTaxBrackets => String::from_str("no tax brackets provided"),
            EstimatedTaxWorksheetError::NoMatchingBracket(t) => {
                let mut msg = String::from_str("no tax bracket found for taxable income ");
                msg.append(t.to_string().as_str());
                msg
            },
            EstimatedTaxWorksheetError::AmountOutOfRange => String::from_str(
                "a worksheet line is out of range",
            ),
        }
    }
}

/// The worksheet's input lines.
#[derive(Clone, Copy, Debug, PartialEq, Eq, Structural)]
pub struct EstimatedTaxWorksheetInput {
    /// Expected adjusted gross income.
    pub adjusted_gross_income: Decimal,
    /// Itemized deductions; used instead of the standard deduction when positive.
    pub itemized_deduction: Decimal,
    /// Standard deduction.
    pub standard_deduction: Decimal,
    /// Qualified business income deduction.
    pub qbi_deduction: Decimal,
    /// Alternative minimum tax.
    pub alternative_minimum_tax: Decimal,
    /// Nonrefundable credits.
    pub credits: Decimal,
    /// Self-employment tax, usually from the self-employment worksheet.
    pub self_employment_tax: Decimal,
    /// Other taxes.
    pub other_taxes: Decimal,
    /// Refundable credits.
    pub refundable_credits: Decimal,
    /// Total tax of the prior year.
    pub prior_year_tax: Decimal,
    /// Expected withholding.
    pub withholding: Decimal,
    /// Whether two thirds of the year's income comes from farming or fishing.
    pub is_farmer_or_fisher: bool,
    /// Balance due at or above which estimated payments are required.
    pub required_payment_threshold: Decimal,
}

/// The worksheet's result lines.
#[derive(Clone, Copy, Debug, PartialEq, Eq, Structural)]
pub struct EstimatedTaxWorksheetResult {
    /// AGI less deductions, never negative.
    pub taxable_income: Decimal,
    /// Tax on the taxable income from the brackets.
    pub calculated_tax: Decimal,
    /// Total tax less refundable credits, never negative.
    pub total_estimated_tax: Decimal,
    /// The smaller of the current-year share and the prior year's tax.
    pub required_annual_payment: Decimal,
    /// Required annual payment less withholding, never negative.
    pub underpayment: Decimal,
    /// Whether the itemized deduction was used.
    pub used_itemized_deduction: bool,
    /// Whether quarterly estimated payments are required.
    pub estimated_payments_required: bool,
}

/// `x` floored at zero.
pub open spec fn floor_zero(x: int) -> int {
    if x > 0 {
        x
    } else {
        0
    }
}

/// The smaller of two integers.
pub open spec fn min_int(a: int, b: int) -> int {
    if a < b {
        a
    } else {
        b
    }
}

/// Whether a bracket holds a taxable income: above its lower bound and at or
/// below its upper bound, if it has one.
pub open spec fn bracket_matches(b: TaxBracket, t: int) -> bool {
    t > b.min_income@ && (b.max_income is None || t <= b.max_income.unwrap()@)
}

/// The index of the first bracket at or after `i` that holds `t`, or the
/// table's length if none does.
pub open spec fn first_match_from(bs: Seq<TaxBracket>, t: int, i: int) -> int
    decreases bs.len() - i,
{
    if i < 0 || i >= bs.len() {
        bs.len() as int
    } else if bracket_matches(bs[i], t) {
        i
    } else {
        first_match_from(bs, t, i + 1)
    }
}

/// The first match from `i` is in the table or its length; when in the table it
/// holds `t` and no bracket between `i` and it does.
pub proof fn lemma_first_match(bs: Seq<TaxBracket>, t: int, i: int)
    requires
        0 <= i <= bs.len(),
    ensures
        i <= first_match_from(bs, t, i) <= bs.len(),
        first_match_from(bs, t, i) < bs.len() ==> bracket_matches(bs[first_match_from(bs, t, i)], t),
        forall|j: int| i <= j < first_match_from(bs, t, i) ==> !bracket_matches(#[trigger] bs[j], t),
    decreases bs.len() - i,
{
    if i < bs.len() && !bracket_matches(bs[i], t) {
        lemma_first_match(bs, t, i + 1);
    }
}

/// The index of the first bracket that holds `t`, or the table's length.
pub open spec fn matching_bracket(bs: Seq<TaxBracket>, t: int) -> int {
    first_match_from(bs, t, 0)
}

/// The tax of a bracket on `t`: its base tax plus its rate on what `t` exceeds
/// its lower bound, rounded.
pub open spec fn bracket_tax(b: TaxBracket, t: int) -> int {
    round_half_away(b.base_tax@ * UNIT + (t - b.min_income@) * b.tax_rate@, UNIT * CENT) * CENT
}

/// The rounded deduction chosen: itemized when positive, else standard.
pub open spec fn deduction_line(i: EstimatedTaxWorksheetInput) -> int {
    if i.itemized_deduction@ > 0 {
        round_to_cent(i.itemized_deduction@)
    } else {
        round_to_cent(i.standard_deduction@)
    }
}

/// Total deductions: the chosen deduction plus the QBI deduction, rounded.
pub open spec fn total_deductions_line(i: EstimatedTaxWorksheetInput) -> int {
    round_to_cent(deduction_line(i) + i.qbi_deduction@)
}

/// AGI less total deductions, rounded, before the floor at zero.
pub open spec fn taxable_before_floor(i: EstimatedTaxWorksheetInput) -> int {
    round_to_cent(i.adjusted_gross_income@ - total_deductions_line(i))
}

/// Taxable income.
pub open spec fn taxable_income_line(i: EstimatedTaxWorksheetInput) -> int {
    floor_zero(taxable_before_floor(i))
}

/// The tax from the bracket table on a taxable income: zero on none, else the
/// tax of the first bracket that holds it.
pub open spec fn tax_on_income(bs: Seq<TaxBracket>, t: int) -> int {
    if t <= 0 {
        0
    } else {
        bracket_tax(bs[matching_bracket(bs, t)], t)
    }
}

/// The tax from the bracket table on the taxable income.
pub open spec fn calculated_tax_line(bs: Seq<TaxBracket>, i: EstimatedTaxWorksheetInput) -> int {
    tax_on_income(bs, taxable_income_line(i))
}

/// Brackets in ascending order that do not overlap: every bracket but the last
/// has an upper bound, at or below the lower bound of every later one.
pub open spec fn brackets_ordered(bs: Seq<TaxBracket>) -> bool {
    forall|i: int, j: int|
        0 <= i < j < bs.len() ==> (#[trigger] bs[i]).max_income is Some
            && bs[i].max_income.unwrap()@ <= (#[trigger] bs[j]).min_income@
}

/// A progressive schedule: ordered brackets, no negative rate or base tax, and
/// the base tax of each bracket at least what an earlier bracket's rate would
/// have charged up to its lower bound.
pub open spec fn brackets_progressive(bs: Seq<TaxBracket>) -> bool {
    &&& brackets_ordered(bs)
    &&& forall|i: int| 0 <= i < bs.len() ==> (#[trigger] bs[i]).tax_rate@ >= 0 && bs[i].base_tax@ >= 0
    &&& forall|i: int, j: int|
        0 <= i < j < bs.len() ==> (#[trigger] bs[j]).base_tax@ * UNIT >= (#[trigger] bs[i]).base_tax@
            * UNIT + (bs[j].min_income@ - bs[i].min_income@) * bs[i].tax_rate@
}

/// The first bracket that holds `t` is `k` when `k` holds it and no earlier one does.
proof fn lemma_matching_is(bs: Seq<TaxBracket>, t: int, k: int)
    requires
        0 <= k < bs.len(),
        bracket_matches(bs[k], t),
        forall|j: int| 0 <= j < k ==> !bracket_matches(#[trigger] bs[j], t),
    ensures
        matching_bracket(bs, t) == k,
{
    lemma_first_match(bs, t, 0);
    let f = matching_bracket(bs, t);
    if f < k {
        assert(bracket_matches(bs[f], t));
    } else if f > k {
        assert(!bracket_matches(bs[k], t));
    }
}

/// At a boundary `b` shared by adjacent brackets, `b` itself is taxed by the lower
/// bracket and `b + 0.01` by the upper one.
pub proof fn bracket_boundary_is_upper_inclusive(bs: Seq<TaxBracket>, i: int, b: int)
    requires
        brackets_ordered(bs),
        0 <= i,
        i + 1 < bs.len(),
        bs[i].max_income == Some(bs[i + 1].min_income),
        b == bs[i + 1].min_income@,
        bs[i].min_income@ < b,
        bs[i + 1].max_income is None || b + CENT <= bs[i + 1].max_income.unwrap()@,
    ensures
        matching_bracket(bs, b) == i,
        matching_bracket(bs, b + CENT) == i + 1,
        b > 0 ==> tax_on_income(bs, b) == bracket_tax(bs[i], b),
        b + CENT > 0 ==> tax_on_income(bs, b + CENT) == bracket_tax(bs[i + 1], b + CENT),
{
    assert forall|j: int| 0 <= j < i implies !bracket_matches(#[trigger] bs[j], b) by {
        assert(bs[j].max_income.unwrap()@ <= bs[i].min_income@);
    }
    lemma_matching_is(bs, b, i);
    assert forall|j: int| 0 <= j < i + 1 implies !bracket_matches(#[trigger] bs[j], b + CENT) by {
        assert(bs[j].max_income.unwrap()@ <= bs[i + 1].min_income@);
    }
    lemma_matching_is(bs, b + CENT, i + 1);
}

/// On a progressive schedule, more taxable income never brings less tax.
pub proof fn tax_is_monotonic_in_income(bs: Seq<TaxBracket>, t1: int, t2: int)
    requires
        brackets_progressive(bs),
        t1 <= t2,
        t1 > 0 ==> matching_bracket(bs, t1) < bs.len(),
        t2 > 0 ==> matching_bracket(bs, t2) < bs.len(),
    ensures
        tax_on_income(bs, t1) <= tax_on_income(bs, t2),
{
    let d = UNIT * CENT;
    if t2 <= 0 {
        return;
    }
    let k2 = matching_bracket(bs, t2);
    lemma_first_match(bs, t2, 0);
    let b2 = bs[k2];
    let e2 = b2.base_tax@ * UNIT + (t2 - b2.min_income@) * b2.tax_rate@;
    assert(b2.base_tax@ * UNIT <= e2) by (nonlinear_arith)
        requires
            e2 == b2.base_tax@ * UNIT + (t2 - b2.min_income@) * b2.tax_rate@,
            t2 > b2.min_income@,
            b2.tax_rate@ >= 0,
    ;
    if t1 <= 0 {
        assert(0 <= e2) by (nonlinear_arith)
            requires
                b2.base_tax@ * UNIT <= e2,
                b2.base_tax@ >= 0,
        ;
        crate::decimal::lemma_round_monotonic(0, e2, d);
        crate::decimal::lemma_round_multiple(0, d);
        assert(round_half_away(e2, d) >= 0);
        assert(round_half_away(e2, d) * CENT >= 0) by (nonlinear_arith)
            requires
                round_half_away(e2, d) >= 0,
        ;
        return;
    }
    let k1 = matching_bracket(bs, t1);
    lemma_first_match(bs, t1, 0);
    let b1 = bs[k1];
    let e1 = b1.base_tax@ * UNIT + (t1 - b1.min_income@) * b1.tax_rate@;
    if k1 == k2 {
        assert(e1 <= e2) by (nonlinear_arith)
            requires
                e1 == b1.base_tax@ * UNIT + (t1 - b1.min_income@) * b1.tax_rate@,
                e2 == b1.base_tax@ * UNIT + (t2 - b1.min_income@) * b1.tax_rate@,
                t1 <= t2,
                b1.tax_rate@ >= 0,
        ;
    } else if k1 > k2 {
        assert(b2.max_income.unwrap()@ <= b1.min_income@);
        assert(false);
    } else {
        let top = b1.max_income.unwrap()@;
        assert(top <= b2.min_income@);
        assert(e1 <= b2.base_tax@ * UNIT) by (nonlinear_arith)
            requires
                e1 == b1.base_tax@ * UNIT + (t1 - b1.min_income@) * b1.tax_rate@,
                t1 <= top,
                top <= b2.min_income@,
                b1.tax_rate@ >= 0,
                b2.base_tax@ * UNIT >= b1.base_tax@ * UNIT + (b2.min_income@ - b1.min_income@)
                    * b1.tax_rate@,
        ;
    }
    crate::decimal::lemma_round_monotonic(e1, e2, d);
    assert(round_half_away(e1, d) * CENT <= round_half_away(e2, d) * CENT) by (nonlinear_arith)
        requires
            round_half_away(e1, d) <= round_half_away(e2, d),
    ;
}

/// More credits never raise the tax after credits, and it never drops below zero.
pub proof fn tax_after_credits_is_antitonic_in_credits(before: int, c1: int, c2: int)
    requires
        c1 <= c2,
    ensures
        floor_zero(round_to_cent(before - c2)) <= floor_zero(round_to_cent(before - c1)),
        floor_zero(round_to_cent(before - c2)) >= 0,
{
    crate::decimal::lemma_round_monotonic(before - c2, before - c1, CENT as int);
    assert(round_to_cent(before - c2) <= round_to_cent(before - c1)) by (nonlinear_arith)
        requires
            round_half_away(before - c2, CENT as int) <= round_half_away(before - c1, CENT as int),
    ;
}

/// The current-year share of the total estimated tax: two thirds for a farmer
/// or fisher, else 90%, rounded.
pub open spec fn current_year_line(total: int, farmer: bool) -> int {
    if farmer {
        round_ratio(total, 2, 3)
    } else {
        round_product(total, 900_000)
    }
}

/// The lines after the bracket tax, each as the worksheet forms it before any
/// floor at zero: tax before credits, tax after credits, total tax, total
/// estimated tax, current-year share, underpayment, threshold amount.
pub open spec fn tax_lines(i: EstimatedTaxWorksheetInput, tax: int) -> Seq<int> {
    let before = round_to_cent(tax + i.alternative_minimum_tax@);
    let after = round_to_cent(before - i.credits@);
    let total = round_to_cent(floor_zero(after) + i.self_employment_tax@ + i.other_taxes@);
    let estimated = round_to_cent(total - i.refundable_credits@);
    let share = current_year_line(floor_zero(estimated), i.is_farmer_or_fisher);
    let required = min_int(share, i.prior_year_tax@);
    let under = round_to_cent(required - i.withholding@);
    let threshold = round_to_cent(floor_zero(estimated) - i.withholding@);
    seq![before, after, total, estimated, share, under, threshold]
}

/// Whether the worksheet runs to the end: a non-empty table, every line in
/// range, and a bracket for a positive taxable income.
pub open spec fn estimate_succeeds(bs: Seq<TaxBracket>, i: EstimatedTaxWorksheetInput) -> bool {
    let t = taxable_income_line(i);
    &&& bs.len() > 0
    &&& in_range(total_deductions_line(i))
    &&& in_range(taxable_before_floor(i))
    &&& t > 0 ==> matching_bracket(bs, t) < bs.len()
    &&& in_range(calculated_tax_line(bs, i))
    &&& forall|k: int| 0 <= k < 7 ==> in_range(#[trigger] tax_lines(i, calculated_tax_line(bs, i))[k])
}

/// Calculator for the estimated tax worksheet over one bracket table.
#[derive(Clone, Copy, Debug)]
pub struct EstimatedTaxWorksheet<'a> {
    /// The brackets, in ascending order of `min_income`.
    pub tax_brackets: &'a [TaxBracket],
}

impl<'a> EstimatedTaxWorksheet<'a> {
    /// A calculator over the given brackets, which must be in ascending order.
    pub fn new(tax_brackets: &'a [TaxBracket]) -> (r: Self)
        ensures
            r.tax_brackets@ == tax_brackets@,
    {
        EstimatedTaxWorksheet { tax_brackets }
    }

    /// Computes the worksheet.
    ///
    /// An empty table fails first, with `NoTaxBrackets`. A positive taxable
    /// income that no bracket holds fails with `NoMatchingBracket`, and a line
    /// beyond the range of [`Decimal`] with `AmountOutOfRange`.
    pub fn calculate(&self, input: &EstimatedTaxWorksheetInput) -> (r: Result<
        EstimatedTaxWorksheetResult,
        EstimatedTaxWorksheetError,
    >)
        ensures
            r is Ok <==> estimate_succeeds(self.tax_brackets@, *input),
            self.tax_brackets@.len() == 0 ==> r == Err::<EstimatedTaxWorksheetResult, _>(
                EstimatedTaxWorksheetError::NoTaxBrackets,
            ),
            (r matches Err(EstimatedTaxWorksheetError::NoMatchingBracket(_))) <==> ({
                let t = taxable_income_line(*input);
                &&& self.tax_brackets@.len() > 0
                &&& in_range(total_deductions_line(*input))
                &&& in_range(taxable_before_floor(*input))
                &&& t > 0
                &&& matching_bracket(self.tax_brackets@, t) == self.tax_brackets@.len()
            }),
            r matches Err(EstimatedTaxWorksheetError::NoMatchingBracket(v)) ==> v@
                == taxable_income_line(*input),
            r is Ok ==> ({
                let res = r.unwrap();
                let tax = calculated_tax_line(self.tax_brackets@, *input);
                let lines = tax_lines(*input, tax);
                &&& res.taxable_income@ >= 0 && res.total_estimated_tax@ >= 0 && res.underpayment@ >= 0
                &&& res.taxable_income@ == taxable_income_line(*input)
                &&& res.calculated_tax@ == tax
                &&& res.total_estimated_tax@ == floor_zero(lines[3])
                &&& res.required_annual_payment@ == min_int(lines[4], input.prior_year_tax@)
                &&& res.underpayment@ == floor_zero(lines[5])
                &&& res.used_itemized_deduction == (input.itemized_deduction@ > 0)
                &&& res.estimated_payments_required == (floor_zero(lines[5]) > 0 && floor_zero(
                    lines[6],
                ) >= input.required_payment_threshold@)
            }),
    {
        if self.tax_brackets.len() == 0 {
            return Err(EstimatedTaxWorksheetError::NoTaxBrackets);
        }
        let (deduction, used_itemized) = self.determine_deduction(
            input.itemized_deduction,
            input.standard_deduction,
        );
        let total_deductions = match self.total_deductions(deduction, input.qbi_deduction) {
            Ok(v) => v,
            Err(e) => {
                return Err(e);
            },
        };
        let taxable_income = match self.taxable_income(
            input.adjusted_gross_income,
            total_deductions,
        ) {
            Ok(v) => v,
            Err(e) => {
                return Err(e);
            },
        };
        let calculated_tax = match self.calculate_tax(taxable_income) {
            Ok(v) => v,
            Err(e) => {
                proof {
                    lemma_first_match(self.tax_brackets@, taxable_income@, 0);
                }
                return Err(e);
            },
        };
        proof {
            lemma_first_match(self.tax_brackets@, taxable_income@, 0);
        }
        let ghost lines = tax_lines(*input, calculated_tax@);
        let before = match self.total_tax_before_credits(
            calculated_tax,
            input.alternative_minimum_tax,
        ) {
            Ok(v) => v,
            Err(e) => {
                assert(!in_range(lines[0]));
                return Err(e);
            },
        };
        let after = match self.tax_after_credits(before, input.credits) {
            Ok(v) => v,
            Err(e) => {
                assert(!in_range(lines[1]));
                return Err(e);
            },
        };
        let total = match self.total_tax(after, input.self_employment_tax, input.other_taxes) {
            Ok(v) => v,
            Err(e) => {
                assert(!in_range(lines[2]));
                return Err(e);
            },
        };
        let total_estimated_tax = match self.total_estimated_tax(total, input.refundable_credits) {
            Ok(v) => v,
            Err(e) => {
                assert(!in_range(lines[3]));
                return Err(e);
            },
        };
        let share = match self.current_year_factor(total_estimated_tax, input.is_farmer_or_fisher) {
            Ok(v) => v,
            Err(e) => {
                assert(!in_range(lines[4]));
                return Err(e);
            },
        };
        let required_annual_payment = self.required_annual_payment(share, input.prior_year_tax);
        let underpayment = match self.underpayment(required_annual_payment, input.withholding) {
            Ok(v) => v,
            Err(e) => {
                assert(!in_range(lines[5]));
                return Err(e);
            },
        };
        let threshold_amount = match self.threshold_amount(total_estimated_tax, input.withholding) {
            Ok(v) => v,
            Err(e) => {
                assert(!in_range(lines[6]));
                return Err(e);
            },
        };
        let estimated_payments_required = self.are_estimated_payments_required(
            underpayment,
            threshold_amount,
            input.required_payment_threshold,
        );
        Ok(
            EstimatedTaxWorksheetResult {
                taxable_income,
                calculated_tax,
                total_estimated_tax,
                required_annual_payment,
                underpayment,
                used_itemized_deduction: used_itemized,
                estimated_payments_required,
            },
        )
    }

    /// The deduction to use, rounded: itemized when positive, else standard;
    /// and whether it was the itemized one.
    pub fn determine_deduction(&self, itemized: Decimal, standard: Decimal) -> (r: (Decimal, bool))
        ensures
            r.1 == (itemized@ > 0),
            r.0@ == if itemized@ > 0 {
                round_to_cent(itemized@)
            } else {
                round_to_cent(standard@)
            },
    {
        if itemized.is_positive() {
            (round_half_up(itemized), true)
        } else {
            (round_half_up(standard), false)
        }
    }

    /// The deduction plus the QBI deduction, rounded.
    pub fn total_deductions(&self, deduction: Decimal, qbi_deduction: Decimal) -> (r: Result<
        Decimal,
        EstimatedTaxWorksheetError,
    >)
        ensures
            r is Ok <==> in_range(round_to_cent(deduction@ + qbi_deduction@)),
            r is Ok ==> r.unwrap()@ == round_to_cent(deduction@ + qbi_deduction@),
            r is Err ==> r == Err::<Decimal, _>(EstimatedTaxWorksheetError::AmountOutOfRange),
    {
        match deduction.add_round(&qbi_deduction) {
            Some(v) => Ok(v),
            None => Err(EstimatedTaxWorksheetError::AmountOutOfRange),
        }
    }

    /// AGI less total deductions, rounded, floored at zero.
    pub fn taxable_income(&self, agi: Decimal, total_deductions: Decimal) -> (r: Result<
        Decimal,
        EstimatedTaxWorksheetError,
    >)
        ensures
            r is Ok <==> in_range(round_to_cent(agi@ - total_deductions@)),
            r is Ok ==> r.unwrap()@ == floor_zero(round_to_cent(agi@ - total_deductions@)),
            r is Ok ==> r.unwrap()@ >= 0,
            r is Err ==> r == Err::<Decimal, _>(EstimatedTaxWorksheetError::AmountOutOfRange),
    {
        match agi.sub_round(&total_deductions) {
            Some(v) => Ok(max(v, Decimal::zero())),
            None => Err(EstimatedTaxWorksheetError::AmountOutOfRange),
        }
    }

    /// The tax on a taxable income from the first bracket that holds it; zero on
    /// a taxable income of zero or less.
    pub fn calculate_tax(&self, taxable_income: Decimal) -> (r: Result<
        Decimal,
        EstimatedTaxWorksheetError,
    >)
        ensures
            ({
                let bs = self.tax_brackets@;
                let t = taxable_income@;
                let k = matching_bracket(bs, t);
                &&& t <= 0 ==> r is Ok && r.unwrap()@ == 0
                &&& t > 0 && k == bs.len() ==> r == Err::<Decimal, _>(
                    EstimatedTaxWorksheetError::NoMatchingBracket(taxable_income),
                )
                &&& t > 0 && k < bs.len() ==> (r is Ok <==> in_range(bracket_tax(bs[k], t)))
                &&& t > 0 && k < bs.len() && r is Ok ==> r.unwrap()@ == bracket_tax(bs[k], t)
                &&& t > 0 && k < bs.len() && r is Err ==> r == Err::<Decimal, _>(
                    EstimatedTaxWorksheetError::AmountOutOfRange,
                )
                &&& r is Ok ==> in_range(r.unwrap()@)
            }),
    {
        if !taxable_income.is_positive() {
            return Ok(Decimal::zero());
        }
        let mut i: usize = 0;
        while i < self.tax_brackets.len()
            invariant
                0 <= i <= self.tax_brackets@.len(),
                taxable_income@ > 0,
                matching_bracket(self.tax_brackets@, taxable_income@) == first_match_from(
                    self.tax_brackets@,
                    taxable_income@,
                    i as int,
                ),
            decreases self.tax_brackets@.len() - i,
        {
            let b = self.tax_brackets[i];
            let above = b.min_income.lt(&taxable_income);
            let below = match b.max_income {
                None => true,
                Some(m) => taxable_income.le(&m),
            };
            if above && below {
                return match b.base_tax.mul_add_round(&taxable_income, &b.min_income, &b.tax_rate) {
                    Some(v) => Ok(v),
                    None => Err(EstimatedTaxWorksheetError::AmountOutOfRange),
                };
            }
            i = i + 1;
        }
        Err(EstimatedTaxWorksheetError::NoMatchingBracket(taxable_income))
    }

    /// The bracket tax plus AMT, rounded.
    pub fn total_tax_before_credits(&self, tax: Decimal, amt: Decimal) -> (r: Result<
        Decimal,
        EstimatedTaxWorksheetError,
    >)
        ensures
            r is Ok <==> in_range(round_to_cent(tax@ + amt@)),
            r is Ok ==> r.unwrap()@ == round_to_cent(tax@ + amt@),
            r is Err ==> r == Err::<Decimal, _>(EstimatedTaxWorksheetError::AmountOutOfRange),
    {
        match tax.add_round(&amt) {
            Some(v) => Ok(v),
            None => Err(EstimatedTaxWorksheetError::AmountOutOfRange),
        }
    }

    /// Tax before credits less credits, rounded, floored at zero.
    pub fn tax_after_credits(&self, total_tax_before_credits: Decimal, credits: Decimal) -> (r:
        Result<Decimal, EstimatedTaxWorksheetError>)
        ensures
            r is Ok <==> in_range(round_to_cent(total_tax_before_credits@ - credits@)),
            r is Ok ==> r.unwrap()@ == floor_zero(round_to_cent(total_tax_before_credits@ - credits@)),
            r is Ok ==> r.unwrap()@ >= 0,
            r is Err ==> r == Err::<Decimal, _>(EstimatedTaxWorksheetError::AmountOutOfRange),
    {
        match total_tax_before_credits.sub_round(&credits) {
            Some(v) => Ok(max(v, Decimal::zero())),
            None => Err(EstimatedTaxWorksheetError::AmountOutOfRange),
        }
    }

    /// Tax after credits plus self-employment tax and other taxes, rounded.
    pub fn total_tax(&self, tax_after_credits: Decimal, se_tax: Decimal, other_taxes: Decimal) -> (r:
        Result<Decimal, EstimatedTaxWorksheetError>)
        ensures
            r is Ok <==> in_range(round_to_cent(tax_after_credits@ + se_tax@ + other_taxes@)),
            r is Ok ==> r.unwrap()@ == round_to_cent(tax_after_credits@ + se_tax@ + other_taxes@),
            r is Err ==> r == Err::<Decimal, _>(EstimatedTaxWorksheetError::AmountOutOfRange),
    {
        match tax_after_credits.add3_round(&se_tax, &other_taxes) {
            Some(v) => Ok(v),
            None => Err(EstimatedTaxWorksheetError::AmountOutOfRange),
        }
    }

    /// Total tax less refundable credits, rounded, floored at zero.
    pub fn total_estimated_tax(&self, total_tax: Decimal, refundable_credits: Decimal) -> (r:
        Result<Decimal, EstimatedTaxWorksheetError>)
        ensures
            r is Ok <==> in_range(round_to_cent(total_tax@ - refundable_credits@)),
            r is Ok ==> r.unwrap()@ == floor_zero(round_to_cent(total_tax@ - refundable_credits@)),
            r is Ok ==> r.unwrap()@ >= 0,
            r is Err ==> r == Err::<Decimal, _>(EstimatedTaxWorksheetError::AmountOutOfRange),
    {
        match total_tax.sub_round(&refundable_credits) {
            Some(v) => Ok(max(v, Decimal::zero())),
            None => Err(EstimatedTaxWorksheetError::AmountOutOfRange),
        }
    }

    /// The current-year share of the total estimated tax: two thirds for a
    /// farmer or fisher, else 90%, rounded.
    pub fn current_year_factor(&self, total_estimated_tax: Decimal, is_farmer_or_fisher: bool) -> (r:
        Result<Decimal, EstimatedTaxWorksheetError>)
        ensures
            r is Ok <==> in_range(current_year_line(total_estimated_tax@, is_farmer_or_fisher)),
            r is Ok ==> r.unwrap()@ == current_year_line(total_estimated_tax@, is_farmer_or_fisher),
            r is Err ==> r == Err::<Decimal, _>(EstimatedTaxWorksheetError::AmountOutOfRange),
    {
        let share = if is_farmer_or_fisher {
            total_estimated_tax.mul_ratio_round(2, 3)
        } else {
            let ninety_percent = Decimal::from_units(900_000).unwrap();
            total_estimated_tax.mul_round(&ninety_percent)
        };
        match share {
            Some(v) => Ok(v),
            None => Err(EstimatedTaxWorksheetError::AmountOutOfRange),
        }
    }

    /// The smaller of the current-year share and the prior year's tax.
    pub fn required_annual_payment(&self, current_year_factor: Decimal, prior_year_tax: Decimal) -> (r:
        Decimal)
        ensures
            r@ == min_int(current_year_factor@, prior_year_tax@),
    {
        min(current_year_factor, prior_year_tax)
    }

    /// Required annual payment less withholding, rounded, floored at zero.
    pub fn underpayment(&self, required_annual_payment: Decimal, withholding: Decimal) -> (r: Result<
        Decimal,
        EstimatedTaxWorksheetError,
    >)
        ensures
            r is Ok <==> in_range(round_to_cent(required_annual_payment@ - withholding@)),
            r is Ok ==> r.unwrap()@ == floor_zero(round_to_cent(required_annual_payment@ - withholding@)),
            r is Ok ==> r.unwrap()@ >= 0,
            r is Err ==> r == Err::<Decimal, _>(EstimatedTaxWorksheetError::AmountOutOfRange),
    {
        match required_annual_payment.sub_round(&withholding) {
            Some(v) => Ok(max(v, Decimal::zero())),
            None => Err(EstimatedTaxWorksheetError::AmountOutOfRange),
        }
    }

    /// Total estimated tax less withholding, rounded, floored at zero.
    pub fn threshold_amount(&self, total_estimated_tax: Decimal, withholding: Decimal) -> (r: Result<
        Decimal,
        EstimatedTaxWorksheetError,
    >)
        ensures
            r is Ok <==> in_range(round_to_cent(total_estimated_tax@ - withholding@)),
            r is Ok ==> r.unwrap()@ == floor_zero(round_to_cent(total_estimated_tax@ - withholding@)),
            r is Ok ==> r.unwrap()@ >= 0,
            r is Err ==> r == Err::<Decimal, _>(EstimatedTaxWorksheetError::AmountOutOfRange),
    {
        match total_estimated_tax.sub_round(&withholding) {
            Some(v) => Ok(max(v, Decimal::zero())),
            None => Err(EstimatedTaxWorksheetError::AmountOutOfRange),
        }
    }

    /// Payments are required when something is underpaid and the balance
    /// reaches the dollar threshold.
    pub fn are_estimated_payments_required(
        &self,
        underpayment: Decimal,
        threshold_amount: Decimal,
        threshold: Decimal,
    ) -> (r: bool)
        ensures
            r == (underpayment@ > 0 && threshold_amount@ >= threshold@),
    {
        underpayment.is_positive() && threshold.le(&threshold_amount)
    }
}

} // verus!
