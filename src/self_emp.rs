//! The Self-Employment Tax and Deduction Worksheet.
//!
//! Lines 1a, 1b and 2 are combined, multiplied by the net earnings factor
//! (line 3), taxed for Medicare without a cap (line 4) and for Social Security
//! up to what wages left of the wage base (lines 5 to 9); the sum is the
//! self-employment tax (line 10), of which a part is deductible (line 11).
//! Every line is rounded to the cent before the next one uses it.

use crate::common::{max, min, round_half_up};
use crate::decimal::{
    decimal_text_of, in_range, lemma_round_monotonic, lemma_round_multiple, round_half_away, round_product,
    round_to_cent, Decimal, CENT, UNIT,
};
use crate::models::TaxYearConfig;
use vstd::prelude::*;

verus! {

/// Why a self-employment worksheet could not be computed.
#[derive(Clone, Copy, Debug, PartialEq, Eq, Structural)]
pub enum SeWorksheetError {
    /// The net earnings factor is not in (0, 1].
    InvalidNetEarningsFactor(Decimal),
    /// The Social Security tax rate is not in [0, 1].
    InvalidSocialSecurityRate(Decimal),
    /// The Medicare tax rate is not in [0, 1].
    InvalidMedicareRate(Decimal),
    /// The deduction factor is not in [0, 1].
    InvalidDeductionFactor(Decimal),
    /// The Social Security wage maximum is not positive.
    InvalidSsWageMax(Decimal),
    /// The minimum self-employment threshold is negative.
    InvalidMinSeThreshold(Decimal),
    /// A worksheet line came out beyond the range of [`Decimal`].
    AmountOutOfRange,
}

/// The text of a message followed by a decimal.
pub open spec fn message_with(text: Seq<char>, d: Decimal) -> Seq<char> {
    text + decimal_text_of(d@)
}

impl SeWorksheetError {
    /// The message that names the field and the value out of range.
    pub open spec fn message_spec(self) -> Seq<char> {
        match self {
            SeWorksheetError::InvalidNetEarningsFactor(d) => message_with(
                "net earnings factor must be between 0 and 1, got "@,
                d,
            ),
            SeWorksheetError::InvalidSocialSecurityRate(d) => message_with(
                "social security tax rate must be between 0 and 1, got "@,
                d,
            ),
            SeWorksheetError::InvalidMedicareRate(d) => message_with(
                "medicare tax rate must be between 0 and 1, got "@,
                d,
            ),
            SeWorksheetError::InvalidDeductionFactor(d) => message_with(
                "deduction factor must be between 0 and 1, got "@,
                d,
            ),
            SeWorksheetError::InvalidSsWageMax(d) => message_with(
                "social security wage maximum must be positive, got "@,
                d,
            ),
            SeWorksheetError::InvalidMinSeThreshold(d) => message_with(
                "minimum SE threshold must be non-negative, got "@,
                d,
            ),
            SeWorksheetError::AmountOutOfRange => "a worksheet line is out of range"@,
        }
    }

    /// A message that names the field and the value out of range.
    pub fn message(&self) -> (r: String)
        ensures
            r@ == self.message_spec(),
    {
        let (text, value) = match self {
            SeWorksheetError::InvalidNetEarningsFactor(d) => (
                "net earnings factor must be between 0 and 1, got ",
                d,
            ),
            SeWorksheetError::InvalidSocialSecurityRate(d) => (
                "social security tax rate must be between 0 and 1, got ",
                d,
            ),
            SeWorksheetError::InvalidMedicareRate(d) => (
                "medicare tax rate must be between 0 and 1, got ",
                d,
            ),
            SeWorksheetError::InvalidDeductionFactor(d) => (
                "deduction factor must be between 0 and 1, got ",
                d,
            ),
            SeWorksheetError::InvalidSsWageMax(d) => (
                "social security wage maximum must be positive, got ",
                d,
            ),
            SeWorksheetError::InvalidMinSeThreshold(d) => (
                "minimum SE threshold must be non-negative, got ",
                d,
            ),
            SeWorksheetError::AmountOutOfRange => {
                return String::from_str("a worksheet line is out of range");
            },
        };
        let mut msg = String::from_str(text);
        msg.append(value.to_string().as_str());
        msg
    }
}

/// Rates and limits of one tax year for the worksheet.
#[derive(Clone, Copy, Debug, PartialEq, Eq, Structural)]
pub struct SeWorksheetConfig {
    /// Maximum earnings subject to Social Security tax (line 5).
    pub ss_wage_max: Decimal,
    /// Combined Social Security tax rate (line 9).
    pub ss_tax_rate: Decimal,
    /// Combined Medicare tax rate (line 4).
    pub medicare_tax_rate: Decimal,
    /// Share of self-employment income subject to the tax (line 3).
    pub net_earnings_factor: Decimal,
    /// Deductible share of the self-employment tax (line 11).
    pub deduction_factor: Decimal,
    /// Combined income at or below which no self-employment tax is due.
    pub min_se_threshold: Decimal,
}

/// Whether a rate in millionths lies in [0, 1].
pub open spec fn is_unit_rate(r: int) -> bool {
    0 <= r <= UNIT
}

impl SeWorksheetConfig {
    /// The first field out of its range, in the order they are checked, as an error.
    pub open spec fn validation_error(self) -> Option<SeWorksheetError> {
        if !(0 < self.net_earnings_factor@ <= UNIT) {
            Some(SeWorksheetError::InvalidNetEarningsFactor(self.net_earnings_factor))
        } else if !is_unit_rate(self.ss_tax_rate@) {
            Some(SeWorksheetError::InvalidSocialSecurityRate(self.ss_tax_rate))
        } else if !is_unit_rate(self.medicare_tax_rate@) {
            Some(SeWorksheetError::InvalidMedicareRate(self.medicare_tax_rate))
        } else if !is_unit_rate(self.deduction_factor@) {
            Some(SeWorksheetError::InvalidDeductionFactor(self.deduction_factor))
        } else if self.ss_wage_max@ <= 0 {
            Some(SeWorksheetError::InvalidSsWageMax(self.ss_wage_max))
        } else if self.min_se_threshold@ < 0 {
            Some(SeWorksheetError::InvalidMinSeThreshold(self.min_se_threshold))
        } else {
            None
        }
    }

    /// Takes the worksheet's fields from a year configuration.
    pub fn from_tax_year_config(config: &TaxYearConfig) -> (r: Self)
        ensures
            r.ss_wage_max == config.ss_wage_max,
            r.ss_tax_rate == config.ss_tax_rate,
            r.medicare_tax_rate == config.medicare_tax_rate,
            r.net_earnings_factor == config.se_tax_deductible_percentage,
            r.deduction_factor == config.se_deduction_factor,
            r.min_se_threshold == config.min_se_threshold,
    {
        SeWorksheetConfig {
            ss_wage_max: config.ss_wage_max,
            ss_tax_rate: config.ss_tax_rate,
            medicare_tax_rate: config.medicare_tax_rate,
            net_earnings_factor: config.se_tax_deductible_percentage,
            deduction_factor: config.se_deduction_factor,
            min_se_threshold: config.min_se_threshold,
        }
    }

    /// Checks each field against its range, failing on the first that is out of it.
    pub fn validate(&self) -> (r: Result<(), SeWorksheetError>)
        ensures
            r == match self.validation_error() {
                Some(e) => Err(e),
                None => Ok::<(), SeWorksheetError>(()),
            },
    {
        let one = Decimal::one();
        let zero = Decimal::zero();
        if !self.net_earnings_factor.is_positive() || one.lt(&self.net_earnings_factor) {
            return Err(SeWorksheetError::InvalidNetEarningsFactor(self.net_earnings_factor));
        }
        if self.ss_tax_rate.lt(&zero) || one.lt(&self.ss_tax_rate) {
            return Err(SeWorksheetError::InvalidSocialSecurityRate(self.ss_tax_rate));
        }
        if self.medicare_tax_rate.lt(&zero) || one.lt(&self.medicare_tax_rate) {
            return Err(SeWorksheetError::InvalidMedicareRate(self.medicare_tax_rate));
        }
        if self.deduction_factor.lt(&zero) || one.lt(&self.deduction_factor) {
            return Err(SeWorksheetError::InvalidDeductionFactor(self.deduction_factor));
        }
        if !self.ss_wage_max.is_positive() {
            return Err(SeWorksheetError::InvalidSsWageMax(self.ss_wage_max));
        }
        if self.min_se_threshold.lt(&zero) {
            return Err(SeWorksheetError::InvalidMinSeThreshold(self.min_se_threshold));
        }
        Ok(())
    }
}

/// Every line of a computed worksheet.
#[derive(Clone, Copy, Debug, PartialEq, Eq, Structural)]
pub struct SeWorksheetResult {
    /// Self-employment income and CRP payments together (lines 1a, 1b and 2).
    pub combined_se_income: Decimal,
    /// Net earnings from self-employment (line 3).
    pub net_earnings: Decimal,
    /// Medicare tax (line 4).
    pub medicare_tax: Decimal,
    /// Earnings subject to Social Security tax (line 8).
    pub ss_taxable_earnings: Decimal,
    /// Social Security tax (line 9).
    pub social_security_tax: Decimal,
    /// Self-employment tax (line 10).
    pub self_employment_tax: Decimal,
    /// Deductible part of the self-employment tax (line 11).
    pub se_tax_deduction: Decimal,
    /// Whether combined income was at or below the minimum threshold.
    pub below_threshold: bool,
}

impl SeWorksheetResult {
    /// The all-zero result for income at or below the threshold.
    pub fn below_threshold(combined_se_income: Decimal) -> (r: Self)
        ensures
            r.combined_se_income == combined_se_income,
            r.net_earnings@ == 0,
            r.medicare_tax@ == 0,
            r.ss_taxable_earnings@ == 0,
            r.social_security_tax@ == 0,
            r.self_employment_tax@ == 0,
            r.se_tax_deduction@ == 0,
            r.below_threshold,
    {
        SeWorksheetResult {
            combined_se_income,
            net_earnings: Decimal::zero(),
            medicare_tax: Decimal::zero(),
            ss_taxable_earnings: Decimal::zero(),
            social_security_tax: Decimal::zero(),
            self_employment_tax: Decimal::zero(),
            se_tax_deduction: Decimal::zero(),
            below_threshold: true,
        }
    }
}

/// Line 3: combined income times the net earnings factor, rounded.
pub open spec fn net_earnings_line(combined: int, factor: int) -> int {
    round_product(combined, factor)
}

/// Line 4: net earnings times the Medicare rate, rounded; nothing on no earnings.
pub open spec fn medicare_line(net: int, rate: int) -> int {
    if net <= 0 {
        0
    } else {
        round_product(net, rate)
    }
}

/// Line 7: what wages left of the wage base, rounded; nothing once wages reach it.
pub open spec fn remaining_base_line(wage_max: int, wages: int) -> int {
    if wage_max - wages <= 0 {
        0
    } else {
        round_to_cent(wage_max - wages)
    }
}

/// Line 8: the smaller of net earnings and the remaining base, rounded; nothing
/// on no earnings.
pub open spec fn ss_taxable_line(net: int, remaining: int) -> int {
    if net <= 0 {
        0
    } else {
        round_to_cent(if net < remaining { net } else { remaining })
    }
}

/// The lines of the worksheet past the threshold test, from combined income on,
/// in order: net earnings, Medicare tax, remaining base, taxable earnings, Social
/// Security tax, self-employment tax, deduction.
pub open spec fn se_lines(c: SeWorksheetConfig, combined: int, wages: int) -> Seq<int> {
    let net = net_earnings_line(combined, c.net_earnings_factor@);
    let medicare = medicare_line(net, c.medicare_tax_rate@);
    let remaining = remaining_base_line(c.ss_wage_max@, wages);
    let taxable = ss_taxable_line(net, remaining);
    let ss_tax = round_product(taxable, c.ss_tax_rate@);
    let se_tax = round_to_cent(medicare + ss_tax);
    let deduction = round_product(se_tax, c.deduction_factor@);
    seq![net, medicare, remaining, taxable, ss_tax, se_tax, deduction]
}

/// Whether some line of the worksheet leaves the range of [`Decimal`].
pub open spec fn se_out_of_range(c: SeWorksheetConfig, se_income: int, crp: int, wages: int) -> bool {
    let combined = round_to_cent(se_income + crp);
    !in_range(combined) || (combined > c.min_se_threshold@ && exists|i: int|
        0 <= i < 7 && !in_range(#[trigger] se_lines(c, combined, wages)[i]))
}

/// Social Security tax stops at the wage base: the taxable earnings never exceed
/// what wages left of it, equal it once net earnings pass it, and below it are the
/// net earnings themselves, which the Social Security rate then scales.
pub proof fn ss_taxable_earnings_capped_by_wage_base(c: SeWorksheetConfig, combined: int, wages: int)
    ensures
        ({
            let lines = se_lines(c, combined, wages);
            &&& lines[2] >= 0
            &&& lines[3] <= lines[2]
            &&& lines[0] > lines[2] ==> lines[3] == lines[2]
            &&& 0 < lines[0] <= lines[2] ==> lines[3] == lines[0] && lines[4] == round_product(
                lines[0],
                c.ss_tax_rate@,
            )
        }),
{
    let lines = se_lines(c, combined, wages);
    let net = lines[0];
    let remaining = lines[2];
    let d = CENT as int;
    // both lines are whole cents, so rounding them again changes nothing
    let kn = round_half_away(combined * c.net_earnings_factor@, UNIT * CENT);
    assert(net == kn * CENT);
    lemma_round_multiple(kn, d);
    if c.ss_wage_max@ - wages > 0 {
        let kr = round_half_away(c.ss_wage_max@ - wages, d);
        lemma_round_multiple(kr, d);
        lemma_round_monotonic(0, c.ss_wage_max@ - wages, d);
        lemma_round_multiple(0, d);
        assert(kr >= 0);
        assert(kr * CENT >= 0) by (nonlinear_arith)
            requires
                kr >= 0,
        ;
    }
    assert(round_to_cent(remaining) == remaining);
    assert(round_to_cent(net) == net);
}

/// Whether the worksheet runs to the end: a valid configuration and every line in range.
pub open spec fn se_succeeds(c: SeWorksheetConfig, se_income: int, crp: int, wages: int) -> bool {
    c.validation_error() is None && !se_out_of_range(c, se_income, crp, wages)
}

/// The error the worksheet reports when it does not run to the end.
pub open spec fn se_failure(c: SeWorksheetConfig) -> SeWorksheetError {
    match c.validation_error() {
        Some(e) => e,
        None => SeWorksheetError::AmountOutOfRange,
    }
}

/// Line `k` of a completed worksheet (5: self-employment tax, 6: deduction): zero
/// at or below the threshold.
pub open spec fn se_line(c: SeWorksheetConfig, se_income: int, crp: int, wages: int, k: int) -> int {
    let combined = round_to_cent(se_income + crp);
    if combined <= c.min_se_threshold@ {
        0
    } else {
        se_lines(c, combined, wages)[k]
    }
}

/// Calculator for the self-employment worksheet of one tax year.
#[derive(Clone, Copy, Debug)]
pub struct SeWorksheet {
    pub config: SeWorksheetConfig,
}

impl SeWorksheet {
    /// A calculator over the given rates and limits.
    pub fn new(config: SeWorksheetConfig) -> (r: Self)
        ensures
            r.config == config,
    {
        SeWorksheet { config }
    }

    /// Computes every line of the worksheet.
    ///
    /// The configuration is checked first and its first bad field reported. At
    /// or below the threshold the result is all zero but for the combined
    /// income. A line beyond the range of [`Decimal`] is reported as
    /// `AmountOutOfRange`.
    pub fn calculate(&self, se_income: Decimal, crp_payments: Decimal, wages: Decimal) -> (r:
        Result<SeWorksheetResult, SeWorksheetError>)
        ensures
            self.config.validation_error() is Some ==> r == Err::<SeWorksheetResult, _>(
                self.config.validation_error().unwrap(),
            ),
            self.config.validation_error() is None ==> (r is Err <==> se_out_of_range(
                self.config,
                se_income@,
                crp_payments@,
                wages@,
            )),
            self.config.validation_error() is None && r is Err ==> r
                == Err::<SeWorksheetResult, _>(SeWorksheetError::AmountOutOfRange),
            r is Ok ==> ({
                let res = r.unwrap();
                let combined = round_to_cent(se_income@ + crp_payments@);
                let lines = se_lines(self.config, combined, wages@);
                &&& res.combined_se_income@ == combined
                &&& res.below_threshold == (combined <= self.config.min_se_threshold@)
                &&& res.below_threshold ==> res.net_earnings@ == 0 && res.medicare_tax@ == 0
                    && res.ss_taxable_earnings@ == 0 && res.social_security_tax@ == 0
                    && res.self_employment_tax@ == 0 && res.se_tax_deduction@ == 0
                &&& !res.below_threshold ==> res.net_earnings@ == lines[0] && res.medicare_tax@
                    == lines[1] && res.ss_taxable_earnings@ == lines[3]
                    && res.social_security_tax@ == lines[4] && res.self_employment_tax@
                    == lines[5] && res.se_tax_deduction@ == lines[6]
            }),
            r is Ok && !r.unwrap().below_threshold ==> ({
                let res = r.unwrap();
                let remaining = remaining_base_line(self.config.ss_wage_max@, wages@);
                &&& 0 <= remaining
                &&& res.ss_taxable_earnings@ <= remaining
                &&& res.net_earnings@ > remaining ==> res.ss_taxable_earnings@ == remaining
                    && res.social_security_tax@ == round_product(remaining, self.config.ss_tax_rate@)
                &&& 0 < res.net_earnings@ <= remaining ==> res.ss_taxable_earnings@ == res.net_earnings@
                    && res.social_security_tax@ == round_product(res.net_earnings@, self.config.ss_tax_rate@)
            }),
    {
        match self.config.validate() {
            Err(e) => {
                return Err(e);
            },
            Ok(_) => {},
        }
        let combined = match self.combined_se_income(se_income, crp_payments) {
            Ok(v) => v,
            Err(e) => {
                return Err(e);
            },
        };
        if combined.le(&self.config.min_se_threshold) {
            return Ok(SeWorksheetResult::below_threshold(combined));
        }
        let ghost lines = se_lines(self.config, combined@, wages@);
        let net_earnings = match self.net_earnings_from_self_employment(combined) {
            Ok(v) => v,
            Err(e) => {
                assert(!in_range(lines[0]));
                return Err(e);
            },
        };
        let medicare_tax = match self.medicare_tax(net_earnings) {
            Ok(v) => v,
            Err(e) => {
                assert(!in_range(lines[1]));
                return Err(e);
            },
        };
        let remaining_ss_base = match self.remaining_ss_wage_base(wages) {
            Ok(v) => v,
            Err(e) => {
                assert(!in_range(lines[2]));
                return Err(e);
            },
        };
        let ss_taxable_earnings = self.ss_taxable_earnings(net_earnings, remaining_ss_base);
        let social_security_tax = match self.social_security_tax(ss_taxable_earnings) {
            Ok(v) => v,
            Err(e) => {
                assert(!in_range(lines[4]));
                return Err(e);
            },
        };
        let self_employment_tax = match self.total_self_employment_tax(
            medicare_tax,
            social_security_tax,
        ) {
            Ok(v) => v,
            Err(e) => {
                assert(!in_range(lines[5]));
                return Err(e);
            },
        };
        let se_tax_deduction = match self.se_tax_deduction(self_employment_tax) {
            Ok(v) => v,
            Err(e) => {
                assert(!in_range(lines[6]));
                return Err(e);
            },
        };
        proof {
            ss_taxable_earnings_capped_by_wage_base(self.config, combined@, wages@);
        }
        Ok(
            SeWorksheetResult {
                combined_se_income: combined,
                net_earnings,
                medicare_tax,
                ss_taxable_earnings,
                social_security_tax,
                self_employment_tax,
                se_tax_deduction,
                below_threshold: false,
            },
        )
    }

    /// Lines 1a, 1b and 2: self-employment income plus CRP payments, rounded.
    pub fn combined_se_income(&self, se_income: Decimal, crp_payments: Decimal) -> (r: Result<
        Decimal,
        SeWorksheetError,
    >)
        ensures
            r is Ok <==> in_range(round_to_cent(se_income@ + crp_payments@)),
            r is Ok ==> r.unwrap()@ == round_to_cent(se_income@ + crp_payments@),
            r is Err ==> r == Err::<Decimal, _>(SeWorksheetError::AmountOutOfRange),
    {
        match se_income.add_round(&crp_payments) {
            Some(v) => Ok(v),
            None => Err(SeWorksheetError::AmountOutOfRange),
        }
    }

    /// Line 3: combined income times the net earnings factor, rounded.
    pub fn net_earnings_from_self_employment(&self, combined_income: Decimal) -> (r: Result<
        Decimal,
        SeWorksheetError,
    >)
        ensures
            r is Ok <==> in_range(net_earnings_line(combined_income@, self.config.net_earnings_factor@)),
            r is Ok ==> r.unwrap()@ == net_earnings_line(combined_income@, self.config.net_earnings_factor@),
            r is Err ==> r == Err::<Decimal, _>(SeWorksheetError::AmountOutOfRange),
    {
        match combined_income.mul_round(&self.config.net_earnings_factor) {
            Some(v) => Ok(v),
            None => Err(SeWorksheetError::AmountOutOfRange),
        }
    }

    /// Line 4: net earnings times the Medicare rate, rounded, without a wage cap;
    /// zero on zero or negative earnings.
    pub fn medicare_tax(&self, net_earnings: Decimal) -> (r: Result<Decimal, SeWorksheetError>)
        ensures
            r is Ok <==> in_range(medicare_line(net_earnings@, self.config.medicare_tax_rate@)),
            r is Ok ==> r.unwrap()@ == medicare_line(net_earnings@, self.config.medicare_tax_rate@),
            r is Err ==> r == Err::<Decimal, _>(SeWorksheetError::AmountOutOfRange),
    {
        if !net_earnings.is_positive() {
            return Ok(Decimal::zero());
        }
        match net_earnings.mul_round(&self.config.medicare_tax_rate) {
            Some(v) => Ok(v),
            None => Err(SeWorksheetError::AmountOutOfRange),
        }
    }

    /// Line 7: the wage base less wages, rounded; zero once wages reach the base.
    pub fn remaining_ss_wage_base(&self, wages: Decimal) -> (r: Result<Decimal, SeWorksheetError>)
        ensures
            r is Ok <==> in_range(remaining_base_line(self.config.ss_wage_max@, wages@)),
            r is Ok ==> r.unwrap()@ == remaining_base_line(self.config.ss_wage_max@, wages@),
            r is Err ==> r == Err::<Decimal, _>(SeWorksheetError::AmountOutOfRange),
    {
        if self.config.ss_wage_max.le(&wages) {
            return Ok(Decimal::zero());
        }
        match self.config.ss_wage_max.sub_round(&wages) {
            Some(v) => Ok(v),
            None => Err(SeWorksheetError::AmountOutOfRange),
        }
    }

    /// Line 8: the smaller of net earnings and the remaining base, rounded; zero
    /// on zero or negative earnings.
    pub fn ss_taxable_earnings(&self, net_earnings: Decimal, remaining_ss_base: Decimal) -> (r:
        Decimal)
        ensures
            r@ == ss_taxable_line(net_earnings@, remaining_ss_base@),
            in_range(r@),
    {
        if !net_earnings.is_positive() {
            return Decimal::zero();
        }
        round_half_up(min(net_earnings, remaining_ss_base))
    }

    /// Line 9: taxable earnings times the Social Security rate, rounded.
    pub fn social_security_tax(&self, ss_taxable_earnings: Decimal) -> (r: Result<
        Decimal,
        SeWorksheetError,
    >)
        ensures
            r is Ok <==> in_range(round_product(ss_taxable_earnings@, self.config.ss_tax_rate@)),
            r is Ok ==> r.unwrap()@ == round_product(ss_taxable_earnings@, self.config.ss_tax_rate@),
            r is Err ==> r == Err::<Decimal, _>(SeWorksheetError::AmountOutOfRange),
    {
        match ss_taxable_earnings.mul_round(&self.config.ss_tax_rate) {
            Some(v) => Ok(v),
            None => Err(SeWorksheetError::AmountOutOfRange),
        }
    }

    /// Line 10: Medicare tax plus Social Security tax, rounded.
    pub fn total_self_employment_tax(&self, medicare_tax: Decimal, social_security_tax: Decimal) -> (r:
        Result<Decimal, SeWorksheetError>)
        ensures
            r is Ok <==> in_range(round_to_cent(medicare_tax@ + social_security_tax@)),
            r is Ok ==> r.unwrap()@ == round_to_cent(medicare_tax@ + social_security_tax@),
            r is Err ==> r == Err::<Decimal, _>(SeWorksheetError::AmountOutOfRange),
    {
        match medicare_tax.add_round(&social_security_tax) {
            Some(v) => Ok(v),
            None => Err(SeWorksheetError::AmountOutOfRange),
        }
    }

    /// Line 11: the self-employment tax times the deduction factor, rounded.
    pub fn se_tax_deduction(&self, self_employment_tax: Decimal) -> (r: Result<
        Decimal,
        SeWorksheetError,
    >)
        ensures
            r is Ok <==> in_range(round_product(self_employment_tax@, self.config.deduction_factor@)),
            r is Ok ==> r.unwrap()@ == round_product(self_employment_tax@, self.config.deduction_factor@),
            r is Err ==> r == Err::<Decimal, _>(SeWorksheetError::AmountOutOfRange),
    {
        match self_employment_tax.mul_round(&self.config.deduction_factor) {
            Some(v) => Ok(v),
            None => Err(SeWorksheetError::AmountOutOfRange),
        }
    }
}

} // verus!
