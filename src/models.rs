//! Reference data records: year configuration, brackets, deductions and filing statuses.

use crate::decimal::Decimal;
use crate::text::str_eq;
use vstd::prelude::*;

verus! {

/// Year-specific rates and limits.
#[derive(Clone, Copy, Debug, PartialEq, Eq, Structural)]
pub struct TaxYearConfig {
    pub tax_year: i32,
    pub ss_wage_max: Decimal,
    pub ss_tax_rate: Decimal,
    pub medicare_tax_rate: Decimal,
    pub se_tax_deductible_percentage: Decimal,
    pub se_deduction_factor: Decimal,
    pub required_payment_threshold: Decimal,
    pub min_se_threshold: Decimal,
}

/// One progressive-rate segment of a tax schedule.
///
/// `min_income` is the exclusive lower bound, `max_income` the inclusive upper
/// bound (`None` for the unbounded top bracket), `tax_rate` the marginal rate
/// above `min_income` and `base_tax` the tax owed at `min_income`.
#[derive(Clone, Copy, Debug, PartialEq, Eq, Structural)]
pub struct TaxBracket {
    pub tax_year: i32,
    pub filing_status_id: i32,
    pub min_income: Decimal,
    pub max_income: Option<Decimal>,
    pub tax_rate: Decimal,
    pub base_tax: Decimal,
}

/// The standard deduction of one year and filing status.
#[derive(Clone, Copy, Debug, PartialEq, Eq, Structural)]
pub struct StandardDeduction {
    pub tax_year: i32,
    pub filing_status_id: i32,
    pub amount: Decimal,
}

/// A new estimate as the form submits it, before anything is computed.
#[derive(Clone, Copy, Debug, PartialEq, Eq, Structural)]
pub struct NewTaxEstimate {
    pub tax_year: i32,
    pub filing_status_id: i32,
    pub expected_agi: Decimal,
    pub expected_deduction: Decimal,
    pub expected_qbi_deduction: Option<Decimal>,
    pub expected_amt: Option<Decimal>,
    pub expected_credits: Option<Decimal>,
    pub expected_other_taxes: Option<Decimal>,
    pub expected_withholding: Option<Decimal>,
    pub prior_year_tax: Option<Decimal>,
    pub se_income: Option<Decimal>,
    pub expected_crp_payments: Option<Decimal>,
    pub expected_wages: Option<Decimal>,
}

/// A stored estimate, with the figures computed for it. Times are seconds since
/// the Unix epoch, UTC.
#[derive(Clone, Copy, Debug, PartialEq, Eq, Structural)]
pub struct TaxEstimate {
    pub id: i64,
    pub tax_year: i32,
    pub filing_status_id: i32,
    pub expected_agi: Decimal,
    pub expected_deduction: Decimal,
    pub expected_qbi_deduction: Option<Decimal>,
    pub expected_amt: Option<Decimal>,
    pub expected_credits: Option<Decimal>,
    pub expected_other_taxes: Option<Decimal>,
    pub expected_withholding: Option<Decimal>,
    pub prior_year_tax: Option<Decimal>,
    pub se_income: Option<Decimal>,
    pub expected_crp_payments: Option<Decimal>,
    pub expected_wages: Option<Decimal>,
    pub calculated_se_tax: Option<Decimal>,
    pub calculated_total_tax: Option<Decimal>,
    pub calculated_required_payment: Option<Decimal>,
    pub created_at: i64,
    pub updated_at: i64,
}

/// A filing status, as its short code names it.
#[derive(Clone, Copy, Debug, PartialEq, Eq, Structural)]
pub enum FilingStatusCode {
    Single,
    MarriedFilingJointly,
    MarriedFilingSeparately,
    HeadOfHousehold,
    QualifyingSurvivingSpouse,
}

/// The short code of each filing status.
pub open spec fn code_text(c: FilingStatusCode) -> Seq<char> {
    match c {
        FilingStatusCode::Single => "S"@,
        FilingStatusCode::MarriedFilingJointly => "MFJ"@,
        FilingStatusCode::MarriedFilingSeparately => "MFS"@,
        FilingStatusCode::HeadOfHousehold => "HOH"@,
        FilingStatusCode::QualifyingSurvivingSpouse => "QSS"@,
    }
}

/// The full name of each filing status.
pub open spec fn long_text(c: FilingStatusCode) -> Seq<char> {
    match c {
        FilingStatusCode::Single => "Single"@,
        FilingStatusCode::MarriedFilingJointly => "Married Filing Jointly"@,
        FilingStatusCode::MarriedFilingSeparately => "Married Filing Separately"@,
        FilingStatusCode::HeadOfHousehold => "Head of Household"@,
        FilingStatusCode::QualifyingSurvivingSpouse => "Qualifying Surviving Spouse"@,
    }
}

/// The filing status whose short code is `s`, if any.
pub open spec fn code_from_text(s: Seq<char>) -> Option<FilingStatusCode> {
    if s == "S"@ {
        Some(FilingStatusCode::Single)
    } else if s == "MFJ"@ {
        Some(FilingStatusCode::MarriedFilingJointly)
    } else if s == "MFS"@ {
        Some(FilingStatusCode::MarriedFilingSeparately)
    } else if s == "HOH"@ {
        Some(FilingStatusCode::HeadOfHousehold)
    } else if s == "QSS"@ {
        Some(FilingStatusCode::QualifyingSurvivingSpouse)
    } else {
        None
    }
}

/// The reference-data id of each filing status.
pub open spec fn status_id(c: FilingStatusCode) -> i32 {
    match c {
        FilingStatusCode::Single => 1,
        FilingStatusCode::MarriedFilingJointly => 2,
        FilingStatusCode::MarriedFilingSeparately => 3,
        FilingStatusCode::HeadOfHousehold => 4,
        FilingStatusCode::QualifyingSurvivingSpouse => 5,
    }
}

impl Default for FilingStatusCode {
    fn default() -> (r: Self)
        ensures
            r == FilingStatusCode::Single,
    {
        FilingStatusCode::Single
    }
}

impl FilingStatusCode {
    /// The short code: `S`, `MFJ`, `MFS`, `HOH` or `QSS`.
    pub fn as_str(&self) -> (r: &'static str)
        ensures
            r@ == code_text(*self),
    {
        match self {
            FilingStatusCode::Single => "S",
            FilingStatusCode::MarriedFilingJointly => "MFJ",
            FilingStatusCode::MarriedFilingSeparately => "MFS",
            FilingStatusCode::HeadOfHousehold => "HOH",
            FilingStatusCode::QualifyingSurvivingSpouse => "QSS",
        }
    }

    /// The full name.
    pub fn to_long_str(&self) -> (r: &'static str)
        ensures
            r@ == long_text(*self),
    {
        match self {
            FilingStatusCode::Single => "Single",
            FilingStatusCode::MarriedFilingJointly => "Married Filing Jointly",
            FilingStatusCode::MarriedFilingSeparately => "Married Filing Separately",
            FilingStatusCode::HeadOfHousehold => "Head of Household",
            FilingStatusCode::QualifyingSurvivingSpouse => "Qualifying Surviving Spouse",
        }
    }

    /// The filing status with the short code `s`, if there is one.
    pub fn parse(s: &str) -> (r: Option<Self>)
        ensures
            r == code_from_text(s@),
    {
        if str_eq(s, "S") {
            Some(FilingStatusCode::Single)
        } else if str_eq(s, "MFJ") {
            Some(FilingStatusCode::MarriedFilingJointly)
        } else if str_eq(s, "MFS") {
            Some(FilingStatusCode::MarriedFilingSeparately)
        } else if str_eq(s, "HOH") {
            Some(FilingStatusCode::HeadOfHousehold)
        } else if str_eq(s, "QSS") {
            Some(FilingStatusCode::QualifyingSurvivingSpouse)
        } else {
            None
        }
    }

    /// The reference-data id of a filing status, 1 to 5 in declaration order.
    pub fn filing_status_to_id(code: FilingStatusCode) -> (r: i32)
        ensures
            r == status_id(code),
    {
        match code {
            FilingStatusCode::Single => 1,
            FilingStatusCode::MarriedFilingJointly => 2,
            FilingStatusCode::MarriedFilingSeparately => 3,
            FilingStatusCode::HeadOfHousehold => 4,
            FilingStatusCode::QualifyingSurvivingSpouse => 5,
        }
    }
}

/// The filing status that a text names, by short code or by full name.
pub open spec fn code_or_name(s: Seq<char>) -> Option<FilingStatusCode> {
    match code_from_text(s) {
        Some(c) => Some(c),
        None => if s == "Single"@ {
            Some(FilingStatusCode::Single)
        } else if s == "Married Filing Jointly"@ {
            Some(FilingStatusCode::MarriedFilingJointly)
        } else if s == "Married Filing Separately"@ {
            Some(FilingStatusCode::MarriedFilingSeparately)
        } else if s == "Head of Household"@ {
            Some(FilingStatusCode::HeadOfHousehold)
        } else if s == "Qualifying Surviving Spouse"@ {
            Some(FilingStatusCode::QualifyingSurvivingSpouse)
        } else {
            None
        },
    }
}

impl TryFrom<&str> for FilingStatusCode {
    type Error = String;

    /// Reads a filing status from its short code or its full name; otherwise
    /// the error `Unknown filing status: '<text>'`.
    fn try_from(value: &str) -> (r: Result<Self, String>)
        ensures
            code_or_name(value@) is Some ==> r == Ok::<Self, String>(code_or_name(value@).unwrap()),
            code_or_name(value@) is None ==> r is Err && r->Err_0@ == "Unknown filing status: '"@
                + value@ + "'"@,
    {
        match FilingStatusCode::parse(value) {
            Some(c) => {
                return Ok(c);
            },
            None => {},
        }
        if str_eq(value, "Single") {
            Ok(FilingStatusCode::Single)
        } else if str_eq(value, "Married Filing Jointly") {
            Ok(FilingStatusCode::MarriedFilingJointly)
        } else if str_eq(value, "Married Filing Separately") {
            Ok(FilingStatusCode::MarriedFilingSeparately)
        } else if str_eq(value, "Head of Household") {
            Ok(FilingStatusCode::HeadOfHousehold)
        } else if str_eq(value, "Qualifying Surviving Spouse") {
            Ok(FilingStatusCode::QualifyingSurvivingSpouse)
        } else {
            let mut msg = String::from_str("Unknown filing status: '");
            msg.append(value);
            msg.append("'");
            Err(msg)
        }
    }
}

impl vstd::std_specs::convert::TryFromSpecImpl<&str> for FilingStatusCode {
    /// The error text is built at run time, so the contract of `try_from`
    /// itself states the result.
    open spec fn obeys_try_from_spec() -> bool {
        false
    }

    open spec fn try_from_spec(v: &str) -> Result<Self, String> {
        arbitrary()
    }
}

/// A filing status row of the reference data.
#[derive(Clone, Debug, PartialEq, Eq)]
pub struct FilingStatus {
    pub id: i32,
    pub status_code: FilingStatusCode,
    pub status_name: String,
}

} // verus!
