//! The values behind the desktop front end: screens, filing-status choices,
//! the estimate form, key hints, file filters and per-year defaults.

use crate::decimal::{decimal_text_of, text_units, Decimal};
use crate::models::{long_text, status_id, FilingStatusCode, NewTaxEstimate, TaxEstimate};
use crate::self_emp::{se_failure, se_line, se_succeeds, SeWorksheet, SeWorksheetConfig, SeWorksheetError, SeWorksheetResult};
use crate::text::{append_int, int_text, trim_text, trimmed};
use crate::utils::opt_decimal_display;
use vstd::prelude::*;

verus! {

/// The screen on display.
#[derive(Clone, Copy, Debug, PartialEq, Eq, Structural)]
pub enum Screen {
    Main,
    SelfEmployment,
    LoadEstimate,
}

impl Default for Screen {
    fn default() -> (r: Self)
        ensures
            r == Screen::Main,
    {
        Screen::Main
    }
}

/// The tax years offered, newest first.
pub fn get_available_tax_years() -> (r: Vec<i32>)
    ensures
        r@ == seq![2026i32, 2025, 2024, 2023],
{
    let r = vec![2026, 2025, 2024, 2023];
    assert(r@ =~= seq![2026i32, 2025, 2024, 2023]);
    r
}

/// A filing status as the form offers it.
#[derive(Clone, Copy, Debug, PartialEq, Eq, Structural)]
pub enum FilingStatus {
    Single,
    MarriedFilingJointly,
    MarriedFilingSeparately,
    HeadOfHousehold,
    QualifyingWidow,
}

impl Default for FilingStatus {
    fn default() -> (r: Self)
        ensures
            r == FilingStatus::Single,
    {
        FilingStatus::Single
    }
}

/// The id of each filing status, 1 to 5 in the order the form lists them.
pub open spec fn form_status_id(s: FilingStatus) -> i32 {
    match s {
        FilingStatus::Single => 1,
        FilingStatus::MarriedFilingJointly => 2,
        FilingStatus::MarriedFilingSeparately => 3,
        FilingStatus::HeadOfHousehold => 4,
        FilingStatus::QualifyingWidow => 5,
    }
}

/// The label the form shows for each filing status.
pub open spec fn form_status_label(s: FilingStatus) -> Seq<char> {
    match s {
        FilingStatus::Single => "Single"@,
        FilingStatus::MarriedFilingJointly => "Married Filing Jointly"@,
        FilingStatus::MarriedFilingSeparately => "Married Filing Separately"@,
        FilingStatus::HeadOfHousehold => "Head of Household"@,
        FilingStatus::QualifyingWidow => "Qualifying Widow(er)"@,
    }
}

impl FilingStatus {
    /// Every filing status, in the order the form lists them.
    pub fn all() -> (r: Vec<FilingStatus>)
        ensures
            r@ == seq![
                FilingStatus::Single,
                FilingStatus::MarriedFilingJointly,
                FilingStatus::MarriedFilingSeparately,
                FilingStatus::HeadOfHousehold,
                FilingStatus::QualifyingWidow,
            ],
    {
        let r = vec![
            FilingStatus::Single,
            FilingStatus::MarriedFilingJointly,
            FilingStatus::MarriedFilingSeparately,
            FilingStatus::HeadOfHousehold,
            FilingStatus::QualifyingWidow,
        ];
        assert(r@ =~= seq![
            FilingStatus::Single,
            FilingStatus::MarriedFilingJointly,
            FilingStatus::MarriedFilingSeparately,
            FilingStatus::HeadOfHousehold,
            FilingStatus::QualifyingWidow,
        ]);
        r
    }

    /// The reference-data id.
    pub fn id(&self) -> (r: i32)
        ensures
            r == form_status_id(*self),
    {
        match self {
            FilingStatus::Single => 1,
            FilingStatus::MarriedFilingJointly => 2,
            FilingStatus::MarriedFilingSeparately => 3,
            FilingStatus::HeadOfHousehold => 4,
            FilingStatus::QualifyingWidow => 5,
        }
    }

    /// The label shown on the form.
    pub fn label(&self) -> (r: &'static str)
        ensures
            r@ == form_status_label(*self),
    {
        match self {
            FilingStatus::Single => "Single",
            FilingStatus::MarriedFilingJointly => "Married Filing Jointly",
            FilingStatus::MarriedFilingSeparately => "Married Filing Separately",
            FilingStatus::HeadOfHousehold => "Head of Household",
            FilingStatus::QualifyingWidow => "Qualifying Widow(er)",
        }
    }
}

/// The estimate form as the user fills it in: every amount as typed.
#[derive(Clone, Debug)]
pub struct EstimateForm {
    pub tax_year: i32,
    pub filing_status: FilingStatus,
    pub expected_agi: String,
    pub expected_deduction: String,
    pub expected_qbi_deduction: String,
    pub expected_amt: String,
    pub expected_credits: String,
    pub expected_other_taxes: String,
    pub expected_withholding: String,
    pub prior_year_tax: String,
    pub se_income: String,
    pub expected_crp_payments: String,
    pub expected_wages: String,
    /// Messages from the last validation.
    pub errors: Vec<String>,
}

/// Whether a form is the blank one: 2025, single, a standard deduction of 14600
/// and every other field empty.
pub open spec fn is_blank_form(f: EstimateForm) -> bool {
    &&& f.tax_year == 2025
    &&& f.filing_status == FilingStatus::Single
    &&& f.expected_deduction@ == "14600"@
    &&& f.expected_agi@.len() == 0
    &&& f.expected_qbi_deduction@.len() == 0
    &&& f.expected_amt@.len() == 0
    &&& f.expected_credits@.len() == 0
    &&& f.expected_other_taxes@.len() == 0
    &&& f.expected_withholding@.len() == 0
    &&& f.prior_year_tax@.len() == 0
    &&& f.se_income@.len() == 0
    &&& f.expected_crp_payments@.len() == 0
    &&& f.expected_wages@.len() == 0
    &&& f.errors@.len() == 0
}

impl Default for EstimateForm {
    fn default() -> (r: Self)
        ensures
            is_blank_form(r),
    {
        EstimateForm {
            tax_year: 2025,
            filing_status: FilingStatus::Single,
            expected_agi: String::new(),
            expected_deduction: String::from_str("14600"),
            expected_qbi_deduction: String::new(),
            expected_amt: String::new(),
            expected_credits: String::new(),
            expected_other_taxes: String::new(),
            expected_withholding: String::new(),
            prior_year_tax: String::new(),
            se_income: String::new(),
            expected_crp_payments: String::new(),
            expected_wages: String::new(),
            errors: Vec::new(),
        }
    }
}

/// The amount a form field holds: its trimmed text read as a decimal; `None`
/// when blank or unreadable.
pub open spec fn field_amount(text: Seq<char>) -> Option<int> {
    let t = trimmed(text);
    if t.len() == 0 {
        None
    } else {
        text_units(t)
    }
}

/// Whether an optional decimal holds what an optional amount says.
pub open spec fn amount_is(d: Option<Decimal>, a: Option<int>) -> bool {
    &&& (d is None <==> a is None)
    &&& d is Some ==> d.unwrap()@ == a.unwrap()
}

/// Whether two forms hold the same entries, errors aside.
pub open spec fn same_entries(a: EstimateForm, b: EstimateForm) -> bool {
    &&& a.tax_year == b.tax_year
    &&& a.filing_status == b.filing_status
    &&& a.expected_agi == b.expected_agi
    &&& a.expected_deduction == b.expected_deduction
    &&& a.expected_qbi_deduction == b.expected_qbi_deduction
    &&& a.expected_amt == b.expected_amt
    &&& a.expected_credits == b.expected_credits
    &&& a.expected_other_taxes == b.expected_other_taxes
    &&& a.expected_withholding == b.expected_withholding
    &&& a.prior_year_tax == b.prior_year_tax
    &&& a.se_income == b.se_income
    &&& a.expected_crp_payments == b.expected_crp_payments
    &&& a.expected_wages == b.expected_wages
}

/// Reads a form field: its trimmed text as a decimal, if blank or unreadable `None`;
/// and whether it was blank.
fn read_field(value: &str) -> (r: (Option<Decimal>, bool))
    ensures
        amount_is(r.0, field_amount(value@)),
        r.1 == (trimmed(value@).len() == 0),
{
    let t = trim_text(value);
    if t.unicode_len() == 0 {
        return (None, true);
    }
    (Decimal::parse_text(t), false)
}

/// Reads a required field, adding `<field> is required` or `<field> must be a
/// valid number` to `errors` where it does not read.
fn read_required_field(errors: &mut Vec<String>, field: &str, value: &str) -> (r: Option<Decimal>)
    ensures
        amount_is(r, field_amount(value@)),
        final(errors)@.len() == old(errors)@.len() + if r is Some { 0int } else { 1int },
        forall|i: int| 0 <= i < old(errors)@.len() ==> final(errors)@[i] == old(errors)@[i],
{
    let (amount, blank) = read_field(value);
    if amount.is_none() {
        let mut msg = String::from_str(field);
        if blank {
            msg.append(" is required");
        } else {
            msg.append(" must be a valid number");
        }
        errors.push(msg);
    }
    amount
}

/// The self-employment entries of a form, read.
#[derive(Clone, Copy, Debug, PartialEq, Eq, Structural)]
pub struct SeInputs {
    pub se_income: Decimal,
    pub crp_payments: Option<Decimal>,
    pub wages: Option<Decimal>,
}

impl EstimateForm {
    /// A blank form.
    pub fn new() -> (r: Self)
        ensures
            is_blank_form(r),
    {
        EstimateForm::default()
    }

    /// Reads the whole form into a new estimate. Expected AGI and expected
    /// deduction are required; the other amounts are optional and left out
    /// where blank or unreadable. Replaces `errors` with one message per required
    /// field that does not read.
    pub fn validate(&mut self) -> (r: Result<NewTaxEstimate, ()>)
        ensures
            same_entries(*final(self), *old(self)),
            ({
                let f = *old(self);
                let agi = field_amount(f.expected_agi@);
                let ded = field_amount(f.expected_deduction@);
                &&& r is Ok <==> agi is Some && ded is Some
                &&& final(self).errors@.len() == (if agi is Some { 0int } else { 1int }) + (
                if ded is Some {
                    0int
                } else {
                    1int
                })
                &&& r is Ok ==> ({
                    let e = r.unwrap();
                    &&& e.tax_year == f.tax_year
                    &&& e.filing_status_id == form_status_id(f.filing_status)
                    &&& e.expected_agi@ == agi.unwrap()
                    &&& e.expected_deduction@ == ded.unwrap()
                    &&& amount_is(e.expected_qbi_deduction, field_amount(f.expected_qbi_deduction@))
                    &&& amount_is(e.expected_amt, field_amount(f.expected_amt@))
                    &&& amount_is(e.expected_credits, field_amount(f.expected_credits@))
                    &&& amount_is(e.expected_other_taxes, field_amount(f.expected_other_taxes@))
                    &&& amount_is(e.expected_withholding, field_amount(f.expected_withholding@))
                    &&& amount_is(e.prior_year_tax, field_amount(f.prior_year_tax@))
                    &&& amount_is(e.se_income, field_amount(f.se_income@))
                    &&& amount_is(e.expected_crp_payments, field_amount(f.expected_crp_payments@))
                    &&& amount_is(e.expected_wages, field_amount(f.expected_wages@))
                })
            }),
    {
        let mut errors: Vec<String> = Vec::new();
        let expected_agi = read_required_field(&mut errors, "Expected AGI", self.expected_agi.as_str());
        let expected_deduction = read_required_field(
            &mut errors,
            "Expected Deduction",
            self.expected_deduction.as_str(),
        );
        let (expected_qbi_deduction, _) = read_field(self.expected_qbi_deduction.as_str());
        let (expected_amt, _) = read_field(self.expected_amt.as_str());
        let (expected_credits, _) = read_field(self.expected_credits.as_str());
        let (expected_other_taxes, _) = read_field(self.expected_other_taxes.as_str());
        let (expected_withholding, _) = read_field(self.expected_withholding.as_str());
        let (prior_year_tax, _) = read_field(self.prior_year_tax.as_str());
        let (se_income, _) = read_field(self.se_income.as_str());
        let (expected_crp_payments, _) = read_field(self.expected_crp_payments.as_str());
        let (expected_wages, _) = read_field(self.expected_wages.as_str());
        self.errors = errors;
        match (expected_agi, expected_deduction) {
            (Some(agi), Some(deduction)) => Ok(
                NewTaxEstimate {
                    tax_year: self.tax_year,
                    filing_status_id: self.filing_status.id(),
                    expected_agi: agi,
                    expected_deduction: deduction,
                    expected_qbi_deduction,
                    expected_amt,
                    expected_credits,
                    expected_other_taxes,
                    expected_withholding,
                    prior_year_tax,
                    se_income,
                    expected_crp_payments,
                    expected_wages,
                },
            ),
            _ => Err(()),
        }
    }

    /// Reads the self-employment entries: self-employment income is required,
    /// CRP payments and wages optional. Replaces `errors` with one message if the
    /// income does not read.
    pub fn validate_se_only(&mut self) -> (r: Result<SeInputs, ()>)
        ensures
            same_entries(*final(self), *old(self)),
            ({
                let f = *old(self);
                let se = field_amount(f.se_income@);
                &&& r is Ok <==> se is Some
                &&& final(self).errors@.len() == if se is Some { 0int } else { 1int }
                &&& r is Ok ==> r.unwrap().se_income@ == se.unwrap() && amount_is(
                    r.unwrap().crp_payments,
                    field_amount(f.expected_crp_payments@),
                ) && amount_is(r.unwrap().wages, field_amount(f.expected_wages@))
            }),
    {
        let mut errors: Vec<String> = Vec::new();
        let se_income = read_required_field(
            &mut errors,
            "Self-Employment Income",
            self.se_income.as_str(),
        );
        let (crp_payments, _) = read_field(self.expected_crp_payments.as_str());
        let (wages, _) = read_field(self.expected_wages.as_str());
        self.errors = errors;
        match se_income {
            Some(se_income) => Ok(SeInputs { se_income, crp_payments, wages }),
            None => Err(()),
        }
    }
}

/// Kind of a status-bar message.
#[derive(Clone, Copy, Debug, PartialEq, Eq, Structural)]
pub enum MessageType {
    Info,
    Success,
    Error,
}

/// The screen that lists saved estimates.
#[derive(Clone, Copy, Debug)]
pub struct EstimateListScreen;

/// The screen of the estimated tax worksheet.
#[derive(Clone, Copy, Debug)]
pub struct MainEstimateScreen;

/// The screen of the self-employment worksheet.
#[derive(Clone, Copy, Debug)]
pub struct SelfEmploymentScreen;

/// A keyboard shortcut and what it does, for the status bar.
#[derive(Clone, Copy, Debug)]
pub struct KeyHint {
    pub key: &'static str,
    pub action: &'static str,
}

impl KeyHint {
    /// A hint that `key` performs `action`.
    pub fn new(key: &'static str, action: &'static str) -> (r: Self)
        ensures
            r.key@ == key@,
            r.action@ == action@,
    {
        KeyHint { key, action }
    }
}

/// Turns borrowed `(name, extensions)` file-dialog filters into owned strings.
pub fn owned_filters(filters: &[(&str, &[&str])]) -> (r: Vec<(String, Vec<String>)>)
    ensures
        r@.len() == filters@.len(),
        forall|i: int|
            0 <= i < r@.len() ==> (#[trigger] r@[i]).0@ == filters@[i].0@ && r@[i].1@.len()
                == filters@[i].1@.len() && forall|j: int|
                0 <= j < r@[i].1@.len() ==> (#[trigger] r@[i].1@[j])@ == filters@[i].1@[j]@,
{
    let mut r: Vec<(String, Vec<String>)> = Vec::new();
    let mut i: usize = 0;
    while i < filters.len()
        invariant
            0 <= i <= filters@.len(),
            r@.len() == i,
            forall|k: int|
                0 <= k < i ==> (#[trigger] r@[k]).0@ == filters@[k].0@ && r@[k].1@.len()
                    == filters@[k].1@.len() && forall|j: int|
                    0 <= j < r@[k].1@.len() ==> (#[trigger] r@[k].1@[j])@ == filters@[k].1@[j]@,
        decreases filters@.len() - i,
    {
        let (name, exts) = filters[i];
        let mut owned: Vec<String> = Vec::new();
        let mut j: usize = 0;
        while j < exts.len()
            invariant
                0 <= j <= exts@.len(),
                owned@.len() == j,
                forall|m: int| 0 <= m < j ==> (#[trigger] owned@[m])@ == exts@[m]@,
            decreases exts@.len() - j,
        {
            owned.push(String::from_str(exts[j]));
            j = j + 1;
        }
        r.push((String::from_str(name), owned));
        i = i + 1;
    }
    r
}

/// The self-employment rates and limits of a tax year, in millionths: a wage
/// base of 180,000 (2026), 176,100 (2025), 168,600 (2024) or 160,200 (earlier),
/// rates of 12.4% and 2.9%, a net earnings factor of 92.35%, half deductible and a
/// threshold of 400.
pub open spec fn is_year_se_config(r: SeWorksheetConfig, tax_year: i32) -> bool {
    &&& r.ss_wage_max@ == (if tax_year == 2026 {
        180_000_000_000int
    } else if tax_year == 2025 {
        176_100_000_000
    } else if tax_year == 2024 {
        168_600_000_000
    } else {
        160_200_000_000
    })
    &&& r.ss_tax_rate@ == 124_000
    &&& r.medicare_tax_rate@ == 29_000
    &&& r.net_earnings_factor@ == 923_500
    &&& r.deduction_factor@ == 500_000
    &&& r.min_se_threshold@ == 400_000_000
}

/// The self-employment rates and limits the form uses for a tax year; years
/// before 2024 take the 2023 values.
pub fn get_se_config(tax_year: i32) -> (r: SeWorksheetConfig)
    ensures
        is_year_se_config(r, tax_year),
{
    let wage_max: i128 = if tax_year == 2026 {
        180_000_000_000
    } else if tax_year == 2025 {
        176_100_000_000
    } else if tax_year == 2024 {
        168_600_000_000
    } else {
        160_200_000_000
    };
    SeWorksheetConfig {
        ss_wage_max: Decimal::from_units(wage_max).unwrap(),
        ss_tax_rate: Decimal::from_units(124_000).unwrap(),
        medicare_tax_rate: Decimal::from_units(29_000).unwrap(),
        net_earnings_factor: Decimal::from_units(923_500).unwrap(),
        deduction_factor: Decimal::from_units(500_000).unwrap(),
        min_se_threshold: Decimal::from_units(400_000_000).unwrap(),
    }
}

/// What the worksheets have gathered so far in one session.
#[derive(Clone, Debug)]
pub struct AppState {
    pub tax_year: i32,
    pub se_income: Option<Decimal>,
    pub crp_payments: Option<Decimal>,
    pub wages: Option<Decimal>,
    pub se_result: Option<SeWorksheetResult>,
    pub est_tax_completed: bool,
}

impl AppState {
    /// An empty session for a tax year.
    pub fn new(tax_year: i32) -> (r: Self)
        ensures
            r.tax_year == tax_year,
            r.se_income is None && r.crp_payments is None && r.wages is None,
            r.se_result is None,
            !r.est_tax_completed,
    {
        AppState {
            tax_year,
            se_income: None,
            crp_payments: None,
            wages: None,
            se_result: None,
            est_tax_completed: false,
        }
    }

    /// Whether the self-employment worksheet has a result.
    pub fn has_se_data(&self) -> (r: bool)
        ensures
            r == self.se_result is Some,
    {
        self.se_result.is_some()
    }

    /// Whether the estimated tax worksheet was completed.
    pub fn has_est_tax_data(&self) -> (r: bool)
        ensures
            r == self.est_tax_completed,
    {
        self.est_tax_completed
    }

    /// Forgets every input and result, keeping the tax year.
    pub fn clear_estimate(&mut self)
        ensures
            final(self).tax_year == old(self).tax_year,
            final(self).se_income is None && final(self).crp_payments is None && final(self).wages is None,
            final(self).se_result is None,
            !final(self).est_tax_completed,
    {
        self.se_income = None;
        self.crp_payments = None;
        self.wages = None;
        self.se_result = None;
        self.est_tax_completed = false;
    }
}

/// An estimate's inputs as the user entered them.
#[derive(Clone, Copy, Debug)]
pub struct EstimatedIncomeModel {
    pub tax_year: i32,
    pub filing_status_id: FilingStatusCode,
    pub expected_agi: Decimal,
    pub expected_deduction: Decimal,
    pub expected_qbi_deduction: Option<Decimal>,
    pub expected_amt: Option<Decimal>,
    pub expected_credits: Option<Decimal>,
    pub expected_other_taxes: Option<Decimal>,
    pub expected_withholding: Option<Decimal>,
    pub prior_year_tax: Option<Decimal>,
    pub se_income: Option<Decimal>,
    pub expected_crp_payments: Option<Decimal>,
    pub expected_wages: Option<Decimal>,
}

impl Default for EstimatedIncomeModel {
    fn default() -> (r: Self)
        ensures
            r.tax_year == 0,
            r.filing_status_id == FilingStatusCode::Single,
            r.expected_agi@ == 0 && r.expected_deduction@ == 0,
            r.expected_qbi_deduction is None && r.expected_amt is None && r.expected_credits is None,
            r.expected_other_taxes is None && r.expected_withholding is None && r.prior_year_tax is None,
            r.se_income is None && r.expected_crp_payments is None && r.expected_wages is None,
    {
        EstimatedIncomeModel {
            tax_year: 0,
            filing_status_id: FilingStatusCode::Single,
            expected_agi: Decimal::zero(),
            expected_deduction: Decimal::zero(),
            expected_qbi_deduction: None,
            expected_amt: None,
            expected_credits: None,
            expected_other_taxes: None,
            expected_withholding: None,
            prior_year_tax: None,
            se_income: None,
            expected_crp_payments: None,
            expected_wages: None,
        }
    }
}

/// An optional amount as the summary shows it: the amount, or a dash.
pub open spec fn opt_amount_text(d: Option<Decimal>) -> Seq<char> {
    match d {
        Some(v) => decimal_text_of(v@),
        None => "\u{2014}"@,
    }
}

/// The summary lines of an estimate's inputs, one `label value` per line.
pub open spec fn income_summary(m: EstimatedIncomeModel) -> Seq<char> {
    "Tax Year:           "@ + int_text(m.tax_year as int)
        + "\nFiling status:     "@ + long_text(m.filing_status_id)
        + "\nExpected AGI:       "@ + decimal_text_of(m.expected_agi@)
        + "\nExpected deduction: "@ + decimal_text_of(m.expected_deduction@)
        + "\nQBI deduction:      "@ + opt_amount_text(m.expected_qbi_deduction)
        + "\nAMT:                "@ + opt_amount_text(m.expected_amt)
        + "\nCredits:            "@ + opt_amount_text(m.expected_credits)
        + "\nOther taxes:        "@ + opt_amount_text(m.expected_other_taxes)
        + "\nWithholding:        "@ + opt_amount_text(m.expected_withholding)
        + "\nPrior year tax:     "@ + opt_amount_text(m.prior_year_tax)
        + "\nSE income:          "@ + opt_amount_text(m.se_income)
        + "\nCRP payments:       "@ + opt_amount_text(m.expected_crp_payments)
        + "\nWages:              "@ + opt_amount_text(m.expected_wages)
}

impl EstimatedIncomeModel {
    /// Nothing on the model can be invalid yet: always accepted.
    pub fn validate_for_submit(&self) -> (r: Result<(), Vec<String>>)
        ensures
            r is Ok,
    {
        Ok(())
    }

    /// The estimate to store for these inputs.
    pub fn to_new_tax_estimate(&self) -> (r: NewTaxEstimate)
        ensures
            r.tax_year == self.tax_year,
            r.filing_status_id == status_id(self.filing_status_id),
            r.expected_agi == self.expected_agi,
            r.expected_deduction == self.expected_deduction,
            r.expected_qbi_deduction == self.expected_qbi_deduction,
            r.expected_amt == self.expected_amt,
            r.expected_credits == self.expected_credits,
            r.expected_other_taxes == self.expected_other_taxes,
            r.expected_withholding == self.expected_withholding,
            r.prior_year_tax == self.prior_year_tax,
            r.se_income == self.se_income,
            r.expected_crp_payments == self.expected_crp_payments,
            r.expected_wages == self.expected_wages,
    {
        NewTaxEstimate {
            tax_year: self.tax_year,
            filing_status_id: FilingStatusCode::filing_status_to_id(self.filing_status_id),
            expected_agi: self.expected_agi,
            expected_deduction: self.expected_deduction,
            expected_qbi_deduction: self.expected_qbi_deduction,
            expected_amt: self.expected_amt,
            expected_credits: self.expected_credits,
            expected_other_taxes: self.expected_other_taxes,
            expected_withholding: self.expected_withholding,
            prior_year_tax: self.prior_year_tax,
            se_income: self.se_income,
            expected_crp_payments: self.expected_crp_payments,
            expected_wages: self.expected_wages,
        }
    }

    /// The inputs as a summary, one labelled line each.
    pub fn to_string(&self) -> (r: String)
        ensures
            r@ == income_summary(*self),
    {
        let mut out = String::from_str("Tax Year:           ");
        append_int(&mut out, self.tax_year);
        out.append("\nFiling status:     ");
        out.append(self.filing_status_id.to_long_str());
        out.append("\nExpected AGI:       ");
        out.append(self.expected_agi.to_string().as_str());
        out.append("\nExpected deduction: ");
        out.append(self.expected_deduction.to_string().as_str());
        out.append("\nQBI deduction:      ");
        out.append(opt_decimal_display(&self.expected_qbi_deduction).as_str());
        out.append("\nAMT:                ");
        out.append(opt_decimal_display(&self.expected_amt).as_str());
        out.append("\nCredits:            ");
        out.append(opt_decimal_display(&self.expected_credits).as_str());
        out.append("\nOther taxes:        ");
        out.append(opt_decimal_display(&self.expected_other_taxes).as_str());
        out.append("\nWithholding:        ");
        out.append(opt_decimal_display(&self.expected_withholding).as_str());
        out.append("\nPrior year tax:     ");
        out.append(opt_decimal_display(&self.prior_year_tax).as_str());
        out.append("\nSE income:          ");
        out.append(opt_decimal_display(&self.se_income).as_str());
        out.append("\nCRP payments:       ");
        out.append(opt_decimal_display(&self.expected_crp_payments).as_str());
        out.append("\nWages:              ");
        out.append(opt_decimal_display(&self.expected_wages).as_str());
        out
    }
}

/// The figures shown after a calculation.
#[derive(Clone, Copy, Debug, PartialEq, Eq, Structural)]
pub struct CalculationResults {
    pub se_tax: Option<Decimal>,
    pub se_tax_deduction: Option<Decimal>,
    pub total_tax: Option<Decimal>,
    pub required_payment: Option<Decimal>,
    pub quarterly_payment: Option<Decimal>,
}

impl Default for CalculationResults {
    fn default() -> (r: Self)
        ensures
            r.se_tax is None && r.se_tax_deduction is None && r.total_tax is None,
            r.required_payment is None && r.quarterly_payment is None,
    {
        CalculationResults {
            se_tax: None,
            se_tax_deduction: None,
            total_tax: None,
            required_payment: None,
            quarterly_payment: None,
        }
    }
}

/// The application's state behind its screens.
#[derive(Clone, Debug)]
pub struct TaxApp {
    pub current_screen: Screen,
    pub form: EstimateForm,
    pub results: CalculationResults,
    pub saved_estimates: Vec<TaxEstimate>,
    pub selected_estimate_id: Option<i64>,
    pub status_message: Option<(String, MessageType)>,
}

/// Whether a status message is `text` of kind `kind`.
pub open spec fn message_is(m: Option<(String, MessageType)>, text: Seq<char>, kind: MessageType) -> bool {
    m is Some && m.unwrap().0@ == text && m.unwrap().1 == kind
}

/// Whether two states differ at most in their form's errors, their results and
/// their status message.
pub open spec fn same_session(a: TaxApp, b: TaxApp) -> bool {
    &&& a.current_screen == b.current_screen
    &&& same_entries(a.form, b.form)
    &&& a.saved_estimates@ == b.saved_estimates@
    &&& a.selected_estimate_id == b.selected_estimate_id
}

/// An optional amount, zero when absent.
pub open spec fn or_zero(a: Option<int>) -> int {
    if a is Some {
        a.unwrap()
    } else {
        0
    }
}

/// The message for a self-employment worksheet that failed.
pub open spec fn se_error_text(e: SeWorksheetError) -> Seq<char> {
    "SE calculation error: "@ + e.message_spec()
}

/// What a self-employment calculation for a year leaves behind, given the
/// income, CRP payments and wages entered: on success the tax and its deductible
/// part and a success message; on failure the error's message and no new figures.
pub open spec fn se_calculation_outcome(before: TaxApp, after: TaxApp, year: i32, se: int, crp: int, wages: int) -> bool {
    exists|c: SeWorksheetConfig|
        #[trigger] is_year_se_config(c, year) && (se_succeeds(c, se, crp, wages) ==> {
            let tax = se_line(c, se, crp, wages, 5);
            &&& after.results.se_tax is Some && after.results.se_tax.unwrap()@ == tax
            &&& after.results.se_tax_deduction is Some && after.results.se_tax_deduction.unwrap()@ == se_line(c, se, crp, wages, 6)
            &&& after.results.total_tax == before.results.total_tax
            &&& after.results.required_payment == before.results.required_payment
            &&& after.results.quarterly_payment == before.results.quarterly_payment
            &&& message_is(after.status_message, "SE tax calculated: $"@ + crate::decimal::two_place_text_of(tax), MessageType::Success)
        }) && (!se_succeeds(c, se, crp, wages) ==> {
            &&& after.results == before.results
            &&& message_is(after.status_message, se_error_text(se_failure(c)), MessageType::Error)
        })
}

/// Whether results hold the given self-employment figures and the fixed
/// totals the full calculation shows: 10,000 total tax, 8,000 required payment,
/// 2,000 per quarter.
pub open spec fn full_results(r: CalculationResults, se_tax: Option<int>, se_deduction: Option<int>) -> bool {
    &&& (r.se_tax is Some <==> se_tax is Some) && (r.se_tax is Some ==> r.se_tax.unwrap()@ == se_tax.unwrap())
    &&& (r.se_tax_deduction is Some <==> se_deduction is Some) && (r.se_tax_deduction is Some
        ==> r.se_tax_deduction.unwrap()@ == se_deduction.unwrap())
    &&& r.total_tax is Some && r.total_tax.unwrap()@ == 10_000_000_000
    &&& r.required_payment is Some && r.required_payment.unwrap()@ == 8_000_000_000
    &&& r.quarterly_payment is Some && r.quarterly_payment.unwrap()@ == 2_000_000_000
}

/// Runs the self-employment worksheet of a year on the given amounts.
fn run_se(tax_year: i32, se_income: Decimal, crp: Option<Decimal>, wages: Option<Decimal>) -> (r: Result<SeWorksheetResult, SeWorksheetError>)
    ensures
        exists|c: SeWorksheetConfig|
            #[trigger] is_year_se_config(c, tax_year) && ({
                let crp0 = if crp is Some { crp.unwrap()@ } else { 0 };
                let wages0 = if wages is Some { wages.unwrap()@ } else { 0 };
                &&& r is Ok <==> se_succeeds(c, se_income@, crp0, wages0)
                &&& r is Ok ==> r.unwrap().self_employment_tax@ == se_line(c, se_income@, crp0, wages0, 5)
                    && r.unwrap().se_tax_deduction@ == se_line(c, se_income@, crp0, wages0, 6)
                &&& r is Err ==> r->Err_0 == se_failure(c)
            }),
{
    let config = get_se_config(tax_year);
    let worksheet = SeWorksheet::new(config);
    let crp0 = match crp {
        Some(v) => v,
        None => Decimal::zero(),
    };
    let wages0 = match wages {
        Some(v) => v,
        None => Decimal::zero(),
    };
    let r = worksheet.calculate(se_income, crp0, wages0);
    assert(is_year_se_config(config, tax_year));
    r
}

impl TaxApp {
    /// A fresh session on the main screen with a blank form.
    pub fn new() -> (r: Self)
        ensures
            r.current_screen == Screen::Main,
            is_blank_form(r.form),
            r.results.se_tax is None && r.results.se_tax_deduction is None && r.results.total_tax is None,
            r.results.required_payment is None && r.results.quarterly_payment is None,
            r.saved_estimates@.len() == 0,
            r.selected_estimate_id is None,
            r.status_message is None,
    {
        TaxApp {
            current_screen: Screen::Main,
            form: EstimateForm::new(),
            results: CalculationResults::default(),
            saved_estimates: Vec::new(),
            selected_estimate_id: None,
            status_message: None,
        }
    }

    /// Shows a status message.
    pub fn show_message(&mut self, msg: String, msg_type: MessageType)
        ensures
            final(self).status_message == Some((msg, msg_type)),
            same_session(*final(self), *old(self)),
            final(self).form.errors == old(self).form.errors,
            final(self).results == old(self).results,
    {
        self.status_message = Some((msg, msg_type));
    }

    /// Clears the status message.
    pub fn clear_message(&mut self)
        ensures
            final(self).status_message is None,
            same_session(*final(self), *old(self)),
            final(self).form.errors == old(self).form.errors,
            final(self).results == old(self).results,
    {
        self.status_message = None;
    }

    /// Validates the self-employment entries and runs the self-employment
    /// worksheet for the form's year, showing the tax or what went wrong.
    pub fn calculate_se_only(&mut self)
        ensures
            same_session(*final(self), *old(self)),
            ({
                let f = old(self).form;
                let se = field_amount(f.se_income@);
                &&& se is None ==> final(self).results == old(self).results && message_is(
                    final(self).status_message,
                    "Please fix validation errors"@,
                    MessageType::Error,
                )
                &&& se is Some ==> se_calculation_outcome(
                    *old(self),
                    *final(self),
                    f.tax_year,
                    se.unwrap(),
                    or_zero(field_amount(f.expected_crp_payments@)),
                    or_zero(field_amount(f.expected_wages@)),
                )
            }),
    {
        match self.form.validate_se_only() {
            Ok(inputs) => {
                match run_se(self.form.tax_year, inputs.se_income, inputs.crp_payments, inputs.wages) {
                    Ok(result) => {
                        self.results.se_tax = Some(result.self_employment_tax);
                        self.results.se_tax_deduction = Some(result.se_tax_deduction);
                        let mut msg = String::from_str("SE tax calculated: $");
                        msg.append(result.self_employment_tax.to_string_2dp().as_str());
                        self.show_message(msg, MessageType::Success);
                    },
                    Err(e) => {
                        let mut msg = String::from_str("SE calculation error: ");
                        msg.append(e.message().as_str());
                        self.show_message(msg, MessageType::Error);
                    },
                }
            },
            Err(()) => {
                self.show_message(String::from_str("Please fix validation errors"), MessageType::Error);
            },
        }
    }

    /// Validates the whole form, runs the self-employment worksheet when there
    /// is self-employment income, and shows the figures: the self-employment tax
    /// and its deductible part, and fixed totals of 10,000 tax, 8,000 required
    /// payment and 2,000 per quarter.
    pub fn calculate(&mut self)
        ensures
            same_session(*final(self), *old(self)),
            ({
                let f = old(self).form;
                let valid = field_amount(f.expected_agi@) is Some && field_amount(f.expected_deduction@) is Some;
                let se = field_amount(f.se_income@);
                let crp = or_zero(field_amount(f.expected_crp_payments@));
                let wages = or_zero(field_amount(f.expected_wages@));
                &&& !valid ==> final(self).results == old(self).results && message_is(
                    final(self).status_message,
                    "Please fix validation errors"@,
                    MessageType::Error,
                )
                &&& valid && se is None ==> full_results(final(self).results, None, None) && message_is(
                    final(self).status_message,
                    "Calculation complete"@,
                    MessageType::Success,
                )
                &&& valid && se is Some ==> exists|c: SeWorksheetConfig|
                    #[trigger] is_year_se_config(c, f.tax_year) && (se_succeeds(c, se.unwrap(), crp, wages) ==> full_results(
                        final(self).results,
                        Some(se_line(c, se.unwrap(), crp, wages, 5)),
                        Some(se_line(c, se.unwrap(), crp, wages, 6)),
                    ) && message_is(final(self).status_message, "Calculation complete"@, MessageType::Success)) && (
                    !se_succeeds(c, se.unwrap(), crp, wages) ==> final(self).results == old(self).results
                        && message_is(final(self).status_message, se_error_text(se_failure(c)), MessageType::Error))
            }),
    {
        match self.form.validate() {
            Ok(estimate) => {
                let (se_tax, se_tax_deduction) = match estimate.se_income {
                    Some(se_income) => {
                        match run_se(
                            self.form.tax_year,
                            se_income,
                            estimate.expected_crp_payments,
                            estimate.expected_wages,
                        ) {
                            Ok(result) => (Some(result.self_employment_tax), Some(result.se_tax_deduction)),
                            Err(e) => {
                                let mut msg = String::from_str("SE calculation error: ");
                                msg.append(e.message().as_str());
                                self.show_message(msg, MessageType::Error);
                                return;
                            },
                        }
                    },
                    None => (None, None),
                };
                self.results = CalculationResults {
                    se_tax,
                    se_tax_deduction,
                    total_tax: Decimal::from_units(10_000_000_000),
                    required_payment: Decimal::from_units(8_000_000_000),
                    quarterly_payment: Decimal::from_units(2_000_000_000),
                };
                self.show_message(String::from_str("Calculation complete"), MessageType::Success);
            },
            Err(()) => {
                self.show_message(String::from_str("Please fix validation errors"), MessageType::Error);
            },
        }
    }
}

} // verus!
