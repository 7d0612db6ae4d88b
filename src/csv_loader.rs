//! Reading estimate inputs from CSV text.
//!
//! The first row names the columns; `tax_year`, `filing_status`,
//! `expected_agi` and `expected_deduction` are required, the other amounts of
//! [`NewTaxEstimate`] optional, and column order is free. Whitespace around
//! every header and value is ignored, and an empty optional cell means no amount.

use crate::decimal::{text_units, Decimal};
use crate::loader::{cell_of, column_from, column_index, csv_rows_of, read_csv_rows};
use crate::models::{code_from_text, status_id, FilingStatusCode, NewTaxEstimate};
use crate::text::{i32_text_value, parse_i32, trim_text, trimmed};
use vstd::prelude::*;
use vstd::string::StringSliceAdditionalSpecFns;

verus! {

/// Why estimate rows could not be read.
#[derive(Clone, Debug, PartialEq, Eq)]
pub enum CsvLoadError {
    /// The CSV text or a value in it is malformed.
    Parse(String),
    /// A filing status code is not S, MFJ, MFS, HOH or QSS; rows count from 1
    /// after the header.
    InvalidFilingStatus { status: String, row: usize },
}

/// A row with every cell trimmed.
pub open spec fn trimmed_row(row: Seq<Seq<char>>) -> Seq<Seq<char>> {
    row.map_values(|c: Seq<char>| trimmed(c))
}

/// A table with every cell trimmed.
pub open spec fn trimmed_rows(rows: Seq<Seq<Seq<char>>>) -> Seq<Seq<Seq<char>>> {
    rows.map_values(|r: Seq<Seq<char>>| trimmed_row(r))
}

/// An optional amount cell: no column or an empty cell is no amount.
pub open spec fn optional_cell_amount(cell: Option<Seq<char>>) -> Option<Option<int>> {
    match cell {
        None => Some(None),
        Some(t) => if t.len() == 0 {
            Some(None)
        } else {
            match text_units(t) {
                Some(u) => Some(Some(u)),
                None => None,
            }
        },
    }
}

/// The optional amount columns, in the order of [`NewTaxEstimate`].
pub open spec fn optional_columns() -> Seq<Seq<char>> {
    seq![
        "expected_qbi_deduction"@,
        "expected_amt"@,
        "expected_credits"@,
        "expected_other_taxes"@,
        "expected_withholding"@,
        "prior_year_tax"@,
        "se_income"@,
        "expected_crp_payments"@,
        "expected_wages"@,
    ]
}

/// Whether a data row reads under a header: every required cell present and
/// readable, every optional amount readable or absent.
pub open spec fn estimate_row_reads(h: Seq<Seq<char>>, row: Seq<Seq<char>>) -> bool {
    let year = cell_of(h, row, "tax_year"@);
    let agi = cell_of(h, row, "expected_agi"@);
    let ded = cell_of(h, row, "expected_deduction"@);
    &&& year is Some && i32_text_value(year.unwrap()) is Some
    &&& cell_of(h, row, "filing_status"@) is Some
    &&& agi is Some && text_units(agi.unwrap()) is Some
    &&& ded is Some && text_units(ded.unwrap()) is Some
    &&& forall|i: int| 0 <= i < 9 ==> (#[trigger] optional_cell_amount(cell_of(h, row, optional_columns()[i]))) is Some
}

/// Whether a data row yields an estimate: it reads and names a known filing status.
pub open spec fn estimate_row_ok(h: Seq<Seq<char>>, row: Seq<Seq<char>>) -> bool {
    estimate_row_reads(h, row) && code_from_text(cell_of(h, row, "filing_status"@).unwrap()) is Some
}

/// Whether an optional decimal holds an optional cell amount.
pub open spec fn holds_optional(d: Option<Decimal>, a: Option<Option<int>>) -> bool {
    &&& (d is None <==> a.unwrap() is None)
    &&& d is Some ==> d.unwrap()@ == a.unwrap().unwrap()
}

/// Whether an estimate holds what a data row spells under a header.
pub open spec fn estimate_matches(e: NewTaxEstimate, h: Seq<Seq<char>>, row: Seq<Seq<char>>) -> bool {
    let opt = |i: int| optional_cell_amount(cell_of(h, row, optional_columns()[i]));
    &&& e.tax_year == i32_text_value(cell_of(h, row, "tax_year"@).unwrap()).unwrap()
    &&& e.filing_status_id == status_id(code_from_text(cell_of(h, row, "filing_status"@).unwrap()).unwrap())
    &&& e.expected_agi@ == text_units(cell_of(h, row, "expected_agi"@).unwrap()).unwrap()
    &&& e.expected_deduction@ == text_units(cell_of(h, row, "expected_deduction"@).unwrap()).unwrap()
    &&& holds_optional(e.expected_qbi_deduction, opt(0))
    &&& holds_optional(e.expected_amt, opt(1))
    &&& holds_optional(e.expected_credits, opt(2))
    &&& holds_optional(e.expected_other_taxes, opt(3))
    &&& holds_optional(e.expected_withholding, opt(4))
    &&& holds_optional(e.prior_year_tax, opt(5))
    &&& holds_optional(e.se_income, opt(6))
    &&& holds_optional(e.expected_crp_payments, opt(7))
    &&& holds_optional(e.expected_wages, opt(8))
}

/// Every cell of a table, trimmed.
fn trim_rows(rows: &Vec<Vec<String>>) -> (r: Vec<Vec<String>>)
    ensures
        r.deep_view() == trimmed_rows(rows.deep_view()),
{
    let mut out: Vec<Vec<String>> = Vec::new();
    let mut k: usize = 0;
    while k < rows.len()
        invariant
            0 <= k <= rows@.len(),
            out@.len() == k,
            forall|j: int| 0 <= j < k ==> (#[trigger] out@[j]).deep_view() == trimmed_row(rows@[j].deep_view()),
        decreases rows@.len() - k,
    {
        let row = &rows[k];
        let mut cells: Vec<String> = Vec::new();
        let mut c: usize = 0;
        while c < row.len()
            invariant
                0 <= c <= row@.len(),
                cells@.len() == c,
                forall|j: int| 0 <= j < c ==> (#[trigger] cells@[j])@ == trimmed(row@[j]@),
            decreases row@.len() - c,
        {
            cells.push(String::from_str(trim_text(row[c].as_str())));
            c = c + 1;
        }
        assert(cells.deep_view() =~= trimmed_row(row.deep_view()));
        out.push(cells);
        k = k + 1;
    }
    assert(out.deep_view() =~= trimmed_rows(rows.deep_view()));
    out
}

/// The cell of `row` under the first column named `name`.
fn cell_named<'r>(header: &Vec<String>, row: &'r Vec<String>, name: &str) -> (r: Option<&'r str>)
    ensures
        r is Some <==> cell_of(header.deep_view(), row.deep_view(), name@) is Some,
        r is Some ==> r.unwrap()@ == cell_of(header.deep_view(), row.deep_view(), name@).unwrap(),
{
    let c = column_index(header, name);
    if c < header.len() && c < row.len() {
        Some(row[c].as_str())
    } else {
        None
    }
}

/// The error `Parse` with the message `<what> `<name>``.
fn parse_error(what: &str, name: &str) -> (r: CsvLoadError)
    ensures
        r is Parse,
{
    let mut msg = String::from_str(what);
    msg.append(" `");
    msg.append(name);
    msg.append("`");
    CsvLoadError::Parse(msg)
}

/// Reads a required amount column.
fn required_amount(header: &Vec<String>, row: &Vec<String>, name: &str) -> (r: Result<Decimal, CsvLoadError>)
    ensures
        ({
            let cell = cell_of(header.deep_view(), row.deep_view(), name@);
            &&& r is Ok <==> cell is Some && text_units(cell.unwrap()) is Some
            &&& r is Ok ==> r.unwrap()@ == text_units(cell.unwrap()).unwrap()
            &&& r is Err ==> r->Err_0 is Parse
        }),
{
    match cell_named(header, row, name) {
        None => Err(parse_error("missing field", name)),
        Some(text) => match Decimal::parse_text(text) {
            Some(d) => Ok(d),
            None => Err(parse_error("invalid value for field", name)),
        },
    }
}

/// Reads an optional amount column.
fn optional_amount(header: &Vec<String>, row: &Vec<String>, name: &str) -> (r: Result<Option<Decimal>, CsvLoadError>)
    ensures
        ({
            let a = optional_cell_amount(cell_of(header.deep_view(), row.deep_view(), name@));
            &&& r is Ok <==> a is Some
            &&& r is Ok ==> holds_optional(r.unwrap(), a)
            &&& r is Err ==> r->Err_0 is Parse
        }),
{
    match cell_named(header, row, name) {
        None => Ok(None),
        Some(text) => {
            if text.unicode_len() == 0 {
                Ok(None)
            } else {
                match Decimal::parse_text(text) {
                    Some(d) => Ok(Some(d)),
                    None => Err(parse_error("invalid value for field", name)),
                }
            }
        },
    }
}

/// Reads one data row, numbered `row_number` from 1, into an estimate.
fn convert_row(header: &Vec<String>, row: &Vec<String>, row_number: usize) -> (r: Result<NewTaxEstimate, CsvLoadError>)
    ensures
        ({
            let h = header.deep_view();
            let rw = row.deep_view();
            &&& r is Ok <==> estimate_row_ok(h, rw)
            &&& r is Ok ==> estimate_matches(r.unwrap(), h, rw)
            &&& (r matches Err(CsvLoadError::InvalidFilingStatus { status, row })) <==> (estimate_row_reads(h, rw) && !estimate_row_ok(h, rw))
            &&& r matches Err(CsvLoadError::InvalidFilingStatus { status, row }) ==> row == row_number
                && status@ == cell_of(h, rw, "filing_status"@).unwrap()
        }),
{
    let ghost h = header.deep_view();
    let ghost rw = row.deep_view();
    let tax_year = match cell_named(header, row, "tax_year") {
        None => {
            return Err(parse_error("missing field", "tax_year"));
        },
        Some(text) => match parse_i32(text) {
            Some(v) => v,
            None => {
                return Err(parse_error("invalid value for field", "tax_year"));
            },
        },
    };
    let status = match cell_named(header, row, "filing_status") {
        None => {
            return Err(parse_error("missing field", "filing_status"));
        },
        Some(text) => text,
    };
    let expected_agi = match required_amount(header, row, "expected_agi") {
        Ok(v) => v,
        Err(e) => {
            return Err(e);
        },
    };
    let expected_deduction = match required_amount(header, row, "expected_deduction") {
        Ok(v) => v,
        Err(e) => {
            return Err(e);
        },
    };
    let ghost cols = optional_columns();
    assert(cols[0] == "expected_qbi_deduction"@ && cols[1] == "expected_amt"@ && cols[2] == "expected_credits"@
        && cols[3] == "expected_other_taxes"@ && cols[4] == "expected_withholding"@ && cols[5] == "prior_year_tax"@
        && cols[6] == "se_income"@ && cols[7] == "expected_crp_payments"@ && cols[8] == "expected_wages"@);
    let expected_qbi_deduction = match optional_amount(header, row, "expected_qbi_deduction") {
        Ok(v) => v,
        Err(e) => {
            assert(optional_cell_amount(cell_of(h, rw, cols[0])) is None);
            return Err(e);
        },
    };
    let expected_amt = match optional_amount(header, row, "expected_amt") {
        Ok(v) => v,
        Err(e) => {
            assert(optional_cell_amount(cell_of(h, rw, cols[1])) is None);
            return Err(e);
        },
    };
    let expected_credits = match optional_amount(header, row, "expected_credits") {
        Ok(v) => v,
        Err(e) => {
            assert(optional_cell_amount(cell_of(h, rw, cols[2])) is None);
            return Err(e);
        },
    };
    let expected_other_taxes = match optional_amount(header, row, "expected_other_taxes") {
        Ok(v) => v,
        Err(e) => {
            assert(optional_cell_amount(cell_of(h, rw, cols[3])) is None);
            return Err(e);
        },
    };
    let expected_withholding = match optional_amount(header, row, "expected_withholding") {
        Ok(v) => v,
        Err(e) => {
            assert(optional_cell_amount(cell_of(h, rw, cols[4])) is None);
            return Err(e);
        },
    };
    let prior_year_tax = match optional_amount(header, row, "prior_year_tax") {
        Ok(v) => v,
        Err(e) => {
            assert(optional_cell_amount(cell_of(h, rw, cols[5])) is None);
            return Err(e);
        },
    };
    let se_income = match optional_amount(header, row, "se_income") {
        Ok(v) => v,
        Err(e) => {
            assert(optional_cell_amount(cell_of(h, rw, cols[6])) is None);
            return Err(e);
        },
    };
    let expected_crp_payments = match optional_amount(header, row, "expected_crp_payments") {
        Ok(v) => v,
        Err(e) => {
            assert(optional_cell_amount(cell_of(h, rw, cols[7])) is None);
            return Err(e);
        },
    };
    let expected_wages = match optional_amount(header, row, "expected_wages") {
        Ok(v) => v,
        Err(e) => {
            assert(optional_cell_amount(cell_of(h, rw, cols[8])) is None);
            return Err(e);
        },
    };
    assert forall|i: int| 0 <= i < 9 implies (#[trigger] optional_cell_amount(cell_of(h, rw, optional_columns()[i]))) is Some by {
        assert(optional_columns() == cols);
    }
    let code = match FilingStatusCode::parse(status) {
        Some(c) => c,
        None => {
            return Err(CsvLoadError::InvalidFilingStatus { status: String::from_str(status), row: row_number });
        },
    };
    Ok(NewTaxEstimate {
        tax_year,
        filing_status_id: FilingStatusCode::filing_status_to_id(code),
        expected_agi,
        expected_deduction,
        expected_qbi_deduction,
        expected_amt,
        expected_credits,
        expected_other_taxes,
        expected_withholding,
        prior_year_tax,
        se_income,
        expected_crp_payments,
        expected_wages,
    })
}

/// Whether every data row of a trimmed table yields an estimate.
pub open spec fn estimate_rows_ok(rows: Seq<Seq<Seq<char>>>) -> bool {
    forall|k: int| 1 <= k < rows.len() ==> estimate_row_ok(rows[0], #[trigger] rows[k])
}

/// Reads estimates from CSV text: a header row, then one estimate per row. The
/// first row that fails decides the error.
pub fn load_from_str(input: &str) -> (r: Result<Vec<NewTaxEstimate>, CsvLoadError>)
    ensures
        csv_rows_of(input.spec_bytes()) is None ==> r is Err && r->Err_0 is Parse,
        ({
            let rows = trimmed_rows(csv_rows_of(input.spec_bytes()).unwrap());
            csv_rows_of(input.spec_bytes()) is Some ==> {
                &&& r is Ok <==> estimate_rows_ok(rows)
                &&& r is Ok ==> r.unwrap()@.len() == (if rows.len() == 0 { 0 } else { rows.len() - 1 })
                    && forall|k: int| 0 <= k < r.unwrap()@.len() ==> estimate_matches(#[trigger] r.unwrap()@[k], rows[0], rows[k + 1])
                &&& r matches Err(CsvLoadError::InvalidFilingStatus { status, row }) ==> 1 <= row < rows.len()
                    && estimate_row_reads(rows[0], rows[row as int]) && !estimate_row_ok(rows[0], rows[row as int])
                    && forall|j: int| 1 <= j < row ==> estimate_row_ok(rows[0], #[trigger] rows[j])
            }
        }),
{
    let raw = match read_csv_rows(input.as_bytes()) {
        Ok(rows) => rows,
        Err(msg) => {
            return Err(CsvLoadError::Parse(msg));
        },
    };
    let rows = trim_rows(&raw);
    let ghost rs = rows.deep_view();
    let mut out: Vec<NewTaxEstimate> = Vec::new();
    if rows.len() == 0 {
        return Ok(out);
    }
    let header = &rows[0];
    assert(header.deep_view() == rs[0]);
    let mut k: usize = 1;
    while k < rows.len()
        invariant
            csv_rows_of(input.spec_bytes()) is Some,
            rs == trimmed_rows(csv_rows_of(input.spec_bytes()).unwrap()),
            rs == rows.deep_view(),
            rs.len() > 0,
            header.deep_view() == rs[0],
            1 <= k <= rs.len(),
            out@.len() == k - 1,
            forall|j: int| 1 <= j < k ==> estimate_row_ok(rs[0], #[trigger] rs[j]),
            forall|j: int| 0 <= j < out@.len() ==> estimate_matches(#[trigger] out@[j], rs[0], rs[j + 1]),
        decreases rs.len() - k,
    {
        assert(rows[k as int].deep_view() == rs[k as int]);
        match convert_row(header, &rows[k], k) {
            Ok(e) => {
                out.push(e);
            },
            Err(e) => {
                assert(!estimate_row_ok(rs[0], rs[k as int]));
                return Err(e);
            },
        }
        k = k + 1;
    }
    Ok(out)
}

} // verus!
