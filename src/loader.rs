//! Reading tax bracket schedules from CSV text.
//!
//! The first row names the columns `tax_year`, `schedule`, `min_income`,
//! `max_income`, `base_tax` and `rate`, in any order and among others; each
//! further row is one bracket. An empty `max_income` marks the top bracket.

use crate::db::RepositoryError;
use crate::decimal::{text_units, Decimal};
use crate::models::TaxBracket;
use crate::text::{i32_text_value, parse_i32, str_eq, trim_text, trimmed};
use vstd::prelude::*;

verus! {

/// Why bracket data could not be read or stored.
#[derive(Clone, Debug, PartialEq, Eq)]
pub enum TaxBracketLoaderError {
    /// The CSV text or one of its rows is malformed.
    CsvParse(String),
    /// A schedule name is not X, Y-1, Y-2 or Z.
    InvalidSchedule(String),
    /// A filing status is missing from the reference data.
    FilingStatusNotFound(String),
    /// A tax year is missing from the reference data.
    TaxYearNotFound(i32),
    /// The reference data could not be read or written.
    Repository(RepositoryError),
}

/// One row of a bracket schedule file.
#[derive(Clone, Debug, PartialEq)]
pub struct TaxBracketRecord {
    pub tax_year: i32,
    pub schedule: String,
    pub min_income: Decimal,
    pub max_income: Option<Decimal>,
    pub base_tax: Decimal,
    pub rate: Decimal,
}

/// The characters of each code in a list.
pub open spec fn code_texts(codes: Seq<&str>) -> Seq<Seq<char>> {
    codes.map_values(|c: &str| c@)
}

/// The filing status codes a schedule applies to.
pub open spec fn schedule_codes(schedule: Seq<char>) -> Option<Seq<Seq<char>>> {
    if schedule == "X"@ {
        Some(seq!["S"@])
    } else if schedule == "Y-1"@ {
        Some(seq!["MFJ"@, "QSS"@])
    } else if schedule == "Y-2"@ {
        Some(seq!["MFS"@])
    } else if schedule == "Z"@ {
        Some(seq!["HOH"@])
    } else {
        None
    }
}

/// Maps a schedule (X, Y-1, Y-2, Z) to the filing status codes it applies to.
pub fn schedule_to_filing_status_codes(schedule: &str) -> (r: Result<
    Vec<&'static str>,
    TaxBracketLoaderError,
>)
    ensures
        schedule_codes(schedule@) is Some <==> r is Ok,
        r is Ok ==> code_texts(r.unwrap()@) == schedule_codes(schedule@).unwrap(),
        r is Err ==> (r->Err_0 matches TaxBracketLoaderError::InvalidSchedule(s) && s@ == schedule@),
{
    let r: Vec<&'static str> = if str_eq(schedule, "X") {
        vec!["S"]
    } else if str_eq(schedule, "Y-1") {
        vec!["MFJ", "QSS"]
    } else if str_eq(schedule, "Y-2") {
        vec!["MFS"]
    } else if str_eq(schedule, "Z") {
        vec!["HOH"]
    } else {
        return Err(TaxBracketLoaderError::InvalidSchedule(String::from_str(schedule)));
    };
    assert(code_texts(r@) =~= schedule_codes(schedule@).unwrap());
    Ok(r)
}

/// The rows that csv's reader finds in some bytes, header row first, each as its
/// fields; `None` where the reader fails.
pub uninterp spec fn csv_rows_of(data: Seq<u8>) -> Option<Seq<Seq<Seq<char>>>>;

/// Relies on csv's `Reader` (comma separated, double quotes, no trimming, every
/// row as long as the first), built with headers off so that the header row comes
/// back as the first row: every row's fields, or the text of its first error.
#[verifier::external_body]
pub(crate) fn read_csv_rows(data: &[u8]) -> (r: Result<Vec<Vec<String>>, String>)
    ensures
        r is Ok <==> csv_rows_of(data@) is Some,
        r is Ok ==> r.unwrap().deep_view() == csv_rows_of(data@).unwrap(),
{
    let mut reader = csv::ReaderBuilder::new().has_headers(false).from_reader(data);
    let mut rows = Vec::new();
    for record in reader.records() {
        match record {
            Ok(fields) => rows.push(fields.iter().map(|f| f.to_string()).collect()),
            Err(e) => return Err(e.to_string()),
        }
    }
    Ok(rows)
}

/// The index of the first column at or after `i` named `name`, or the header's length.
pub open spec fn column_from(header: Seq<Seq<char>>, name: Seq<char>, i: int) -> int
    decreases header.len() - i,
{
    if i < 0 || i >= header.len() {
        header.len() as int
    } else if header[i] == name {
        i
    } else {
        column_from(header, name, i + 1)
    }
}

/// The cell of a row under the first column named `name`, if there is one.
pub open spec fn cell_of(header: Seq<Seq<char>>, row: Seq<Seq<char>>, name: Seq<char>) -> Option<Seq<char>> {
    let c = column_from(header, name, 0);
    if 0 <= c < header.len() && c < row.len() {
        Some(row[c])
    } else {
        None
    }
}

/// An optional amount: nothing for a blank cell, else the decimal it spells.
pub open spec fn optional_units(text: Seq<char>) -> Option<Option<int>> {
    let t = trimmed(text);
    if t.len() == 0 {
        Some(None)
    } else {
        match text_units(t) {
            Some(u) => Some(Some(u)),
            None => None,
        }
    }
}

/// Whether a cell exists and spells an amount.
pub open spec fn amount_cell_reads(cell: Option<Seq<char>>) -> bool {
    cell is Some && text_units(cell.unwrap()) is Some
}

/// Whether a data row yields a bracket record under a header.
pub open spec fn row_parses(header: Seq<Seq<char>>, row: Seq<Seq<char>>) -> bool {
    let year = cell_of(header, row, "tax_year"@);
    let max = cell_of(header, row, "max_income"@);
    &&& year is Some && i32_text_value(year.unwrap()) is Some
    &&& cell_of(header, row, "schedule"@) is Some
    &&& amount_cell_reads(cell_of(header, row, "min_income"@))
    &&& max is Some && optional_units(max.unwrap()) is Some
    &&& amount_cell_reads(cell_of(header, row, "base_tax"@))
    &&& amount_cell_reads(cell_of(header, row, "rate"@))
}

/// Whether a record holds what a data row spells under a header.
pub open spec fn record_matches(rec: TaxBracketRecord, header: Seq<Seq<char>>, row: Seq<Seq<char>>) -> bool {
    let max = optional_units(cell_of(header, row, "max_income"@).unwrap()).unwrap();
    &&& rec.tax_year == i32_text_value(cell_of(header, row, "tax_year"@).unwrap()).unwrap()
    &&& rec.schedule@ == cell_of(header, row, "schedule"@).unwrap()
    &&& rec.min_income@ == text_units(cell_of(header, row, "min_income"@).unwrap()).unwrap()
    &&& (rec.max_income is None <==> max is None)
    &&& rec.max_income is Some ==> rec.max_income.unwrap()@ == max.unwrap()
    &&& rec.base_tax@ == text_units(cell_of(header, row, "base_tax"@).unwrap()).unwrap()
    &&& rec.rate@ == text_units(cell_of(header, row, "rate"@).unwrap()).unwrap()
}

/// The index of the first column named `name`, or the header's length.
pub(crate) fn column_index(header: &Vec<String>, name: &str) -> (r: usize)
    ensures
        r == column_from(header.deep_view(), name@, 0),
{
    let ghost h = header.deep_view();
    let mut i: usize = 0;
    while i < header.len()
        invariant
            h == header.deep_view(),
            0 <= i <= header@.len(),
            column_from(h, name@, 0) == column_from(h, name@, i as int),
        decreases header@.len() - i,
    {
        if str_eq(header[i].as_str(), name) {
            return i;
        }
        i = i + 1;
    }
    i
}

/// The text `missing field `name``.
fn missing_field(name: &str) -> (r: TaxBracketLoaderError)
    ensures
        r is CsvParse,
{
    let mut msg = String::from_str("missing field `");
    msg.append(name);
    msg.append("`");
    TaxBracketLoaderError::CsvParse(msg)
}

/// The text `invalid value: string "text" for field `name``.
fn invalid_value(text: &str, name: &str) -> (r: TaxBracketLoaderError)
    ensures
        r is CsvParse,
{
    let mut msg = String::from_str("invalid value: string \"");
    msg.append(text);
    msg.append("\" for field `");
    msg.append(name);
    msg.append("`");
    TaxBracketLoaderError::CsvParse(msg)
}

/// The cell of `row` in column `c`, if the row reaches it.
fn cell_at<'r>(row: &'r Vec<String>, c: usize, header_len: usize) -> (r: Option<&'r str>)
    ensures
        r is Some <==> c < header_len && c < row@.len(),
        r is Some ==> r.unwrap()@ == row.deep_view()[c as int],
{
    if c < header_len && c < row.len() {
        Some(row[c].as_str())
    } else {
        None
    }
}

/// Reads the amount in a cell, named `name` in messages.
fn amount_cell(cell: Option<&str>, name: &str) -> (r: Result<Decimal, TaxBracketLoaderError>)
    ensures
        r is Ok <==> cell is Some && text_units(cell.unwrap()@) is Some,
        r is Ok ==> r.unwrap()@ == text_units(cell.unwrap()@).unwrap(),
        r is Err ==> r->Err_0 is CsvParse,
{
    match cell {
        None => Err(missing_field(name)),
        Some(text) => match Decimal::parse_text(text) {
            Some(d) => Ok(d),
            None => Err(invalid_value(text, name)),
        },
    }
}

/// Where each field's column is in the header.
struct Columns {
    tax_year: usize,
    schedule: usize,
    min_income: usize,
    max_income: usize,
    base_tax: usize,
    rate: usize,
}

impl Columns {
    spec fn locates(self, header: Seq<Seq<char>>) -> bool {
        &&& self.tax_year == column_from(header, "tax_year"@, 0)
        &&& self.schedule == column_from(header, "schedule"@, 0)
        &&& self.min_income == column_from(header, "min_income"@, 0)
        &&& self.max_income == column_from(header, "max_income"@, 0)
        &&& self.base_tax == column_from(header, "base_tax"@, 0)
        &&& self.rate == column_from(header, "rate"@, 0)
    }
}

proof fn lemma_column_bound(header: Seq<Seq<char>>, name: Seq<char>, i: int)
    requires
        0 <= i <= header.len(),
    ensures
        0 <= column_from(header, name, i) <= header.len(),
    decreases header.len() - i,
{
    if i < header.len() && header[i] != name {
        lemma_column_bound(header, name, i + 1);
    }
}

/// Reads one data row into a record, reporting the first field that is missing
/// or does not read.
fn parse_row(row: &Vec<String>, header_len: usize, cols: &Columns, Ghost(header): Ghost<
    Seq<Seq<char>>,
>) -> (r: Result<TaxBracketRecord, TaxBracketLoaderError>)
    requires
        header_len == header.len(),
        cols.locates(header),
    ensures
        r is Ok <==> row_parses(header, row.deep_view()),
        r is Ok ==> record_matches(r.unwrap(), header, row.deep_view()),
        r is Err ==> r->Err_0 is CsvParse,
{
    proof {
        lemma_column_bound(header, "tax_year"@, 0);
        lemma_column_bound(header, "schedule"@, 0);
        lemma_column_bound(header, "min_income"@, 0);
        lemma_column_bound(header, "max_income"@, 0);
        lemma_column_bound(header, "base_tax"@, 0);
        lemma_column_bound(header, "rate"@, 0);
    }
    let tax_year = match cell_at(row, cols.tax_year, header_len) {
        None => {
            return Err(missing_field("tax_year"));
        },
        Some(text) => match parse_i32(text) {
            Some(v) => v,
            None => {
                return Err(invalid_value(text, "tax_year"));
            },
        },
    };
    let schedule = match cell_at(row, cols.schedule, header_len) {
        None => {
            return Err(missing_field("schedule"));
        },
        Some(text) => String::from_str(text),
    };
    let min_income = match amount_cell(cell_at(row, cols.min_income, header_len), "min_income") {
        Ok(v) => v,
        Err(e) => {
            return Err(e);
        },
    };
    let max_income = match cell_at(row, cols.max_income, header_len) {
        None => {
            return Err(missing_field("max_income"));
        },
        Some(text) => {
            let t = trim_text(text);
            if t.unicode_len() == 0 {
                None
            } else {
                match Decimal::parse_text(t) {
                    Some(d) => Some(d),
                    None => {
                        return Err(invalid_value(text, "max_income"));
                    },
                }
            }
        },
    };
    let base_tax = match amount_cell(cell_at(row, cols.base_tax, header_len), "base_tax") {
        Ok(v) => v,
        Err(e) => {
            return Err(e);
        },
    };
    let rate = match amount_cell(cell_at(row, cols.rate, header_len), "rate") {
        Ok(v) => v,
        Err(e) => {
            return Err(e);
        },
    };
    Ok(TaxBracketRecord { tax_year, schedule, min_income, max_income, base_tax, rate })
}

/// Zero-sized handle for reading bracket schedules.
#[derive(Clone, Copy, Debug)]
pub struct TaxBracketLoader;

/// Whether every data row of a table, after its header row, yields a record.
pub open spec fn rows_parse(rows: Seq<Seq<Seq<char>>>) -> bool {
    forall|k: int| 1 <= k < rows.len() ==> row_parses(rows[0], #[trigger] rows[k])
}

/// Whether records hold, in order, what the data rows of a table spell.
pub open spec fn records_match(recs: Seq<TaxBracketRecord>, rows: Seq<Seq<Seq<char>>>) -> bool {
    &&& recs.len() == if rows.len() == 0 { 0 } else { rows.len() - 1 }
    &&& forall|k: int| 0 <= k < recs.len() ==> record_matches(#[trigger] recs[k], rows[0], rows[k + 1])
}

/// The records of one tax year and schedule, and the filing statuses they go to.
#[derive(Clone, Debug)]
pub struct LoadGroup {
    pub tax_year: i32,
    pub schedule: String,
    /// Codes of the filing statuses the schedule applies to.
    pub filing_status_codes: Vec<&'static str>,
    /// Positions of the group's records, in ascending order.
    pub records: Vec<usize>,
}

/// Whether a record belongs to the group of a tax year and schedule.
pub open spec fn in_group(rec: TaxBracketRecord, tax_year: i32, schedule: Seq<char>) -> bool {
    rec.tax_year == tax_year && rec.schedule@ == schedule
}

/// Whether each group carries the filing statuses of its schedule.
pub open spec fn groups_have_codes(gs: Seq<LoadGroup>) -> bool {
    forall|g: int|
        0 <= g < gs.len() ==> schedule_codes((#[trigger] gs[g]).schedule@) == Some(
            code_texts(gs[g].filing_status_codes@),
        )
}

/// Whether each group lists only records of its tax year and schedule, in
/// ascending order.
pub open spec fn groups_hold_their_records(gs: Seq<LoadGroup>, rs: Seq<TaxBracketRecord>) -> bool {
    &&& forall|g: int, j: int|
        0 <= g < gs.len() && 0 <= j < gs[g].records@.len() ==> #[trigger] gs[g].records@[j] < rs.len()
            && in_group(rs[gs[g].records@[j] as int], gs[g].tax_year, gs[g].schedule@)
    &&& forall|g: int, j: int, l: int|
        0 <= g < gs.len() && 0 <= j < l < gs[g].records@.len() ==> #[trigger] gs[g].records@[j]
            < #[trigger] gs[g].records@[l]
}

/// Whether each group lists every record of its tax year and schedule.
pub open spec fn groups_hold_all_their_records(gs: Seq<LoadGroup>, rs: Seq<TaxBracketRecord>) -> bool {
    forall|g: int, k: int|
        0 <= g < gs.len() && 0 <= k < rs.len() && in_group(
            #[trigger] rs[k],
            (#[trigger] gs[g]).tax_year,
            gs[g].schedule@,
        ) ==> gs[g].records@.contains(k as usize)
}

/// The index of the first group at or after `g` that a record belongs to, or the
/// number of groups.
pub open spec fn group_from(gs: Seq<LoadGroup>, rec: TaxBracketRecord, g: int) -> int
    decreases gs.len() - g,
{
    if g < 0 || g >= gs.len() {
        gs.len() as int
    } else if in_group(rec, gs[g].tax_year, gs[g].schedule@) {
        g
    } else {
        group_from(gs, rec, g + 1)
    }
}

/// Whether every record has a group.
pub open spec fn groups_cover(gs: Seq<LoadGroup>, rs: Seq<TaxBracketRecord>) -> bool {
    forall|k: int| 0 <= k < rs.len() ==> group_from(gs, #[trigger] rs[k], 0) < gs.len()
}

/// Adding a group keeps the first group of a record that had one, and gives a
/// record that had none and belongs to the new group that group.
proof fn lemma_group_from_push(gs: Seq<LoadGroup>, x: LoadGroup, rec: TaxBracketRecord, g: int)
    requires
        0 <= g <= gs.len(),
    ensures
        group_from(gs, rec, g) < gs.len() ==> group_from(gs.push(x), rec, g) == group_from(gs, rec, g),
        group_from(gs, rec, g) == gs.len() && in_group(rec, x.tax_year, x.schedule@) ==> group_from(
            gs.push(x),
            rec,
            g,
        ) == gs.len(),
    decreases gs.len() - g,
{
    if g < gs.len() {
        assert(gs.push(x)[g] == gs[g]);
        if !in_group(rec, gs[g].tax_year, gs[g].schedule@) {
            lemma_group_from_push(gs, x, rec, g + 1);
        }
    } else {
        assert(gs.push(x)[g] == x);
    }
}

/// A record that no group at or after `g` holds has no first group from `g`.
proof fn lemma_group_from_none(gs: Seq<LoadGroup>, rec: TaxBracketRecord, g: int)
    requires
        0 <= g <= gs.len(),
        forall|h: int| g <= h < gs.len() ==> !in_group(rec, #[trigger] gs[h].tax_year, gs[h].schedule@),
    ensures
        group_from(gs, rec, g) == gs.len(),
    decreases gs.len() - g,
{
    if g < gs.len() {
        lemma_group_from_none(gs, rec, g + 1);
    }
}

/// A record that group `g` holds has a first group at or before `g`.
proof fn lemma_group_from_none_contra(gs: Seq<LoadGroup>, rec: TaxBracketRecord, g: int)
    requires
        0 <= g < gs.len(),
        in_group(rec, gs[g].tax_year, gs[g].schedule@),
    ensures
        group_from(gs, rec, 0) <= g,
{
    lemma_group_from_upto(gs, rec, 0, g);
}

proof fn lemma_group_from_upto(gs: Seq<LoadGroup>, rec: TaxBracketRecord, start: int, g: int)
    requires
        0 <= start <= g < gs.len(),
        in_group(rec, gs[g].tax_year, gs[g].schedule@),
    ensures
        group_from(gs, rec, start) <= g,
    decreases g - start,
{
    if start < g && !in_group(rec, gs[start].tax_year, gs[start].schedule@) {
        lemma_group_from_upto(gs, rec, start + 1, g);
    }
}

/// The first group of a record holds it.
proof fn lemma_group_from_holds(gs: Seq<LoadGroup>, rec: TaxBracketRecord, g: int)
    requires
        0 <= g <= gs.len(),
    ensures
        g <= group_from(gs, rec, g) <= gs.len(),
        group_from(gs, rec, g) < gs.len() ==> in_group(rec, gs[group_from(gs, rec, g)].tax_year, gs[group_from(gs, rec, g)].schedule@),
    decreases gs.len() - g,
{
    if g < gs.len() && !in_group(rec, gs[g].tax_year, gs[g].schedule@) {
        lemma_group_from_holds(gs, rec, g + 1);
    }
}

/// Whether no two groups share a tax year and schedule.
pub open spec fn groups_distinct(gs: Seq<LoadGroup>) -> bool {
    forall|g: int, h: int|
        0 <= g < h < gs.len() ==> !((#[trigger] gs[g]).tax_year == (#[trigger] gs[h]).tax_year
            && gs[g].schedule@ == gs[h].schedule@)
}

/// Whether groups split records by tax year and schedule: one group per pair,
/// each with its schedule's filing statuses and exactly its records, in order.
pub open spec fn groups_partition(gs: Seq<LoadGroup>, rs: Seq<TaxBracketRecord>) -> bool {
    &&& groups_have_codes(gs)
    &&& groups_hold_their_records(gs, rs)
    &&& groups_hold_all_their_records(gs, rs)
    &&& groups_cover(gs, rs)
    &&& groups_distinct(gs)
}

/// The positions of the records of one tax year and schedule, in ascending order.
fn group_members(records: &[TaxBracketRecord], tax_year: i32, schedule: &str) -> (r: Vec<usize>)
    ensures
        forall|j: int| 0 <= j < r@.len() ==> r@[j] < records@.len() && in_group(records@[#[trigger] r@[j] as int], tax_year, schedule@),
        forall|j: int, l: int| 0 <= j < l < r@.len() ==> #[trigger] r@[j] < #[trigger] r@[l],
        forall|k: int| 0 <= k < records@.len() && in_group(#[trigger] records@[k], tax_year, schedule@) ==> r@.contains(k as usize),
{
    let mut members: Vec<usize> = Vec::new();
    let mut k: usize = 0;
    while k < records.len()
        invariant
            0 <= k <= records@.len(),
            forall|j: int| 0 <= j < members@.len() ==> members@[j] < k && in_group(records@[#[trigger] members@[j] as int], tax_year, schedule@),
            forall|j: int, l: int| 0 <= j < l < members@.len() ==> #[trigger] members@[j] < #[trigger] members@[l],
            forall|m: int| 0 <= m < k && in_group(#[trigger] records@[m], tax_year, schedule@) ==> members@.contains(m as usize),
        decreases records@.len() - k,
    {
        let ghost before = members@;
        if records[k].tax_year == tax_year && str_eq(records[k].schedule.as_str(), schedule) {
            members.push(k);
            assert(members@[members@.len() - 1] == k);
        }
        assert forall|m: int| 0 <= m < k + 1 && in_group(#[trigger] records@[m], tax_year, schedule@) implies members@.contains(m as usize) by {
            if m < k {
                let j = choose|j: int| 0 <= j < before.len() && before[j] == m as usize;
                assert(members@[j] == m as usize);
            } else {
                assert(members@[members@.len() - 1] == k);
            }
        }
        k = k + 1;
    }
    members
}

/// The bracket a record becomes for one filing status.
pub fn bracket_for(record: &TaxBracketRecord, filing_status_id: i32) -> (r: TaxBracket)
    ensures
        r.tax_year == record.tax_year,
        r.filing_status_id == filing_status_id,
        r.min_income == record.min_income,
        r.max_income == record.max_income,
        r.tax_rate == record.rate,
        r.base_tax == record.base_tax,
{
    TaxBracket {
        tax_year: record.tax_year,
        filing_status_id,
        min_income: record.min_income,
        max_income: record.max_income,
        tax_rate: record.rate,
        base_tax: record.base_tax,
    }
}

/// The loader error for a failed filing-status lookup: a missing record means the
/// filing status is not in the reference data.
pub fn lookup_error(e: RepositoryError, status_code: &str) -> (r: TaxBracketLoaderError)
    ensures
        e is NotFound ==> (r matches TaxBracketLoaderError::FilingStatusNotFound(c) && c@ == status_code@),
        !(e is NotFound) ==> r == TaxBracketLoaderError::Repository(e),
{
    match e {
        RepositoryError::NotFound => TaxBracketLoaderError::FilingStatusNotFound(String::from_str(status_code)),
        other => TaxBracketLoaderError::Repository(other),
    }
}

/// Whether `needle` occurs in `hay` at position `i`.
pub open spec fn occurs_at(hay: Seq<char>, needle: Seq<char>, i: int) -> bool {
    0 <= i && i + needle.len() <= hay.len() && hay.subrange(i, i + needle.len()) == needle
}

/// Whether `needle` occurs somewhere in `hay`.
fn contains_text(hay: &str, needle: &str) -> (r: bool)
    ensures
        r == exists|i: int| occurs_at(hay@, needle@, i),
{
    let n = hay.unicode_len();
    let m = needle.unicode_len();
    if m > n {
        assert forall|i: int| !occurs_at(hay@, needle@, i) by {}
        return false;
    }
    let mut i: usize = 0;
    while i <= n - m
        invariant
            n == hay@.len(),
            m == needle@.len(),
            m <= n,
            0 <= i <= n - m + 1,
            forall|j: int| 0 <= j < i ==> !occurs_at(hay@, needle@, j),
        decreases n - m + 1 - i,
    {
        let mut k: usize = 0;
        let mut same = true;
        while k < m
            invariant
                n == hay@.len(),
                m == needle@.len(),
                i + m <= n,
                0 <= k <= m,
                same == forall|t: int| 0 <= t < k ==> hay@[i + t] == needle@[t],
            decreases m - k,
        {
            if hay.get_char(i + k) != needle.get_char(k) {
                same = false;
            }
            k = k + 1;
        }
        if same {
            assert(hay@.subrange(i as int, i + m) =~= needle@);
            assert(occurs_at(hay@, needle@, i as int));
            return true;
        }
        assert(!(hay@.subrange(i as int, i + m) =~= needle@)) by {
            let t = choose|t: int| 0 <= t < m && hay@[i + t] != needle@[t];
            assert(hay@.subrange(i as int, i + m)[t] != needle@[t]);
        }
        i = i + 1;
    }
    assert forall|j: int| !occurs_at(hay@, needle@, j) by {
        if 0 <= j && j + m <= n {
            assert(j < i);
        }
    }
    false
}

/// The loader error for a failed insert: a database error about a foreign key
/// means the tax year is not in the reference data.
pub fn insert_error(e: RepositoryError, tax_year: i32) -> (r: TaxBracketLoaderError)
    ensures
        (e matches RepositoryError::Database(m) && exists|i: int| occurs_at(m@, "FOREIGN KEY constraint failed"@, i))
            ==> r == TaxBracketLoaderError::TaxYearNotFound(tax_year),
        !(e matches RepositoryError::Database(m) && exists|i: int| occurs_at(m@, "FOREIGN KEY constraint failed"@, i))
            ==> r == TaxBracketLoaderError::Repository(e),
{
    let foreign_key = match &e {
        RepositoryError::Database(m) => contains_text(m.as_str(), "FOREIGN KEY constraint failed"),
        _ => false,
    };
    if foreign_key {
        TaxBracketLoaderError::TaxYearNotFound(tax_year)
    } else {
        TaxBracketLoaderError::Repository(e)
    }
}

impl TaxBracketLoader {
    /// Splits records into groups by tax year and schedule, in the order the
    /// pairs first appear, each with the filing statuses its schedule applies to.
    /// Fails with `InvalidSchedule` if a schedule is not X, Y-1, Y-2 or Z.
    pub fn plan_load(records: &[TaxBracketRecord]) -> (r: Result<Vec<LoadGroup>, TaxBracketLoaderError>)
        ensures
            r is Ok <==> forall|k: int| 0 <= k < records@.len() ==> schedule_codes((#[trigger] records@[k]).schedule@) is Some,
            r is Ok ==> groups_partition(r.unwrap()@, records@),
            r is Err ==> r->Err_0 is InvalidSchedule,
    {
        let mut groups: Vec<LoadGroup> = Vec::new();
        let mut i: usize = 0;
        while i < records.len()
            invariant
                0 <= i <= records@.len(),
                forall|k: int| 0 <= k < i ==> schedule_codes((#[trigger] records@[k]).schedule@) is Some,
                forall|g: int|
                    0 <= g < groups@.len() ==> schedule_codes((#[trigger] groups@[g]).schedule@) == Some(
                        code_texts(groups@[g].filing_status_codes@),
                    ),
                forall|g: int, j: int|
                    0 <= g < groups@.len() && 0 <= j < groups@[g].records@.len() ==> #[trigger] groups@[g].records@[j]
                        < records@.len() && in_group(records@[groups@[g].records@[j] as int], groups@[g].tax_year, groups@[g].schedule@),
                forall|g: int, j: int, l: int|
                    0 <= g < groups@.len() && 0 <= j < l < groups@[g].records@.len() ==> #[trigger] groups@[g].records@[j]
                        < #[trigger] groups@[g].records@[l],
                forall|g: int, k: int|
                    0 <= g < groups@.len() && 0 <= k < records@.len() && in_group(
                        #[trigger] records@[k],
                        (#[trigger] groups@[g]).tax_year,
                        groups@[g].schedule@,
                    ) ==> groups@[g].records@.contains(k as usize),
                forall|k: int| 0 <= k < i ==> group_from(groups@, #[trigger] records@[k], 0) < groups@.len(),
                forall|g: int, h: int|
                    0 <= g < h < groups@.len() ==> !((#[trigger] groups@[g]).tax_year == (#[trigger] groups@[h]).tax_year
                        && groups@[g].schedule@ == groups@[h].schedule@),
            decreases records@.len() - i,
        {
            let rec = &records[i];
            let ghost old_groups = groups@;
            let codes = match schedule_to_filing_status_codes(rec.schedule.as_str()) {
                Ok(c) => c,
                Err(e) => {
                    return Err(e);
                },
            };
            let mut g: usize = 0;
            let mut found = false;
            while g < groups.len() && !found
                invariant
                    0 <= g <= groups@.len(),
                    !found ==> forall|h: int| 0 <= h < g ==> !in_group(*rec, #[trigger] groups@[h].tax_year, groups@[h].schedule@),
                    found ==> g < groups@.len() && in_group(*rec, groups@[g as int].tax_year, groups@[g as int].schedule@),
                decreases groups@.len() - g + if found { 0int } else { 1int },
            {
                if groups[g].tax_year == rec.tax_year && str_eq(groups[g].schedule.as_str(), rec.schedule.as_str()) {
                    found = true;
                } else {
                    g = g + 1;
                }
            }
            if !found {
                let members = group_members(records, rec.tax_year, rec.schedule.as_str());
                assert(members@.contains(i)) by {
                    assert(in_group(records@[i as int], rec.tax_year, rec.schedule@));
                }
                groups.push(LoadGroup {
                    tax_year: rec.tax_year,
                    schedule: rec.schedule.clone(),
                    filing_status_codes: codes,
                    records: members,
                });
                let ghost last = (groups@.len() - 1) as int;
                assert forall|g: int, h: int|
                    0 <= g < h < groups@.len() implies !((#[trigger] groups@[g]).tax_year == (#[trigger] groups@[h]).tax_year
                        && groups@[g].schedule@ == groups@[h].schedule@) by {
                    if h == last {
                        assert(groups@[g] == old_groups[g]);
                        assert(!in_group(records@[i as int], old_groups[g].tax_year, old_groups[g].schedule@));
                    } else {
                        assert(groups@[g] == old_groups[g]);
                        assert(groups@[h] == old_groups[h]);
                    }
                }
            }
            assert forall|k: int| 0 <= k < i + 1 implies group_from(groups@, #[trigger] records@[k], 0) < groups@.len() by {
                if k < i {
                    if !found {
                        lemma_group_from_push(old_groups, groups@.last(), records@[k], 0);
                        assert(old_groups.push(groups@.last()) == groups@);
                    }
                } else if found {
                    lemma_group_from_holds(groups@, records@[k], 0);
                    if group_from(groups@, records@[k], 0) == groups@.len() {
                        lemma_group_from_none_contra(groups@, records@[k], g as int);
                    }
                } else {
                    lemma_group_from_none(old_groups, records@[k], 0);
                    lemma_group_from_push(old_groups, groups@.last(), records@[k], 0);
                    assert(old_groups.push(groups@.last()) == groups@);
                }
            }
            i = i + 1;
        }
        Ok(groups)
    }


    /// Reads bracket records from CSV bytes: a header row, then one bracket per row.
    pub fn parse(data: &[u8]) -> (r: Result<Vec<TaxBracketRecord>, TaxBracketLoaderError>)
        ensures
            csv_rows_of(data@) is None ==> r is Err && r->Err_0 is CsvParse,
            csv_rows_of(data@) is Some ==> (r is Ok <==> rows_parse(csv_rows_of(data@).unwrap())),
            r is Ok ==> records_match(r.unwrap()@, csv_rows_of(data@).unwrap()),
            r is Err ==> r->Err_0 is CsvParse,
    {
        match read_csv_rows(data) {
            Err(msg) => Err(TaxBracketLoaderError::CsvParse(msg)),
            Ok(rows) => TaxBracketLoader::parse_rows(&rows),
        }
    }

    /// Reads bracket records from the rows of a CSV table, header row first.
    pub fn parse_rows(rows: &Vec<Vec<String>>) -> (r: Result<Vec<TaxBracketRecord>, TaxBracketLoaderError>)
        ensures
            r is Ok <==> rows_parse(rows.deep_view()),
            r is Ok ==> records_match(r.unwrap()@, rows.deep_view()),
            r is Err ==> r->Err_0 is CsvParse,
    {
        let ghost rs = rows.deep_view();
        let mut records: Vec<TaxBracketRecord> = Vec::new();
        if rows.len() == 0 {
            return Ok(records);
        }
        let header = &rows[0];
        let ghost h = rs[0];
        assert(header.deep_view() == h);
        let cols = Columns {
            tax_year: column_index(header, "tax_year"),
            schedule: column_index(header, "schedule"),
            min_income: column_index(header, "min_income"),
            max_income: column_index(header, "max_income"),
            base_tax: column_index(header, "base_tax"),
            rate: column_index(header, "rate"),
        };
        let mut k: usize = 1;
        while k < rows.len()
            invariant
                rs == rows.deep_view(),
                h == rs[0],
                rs.len() > 0,
                cols.locates(h),
                header.deep_view() == h,
                1 <= k <= rs.len(),
                records@.len() == k - 1,
                forall|j: int| 1 <= j < k ==> row_parses(h, #[trigger] rs[j]),
                forall|j: int| 0 <= j < records@.len() ==> record_matches(#[trigger] records@[j], h, rs[j + 1]),
            decreases rs.len() - k,
        {
            assert(rows[k as int].deep_view() == rs[k as int]);
            match parse_row(&rows[k], header.len(), &cols, Ghost(h)) {
                Ok(rec) => {
                    records.push(rec);
                },
                Err(e) => {
                    return Err(e);
                },
            }
            k = k + 1;
        }
        Ok(records)
    }
}

} // verus!
