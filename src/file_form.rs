//! The form that picks a bracket source file, a database and a log folder.

use crate::text::str_eq;
use vstd::prelude::*;

verus! {

/// The extension of a path's final component, as `Path::extension` gives it,
/// where it is valid UTF-8.
pub uninterp spec fn path_extension_of(path: Seq<char>) -> Option<Seq<char>>;

/// Relies on `Path::extension` and `OsStr::to_str`: the extension of the path's
/// final component, if it has one that is valid UTF-8.
#[verifier::external_body]
fn path_extension(path: &str) -> (r: Option<String>)
    ensures
        r is Some <==> path_extension_of(path@) is Some,
        r is Some ==> r.unwrap()@ == path_extension_of(path@).unwrap(),
{
    std::path::Path::new(path).extension().and_then(|e| e.to_str()).map(|e| e.to_string())
}

/// Whether `a` is `lower` but for ASCII letters in upper case.
pub open spec fn eq_ignore_ascii_case(a: Seq<char>, lower: Seq<char>) -> bool {
    &&& a.len() == lower.len()
    &&& forall|i: int|
        0 <= i < a.len() ==> a[i] == lower[i] || ('A' <= #[trigger] a[i] <= 'Z' && a[i] as u32 + 32
            == lower[i] as u32)
}

/// Compares a text with a lower-case text, ignoring the case of ASCII letters.
fn matches_lower(a: &str, lower: &str) -> (r: bool)
    ensures
        r == eq_ignore_ascii_case(a@, lower@),
{
    let n = a.unicode_len();
    if n != lower.unicode_len() {
        return false;
    }
    let mut i: usize = 0;
    while i < n
        invariant
            n == a@.len(),
            n == lower@.len(),
            0 <= i <= n,
            forall|j: int|
                0 <= j < i ==> a@[j] == lower@[j] || ('A' <= #[trigger] a@[j] <= 'Z' && a@[j] as u32
                    + 32 == lower@[j] as u32),
        decreases n - i,
    {
        let c = a.get_char(i);
        let l = lower.get_char(i);
        if !(c == l || ('A' <= c && c <= 'Z' && (c as u32) + 32 == l as u32)) {
            return false;
        }
        i = i + 1;
    }
    true
}

/// Whether a path's extension is one of the given lower-case extensions, in any case.
pub open spec fn has_extension_in(path: Seq<char>, exts: Seq<Seq<char>>) -> bool {
    let e = path_extension_of(path);
    e is Some && exists|k: int| 0 <= k < exts.len() && eq_ignore_ascii_case(e.unwrap(), #[trigger] exts[k])
}

/// Whether a path's extension is one of the given lower-case extensions, in any case.
fn extension_in(path: &str, exts: &[&str]) -> (r: bool)
    ensures
        r == has_extension_in(path@, exts@.map_values(|x: &str| x@)),
{
    let ghost es = exts@.map_values(|x: &str| x@);
    match path_extension(path) {
        None => false,
        Some(ext) => {
            let mut k: usize = 0;
            while k < exts.len()
                invariant
                    0 <= k <= exts@.len(),
                    es == exts@.map_values(|x: &str| x@),
                    path_extension_of(path@) is Some,
                    ext@ == path_extension_of(path@).unwrap(),
                    forall|j: int| 0 <= j < k ==> !eq_ignore_ascii_case(ext@, #[trigger] es[j]),
                decreases exts@.len() - k,
            {
                if matches_lower(ext.as_str(), exts[k]) {
                    assert(eq_ignore_ascii_case(ext@, es[k as int]));
                    return true;
                }
                k = k + 1;
            }
            false
        },
    }
}

/// The file form: a source file, a database file, a log folder and whether to
/// log to standard output.
#[derive(Clone, Debug)]
pub struct FileFormModel {
    pub source_file: String,
    pub database_file: String,
    pub log_directory: String,
    pub log_stdout: bool,
}

impl Default for FileFormModel {
    fn default() -> (r: Self)
        ensures
            r.source_file@.len() == 0,
            r.database_file@.len() == 0,
            r.log_directory@.len() == 0,
            !r.log_stdout,
    {
        FileFormModel {
            source_file: String::new(),
            database_file: String::new(),
            log_directory: String::new(),
            log_stdout: false,
        }
    }
}

/// The form's choices, one labelled line each.
pub open spec fn file_form_text(m: FileFormModel) -> Seq<char> {
    "Source file:   "@ + m.source_file@ + "\nDatabase:      "@ + m.database_file@
        + "\nLog folder:    "@ + m.log_directory@ + "\nLog to stdout: "@
        + (if m.log_stdout { "true"@ } else { "false"@ }) + "\n"@
}

impl FileFormModel {
    /// The form's choices, one labelled line each.
    pub fn to_string(&self) -> (r: String)
        ensures
            r@ == file_form_text(*self),
    {
        let mut out = String::from_str("Source file:   ");
        out.append(self.source_file.as_str());
        out.append("\nDatabase:      ");
        out.append(self.database_file.as_str());
        out.append("\nLog folder:    ");
        out.append(self.log_directory.as_str());
        out.append("\nLog to stdout: ");
        out.append(if self.log_stdout { "true" } else { "false" });
        out.append("\n");
        out
    }

    /// Whether the source file is an Excel workbook (xlsx, xlsm, xlsb, xls).
    pub fn is_excel(&self) -> (r: bool)
        ensures
            r == has_extension_in(self.source_file@, seq!["xlsx"@, "xlsm"@, "xlsb"@, "xls"@]),
    {
        let exts: [&str; 4] = ["xlsx", "xlsm", "xlsb", "xls"];
        let r = extension_in(self.source_file.as_str(), exts.as_slice());
        proof {
            assert(exts@.map_values(|x: &str| x@) =~= seq!["xlsx"@, "xlsm"@, "xlsb"@, "xls"@]);
        }
        r
    }

    /// Whether the source file is a CSV file.
    pub fn is_csv(&self) -> (r: bool)
        ensures
            r == has_extension_in(self.source_file@, seq!["csv"@]),
    {
        let exts: [&str; 1] = ["csv"];
        let r = extension_in(self.source_file.as_str(), exts.as_slice());
        proof {
            assert(exts@.map_values(|x: &str| x@) =~= seq!["csv"@]);
        }
        r
    }

    /// Whether the database file is a SQLite database (db, db3, sqlite).
    pub fn is_sqlite(&self) -> (r: bool)
        ensures
            r == has_extension_in(self.database_file@, seq!["db"@, "db3"@, "sqlite"@]),
    {
        let exts: [&str; 3] = ["db", "db3", "sqlite"];
        let r = extension_in(self.database_file.as_str(), exts.as_slice());
        proof {
            assert(exts@.map_values(|x: &str| x@) =~= seq!["db"@, "db3"@, "sqlite"@]);
        }
        r
    }

    /// Checks that both files are chosen; otherwise one message per missing file.
    pub fn validate_for_submit(&self) -> (r: Result<(), Vec<String>>)
        ensures
            (r is Ok) == (self.source_file@.len() > 0 && self.database_file@.len() > 0),
            r is Err ==> r->Err_0@.len() == (if self.source_file@.len() == 0 { 1int } else { 0int })
                + (if self.database_file@.len() == 0 { 1int } else { 0int }),
            r is Err && self.source_file@.len() == 0 ==> r->Err_0@[0]@ == "Source file is required."@,
            r is Err && self.database_file@.len() == 0 ==> r->Err_0@.last()@
                == "Database file is required."@,
    {
        let mut errors: Vec<String> = Vec::new();
        if self.source_file.as_str().unicode_len() == 0 {
            errors.push(String::from_str("Source file is required."));
        }
        if self.database_file.as_str().unicode_len() == 0 {
            errors.push(String::from_str("Database file is required."));
        }
        if errors.len() == 0 {
            Ok(())
        } else {
            Err(errors)
        }
    }
}

} // verus!
