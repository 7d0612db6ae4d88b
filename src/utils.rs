//! Reading amounts that a person typed: surrounding whitespace and thousands
//! separators are allowed.

use crate::decimal::{text_units, Decimal};
use crate::text::{remove_commas, trim_text, trimmed};
use vstd::prelude::*;

verus! {

/// A typed amount that does not read as a decimal.
#[derive(Clone, Debug, PartialEq, Eq)]
pub struct ParseDecimalError {
    /// The text as typed.
    pub input: String,
}

/// A typed amount without surrounding whitespace and without commas.
pub open spec fn normalized_amount_text(s: Seq<char>) -> Seq<char> {
    trimmed(s).filter(|c: char| c != ',')
}

/// Strips surrounding whitespace and every comma.
pub fn normalize_decimal_input(s: &str) -> (r: String)
    ensures
        r@ == normalized_amount_text(s@),
{
    remove_commas(trim_text(s))
}

/// Reads a typed amount; a blank entry is zero.
pub fn parse_decimal(s: &str) -> (r: Result<Decimal, ParseDecimalError>)
    ensures
        ({
            let n = normalized_amount_text(s@);
            &&& n.len() == 0 ==> r is Ok && r.unwrap()@ == 0
            &&& n.len() > 0 ==> (r is Ok <==> text_units(n) is Some)
            &&& n.len() > 0 && r is Ok ==> r.unwrap()@ == text_units(n).unwrap()
            &&& r is Err ==> r->Err_0.input@ == s@
        }),
{
    let normalized = normalize_decimal_input(s);
    if normalized.as_str().unicode_len() == 0 {
        return Ok(Decimal::zero());
    }
    match Decimal::parse_text(normalized.as_str()) {
        Some(d) => Ok(d),
        None => Err(ParseDecimalError { input: String::from_str(s) }),
    }
}

/// Reads a typed amount that may be left blank; blank or unreadable is `None`.
pub fn parse_optional_decimal(s: &str) -> (r: Option<Decimal>)
    ensures
        ({
            let n = normalized_amount_text(s@);
            &&& n.len() == 0 ==> r is None
            &&& n.len() > 0 ==> (r is Some <==> text_units(n) is Some)
            &&& r is Some ==> r.unwrap()@ == text_units(n).unwrap()
        }),
{
    let normalized = normalize_decimal_input(s);
    if normalized.as_str().unicode_len() == 0 {
        return None;
    }
    Decimal::parse_text(normalized.as_str())
}

/// An optional amount for display: the amount, or a dash when there is none.
pub fn opt_decimal_display(d: &Option<Decimal>) -> (r: String)
    ensures
        d is Some ==> r@ == crate::decimal::decimal_text_of(d.unwrap()@),
        d is None ==> r@ == "\u{2014}"@,
{
    match d {
        Some(v) => v.to_string(),
        None => String::from_str("\u{2014}"),
    }
}

} // verus!
