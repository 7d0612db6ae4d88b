//! Character-level helpers on strings.

use vstd::prelude::*;

verus! {

/// What `str::trim` leaves of a text: it without leading and trailing whitespace.
pub uninterp spec fn trimmed(text: Seq<char>) -> Seq<char>;

/// Relies on `str::trim`: the text without leading and trailing whitespace.
#[verifier::external_body]
pub(crate) fn trim_text(text: &str) -> (r: &str)
    ensures
        r@ == trimmed(text@),
{
    text.trim()
}

/// Relies on `str::replace` with the pattern `','` and an empty replacement: the
/// text with every comma taken out and the other characters kept in order.
#[verifier::external_body]
pub(crate) fn remove_commas(text: &str) -> (r: String)
    ensures
        r@ == text@.filter(|c: char| c != ','),
{
    text.replace(',', "")
}

/// Whether two strings hold the same characters.
pub fn str_eq(a: &str, b: &str) -> (r: bool)
    ensures
        r == (a@ == b@),
{
    let n = a.unicode_len();
    if n != b.unicode_len() {
        return false;
    }
    let mut i: usize = 0;
    while i < n
        invariant
            n == a@.len(),
            n == b@.len(),
            0 <= i <= n,
            forall|j: int| 0 <= j < i ==> a@[j] == b@[j],
        decreases n - i,
    {
        if a.get_char(i) != b.get_char(i) {
            return false;
        }
        i = i + 1;
    }
    assert(a@ =~= b@);
    true
}

/// Whether a character is an ASCII digit.
pub open spec fn is_digit(c: char) -> bool {
    '0' <= c <= '9'
}

/// The number that a string of decimal digits spells.
pub open spec fn digits_value(s: Seq<char>) -> int
    decreases s.len(),
{
    if s.len() == 0 {
        0
    } else {
        10 * digits_value(s.drop_last()) + (s.last() as int - '0' as int)
    }
}

/// Whether every character of a text is a digit.
pub open spec fn all_digits(b: Seq<char>) -> bool {
    forall|i: int| 0 <= i < b.len() ==> is_digit(#[trigger] b[i])
}

/// A text without its leading sign, if it has one.
pub open spec fn unsigned_part(s: Seq<char>) -> Seq<char> {
    if s.len() > 0 && (s[0] == '-' || s[0] == '+') {
        s.subrange(1, s.len() as int)
    } else {
        s
    }
}

/// The integer a text spells: an optional `+` or `-`, then one or more digits.
pub open spec fn integer_text_value(s: Seq<char>) -> Option<int> {
    let body = unsigned_part(s);
    if body.len() > 0 && all_digits(body) {
        let v = digits_value(body);
        Some(if s[0] == '-' { -v } else { v })
    } else {
        None
    }
}

/// The `i32` a text spells, as `str::parse::<i32>` reads it.
pub open spec fn i32_text_value(s: Seq<char>) -> Option<i32> {
    match integer_text_value(s) {
        Some(v) => if i32::MIN <= v <= i32::MAX {
            Some(v as i32)
        } else {
            None
        },
        None => None,
    }
}

/// Reads an `i32` from its decimal text: an optional sign, then digits.
pub fn parse_i32(s: &str) -> (r: Option<i32>)
    ensures
        r == i32_text_value(s@),
{
    let n = s.unicode_len();
    if n == 0 {
        return None;
    }
    let first = s.get_char(0);
    let signed = first == '-' || first == '+';
    let start: usize = if signed { 1 } else { 0 };
    if start >= n {
        return None;
    }
    let ghost body = if signed { s@.subrange(1, n as int) } else { s@ };
    let limit: i64 = 2_147_483_648;
    let mut acc: i64 = 0;
    let mut over = false;
    let mut i: usize = start;
    while i < n
        invariant
            n == s@.len(),
            n > 0,
            first == s@[0],
            signed == (first == '-' || first == '+'),
            start == (if signed { 1usize } else { 0usize }),
            body == (if signed { s@.subrange(1, n as int) } else { s@ }),
            limit == 2_147_483_648,
            start <= i <= n,
            body == s@.subrange(start as int, n as int),
            forall|j: int| 0 <= j < i - start ==> is_digit(#[trigger] body[j]),
            !over ==> acc == digits_value(body.subrange(0, i - start)) && 0 <= acc <= limit,
            over ==> digits_value(body.subrange(0, i - start)) > limit,
        decreases n - i,
    {
        let c = s.get_char(i);
        let ghost k: int = i - start;
        assert(body[k] == c);
        if !('0' <= c && c <= '9') {
            assert(!is_digit(body[k]));
            assert(integer_text_value(s@) is None);
            return None;
        }
        let ghost prefix = body.subrange(0, k);
        let ghost next = body.subrange(0, k + 1);
        assert(next.drop_last() =~= prefix);
        assert(next.last() == c);
        let d = (c as u32 - '0' as u32) as i64;
        if !over {
            acc = acc * 10 + d;
            if acc > limit {
                over = true;
            }
        } else {
            assert(digits_value(prefix) > limit);
            assert(next.len() > 0);
            assert(digits_value(next) == 10 * digits_value(next.drop_last()) + (next.last() as int - '0' as int));
            assert(digits_value(next) > limit);
        }
        i = i + 1;
    }
    assert(body.subrange(0, n - start) =~= body);
    if over {
        return None;
    }
    let v: i64 = if first == '-' { -acc } else { acc };
    if v < -2_147_483_648 || v > 2_147_483_647 {
        return None;
    }
    Some(v as i32)
}

/// The text of one decimal digit.
pub open spec fn digit_text(d: int) -> Seq<char> {
    if d == 0 {
        "0"@
    } else if d == 1 {
        "1"@
    } else if d == 2 {
        "2"@
    } else if d == 3 {
        "3"@
    } else if d == 4 {
        "4"@
    } else if d == 5 {
        "5"@
    } else if d == 6 {
        "6"@
    } else if d == 7 {
        "7"@
    } else if d == 8 {
        "8"@
    } else {
        "9"@
    }
}

/// The decimal digits of a natural number, without leading zeros.
pub open spec fn nat_text(n: nat) -> Seq<char>
    decreases n,
{
    if n < 10 {
        digit_text(n as int)
    } else {
        nat_text(n / 10) + digit_text((n % 10) as int)
    }
}

/// The decimal text of an integer, with a leading `-` when negative.
pub open spec fn int_text(n: int) -> Seq<char> {
    if n < 0 {
        "-"@ + nat_text((-n) as nat)
    } else {
        nat_text(n as nat)
    }
}

pub(crate) fn digit_str(d: u64) -> (r: &'static str)
    requires
        d < 10,
    ensures
        r@ == digit_text(d as int),
{
    if d == 0 {
        "0"
    } else if d == 1 {
        "1"
    } else if d == 2 {
        "2"
    } else if d == 3 {
        "3"
    } else if d == 4 {
        "4"
    } else if d == 5 {
        "5"
    } else if d == 6 {
        "6"
    } else if d == 7 {
        "7"
    } else if d == 8 {
        "8"
    } else {
        "9"
    }
}

pub(crate) fn append_nat(out: &mut String, n: u64)
    ensures
        final(out)@ == old(out)@ + nat_text(n as nat),
    decreases n,
{
    if n >= 10 {
        append_nat(out, n / 10);
    }
    out.append(digit_str(n % 10));
    proof {
        if n >= 10 {
            assert(final(out)@ =~= old(out)@ + nat_text(n as nat));
        }
    }
}

/// The last `n` decimal digits of `f`, zero-padded on the left.
pub open spec fn padded_digits(f: nat, n: nat) -> Seq<char>
    decreases n,
{
    if n == 0 {
        Seq::empty()
    } else {
        padded_digits(f / 10, (n - 1) as nat) + digit_text((f % 10) as int)
    }
}

/// `f` as a fraction of `n` digits with its trailing zeros dropped: the digits
/// that remain and how many they are.
pub open spec fn drop_trailing_zeros(f: nat, n: nat) -> (nat, nat)
    decreases n,
{
    if n > 0 && f % 10 == 0 {
        drop_trailing_zeros(f / 10, (n - 1) as nat)
    } else {
        (f, n)
    }
}

/// Appends the last `n` decimal digits of `f`, zero-padded on the left.
pub(crate) fn append_padded(out: &mut String, f: u64, n: u32)
    ensures
        final(out)@ == old(out)@ + padded_digits(f as nat, n as nat),
    decreases n,
{
    if n > 0 {
        append_padded(out, f / 10, n - 1);
        out.append(digit_str(f % 10));
        proof {
            assert(final(out)@ =~= old(out)@ + padded_digits(f as nat, n as nat));
        }
    } else {
        proof {
            assert(final(out)@ =~= old(out)@ + padded_digits(f as nat, n as nat));
        }
    }
}

/// Appends the decimal text of an integer.
pub fn append_int(out: &mut String, n: i32)
    ensures
        final(out)@ == old(out)@ + int_text(n as int),
{
    if n < 0 {
        out.append("-");
        append_nat(out, (-(n as i64)) as u64);
        proof {
            assert(final(out)@ =~= old(out)@ + int_text(n as int));
        }
    } else {
        append_nat(out, n as u64);
    }
}

} // verus!
