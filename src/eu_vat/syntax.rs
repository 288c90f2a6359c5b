//! Syntax of the VAT numbers of the EU member states (and of Northern Ireland, `XI`).
use vstd::prelude::*;
use crate::text::{digits, digits_in, is_digit, is_upper, digit, upper};
use crate::gb_vat::syntax::{gb_rest_syntax, gb_rest_ok};

verus! {

/// Exactly `n` characters, all digits.
pub open spec fn all_digits(r: Seq<char>, n: int) -> bool {
    r.len() == n && digits(r, 0, n)
}

/// A character of the class `[A-HJ-NP-Z0-9]` (no `I`, no `O`).
pub open spec fn is_fr_key(c: char) -> bool {
    is_digit(c) || (is_upper(c) && c != 'I' && c != 'O')
}

/// The two-letter prefixes handled by VIES, in alphabetical order.
pub open spec fn eu_country(a: char, b: char) -> bool {
    (a == 'A' && b == 'T') || (a == 'B' && (b == 'E' || b == 'G')) || (a == 'C' && (b == 'Y' || b
        == 'Z')) || (a == 'D' && (b == 'E' || b == 'K')) || (a == 'E' && (b == 'E' || b == 'L'
        || b == 'S')) || (a == 'F' && (b == 'I' || b == 'R')) || (a == 'H' && (b == 'R' || b
        == 'U')) || (a == 'I' && (b == 'E' || b == 'T')) || (a == 'L' && (b == 'T' || b == 'U'
        || b == 'V')) || (a == 'M' && b == 'T') || (a == 'N' && b == 'L') || (a == 'P' && (b
        == 'L' || b == 'T')) || (a == 'R' && b == 'O') || (a == 'S' && (b == 'E' || b == 'I'
        || b == 'K')) || (a == 'X' && b == 'I')
}

/// The syntax of the part after the prefix `ab`, for each member state; false for any
/// other prefix.
pub open spec fn eu_rest_syntax(a: char, b: char, r: Seq<char>) -> bool {
    if a == 'A' && b == 'T' {
        r.len() == 9 && r[0] == 'U' && digits(r, 1, 9)
    } else if a == 'B' && b == 'E' {
        r.len() == 10 && (r[0] == '0' || r[0] == '1') && digits(r, 1, 10)
    } else if a == 'B' && b == 'G' {
        all_digits(r, 9) || all_digits(r, 10)
    } else if a == 'C' && b == 'Y' {
        r.len() == 9 && (('0' <= r[0] && r[0] <= '6') || r[0] == '9') && digits(r, 1, 8)
            && is_upper(r[8])
    } else if a == 'C' && b == 'Z' {
        all_digits(r, 8) || all_digits(r, 9) || all_digits(r, 10)
    } else if a == 'D' && b == 'E' {
        all_digits(r, 9)
    } else if a == 'D' && b == 'K' {
        all_digits(r, 8)
    } else if a == 'E' && b == 'E' {
        r.len() == 9 && r[0] == '1' && r[1] == '0' && digits(r, 2, 9)
    } else if a == 'E' && b == 'L' {
        all_digits(r, 9)
    } else if a == 'E' && b == 'S' {
        r.len() == 9 && ((is_upper(r[0]) && digits(r, 1, 9)) || (digits(r, 0, 8) && is_upper(r[8]))
            || (is_upper(r[0]) && digits(r, 1, 8) && is_upper(r[8])))
    } else if a == 'F' && b == 'I' {
        all_digits(r, 8)
    } else if a == 'F' && b == 'R' {
        r.len() == 11 && is_fr_key(r[0]) && is_fr_key(r[1]) && digits(r, 2, 11)
    } else if a == 'H' && b == 'R' {
        all_digits(r, 11)
    } else if a == 'H' && b == 'U' {
        all_digits(r, 8)
    } else if a == 'I' && b == 'E' {
        (r.len() == 8 && is_digit(r[0]) && is_upper(r[1]) && digits(r, 2, 7) && is_upper(r[7]))
            || (r.len() == 8 && digits(r, 0, 7) && is_upper(r[7])) || (r.len() == 9 && digits(
            r,
            0,
            7,
        ) && is_upper(r[7]) && is_upper(r[8]))
    } else if a == 'I' && b == 'T' {
        all_digits(r, 11)
    } else if a == 'L' && b == 'T' {
        (r.len() == 9 && digits(r, 0, 7) && r[7] == '1' && is_digit(r[8])) || (r.len() == 12
            && digits(r, 0, 10) && r[10] == '1' && is_digit(r[11]))
    } else if a == 'L' && b == 'U' {
        all_digits(r, 8)
    } else if a == 'L' && b == 'V' {
        all_digits(r, 11)
    } else if a == 'M' && b == 'T' {
        all_digits(r, 8)
    } else if a == 'N' && b == 'L' {
        r.len() == 12 && digits(r, 0, 9) && r[9] == 'B' && digits(r, 10, 12)
    } else if a == 'P' && b == 'L' {
        all_digits(r, 10)
    } else if a == 'P' && b == 'T' {
        all_digits(r, 9)
    } else if a == 'R' && b == 'O' {
        2 <= r.len() <= 10 && '1' <= r[0] && r[0] <= '9' && digits(r, 1, r.len() as int)
    } else if a == 'S' && b == 'E' {
        r.len() == 12 && digits(r, 0, 10) && r[10] == '0' && r[11] == '1'
    } else if a == 'S' && b == 'I' {
        all_digits(r, 8)
    } else if a == 'S' && b == 'K' {
        all_digits(r, 10)
    } else if a == 'X' && b == 'I' {
        gb_rest_syntax(r)
    } else {
        false
    }
}

pub fn is_eu_country(a: char, b: char) -> (r: bool)
    ensures
        r == eu_country(a, b),
{
    (a == 'A' && b == 'T') || (a == 'B' && (b == 'E' || b == 'G')) || (a == 'C' && (b == 'Y' || b
        == 'Z')) || (a == 'D' && (b == 'E' || b == 'K')) || (a == 'E' && (b == 'E' || b == 'L'
        || b == 'S')) || (a == 'F' && (b == 'I' || b == 'R')) || (a == 'H' && (b == 'R' || b
        == 'U')) || (a == 'I' && (b == 'E' || b == 'T')) || (a == 'L' && (b == 'T' || b == 'U'
        || b == 'V')) || (a == 'M' && b == 'T') || (a == 'N' && b == 'L') || (a == 'P' && (b
        == 'L' || b == 'T')) || (a == 'R' && b == 'O') || (a == 'S' && (b == 'E' || b == 'I'
        || b == 'K')) || (a == 'X' && b == 'I')
}

fn n_digits(r: &Vec<char>, n: usize) -> (ok: bool)
    ensures
        ok == all_digits(r@, n as int),
{
    r.len() == n && digits_in(r, 0, n)
}

fn fr_key(c: char) -> (r: bool)
    ensures
        r == is_fr_key(c),
{
    digit(c) || (upper(c) && c != 'I' && c != 'O')
}

pub fn eu_rest_ok(a: char, b: char, r: &Vec<char>) -> (ok: bool)
    ensures
        ok == eu_rest_syntax(a, b, r@),
{
    let n = r.len();
    if a == 'A' && b == 'T' {
        n == 9 && r[0] == 'U' && digits_in(r, 1, 9)
    } else if a == 'B' && b == 'E' {
        n == 10 && (r[0] == '0' || r[0] == '1') && digits_in(r, 1, 10)
    } else if a == 'B' && b == 'G' {
        n_digits(r, 9) || n_digits(r, 10)
    } else if a == 'C' && b == 'Y' {
        n == 9 && (('0' <= r[0] && r[0] <= '6') || r[0] == '9') && digits_in(r, 1, 8) && upper(
            r[8],
        )
    } else if a == 'C' && b == 'Z' {
        n_digits(r, 8) || n_digits(r, 9) || n_digits(r, 10)
    } else if a == 'D' && b == 'E' {
        n_digits(r, 9)
    } else if a == 'D' && b == 'K' {
        n_digits(r, 8)
    } else if a == 'E' && b == 'E' {
        n == 9 && r[0] == '1' && r[1] == '0' && digits_in(r, 2, 9)
    } else if a == 'E' && b == 'L' {
        n_digits(r, 9)
    } else if a == 'E' && b == 'S' {
        n == 9 && ((upper(r[0]) && digits_in(r, 1, 9)) || (digits_in(r, 0, 8) && upper(r[8])) || (
        upper(r[0]) && digits_in(r, 1, 8) && upper(r[8])))
    } else if a == 'F' && b == 'I' {
        n_digits(r, 8)
    } else if a == 'F' && b == 'R' {
        n == 11 && fr_key(r[0]) && fr_key(r[1]) && digits_in(r, 2, 11)
    } else if a == 'H' && b == 'R' {
        n_digits(r, 11)
    } else if a == 'H' && b == 'U' {
        n_digits(r, 8)
    } else if a == 'I' && b == 'E' {
        (n == 8 && digit(r[0]) && upper(r[1]) && digits_in(r, 2, 7) && upper(r[7])) || (n == 8
            && digits_in(r, 0, 7) && upper(r[7])) || (n == 9 && digits_in(r, 0, 7) && upper(r[7])
            && upper(r[8]))
    } else if a == 'I' && b == 'T' {
        n_digits(r, 11)
    } else if a == 'L' && b == 'T' {
        (n == 9 && digits_in(r, 0, 7) && r[7] == '1' && digit(r[8])) || (n == 12 && digits_in(
            r,
            0,
            10,
        ) && r[10] == '1' && digit(r[11]))
    } else if a == 'L' && b == 'U' {
        n_digits(r, 8)
    } else if a == 'L' && b == 'V' {
        n_digits(r, 11)
    } else if a == 'M' && b == 'T' {
        n_digits(r, 8)
    } else if a == 'N' && b == 'L' {
        n == 12 && digits_in(r, 0, 9) && r[9] == 'B' && digits_in(r, 10, 12)
    } else if a == 'P' && b == 'L' {
        n_digits(r, 10)
    } else if a == 'P' && b == 'T' {
        n_digits(r, 9)
    } else if a == 'R' && b == 'O' {
        2 <= n && n <= 10 && '1' <= r[0] && r[0] <= '9' && digits_in(r, 1, n)
    } else if a == 'S' && b == 'E' {
        n == 12 && digits_in(r, 0, 10) && r[10] == '0' && r[11] == '1'
    } else if a == 'S' && b == 'I' {
        n_digits(r, 8)
    } else if a == 'S' && b == 'K' {
        n_digits(r, 10)
    } else if a == 'X' && b == 'I' {
        gb_rest_ok(r)
    } else {
        false
    }
}

} // verus!
