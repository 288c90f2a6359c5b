//! Syntax of Swiss enterprise identification numbers (UID) used for VAT.
use vstd::prelude::*;
use crate::text::{digits, digits_in, is_space, space};

verus! {

/// From position `k` on, `r` holds nothing, or one white-space character followed by
/// one of the VAT register suffixes `MWST`, `TVA` or `IVA`.
pub open spec fn ch_suffix(r: Seq<char>, k: int) -> bool {
    r.len() == k || (r.len() > k && is_space(r[k]) && ((r.len() == k + 5 && r[k + 1] == 'M'
        && r[k + 2] == 'W' && r[k + 3] == 'S' && r[k + 4] == 'T') || (r.len() == k + 4 && r[k
        + 2] == 'V' && r[k + 3] == 'A' && (r[k + 1] == 'T' || r[k + 1] == 'I'))))
}

/// The part after `CH`: `E`, then nine digits either plain or written `-ddd.ddd.ddd`,
/// then an optional suffix.
pub open spec fn ch_rest_syntax(r: Seq<char>) -> bool {
    r.len() >= 1 && r[0] == 'E' && ((r.len() >= 10 && digits(r, 1, 10) && ch_suffix(r, 10)) || (
    r.len() >= 13 && r[1] == '-' && digits(r, 2, 5) && r[5] == '.' && digits(r, 6, 9) && r[9]
        == '.' && digits(r, 10, 13) && ch_suffix(r, 13)))
}

fn ch_suffix_ok(r: &Vec<char>, k: usize) -> (b: bool)
    requires
        k <= r@.len(),
        k <= 13,
    ensures
        b == ch_suffix(r@, k as int),
{
    let n = r.len();
    if n == k {
        true
    } else if !space(r[k]) {
        false
    } else if n == k + 5 {
        r[k + 1] == 'M' && r[k + 2] == 'W' && r[k + 3] == 'S' && r[k + 4] == 'T'
    } else if n == k + 4 {
        r[k + 2] == 'V' && r[k + 3] == 'A' && (r[k + 1] == 'T' || r[k + 1] == 'I')
    } else {
        false
    }
}

pub fn ch_rest_ok(r: &Vec<char>) -> (b: bool)
    ensures
        b == ch_rest_syntax(r@),
{
    let n = r.len();
    if n < 1 || r[0] != 'E' {
        return false;
    }
    let plain = n >= 10 && digits_in(r, 1, 10) && ch_suffix_ok(r, 10);
    if plain {
        return true;
    }
    n >= 13 && r[1] == '-' && digits_in(r, 2, 5) && r[5] == '.' && digits_in(r, 6, 9) && r[9]
        == '.' && digits_in(r, 10, 13) && ch_suffix_ok(r, 13)
}

} // verus!
