//! Syntax of Norwegian VAT numbers.
use vstd::prelude::*;
use crate::text::{digits, digits_in};

verus! {

/// The part after `NO`: the nine-digit organisation number, optionally followed by `MVA`.
pub open spec fn no_rest_syntax(r: Seq<char>) -> bool {
    r.len() >= 9 && digits(r, 0, 9) && (r.len() == 9 || (r.len() == 12 && r[9] == 'M' && r[10]
        == 'V' && r[11] == 'A'))
}

pub fn no_rest_ok(r: &Vec<char>) -> (b: bool)
    ensures
        b == no_rest_syntax(r@),
{
    let n = r.len();
    if n < 9 || !digits_in(r, 0, 9) {
        false
    } else {
        n == 9 || (n == 12 && r[9] == 'M' && r[10] == 'V' && r[11] == 'A')
    }
}

} // verus!
