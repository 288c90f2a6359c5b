//! Syntax of United Kingdom VAT numbers (also used for Northern Ireland's `XI` numbers).
use vstd::prelude::*;
use crate::text::{digits, digits_in};

verus! {

/// The part after the two-letter prefix: nine or twelve digits, or a government
/// department (`GD`) or health authority (`HA`) code followed by three digits.
pub open spec fn gb_rest_syntax(r: Seq<char>) -> bool {
    (r.len() == 9 && digits(r, 0, 9)) || (r.len() == 12 && digits(r, 0, 12)) || (r.len() == 5
        && ((r[0] == 'H' && r[1] == 'A') || (r[0] == 'G' && r[1] == 'D')) && digits(r, 2, 5))
}

pub fn gb_rest_ok(r: &Vec<char>) -> (b: bool)
    ensures
        b == gb_rest_syntax(r@),
{
    let n = r.len();
    if n == 9 || n == 12 {
        digits_in(r, 0, n)
    } else if n == 5 {
        ((r[0] == 'H' && r[1] == 'A') || (r[0] == 'G' && r[1] == 'D')) && digits_in(r, 2, 5)
    } else {
        false
    }
}

} // verus!
