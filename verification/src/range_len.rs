//! Sub-ranging a 4-element byte array from index 1 and checking the length
//! of the resulting view.

use vstd::prelude::*;
use vstd::slice::slice_subrange;

verus! {

/// Fills a 4-element byte array with `x`, takes the sub-range view from
/// index 1 through the end, checks that its length is exactly 3, and
/// returns the constant 1.
pub fn f(x: u8) -> (r: u8)
    ensures
        r == 1,
{
    let xs: [u8; 4] = [x; 4];
    let s: &[u8] = xs.as_slice();
    let ys: &[u8] = slice_subrange(s, 1, 4);
    assert(ys@.len() == 3);
    1
}

} // verus!
