//! Zeroing a 2x4 grid of signed integers by visiting rows, then columns.

use vstd::prelude::*;

verus! {

/// A fixed-size two-dimensional grid: 2 rows of 4 signed 32-bit integers.
pub struct BI {
    pub i: [[i32; 4]; 2],
}

/// Overwrites every element of the grid with zero, visiting rows in order
/// and, within each row, columns in order.
pub fn ff(w: &mut BI)
    ensures
        forall|r: int, c: int| 0 <= r < 2 && 0 <= c < 4 ==> #[trigger] final(w).i[r][c] == 0,
{
    let mut row: usize = 0;
    while row < 2
        invariant
            row <= 2,
            forall|r: int, c: int| 0 <= r < row && 0 <= c < 4 ==> #[trigger] w.i[r][c] == 0,
        decreases 2 - row,
    {
        let mut col: usize = 0;
        while col < 4
            invariant
                row < 2,
                col <= 4,
                forall|r: int, c: int| 0 <= r < row && 0 <= c < 4 ==> #[trigger] w.i[r][c] == 0,
                forall|c: int| 0 <= c < col ==> #[trigger] w.i[row as int][c] == 0,
            decreases 4 - col,
        {
            w.i[row][col] = 0;
            col = col + 1;
        }
        row = row + 1;
    }
}

/// Builds a zero-initialized grid, zeroes it, and reads back one in-bounds
/// element, which is zero.
pub fn f(_arg: ()) {
    let mut x = BI { i: [[0i32; 4]; 2] };
    ff(&mut x);
    let v: i32 = x.i[1][3];
    assert(v == 0);
}

/// Runs the grid fixture once on its fixed (unit) argument.
pub fn crux_test() {
    f(())
}

} // verus!
