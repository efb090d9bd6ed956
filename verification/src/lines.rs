//! The eight winning lines: three rows, three columns, two diagonals.

use vstd::prelude::*;

verus! {

/// The winning lines, in the order in which they are examined.
pub const WIN_CONDITIONS: [[usize; 3]; 8] = [
    [0, 1, 2],
    [3, 4, 5],
    [6, 7, 8],
    [0, 3, 6],
    [1, 4, 7],
    [2, 5, 8],
    [0, 4, 8],
    [2, 4, 6],
];

/// The three cells of line `k`, for `0 <= k < 8`.
pub open spec fn spec_line(k: int) -> (int, int, int) {
    if k == 0 {
        (0, 1, 2)
    } else if k == 1 {
        (3, 4, 5)
    } else if k == 2 {
        (6, 7, 8)
    } else if k == 3 {
        (0, 3, 6)
    } else if k == 4 {
        (1, 4, 7)
    } else if k == 5 {
        (2, 5, 8)
    } else if k == 6 {
        (0, 4, 8)
    } else {
        (2, 4, 6)
    }
}

/// Line `k` as it is stored.
pub fn win_line(k: usize) -> (r: [usize; 3])
    requires
        k < 8,
    ensures
        r[0] == spec_line(k as int).0,
        r[1] == spec_line(k as int).1,
        r[2] == spec_line(k as int).2,
{
    WIN_CONDITIONS[k]
}

} // verus!
