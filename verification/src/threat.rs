//! Threat scanning: find a cell that would let a marker win on its next move,
//! so the computer can occupy it first.

use vstd::prelude::*;
use crate::board::{Board, Cell, Marker};
use crate::win::line;
use crate::win::line_cells;

verus! {

/// Cell `c` is open, and giving it to marker `m` would complete line `l`:
/// `m` already holds the other two cells of that line.
pub open spec fn threat_cell(b: Seq<Cell>, m: Marker, l: int, c: int) -> bool {
    b[c] == Cell::Empty && ((c == line(l).0 && b[line(l).1] == Cell::Mark(m) && b[line(l).2]
        == Cell::Mark(m)) || (c == line(l).1 && b[line(l).0] == Cell::Mark(m) && b[line(l).2]
        == Cell::Mark(m)) || (c == line(l).2 && b[line(l).0] == Cell::Mark(m) && b[line(l).1]
        == Cell::Mark(m)))
}

/// Cell `c` is open and completes some winning line for marker `m`.
pub open spec fn completes_line(b: Seq<Cell>, m: Marker, c: int) -> bool {
    exists|l: int| 0 <= l < 8 && threat_cell(b, m, l, c)
}

/// Some open cell would complete a winning line for marker `m`.
pub open spec fn has_threat(b: Seq<Cell>, m: Marker) -> bool {
    exists|c: int| #[trigger] completes_line(b, m, c)
}

/// Scans the eight winning lines for a cell where `marker` could win at once.
/// Returns such a cell (0-based) exactly when one exists; which of several
/// candidates comes back is not fixed, but it is always open and always
/// completes a line for `marker`.
/// Looks at one winning line: returns the open cell that would complete it
/// for `marker`, if the other two cells already hold `marker`.
fn scan_line(b: &Board, marker: Marker, l: usize) -> (r: Option<usize>)
    requires
        l < 8,
    ensures
        match r {
            Some(c) => c < 9 && threat_cell(b@, marker, l as int, c as int),
            None => forall|c: int| !threat_cell(b@, marker, l as int, c),
        },
{
    let mk = Cell::Mark(marker);
    let (x, y, z) = line_cells(l);
    let cx = b.get(x);
    let cy = b.get(y);
    let cz = b.get(z);
    if cx == Cell::Empty && cy == mk && cz == mk {
        Some(x)
    } else if cy == Cell::Empty && cx == mk && cz == mk {
        Some(y)
    } else if cz == Cell::Empty && cx == mk && cy == mk {
        Some(z)
    } else {
        proof {
            assert forall|c: int| !threat_cell(b@, marker, l as int, c) by {
                assert(line(l as int).0 == x as int);
                assert(line(l as int).1 == y as int);
                assert(line(l as int).2 == z as int);
            }
        }
        None
    }
}

pub fn check_for_winning_next_move(b: &Board, marker: Marker) -> (r: Option<usize>)
    ensures
        match r {
            Some(c) => c < 9 && completes_line(b@, marker, c as int),
            None => !has_threat(b@, marker),
        },
{
    let mut l: usize = 0;
    while l < 8
        invariant
            l <= 8,
            forall|ll: int, c: int| 0 <= ll < l ==> !threat_cell(b@, marker, ll, c),
        decreases 8 - l,
    {
        match scan_line(b, marker, l) {
            Some(c) => {
                proof {
                    assert(threat_cell(b@, marker, l as int, c as int));
                    assert(completes_line(b@, marker, c as int));
                }
                return Some(c);
            },
            None => {},
        }
        l += 1;
    }
    proof {
        assert forall|c: int| !completes_line(b@, marker, c) by {
            assert forall|ll: int| !(0 <= ll < 8 && threat_cell(b@, marker, ll, c)) by {
                if 0 <= ll < 8 {
                    assert(!threat_cell(b@, marker, ll, c));
                }
            }
        }
    }
    None
}

/// When marker `m` holds exactly two cells of winning line `l` and the third,
/// `c`, is open, then `c` completes a line for `m` and the board holds a
/// threat, so the scan above returns some blocking cell.
pub proof fn lemma_threat_found(b: Seq<Cell>, m: Marker, l: int, c: int)
    requires
        0 <= l < 8,
        threat_cell(b, m, l, c),
    ensures
        completes_line(b, m, c),
        has_threat(b, m),
{
    assert(completes_line(b, m, c));
}

} // verus!
