//! The 3x3 grid: cells, markers, and the single-cell mutation that a turn makes.

use vstd::prelude::*;

verus! {

/// One of the two player markers.
#[derive(Clone, Copy, PartialEq, Eq, Structural, Debug)]
pub enum Marker {
    X,
    O,
}

impl Marker {
    /// The opposing marker: X and O swap.
    pub open spec fn other_spec(self) -> Marker {
        match self {
            Marker::X => Marker::O,
            Marker::O => Marker::X,
        }
    }

    /// Total on the two-element marker set, so no unexpected input can arise.
    #[verifier::when_used_as_spec(other_spec)]
    pub fn other(self) -> (m: Marker)
        ensures
            m == self.other_spec(),
    {
        match self {
            Marker::X => Marker::O,
            Marker::O => Marker::X,
        }
    }
}

/// One grid cell: empty, or taken by a marker. No other state exists.
#[derive(Clone, Copy, PartialEq, Eq, Structural, Debug)]
pub enum Cell {
    Empty,
    Mark(Marker),
}

/// Why a requested mutation was refused.
#[derive(Clone, Copy, PartialEq, Eq, Structural, Debug)]
pub enum InvalidMove {
    /// The index was not in the range 0..=8.
    OutOfRange,
    /// The cell already holds a marker.
    Occupied,
}

/// The grid, stored row-major: indices 0-2 top row, 3-5 middle, 6-8 bottom.
#[derive(Clone, Copy, PartialEq, Eq, Debug)]
pub struct Board {
    pub cells: [Cell; 9],
}

impl View for Board {
    type V = Seq<Cell>;

    open spec fn view(&self) -> Seq<Cell> {
        self.cells@
    }
}

impl Board {
    /// A fresh board with all nine cells empty.
    pub fn new() -> (b: Board)
        ensures
            b@.len() == 9,
            forall|i: int| 0 <= i < 9 ==> b@[i] == Cell::Empty,
    {
        Board { cells: [Cell::Empty; 9] }
    }

    /// The cell at a 0-based index.
    pub fn get(&self, cell: usize) -> (c: Cell)
        requires
            cell < 9,
        ensures
            c == self@[cell as int],
    {
        self.cells[cell]
    }

    /// Whether the cell at a 0-based index holds a marker.
    pub fn is_occupied(&self, cell: usize) -> (r: bool)
        requires
            cell < 9,
        ensures
            r == (self@[cell as int] != Cell::Empty),
    {
        match self.cells[cell] {
            Cell::Empty => false,
            Cell::Mark(_) => true,
        }
    }

    /// Places `marker` on an open cell; refuses an out-of-range index or a
    /// taken cell, leaving the board unchanged. At most this one cell changes.
    pub fn occupy(&mut self, cell: usize, marker: Marker) -> (r: Result<(), InvalidMove>)
        ensures
            cell >= 9 ==> r == Err::<(), InvalidMove>(InvalidMove::OutOfRange) && *final(self)
                == *old(self),
            cell < 9 && old(self)@[cell as int] != Cell::Empty ==> r == Err::<(), InvalidMove>(
                InvalidMove::Occupied,
            ) && *final(self) == *old(self),
            cell < 9 && old(self)@[cell as int] == Cell::Empty ==> r == Ok::<(), InvalidMove>(())
                && final(self)@ == old(self)@.update(cell as int, Cell::Mark(marker)),
    {
        if cell >= 9 {
            return Err(InvalidMove::OutOfRange);
        }
        if self.is_occupied(cell) {
            return Err(InvalidMove::Occupied);
        }
        self.cells[cell] = Cell::Mark(marker);
        Ok(())
    }

    /// The open (empty) cell indices, in ascending order, exactly once each.
    pub fn open_cells(&self) -> (r: Vec<usize>)
        ensures
            forall|j: int|
                0 <= j < r@.len() ==> r@[j] < 9 && self@[r@[j] as int] == Cell::Empty,
            forall|c: int| 0 <= c < 9 && self@[c] == Cell::Empty ==> r@.contains(c as usize),
            forall|j: int, k: int| 0 <= j < k < r@.len() ==> r@[j] < r@[k],
    {
        let mut r: Vec<usize> = Vec::new();
        let mut i: usize = 0;
        while i < 9
            invariant
                i <= 9,
                forall|j: int|
                    0 <= j < r@.len() ==> r@[j] < i && self@[r@[j] as int] == Cell::Empty,
                forall|c: int| 0 <= c < i && self@[c] == Cell::Empty ==> r@.contains(c as usize),
                forall|j: int, k: int| 0 <= j < k < r@.len() ==> r@[j] < r@[k],
            decreases 9 - i,
        {
            let occupied = self.is_occupied(i);
            if !occupied {
                let ghost prev = r@;
                r.push(i);
                proof {
                    assert(r@ == prev.push(i));
                    assert(r@[r@.len() - 1] == i);
                    assert forall|c: int| 0 <= c < i + 1 && self@[c] == Cell::Empty implies r@
                        .contains(c as usize) by {
                        if c < i {
                            let j = choose|j: int| 0 <= j < prev.len() && prev[j] == c as usize;
                            assert(r@[j] == c as usize);
                        } else {
                            assert(r@[r@.len() - 1] == c as usize);
                        }
                    }
                }
            }
            i += 1;
        }
        r
    }
}

} // verus!
