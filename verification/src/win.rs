//! Win detection: the eight winning lines, the game result, and its evaluation.

use vstd::prelude::*;
use crate::board::{Board, Cell, Marker};

verus! {

/// The outcome of evaluating a board. `InProgress` is the only non-terminal value.
#[derive(Clone, Copy, PartialEq, Eq, Structural, Debug)]
pub enum GameResult {
    WinByPlayerOne,
    WinByPlayerTwo,
    Draw,
    InProgress,
}

/// The 0-based cell indices of the `l`-th winning line: three rows, three
/// columns, then the two diagonals.
pub open spec fn line(l: int) -> (int, int, int) {
    if l == 0 {
        (0, 1, 2)
    } else if l == 1 {
        (3, 4, 5)
    } else if l == 2 {
        (6, 7, 8)
    } else if l == 3 {
        (0, 3, 6)
    } else if l == 4 {
        (1, 4, 7)
    } else if l == 5 {
        (2, 5, 8)
    } else if l == 6 {
        (0, 4, 8)
    } else {
        (2, 4, 6)
    }
}

/// Marker `m` holds every cell of line `l`.
pub open spec fn line_won(b: Seq<Cell>, m: Marker, l: int) -> bool {
    b[line(l).0] == Cell::Mark(m) && b[line(l).1] == Cell::Mark(m) && b[line(l).2] == Cell::Mark(m)
}

/// Marker `m` holds all three cells of some winning line.
pub open spec fn wins(b: Seq<Cell>, m: Marker) -> bool {
    exists|l: int| 0 <= l < 8 && line_won(b, m, l)
}

/// Every cell holds a marker.
pub open spec fn full(b: Seq<Cell>) -> bool {
    forall|i: int| 0 <= i < 9 ==> b[i] != Cell::Empty
}

/// Some cell is still empty.
pub open spec fn has_open(b: Seq<Cell>) -> bool {
    exists|i: int| 0 <= i < 9 && b[i] == Cell::Empty
}

/// The result a board evaluates to. X is checked before O, so if both markers
/// somehow held complete lines, X's win would be reported: a defensive rule
/// only, since play halts as soon as either marker wins.
pub open spec fn game_status(b: Seq<Cell>) -> GameResult {
    if wins(b, Marker::X) {
        GameResult::WinByPlayerOne
    } else if wins(b, Marker::O) {
        GameResult::WinByPlayerTwo
    } else if full(b) {
        GameResult::Draw
    } else {
        GameResult::InProgress
    }
}

/// The winning result for a marker: PlayerOne plays X, PlayerTwo plays O.
pub open spec fn win_result(m: Marker) -> GameResult {
    match m {
        Marker::X => GameResult::WinByPlayerOne,
        Marker::O => GameResult::WinByPlayerTwo,
    }
}

/// The cells of the `l`-th winning line, as executable values.
pub(crate) fn line_cells(l: usize) -> (r: (usize, usize, usize))
    requires
        l < 8,
    ensures
        r.0 < 9 && r.1 < 9 && r.2 < 9,
        r.0 as int == line(l as int).0,
        r.1 as int == line(l as int).1,
        r.2 as int == line(l as int).2,
{
    match l {
        0 => (0, 1, 2),
        1 => (3, 4, 5),
        2 => (6, 7, 8),
        3 => (0, 3, 6),
        4 => (1, 4, 7),
        5 => (2, 5, 8),
        6 => (0, 4, 8),
        _ => (2, 4, 6),
    }
}

/// Whether marker `m` holds all three cells of some winning line.
fn check_win(b: &Board, m: Marker) -> (r: bool)
    ensures
        r == wins(b@, m),
{
    let mut l: usize = 0;
    while l < 8
        invariant
            l <= 8,
            forall|ll: int| 0 <= ll < l ==> !line_won(b@, m, ll),
        decreases 8 - l,
    {
        let (x, y, z) = line_cells(l);
        if b.get(x) == Cell::Mark(m) && b.get(y) == Cell::Mark(m) && b.get(z) == Cell::Mark(m) {
            proof {
                assert(line_won(b@, m, l as int));
            }
            return true;
        }
        proof {
            assert(!line_won(b@, m, l as int));
        }
        l += 1;
    }
    false
}

/// Whether every cell holds a marker.
fn check_full(b: &Board) -> (r: bool)
    ensures
        r == full(b@),
{
    let mut i: usize = 0;
    while i < 9
        invariant
            i <= 9,
            forall|j: int| 0 <= j < i ==> b@[j] != Cell::Empty,
        decreases 9 - i,
    {
        if !b.is_occupied(i) {
            return false;
        }
        i += 1;
    }
    true
}

/// Whether any cell is still open, decided executably so that callers can
/// test it before asking the computer for a move.
pub fn has_open_cell(b: &Board) -> (r: bool)
    ensures
        r == has_open(b@),
{
    let open = b.open_cells();
    proof {
        if has_open(b@) {
            let w = choose|i: int| 0 <= i < 9 && b@[i] == Cell::Empty;
            assert(open@.contains(w as usize));
        }
        if open@.len() > 0 {
            assert(b@[open@[0] as int] == Cell::Empty);
        }
    }
    open.len() > 0
}

/// Evaluates the board: a win for either player, a draw once all nine cells
/// are taken, and otherwise a game still in progress.
pub fn update_game_status(b: &Board) -> (r: GameResult)
    ensures
        r == game_status(b@),
{
    if check_win(b, Marker::X) {
        GameResult::WinByPlayerOne
    } else if check_win(b, Marker::O) {
        GameResult::WinByPlayerTwo
    } else if check_full(b) {
        GameResult::Draw
    } else {
        GameResult::InProgress
    }
}

/// A board on which one marker has completed a line and the other has not
/// evaluates to that marker's win.
pub proof fn lemma_single_winner(b: Seq<Cell>, m: Marker)
    requires
        wins(b, m),
        !wins(b, m.other_spec()),
    ensures
        game_status(b) == win_result(m),
{
}

/// A board with every cell taken and no line completed by either marker
/// evaluates to a draw.
pub proof fn lemma_draw(b: Seq<Cell>)
    requires
        full(b),
        !wins(b, Marker::X),
        !wins(b, Marker::O),
    ensures
        game_status(b) == GameResult::Draw,
{
}

/// A board with an open cell and no line completed by either marker is still
/// in progress.
pub proof fn lemma_in_progress(b: Seq<Cell>)
    requires
        has_open(b),
        !wins(b, Marker::X),
        !wins(b, Marker::O),
    ensures
        game_status(b) == GameResult::InProgress,
{
    let i = choose|i: int| 0 <= i < 9 && b[i] == Cell::Empty;
    assert(!full(b));
}

} // verus!
