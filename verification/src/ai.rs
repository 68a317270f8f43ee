//! The computer opponent: difficulty tiers over random choice with an
//! optional one-ply block of the opposing marker's imminent win.

use vstd::prelude::*;
use crate::board::{Board, Cell, Marker};
use crate::win::has_open;
use crate::threat::{check_for_winning_next_move, completes_line, has_threat};
use crate::rng::rand_below;

verus! {

/// The strength tiers of the computer opponent, weakest first. Only Easy and
/// Medium have distinct behaviour; Advanced and Expert are extension points
/// that fall back to Easy for now.
#[derive(Clone, Copy, PartialEq, Eq, Structural, Debug)]
pub enum CpuDifficulty {
    Easy,
    Medium,
    Advanced,
    Expert,
}

/// A computer player: its difficulty tier and the marker it plays.
#[derive(Clone, Copy, PartialEq, Eq, Structural, Debug)]
pub struct CpuPlayer {
    pub difficulty: CpuDifficulty,
    pub marker: Marker,
}

impl CpuPlayer {
    pub fn new(difficulty: CpuDifficulty, marker: Marker) -> (p: CpuPlayer)
        ensures
            p.difficulty == difficulty,
            p.marker == marker,
    {
        CpuPlayer { difficulty, marker }
    }

    /// Picks the computer's cell as a 1-based selection. Whatever the tier
    /// and whatever the random draws, the selected cell is open.
    pub fn get_move(&self, board: &Board) -> (r: usize)
        requires
            has_open(board@),
        ensures
            1 <= r <= 9,
            board@[r - 1] == Cell::Empty,
    {
        match self.difficulty {
            CpuDifficulty::Easy => self.easy_move(board),
            CpuDifficulty::Medium => self.medium_move(board),
            CpuDifficulty::Advanced => self.easy_move(board),
            CpuDifficulty::Expert => self.easy_move(board),
        }
    }

    /// A uniformly random open cell; with a single open cell left there is
    /// nothing to draw and it is chosen outright.
    fn easy_move(&self, board: &Board) -> (r: usize)
        requires
            has_open(board@),
        ensures
            1 <= r <= 9,
            board@[r - 1] == Cell::Empty,
    {
        let open = board.open_cells();
        proof {
            let w = choose|i: int| 0 <= i < 9 && board@[i] == Cell::Empty;
            assert(open@.contains(w as usize));
        }
        let k: usize = if open.len() == 1 {
            0
        } else {
            rand_below(open.len())
        };
        let c = open[k];
        c + 1
    }

    /// Draws the percent roll, then decides as `medium_select` says.
    fn medium_move(&self, board: &Board) -> (r: usize)
        requires
            has_open(board@),
        ensures
            1 <= r <= 9,
            board@[r - 1] == Cell::Empty,
    {
        let roll = rand_below(100);
        self.medium_select(board, roll)
    }

    /// The Medium decision for a given percent roll. Rolls of 10 and above
    /// (nine in ten) look for an imminent win by the opposing marker and
    /// block it when one exists; the remaining rolls, or a board without a
    /// threat, fall back to a random open cell.
    pub fn medium_select(&self, board: &Board, roll: usize) -> (r: usize)
        requires
            has_open(board@),
            roll < 100,
        ensures
            1 <= r <= 9,
            board@[r - 1] == Cell::Empty,
            roll >= 10 && has_threat(board@, self.marker.other_spec()) ==> completes_line(
                board@,
                self.marker.other_spec(),
                r - 1,
            ),
    {
        if roll >= 10 {
            let opponent = self.marker.other();
            match check_for_winning_next_move(board, opponent) {
                Some(p) => {
                    proof {
                        let l = choose|l: int|
                            0 <= l < 8 && crate::threat::threat_cell(board@, opponent, l, p as int);
                        assert(board@[p as int] == Cell::Empty);
                    }
                    p + 1
                },
                None => self.easy_move(board),
            }
        } else {
            self.easy_move(board)
        }
    }
}

} // verus!
