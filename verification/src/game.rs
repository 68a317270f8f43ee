//! The turn state machine: slots, control modes, move validation, the single
//! mutation a valid turn makes, and the hand-over to the next slot.

use vstd::prelude::*;
use crate::ai::{CpuDifficulty, CpuPlayer};
use crate::board::{Board, Cell, Marker};
use crate::rng::rand_below;
use crate::win::{game_status, update_game_status, GameResult};

verus! {

/// The two fixed player slots.
#[derive(Clone, Copy, PartialEq, Eq, Structural, Debug)]
pub enum Player {
    PlayerOne,
    PlayerTwo,
}

/// How a slot is controlled.
#[derive(Clone, Copy, PartialEq, Eq, Structural, Debug)]
pub enum PlayerType {
    Human,
    Computer,
}

/// The marker each slot plays for the whole game: PlayerOne X, PlayerTwo O.
pub open spec fn marker_of_spec(p: Player) -> Marker {
    match p {
        Player::PlayerOne => Marker::X,
        Player::PlayerTwo => Marker::O,
    }
}

#[verifier::when_used_as_spec(marker_of_spec)]
pub fn marker_of(p: Player) -> (m: Marker)
    ensures
        m == marker_of_spec(p),
{
    match p {
        Player::PlayerOne => Marker::X,
        Player::PlayerTwo => Marker::O,
    }
}

/// The slot that moves after `p`.
pub open spec fn other_player_spec(p: Player) -> Player {
    match p {
        Player::PlayerOne => Player::PlayerTwo,
        Player::PlayerTwo => Player::PlayerOne,
    }
}

#[verifier::when_used_as_spec(other_player_spec)]
pub fn other_player(p: Player) -> (q: Player)
    ensures
        q == other_player_spec(p),
{
    match p {
        Player::PlayerOne => Player::PlayerTwo,
        Player::PlayerTwo => Player::PlayerOne,
    }
}

/// A whole game: the grid, whose turn it is, how each slot is controlled,
/// the computer player, and the result so far. While `result` is
/// `InProgress` the machine awaits a move by `current_player`; any other
/// value is terminal.
#[derive(Clone, Copy, PartialEq, Eq, Debug)]
pub struct GameState {
    pub board: Board,
    pub current_player: Player,
    pub player_one_type: PlayerType,
    pub player_two_type: PlayerType,
    pub cpu_player: CpuPlayer,
    pub result: GameResult,
}

impl GameState {
    /// A fresh game: empty board, PlayerOne to move, in progress.
    pub fn new(player_one_type: PlayerType, player_two_type: PlayerType, cpu_player: CpuPlayer) -> (s:
        GameState)
        ensures
            forall|i: int| 0 <= i < 9 ==> s.board@[i] == Cell::Empty,
            s.current_player == Player::PlayerOne,
            s.player_one_type == player_one_type,
            s.player_two_type == player_two_type,
            s.cpu_player == cpu_player,
            s.result == GameResult::InProgress,
    {
        GameState {
            board: Board::new(),
            current_player: Player::PlayerOne,
            player_one_type,
            player_two_type,
            cpu_player,
            result: GameResult::InProgress,
        }
    }

    /// One attempted turn with a 1-based selection. A selection outside 1..=9
    /// or aimed at a taken cell is refused and changes nothing, so the same
    /// slot is asked again. A valid one mutates exactly that one cell from
    /// empty to the mover's marker, re-evaluates the board, and passes the
    /// turn unless the move ended the game.
    pub fn apply_selection(&mut self, selection: usize) -> (accepted: bool)
        requires
            old(self).result == GameResult::InProgress,
        ensures
            !accepted ==> *final(self) == *old(self),
            !accepted ==> !(1 <= selection <= 9 && old(self).board@[selection - 1] == Cell::Empty),
            accepted ==> 1 <= selection <= 9 && old(self).board@[selection - 1] == Cell::Empty,
            accepted ==> final(self).board@ == old(self).board@.update(
                selection - 1,
                Cell::Mark(marker_of_spec(old(self).current_player)),
            ),
            accepted ==> final(self).result == game_status(final(self).board@),
            accepted && final(self).result == GameResult::InProgress ==> final(self).current_player
                == other_player_spec(old(self).current_player),
            accepted && final(self).result != GameResult::InProgress ==> final(self).current_player
                == old(self).current_player,
            final(self).player_one_type == old(self).player_one_type,
            final(self).player_two_type == old(self).player_two_type,
            final(self).cpu_player == old(self).cpu_player,
    {
        if selection < 1 || selection > 9 {
            return false;
        }
        let idx = selection - 1;
        if self.board.is_occupied(idx) {
            return false;
        }
        let m = marker_of(self.current_player);
        let _ = self.board.occupy(idx, m);
        self.result = update_game_status(&self.board);
        if matches!(self.result, GameResult::InProgress) {
            self.current_player = other_player(self.current_player);
        }
        true
    }
}

/// Draws the 50/50 coin and assigns who moves first: either the computer
/// takes PlayerOne and plays X, or the human does and the computer keeps its
/// marker. Board, turn and result are untouched either way.
pub fn determine_first_player(state: &mut GameState)
    ensures
        final(state).board == old(state).board,
        final(state).current_player == old(state).current_player,
        final(state).result == old(state).result,
        (final(state).player_one_type == PlayerType::Computer && final(state).player_two_type
            == PlayerType::Human && final(state).cpu_player == (CpuPlayer {
            difficulty: CpuDifficulty::Medium,
            marker: Marker::X,
        })) || (final(state).player_one_type == PlayerType::Human && final(state).player_two_type
            == PlayerType::Computer && final(state).cpu_player == old(state).cpu_player),
{
    let roll = rand_below(100);
    assign_first_player(state, roll);
}

/// The deterministic half of the coin toss: rolls below 50 hand the first
/// move to the computer, which then plays X at Medium strength; the rest
/// leave the human first and the computer as it was.
pub fn assign_first_player(state: &mut GameState, roll: usize)
    requires
        roll < 100,
    ensures
        roll < 50 ==> final(state).player_one_type == PlayerType::Computer
            && final(state).player_two_type == PlayerType::Human && final(state).cpu_player
            == (CpuPlayer { difficulty: CpuDifficulty::Medium, marker: Marker::X }),
        roll >= 50 ==> final(state).player_one_type == PlayerType::Human
            && final(state).player_two_type == PlayerType::Computer && final(state).cpu_player
            == old(state).cpu_player,
        final(state).board == old(state).board,
        final(state).current_player == old(state).current_player,
        final(state).result == old(state).result,
{
    if roll < 50 {
        state.player_one_type = PlayerType::Computer;
        state.player_two_type = PlayerType::Human;
        state.cpu_player = CpuPlayer::new(CpuDifficulty::Medium, Marker::X);
    } else {
        state.player_one_type = PlayerType::Human;
        state.player_two_type = PlayerType::Computer;
    }
}

/// The end-of-game line for a terminal result.
pub fn game_over_message(result: GameResult) -> (msg: &'static str)
    requires
        result != GameResult::InProgress,
    ensures
        result == GameResult::WinByPlayerOne ==> msg@ == "Player 1 wins!"@,
        result == GameResult::WinByPlayerTwo ==> msg@ == "Player 2 wins!"@,
        result == GameResult::Draw ==> msg@ == "The game was a draw!"@,
{
    match result {
        GameResult::WinByPlayerOne => "Player 1 wins!",
        GameResult::WinByPlayerTwo => "Player 2 wins!",
        GameResult::Draw => "The game was a draw!",
        GameResult::InProgress => unreached(),
    }
}

} // verus!
