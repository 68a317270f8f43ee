//! A verified tic-tac-toe core: the 3x3 board, win and draw detection, the
//! threat scan behind the computer opponent's one-ply block, the opponent's
//! difficulty tiers, and the turn state machine. Every move either changes
//! exactly one cell or changes nothing; the computer never picks a taken
//! cell, whatever its random draws come to.

pub mod board;
pub mod win;
pub mod threat;
mod rng;
pub mod ai;
pub mod game;
