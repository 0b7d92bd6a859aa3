//! A verified two-player tic-tac-toe engine: a 3x3 board, move validation,
//! win and draw detection, turn tracking, and a cross-round win/loss/draw
//! record.

pub mod board;
pub mod game;
pub mod player;

pub use board::Board;
pub use board::Position;
pub use game::GameState;
pub use game::MoveOutcome;
pub use game::Record;
pub use player::Player;
