//! The rules of a game of chess played on a terminal: positions, pieces, the board, move
//! validation, and the state of a playing session.
use vstd::prelude::*;

pub mod board;
pub mod display;
pub mod game;
pub mod piece;
pub mod position;
pub mod preferences;
pub mod session;

pub use board::Board;
pub use game::{GameState, MoveError};
pub use piece::{Color, Piece, PieceKind, Square};
pub use position::Position;
pub use preferences::{parse_flag, prefers_unicode_symbols};
pub use session::{App, Key};

verus! {

} // verus!
