//! Client-side model of a remote minesweeper game: cell values and their text,
//! the classification of clicks, and the reconciliation of optimistic cell
//! updates with board snapshots sent by the game server.
use vstd::prelude::*;

pub mod api;
pub mod board;
pub mod board_value;
pub mod game_id;
pub mod home;
pub mod interaction;
pub mod route;
pub mod screens;
pub mod session;
pub mod text;

pub use api::{
    FetchError, GameCreateInput, GameCreated, GameMoveInput, GameMoveType, GameState, GameStatus,
};
pub use board_value::{BoardValue, BoardValueConvertError};
pub use game_id::GameId;
pub use interaction::{classify, BoardCellInteract, CellInteract, CellInteractKind};
pub use route::Route;
pub use session::{CellUpdate, GameSession};

verus! {

} // verus!
