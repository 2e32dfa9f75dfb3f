//! The state of one game on screen: the board as last known, optimistic
//! updates made by the player's moves, and their reconciliation with what the
//! server answers.
use vstd::prelude::*;

use crate::api::{FetchError, GameState, GameStatus};
use crate::board::{grid_view, in_bounds, set_cell, with_cell};
use crate::board_value::{display_text, BoardValue};
use crate::game_id::GameId;
use crate::interaction::{
    classification, classify, optimistic, BoardCellInteract, CellInteract,
};

verus! {

/// A change to the cells of a board: a whole board as the server sent it, or
/// one cell.
#[derive(Clone, Debug, PartialEq, Eq)]
pub enum CellUpdate {
    All { cells: Vec<Vec<BoardValue>> },
    Single { row: usize, column: usize, value: BoardValue },
}

/// The board after an update: the update's board for `All`, the board with the
/// one cell set for `Single` (unchanged where that cell does not exist).
pub open spec fn updated_grid(g: Seq<Seq<BoardValue>>, u: CellUpdate) -> Seq<Seq<BoardValue>> {
    match u {
        CellUpdate::All { cells } => grid_view(&cells),
        CellUpdate::Single { row, column, value } => with_cell(g, row as int, column as int, value),
    }
}

/// The value that an update gives the cell at (`row`, `column`), if the update
/// covers that cell.
pub open spec fn update_value_at(u: CellUpdate, row: int, column: int) -> Option<BoardValue> {
    match u {
        CellUpdate::All { cells } => if in_bounds(grid_view(&cells), row, column) {
            Some(grid_view(&cells)[row][column])
        } else {
            None
        },
        CellUpdate::Single { row: r, column: c, value } => if r == row && c == column {
            Some(value)
        } else {
            None
        },
    }
}

impl CellUpdate {
    /// The value that this update gives the cell at (`row`, `column`), or
    /// `None` where the update does not cover that cell.
    pub fn value_at(&self, row: usize, column: usize) -> (r: Option<BoardValue>)
        ensures
            r == update_value_at(*self, row as int, column as int),
    {
        match self {
            CellUpdate::All { cells } => {
                if row < cells.len() && column < cells[row].len() {
                    Some(cells[row][column])
                } else {
                    None
                }
            },
            CellUpdate::Single { row: r, column: c, value } => {
                if *r == row && *c == column {
                    Some(*value)
                } else {
                    None
                }
            },
        }
    }
}

/// What a game session holds: the game's id, its board as last known, and its
/// status as last reported by the server.
pub struct SessionView {
    pub id: GameId,
    pub board: Seq<Seq<BoardValue>>,
    pub status: GameStatus,
}

/// One game on screen. Its board starts empty and its status `Open`; the
/// player's moves change single cells at once, and the server's answers
/// replace the board and the status.
pub struct GameSession {
    id: GameId,
    board: Vec<Vec<BoardValue>>,
    status: GameStatus,
}

impl View for GameSession {
    type V = SessionView;

    closed spec fn view(&self) -> SessionView {
        SessionView { id: self.id, board: grid_view(&self.board), status: self.status }
    }
}

impl GameSession {
    /// A session for the game `id`, before anything is known of it.
    pub fn new(id: GameId) -> (r: GameSession)
        ensures
            r@ == (SessionView { id, board: Seq::empty(), status: GameStatus::Open }),
    {
        let r = GameSession { id, board: Vec::new(), status: GameStatus::Open };
        assert(r@.board =~= Seq::<Seq<BoardValue>>::empty());
        r
    }

    pub fn id(&self) -> (r: GameId)
        ensures
            r == self@.id,
    {
        self.id
    }

    pub fn status(&self) -> (r: GameStatus)
        ensures
            r == self@.status,
    {
        self.status
    }

    pub fn board(&self) -> (r: &Vec<Vec<BoardValue>>)
        ensures
            grid_view(r) == self@.board,
    {
        &self.board
    }

    /// The value shown at (`row`, `column`), or `None` where the board has no
    /// such cell.
    pub fn cell(&self, row: usize, column: usize) -> (r: Option<BoardValue>)
        ensures
            r == (if in_bounds(self@.board, row as int, column as int) {
                Some(self@.board[row as int][column as int])
            } else {
                None
            }),
    {
        if row < self.board.len() && column < self.board[row].len() {
            Some(self.board[row][column])
        } else {
            None
        }
    }

    /// The text shown at (`row`, `column`), or `None` where the board has no
    /// such cell.
    pub fn cell_text(&self, row: usize, column: usize) -> (r: Option<String>)
        ensures
            match r {
                Some(t) => in_bounds(self@.board, row as int, column as int) && t@ == display_text(
                    self@.board[row as int][column as int],
                ),
                None => !in_bounds(self@.board, row as int, column as int),
            },
    {
        match self.cell(row, column) {
            Some(v) => Some(v.to_display_text()),
            None => None,
        }
    }

    /// The optimistic step of a move: the cell it names shows at once the
    /// value known without the server. No other cell changes; nothing changes
    /// where the board has no such cell.
    pub fn apply_local_interaction(&mut self, interaction: &CellInteract)
        ensures
            final(self)@ == (SessionView {
                board: with_cell(
                    old(self)@.board,
                    interaction.row as int,
                    interaction.column as int,
                    optimistic(interaction.kind),
                ),
                ..old(self)@
            }),
    {
        let value = interaction.kind.optimistic_value();
        set_cell(&mut self.board, interaction.row, interaction.column, value);
    }

    /// A click on the cell at (`row`, `column`): classifies it against the
    /// value the cell shows, applies the optimistic step, and returns the
    /// interaction to send to the server. `None`, with nothing changed, where
    /// the board has no such cell.
    pub fn interact(&mut self, row: usize, column: usize, input: BoardCellInteract) -> (r: Option<
        CellInteract,
    >)
        ensures
            in_bounds(old(self)@.board, row as int, column as int) ==> {
                let kind = classification(old(self)@.board[row as int][column as int], input);
                &&& r == Some(CellInteract { row, column, kind })
                &&& final(self)@ == (SessionView {
                    board: with_cell(old(self)@.board, row as int, column as int, optimistic(kind)),
                    ..old(self)@
                })
            },
            !in_bounds(old(self)@.board, row as int, column as int) ==> r is None && final(self)@
                == old(self)@,
    {
        match self.cell(row, column) {
            Some(current) => {
                let kind = classify(current, input);
                let interaction = CellInteract { row, column, kind };
                self.apply_local_interaction(&interaction);
                Some(interaction)
            },
            None => None,
        }
    }

    /// Applies a change to the cells: `All` replaces the whole board, `Single`
    /// sets the one cell it names and no other.
    pub fn apply_cell_update(&mut self, update: CellUpdate)
        ensures
            final(self)@ == (SessionView {
                board: updated_grid(old(self)@.board, update),
                ..old(self)@
            }),
    {
        match update {
            CellUpdate::All { cells } => {
                self.board = cells;
            },
            CellUpdate::Single { row, column, value } => {
                set_cell(&mut self.board, row, column, value);
            },
        }
    }

    /// Reconciles the session with the server's answer to a request. A game
    /// replaces the board wholesale, optimistic values included, and sets the
    /// status; the new status is returned only where it differs from the one
    /// before. An error changes nothing: optimistic values stay as they are.
    pub fn apply_server_response(&mut self, response: Result<GameState, FetchError>) -> (r: Option<
        GameStatus,
    >)
        ensures
            match response {
                Ok(state) => {
                    &&& final(self)@ == (SessionView {
                        board: grid_view(&state.board),
                        status: state.status,
                        ..old(self)@
                    })
                    &&& r == (if state.status != old(self)@.status {
                        Some(state.status)
                    } else {
                        None
                    })
                },
                Err(_) => final(self)@ == old(self)@ && r is None,
            },
    {
        match response {
            Ok(state) => {
                self.board = state.board;
                if self.status == state.status {
                    None
                } else {
                    self.status = state.status;
                    Some(state.status)
                }
            },
            Err(_) => None,
        }
    }
}

/// An optimistic update of one cell leaves the value, and so the text, of every
/// other cell as it was.
pub proof fn lemma_optimistic_update_is_local(
    board: Seq<Seq<BoardValue>>,
    interaction: CellInteract,
    row: int,
    column: int,
)
    requires
        in_bounds(board, row, column),
        (row, column) != (interaction.row as int, interaction.column as int),
    ensures
        ({
            let after = with_cell(
                board,
                interaction.row as int,
                interaction.column as int,
                optimistic(interaction.kind),
            );
            &&& in_bounds(after, row, column)
            &&& after[row][column] == board[row][column]
            &&& display_text(after[row][column]) == display_text(board[row][column])
        }),
{
}

} // verus!
