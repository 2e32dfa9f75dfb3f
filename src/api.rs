//! The data exchanged with the game server, and the decoding of what it
//! sends back.
use vstd::prelude::*;

use crate::board::{grid_view, is_rectangular};
use crate::board_value::{value_of_text, BoardValue};
use crate::game_id::{game_id_of_text, GameId};
use crate::interaction::{CellInteract, CellInteractKind};
use crate::text::same_text;

verus! {

/// Represents the kind of move being added to a game.
#[derive(Clone, Copy, Debug, PartialEq, Eq, Structural)]
pub enum GameMoveType {
    Flag,
    Open,
    RemoveFlag,
}

/// Represents the current state of a game.
#[derive(Clone, Copy, Debug, PartialEq, Eq, Structural)]
pub enum GameStatus {
    /// A game which is still playable; new moves will be applied.
    Open,
    /// A completed game in which all mines were avoided.
    Won,
    /// A completed game in which a mine was opened.
    Lost,
}

/// What can go wrong with a request to the game server.
#[derive(Clone, Copy, Debug, PartialEq, Eq, Structural)]
pub enum FetchError {
    /// The server answered 409: the move conflicts with the game (it is over).
    Conflict,
    /// The request could not be made, or the server answered with a failure.
    FetchError,
    /// The server answered 404: no such game.
    NotFound,
    /// The answer is not the data that was asked for.
    ParseError,
    RequestCreateError,
    RequestHeaderSetError,
    SerializeBodyError,
}

/// The body of a request that adds a move to an existing game.
#[derive(Clone, Copy, Debug, PartialEq, Eq, Structural)]
pub struct GameMoveInput {
    pub column: usize,
    pub row: usize,
    pub move_type: GameMoveType,
}

/// The body of a request that creates a new game.
#[derive(Clone, Copy, Debug, PartialEq, Eq, Structural)]
pub struct GameCreateInput {
    pub columns: usize,
    pub rows: usize,
}

/// A game as the server describes it.
///
/// Decoded from the wire by `GameState::from_wire`, its board is rectangular
/// and holds no `Pending` cell.
#[derive(Clone, Debug, PartialEq, Eq)]
pub struct GameState {
    pub id: GameId,
    pub board: Vec<Vec<BoardValue>>,
    pub status: GameStatus,
}

/// What the server answers when a game has been created.
#[derive(Clone, Copy, Debug, PartialEq, Eq, Structural)]
pub struct GameCreated {
    pub id: GameId,
}

/// The wire name of a move kind.
pub open spec fn move_type_text(t: GameMoveType) -> Seq<char> {
    match t {
        GameMoveType::Flag => "FLAG"@,
        GameMoveType::Open => "OPEN"@,
        GameMoveType::RemoveFlag => "REMOVE_FLAG"@,
    }
}

/// The wire name of a game status.
pub open spec fn status_text(s: GameStatus) -> Seq<char> {
    match s {
        GameStatus::Open => "OPEN"@,
        GameStatus::Won => "WON"@,
        GameStatus::Lost => "LOST"@,
    }
}

/// The banner shown for a game status.
pub open spec fn status_banner(s: GameStatus) -> Seq<char> {
    match s {
        GameStatus::Open => ""@,
        GameStatus::Won => "You did the thing! 🥳"@,
        GameStatus::Lost => "BOOM 💥"@,
    }
}

/// The game status that a wire name stands for.
pub open spec fn status_of_text(s: Seq<char>) -> Option<GameStatus> {
    if s == "OPEN"@ {
        Some(GameStatus::Open)
    } else if s == "WON"@ {
        Some(GameStatus::Won)
    } else if s == "LOST"@ {
        Some(GameStatus::Lost)
    } else {
        None
    }
}

/// The move kind that the server is asked for, for each kind of interaction.
pub open spec fn move_type_of(kind: CellInteractKind) -> GameMoveType {
    match kind {
        CellInteractKind::Flag => GameMoveType::Flag,
        CellInteractKind::RemoveFlag => GameMoveType::RemoveFlag,
        CellInteractKind::Open => GameMoveType::Open,
    }
}

/// The request body for an interaction.
pub open spec fn move_input_of(interaction: CellInteract) -> GameMoveInput {
    GameMoveInput {
        column: interaction.column,
        row: interaction.row,
        move_type: move_type_of(interaction.kind),
    }
}

/// The error that an HTTP status code stands for: none for 200 to 299,
/// `NotFound` for 404, `Conflict` for 409, and `FetchError` for any other.
pub open spec fn status_code_error(code: u16) -> Option<FetchError> {
    if 200 <= code && code <= 299 {
        None
    } else if code == 404 {
        Some(FetchError::NotFound)
    } else if code == 409 {
        Some(FetchError::Conflict)
    } else {
        Some(FetchError::FetchError)
    }
}

/// A cell as the server may send it: any cell code but the local-only
/// `Pending` placeholder.
pub open spec fn server_cell(s: Seq<char>) -> Option<BoardValue> {
    match value_of_text(s) {
        Ok(v) => if v == BoardValue::Pending {
            None
        } else {
            Some(v)
        },
        Err(_) => None,
    }
}

/// The text of each cell of a board, row by row.
pub open spec fn text_grid(board: &Vec<Vec<String>>) -> Seq<Seq<Seq<char>>> {
    board@.map_values(|row: Vec<String>| row@.map_values(|c: String| c@))
}

/// Every cell of the grid of codes is one the server may send.
pub open spec fn all_server_cells(rows: Seq<Seq<Seq<char>>>) -> bool {
    forall|i: int, j: int|
        0 <= i < rows.len() && 0 <= j < rows[i].len() ==> (#[trigger] server_cell(rows[i][j]))
            is Some
}

/// The board that a grid of cell codes from the server stands for: it must be
/// rectangular and each code must be one the server may send.
pub open spec fn board_of_text(rows: Seq<Seq<Seq<char>>>) -> Option<Seq<Seq<BoardValue>>> {
    if is_rectangular(rows) && all_server_cells(rows) {
        Some(
            Seq::new(
                rows.len(),
                |i: int| Seq::new(rows[i].len(), |j: int| server_cell(rows[i][j])->Some_0),
            ),
        )
    } else {
        None
    }
}

impl GameMoveType {
    /// The wire name: `"FLAG"`, `"OPEN"` or `"REMOVE_FLAG"`.
    pub fn wire_name(&self) -> (r: &'static str)
        ensures
            r@ == move_type_text(*self),
    {
        match self {
            GameMoveType::Flag => "FLAG",
            GameMoveType::Open => "OPEN",
            GameMoveType::RemoveFlag => "REMOVE_FLAG",
        }
    }
}

impl GameStatus {
    /// The wire name: `"OPEN"`, `"WON"` or `"LOST"`.
    pub fn wire_name(&self) -> (r: &'static str)
        ensures
            r@ == status_text(*self),
    {
        match self {
            GameStatus::Open => "OPEN",
            GameStatus::Won => "WON",
            GameStatus::Lost => "LOST",
        }
    }

    /// The banner shown for this status: none while the game is open.
    pub fn banner(&self) -> (r: &'static str)
        ensures
            r@ == status_banner(*self),
    {
        match self {
            GameStatus::Open => "",
            GameStatus::Won => "You did the thing! 🥳",
            GameStatus::Lost => "BOOM 💥",
        }
    }

    /// Reads a game status from its wire name.
    pub fn from_wire(s: &str) -> (r: Option<GameStatus>)
        ensures
            r == status_of_text(s@),
    {
        if same_text(s, "OPEN") {
            Some(GameStatus::Open)
        } else if same_text(s, "WON") {
            Some(GameStatus::Won)
        } else if same_text(s, "LOST") {
            Some(GameStatus::Lost)
        } else {
            None
        }
    }
}

impl Default for GameStatus {
    fn default() -> (r: GameStatus)
        ensures
            r == GameStatus::Open,
    {
        GameStatus::Open
    }
}

impl FetchError {
    /// The error that the HTTP status code of an answer stands for, or `None`
    /// when the answer is a success (200 to 299).
    pub fn for_status(code: u16) -> (r: Option<FetchError>)
        ensures
            r == status_code_error(code),
    {
        if 200 <= code && code <= 299 {
            None
        } else if code == 404 {
            Some(FetchError::NotFound)
        } else if code == 409 {
            Some(FetchError::Conflict)
        } else {
            Some(FetchError::FetchError)
        }
    }
}

impl GameMoveInput {
    /// The request body for an interaction: its cell, and the move kind of the
    /// same name.
    pub fn from_interaction(interaction: &CellInteract) -> (r: GameMoveInput)
        ensures
            r == move_input_of(*interaction),
    {
        GameMoveInput {
            column: interaction.column,
            row: interaction.row,
            move_type: match interaction.kind {
                CellInteractKind::Flag => GameMoveType::Flag,
                CellInteractKind::RemoveFlag => GameMoveType::RemoveFlag,
                CellInteractKind::Open => GameMoveType::Open,
            },
        }
    }
}

impl From<CellInteract> for GameMoveInput {
    fn from(interaction: CellInteract) -> GameMoveInput {
        GameMoveInput::from_interaction(&interaction)
    }
}

impl vstd::std_specs::convert::FromSpecImpl<CellInteract> for GameMoveInput {
    open spec fn obeys_from_spec() -> bool {
        true
    }

    open spec fn from_spec(interaction: CellInteract) -> GameMoveInput {
        move_input_of(interaction)
    }
}

impl<'a> From<&'a CellInteract> for GameMoveInput {
    fn from(interaction: &'a CellInteract) -> GameMoveInput {
        GameMoveInput::from_interaction(interaction)
    }
}

impl<'a> vstd::std_specs::convert::FromSpecImpl<&'a CellInteract> for GameMoveInput {
    open spec fn obeys_from_spec() -> bool {
        true
    }

    open spec fn from_spec(interaction: &'a CellInteract) -> GameMoveInput {
        move_input_of(*interaction)
    }
}

/// Reads a cell code sent by the server.
fn decode_server_cell(s: &str) -> (r: Option<BoardValue>)
    ensures
        r == server_cell(s@),
{
    match BoardValue::parse(s) {
        Ok(BoardValue::Pending) => None,
        Ok(v) => Some(v),
        Err(_) => None,
    }
}

/// Reads one row of cell codes sent by the server.
fn decode_row(row: &Vec<String>) -> (r: Option<Vec<BoardValue>>)
    ensures
        match r {
            Some(cells) => {
                &&& forall|j: int| 0 <= j < row@.len() ==> (#[trigger] server_cell(row@[j]@)) is Some
                &&& cells@ == Seq::new(row@.len(), |j: int| server_cell(row@[j]@)->Some_0)
            },
            None => exists|j: int| 0 <= j < row@.len() && (#[trigger] server_cell(row@[j]@)) is None,
        },
{
    let mut cells: Vec<BoardValue> = Vec::new();
    let mut j: usize = 0;
    while j < row.len()
        invariant
            j <= row@.len(),
            cells@.len() == j,
            forall|k: int| 0 <= k < j ==> (#[trigger] server_cell(row@[k]@)) is Some,
            forall|k: int| 0 <= k < j ==> cells@[k] == server_cell(row@[k]@)->Some_0,
        decreases row@.len() - j,
    {
        match decode_server_cell(row[j].as_str()) {
            Some(v) => cells.push(v),
            None => {
                assert(server_cell(row@[j as int]@) is None);
                return None;
            },
        }
        j = j + 1;
    }
    assert(cells@ =~= Seq::new(row@.len(), |j: int| server_cell(row@[j]@)->Some_0));
    Some(cells)
}

/// Reads a board of cell codes sent by the server.
fn decode_board(board: &Vec<Vec<String>>) -> (r: Option<Vec<Vec<BoardValue>>>)
    ensures
        match board_of_text(text_grid(board)) {
            Some(g) => r is Some && grid_view(&r->Some_0) == g,
            None => r is None,
        },
{
    let ghost rows = text_grid(board);
    let mut out: Vec<Vec<BoardValue>> = Vec::new();
    let mut i: usize = 0;
    while i < board.len()
        invariant
            i <= board@.len(),
            rows == text_grid(board),
            out@.len() == i,
            forall|k: int| 0 <= k < i ==> (#[trigger] rows[k]).len() == rows[0].len(),
            forall|k: int, j: int|
                0 <= k < i && 0 <= j < rows[k].len() ==> (#[trigger] server_cell(rows[k][j])) is Some,
            forall|k: int|
                0 <= k < i ==> (#[trigger] out@[k])@ == Seq::new(
                    rows[k].len(),
                    |j: int| server_cell(rows[k][j])->Some_0,
                ),
        decreases board@.len() - i,
    {
        assert(rows[i as int] == board@[i as int]@.map_values(|c: String| c@));
        if board[i].len() != board[0].len() {
            assert(!is_rectangular(rows));
            return None;
        }
        match decode_row(&board[i]) {
            Some(cells) => {
                assert forall|j: int| 0 <= j < rows[i as int].len() implies (#[trigger] server_cell(
                    rows[i as int][j],
                )) is Some by {
                    assert(rows[i as int][j] == board@[i as int]@[j]@);
                }
                assert(cells@ =~= Seq::new(
                    rows[i as int].len(),
                    |j: int| server_cell(rows[i as int][j])->Some_0,
                ));
                out.push(cells);
            },
            None => {
                let ghost j = choose|j: int|
                    0 <= j < board@[i as int]@.len() && (#[trigger] server_cell(
                        board@[i as int]@[j]@,
                    )) is None;
                assert(rows[i as int][j] == board@[i as int]@[j]@);
                assert(!all_server_cells(rows));
                return None;
            },
        }
        i = i + 1;
    }
    assert(is_rectangular(rows));
    assert(all_server_cells(rows));
    assert(grid_view(&out) =~= board_of_text(rows)->Some_0);
    Some(out)
}

/// The game described by the id, board and status text of a server answer.
pub open spec fn game_state_of_text(
    id: Seq<char>,
    rows: Seq<Seq<Seq<char>>>,
    status: Seq<char>,
) -> Option<(GameId, Seq<Seq<BoardValue>>, GameStatus)> {
    match (game_id_of_text(id), board_of_text(rows), status_of_text(status)) {
        (Some(game_id), Some(board), Some(st)) => Some((game_id, board, st)),
        _ => None,
    }
}

impl GameState {
    /// A game as the server may describe it: a rectangular board with no
    /// `Pending` cell.
    pub open spec fn wf(&self) -> bool {
        &&& is_rectangular(grid_view(&self.board))
        &&& forall|i: int, j: int|
            0 <= i < self.board@.len() && 0 <= j < self.board@[i]@.len() ==> #[trigger] self.board@[i]@[j]
                != BoardValue::Pending
    }

    /// Builds a game from the fields of a server answer: a UUID, a grid of cell
    /// codes and a status name. `ParseError` where the id is no UUID, the board
    /// is not rectangular or holds a code that the server may not send (`"*"`
    /// among them), or the status is unknown.
    pub fn from_wire(id: &str, board: &Vec<Vec<String>>, status: &str) -> (r: Result<
        GameState,
        FetchError,
    >)
        ensures
            match game_state_of_text(id@, text_grid(board), status@) {
                Some((game_id, cells, st)) => {
                    &&& r is Ok
                    &&& r->Ok_0.id == game_id
                    &&& grid_view(&r->Ok_0.board) == cells
                    &&& r->Ok_0.status == st
                },
                None => r == Err::<GameState, FetchError>(FetchError::ParseError),
            },
            r is Ok ==> r->Ok_0.wf(),
    {
        let game_id = match GameId::parse(id) {
            Some(game_id) => game_id,
            None => return Err(FetchError::ParseError),
        };
        let cells = match decode_board(board) {
            Some(cells) => cells,
            None => return Err(FetchError::ParseError),
        };
        let st = match GameStatus::from_wire(status) {
            Some(st) => st,
            None => return Err(FetchError::ParseError),
        };
        let r = GameState { id: game_id, board: cells, status: st };
        proof {
            let rows = text_grid(board);
            assert forall|i: int| 0 <= i < grid_view(&r.board).len() implies #[trigger] grid_view(
                &r.board,
            )[i].len() == grid_view(&r.board)[0].len() by {
                assert(rows[i].len() == rows[0].len());
            }
            assert forall|i: int, j: int|
                0 <= i < r.board@.len() && 0 <= j < r.board@[i]@.len() implies #[trigger] r.board@[i]@[j]
                != BoardValue::Pending by {
                assert(grid_view(&r.board)[i][j] == server_cell(rows[i][j])->Some_0);
                assert(server_cell(rows[i][j]) is Some);
            }
        }
        Ok(r)
    }
}

impl GameCreated {
    /// Builds the answer to a game creation from its id text; `ParseError`
    /// where it is no UUID.
    pub fn from_wire(id: &str) -> (r: Result<GameCreated, FetchError>)
        ensures
            match game_id_of_text(id@) {
                Some(game_id) => r == Ok::<GameCreated, FetchError>(GameCreated { id: game_id }),
                None => r == Err::<GameCreated, FetchError>(FetchError::ParseError),
            },
    {
        match GameId::parse(id) {
            Some(game_id) => Ok(GameCreated { id: game_id }),
            None => Err(FetchError::ParseError),
        }
    }
}

/// Reads the list of game ids that the server sends; `ParseError` where one
/// of them is no UUID.
pub fn parse_game_list(ids: &Vec<String>) -> (r: Result<Vec<GameId>, FetchError>)
    ensures
        match r {
            Ok(list) => {
                &&& list@.len() == ids@.len()
                &&& forall|k: int|
                    0 <= k < ids@.len() ==> Some(list@[k]) == #[trigger] game_id_of_text(ids@[k]@)
            },
            Err(e) => {
                &&& e == FetchError::ParseError
                &&& exists|k: int| 0 <= k < ids@.len() && (#[trigger] game_id_of_text(ids@[k]@)) is None
            },
        },
{
    let mut list: Vec<GameId> = Vec::new();
    let mut k: usize = 0;
    while k < ids.len()
        invariant
            k <= ids@.len(),
            list@.len() == k,
            forall|m: int| 0 <= m < k ==> Some(list@[m]) == #[trigger] game_id_of_text(ids@[m]@),
        decreases ids@.len() - k,
    {
        match GameId::parse(ids[k].as_str()) {
            Some(game_id) => list.push(game_id),
            None => {
                assert(game_id_of_text(ids@[k as int]@) is None);
                return Err(FetchError::ParseError);
            },
        }
        k = k + 1;
    }
    Ok(list)
}

} // verus!
