//! The home screen: choosing the size of a new game and asking for it.
use vstd::prelude::*;

use crate::api::{FetchError, GameCreateInput, GameCreated};
use crate::board_value::{append_decimal, decimal_text};
use crate::game_id::GameId;

verus! {

/// Preset sizes of new games.
#[derive(Clone, Copy, Debug, PartialEq, Eq, Structural)]
pub enum Difficulty {
    Small,
    Medium,
    Large,
}

/// The (rows, columns) of a new game of each difficulty.
pub open spec fn dimensions_of(d: Difficulty) -> (usize, usize) {
    match d {
        Difficulty::Small => (5, 5),
        Difficulty::Medium => (10, 10),
        Difficulty::Large => (25, 25),
    }
}

pub open spec fn difficulty_name(d: Difficulty) -> Seq<char> {
    match d {
        Difficulty::Small => "Small"@,
        Difficulty::Medium => "Medium"@,
        Difficulty::Large => "Large"@,
    }
}

/// The text shown for a difficulty: its name, then its size as
/// `(rows x columns)`.
pub open spec fn difficulty_label(d: Difficulty) -> Seq<char> {
    difficulty_name(d) + " ("@ + decimal_text(dimensions_of(d).0 as nat) + " x "@ + decimal_text(
        dimensions_of(d).1 as nat,
    ) + ")"@
}

/// The request body that creates a game of the given difficulty.
pub open spec fn create_input_of(d: Difficulty) -> GameCreateInput {
    GameCreateInput { columns: dimensions_of(d).1, rows: dimensions_of(d).0 }
}

impl Difficulty {
    /// The size of a new game of this difficulty, as (rows, columns).
    pub fn dimensions(&self) -> (r: (usize, usize))
        ensures
            r == dimensions_of(*self),
    {
        match self {
            Difficulty::Small => (5, 5),
            Difficulty::Medium => (10, 10),
            Difficulty::Large => (25, 25),
        }
    }

    /// The text shown for this difficulty, such as `"Small (5 x 5)"`.
    pub fn label(&self) -> (r: String)
        ensures
            r@ == difficulty_label(*self),
    {
        let name = match self {
            Difficulty::Small => "Small",
            Difficulty::Medium => "Medium",
            Difficulty::Large => "Large",
        };
        let (rows, columns) = self.dimensions();
        let mut s = String::from_str(name);
        s.append(" (");
        append_decimal(&mut s, rows);
        s.append(" x ");
        append_decimal(&mut s, columns);
        s.append(")");
        s
    }
}

impl From<Difficulty> for GameCreateInput {
    fn from(difficulty: Difficulty) -> (r: GameCreateInput) {
        let (rows, columns) = difficulty.dimensions();
        GameCreateInput { columns, rows }
    }
}

impl vstd::std_specs::convert::FromSpecImpl<Difficulty> for GameCreateInput {
    open spec fn obeys_from_spec() -> bool {
        true
    }

    open spec fn from_spec(difficulty: Difficulty) -> GameCreateInput {
        create_input_of(difficulty)
    }
}

/// What the home screen is asked to do.
#[derive(Clone, Copy, Debug, PartialEq, Eq, Structural)]
pub enum MainModel {
    /// Create a new game with the difficulty currently chosen.
    Create,
    /// Choose another difficulty.
    SetDifficulty(Difficulty),
}

/// The changes to how the home screen is shown.
#[derive(Clone, Copy, Debug, PartialEq, Eq, Structural)]
pub enum MainView {
    /// A request to create a new game is in flight.
    Creating,
    /// A new game was created with this id.
    CreateGameSuccess(GameId),
    /// The request to create a new game failed.
    CreateGameError(FetchError),
    /// The chosen difficulty is now this one.
    DifficultyChanged(Difficulty),
}

/// The outcome of a message to the home screen: what to show, and the game to
/// ask the server to create.
#[derive(Clone, Copy, Debug, PartialEq, Eq, Structural)]
pub struct MainUpdate {
    pub view: Option<MainView>,
    pub create: Option<GameCreateInput>,
}

/// The home screen's state: the difficulty chosen for the next game.
#[derive(Clone, Copy, Debug, PartialEq, Eq, Structural)]
pub struct Main {
    pub difficulty: Difficulty,
}

impl Main {
    /// The home screen as first shown, with `Medium` chosen.
    pub fn new() -> (r: Main)
        ensures
            r.difficulty == Difficulty::Medium,
    {
        Main { difficulty: Difficulty::Medium }
    }

    /// Handles a message. `Create` shows that a game is being created and asks
    /// for one of the chosen size. `SetDifficulty` with another difficulty
    /// chooses it and shows the change; with the one already chosen it does
    /// nothing.
    pub fn update(&mut self, msg: MainModel) -> (r: MainUpdate)
        ensures
            match msg {
                MainModel::Create => *final(self) == *old(self) && r == (MainUpdate {
                    view: Some(MainView::Creating),
                    create: Some(create_input_of(old(self).difficulty)),
                }),
                MainModel::SetDifficulty(d) => if d != old(self).difficulty {
                    &&& final(self).difficulty == d
                    &&& r == (MainUpdate {
                        view: Some(MainView::DifficultyChanged(d)),
                        create: None,
                    })
                } else {
                    *final(self) == *old(self) && r == (MainUpdate { view: None, create: None })
                },
            },
    {
        match msg {
            MainModel::Create => {
                let (rows, columns) = self.difficulty.dimensions();
                MainUpdate {
                    view: Some(MainView::Creating),
                    create: Some(GameCreateInput { columns, rows }),
                }
            },
            MainModel::SetDifficulty(d) => {
                if d != self.difficulty {
                    self.difficulty = d;
                    MainUpdate { view: Some(MainView::DifficultyChanged(d)), create: None }
                } else {
                    MainUpdate { view: None, create: None }
                }
            },
        }
    }
}

impl MainView {
    /// What to show once the server has answered a request to create a game.
    pub fn from_create_response(response: Result<GameCreated, FetchError>) -> (r: MainView)
        ensures
            r == match response {
                Ok(created) => MainView::CreateGameSuccess(created.id),
                Err(e) => MainView::CreateGameError(e),
            },
    {
        match response {
            Ok(created) => MainView::CreateGameSuccess(created.id),
            Err(e) => MainView::CreateGameError(e),
        }
    }
}

} // verus!
