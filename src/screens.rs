//! The decisions of the home and game screens: which request to send, what to
//! keep of each answer, and when to show the screen again.
use vstd::prelude::*;

use crate::api::{FetchError, GameCreateInput, GameCreated, GameState, GameStatus};
use crate::game_id::GameId;
use crate::route::Route;
use crate::session::{GameSession, SessionView};

verus! {

/// The size of the games that the home screen creates.
pub const NEW_GAME_ROWS: usize = 5;

pub const NEW_GAME_COLUMNS: usize = 5;

/// A request that a screen asks to be sent.
#[derive(Clone, Copy, Debug, PartialEq, Eq, Structural)]
pub enum ScreenRequest {
    /// Create a game of this size.
    CreateGame(GameCreateInput),
    /// Fetch the ids of all games.
    ListGames,
    /// Fetch the game with this id.
    GetGame(GameId),
    /// Go to another screen.
    Navigate(Route),
}

/// The outcome of a message to a screen: whether to show it again, and the
/// request to send, if any.
#[derive(Clone, Copy, Debug, PartialEq, Eq, Structural)]
pub struct ScreenUpdate {
    pub render: bool,
    pub request: Option<ScreenRequest>,
}

/// Messages to the home screen.
#[derive(Clone, Debug)]
pub enum HomeRouteMsg {
    /// Start a request to create a new game
    CreateGame,
    /// Received a successful response from creating a new game
    CreateGameSuccess(GameId),
    /// Receive an error response from the request to create a new game
    CreateGameError(FetchError),
    /// Start a request for games
    ListGames,
    /// Received a successful response containing game ids
    ListGamesSuccess(Vec<GameId>),
    /// Received an error response from the request for game ids
    ListGamesError(FetchError),
}

/// The home screen: the games to list, the last error, and whether a request
/// is in flight.
#[derive(Clone, Debug)]
pub struct HomeRoute {
    pub error: Option<FetchError>,
    pub game_ids: Vec<GameId>,
    pub loading: bool,
}

impl HomeRouteMsg {
    /// The message for the server's answer to a request to create a game.
    pub fn from_create_response(response: Result<GameCreated, FetchError>) -> (r: HomeRouteMsg)
        ensures
            match response {
                Ok(created) => r == HomeRouteMsg::CreateGameSuccess(created.id),
                Err(e) => r == HomeRouteMsg::CreateGameError(e),
            },
    {
        match response {
            Ok(created) => HomeRouteMsg::CreateGameSuccess(created.id),
            Err(e) => HomeRouteMsg::CreateGameError(e),
        }
    }

    /// The message for the server's answer to a request for the list of games.
    pub fn from_list_response(response: Result<Vec<GameId>, FetchError>) -> (r: HomeRouteMsg)
        ensures
            match response {
                Ok(ids) => r == HomeRouteMsg::ListGamesSuccess(ids),
                Err(e) => r == HomeRouteMsg::ListGamesError(e),
            },
    {
        match response {
            Ok(ids) => HomeRouteMsg::ListGamesSuccess(ids),
            Err(e) => HomeRouteMsg::ListGamesError(e),
        }
    }
}

impl HomeRoute {
    /// The home screen as first shown, and the first message to handle: a
    /// request for the list of games.
    pub fn create(initial_game_ids: Vec<GameId>) -> (r: (HomeRoute, HomeRouteMsg))
        ensures
            r.0.error is None,
            r.0.game_ids@ == initial_game_ids@,
            !r.0.loading,
            r.1 is ListGames,
    {
        (HomeRoute { error: None, game_ids: initial_game_ids, loading: false }, HomeRouteMsg::ListGames)
    }

    /// Handles a message. A new game is asked for only when no request is in
    /// flight; the list of games is asked for at any time. A created game is
    /// added to the list; a received list replaces it; an error is kept.
    /// Every answer ends the request in flight.
    pub fn update(&mut self, msg: HomeRouteMsg) -> (r: ScreenUpdate)
        ensures
            match msg {
                HomeRouteMsg::CreateGame => if old(self).loading {
                    final(self).error == old(self).error && final(self).game_ids@ == old(
                        self,
                    ).game_ids@ && final(self).loading && r == (ScreenUpdate {
                        render: false,
                        request: None,
                    })
                } else {
                    &&& final(self).error == old(self).error
                    &&& final(self).game_ids@ == old(self).game_ids@
                    &&& final(self).loading
                    &&& r == (ScreenUpdate {
                        render: true,
                        request: Some(
                            ScreenRequest::CreateGame(
                                GameCreateInput { columns: NEW_GAME_COLUMNS, rows: NEW_GAME_ROWS },
                            ),
                        ),
                    })
                },
                HomeRouteMsg::CreateGameSuccess(game_id) => {
                    &&& final(self).error is None
                    &&& final(self).game_ids@ == old(self).game_ids@.push(game_id)
                    &&& !final(self).loading
                    &&& r == (ScreenUpdate { render: true, request: None })
                },
                HomeRouteMsg::ListGames => {
                    &&& final(self).error == old(self).error
                    &&& final(self).game_ids@ == old(self).game_ids@
                    &&& final(self).loading
                    &&& r == (ScreenUpdate { render: true, request: Some(ScreenRequest::ListGames) })
                },
                HomeRouteMsg::ListGamesSuccess(game_ids) => {
                    &&& final(self).error is None
                    &&& final(self).game_ids@ == game_ids@
                    &&& !final(self).loading
                    &&& r == (ScreenUpdate { render: true, request: None })
                },
                HomeRouteMsg::CreateGameError(e) | HomeRouteMsg::ListGamesError(e) => {
                    &&& final(self).error == Some(e)
                    &&& final(self).game_ids@ == old(self).game_ids@
                    &&& !final(self).loading
                    &&& r == (ScreenUpdate { render: true, request: None })
                },
            },
    {
        match msg {
            HomeRouteMsg::CreateGame => {
                if self.loading {
                    return ScreenUpdate { render: false, request: None };
                }
                self.loading = true;
                ScreenUpdate {
                    render: true,
                    request: Some(
                        ScreenRequest::CreateGame(
                            GameCreateInput { columns: NEW_GAME_COLUMNS, rows: NEW_GAME_ROWS },
                        ),
                    ),
                }
            },
            HomeRouteMsg::CreateGameSuccess(game_id) => {
                self.error = None;
                self.game_ids.push(game_id);
                self.loading = false;
                ScreenUpdate { render: true, request: None }
            },
            HomeRouteMsg::CreateGameError(e) => {
                self.error = Some(e);
                self.loading = false;
                ScreenUpdate { render: true, request: None }
            },
            HomeRouteMsg::ListGames => {
                self.loading = true;
                ScreenUpdate { render: true, request: Some(ScreenRequest::ListGames) }
            },
            HomeRouteMsg::ListGamesSuccess(game_ids) => {
                self.error = None;
                self.game_ids = game_ids;
                self.loading = false;
                ScreenUpdate { render: true, request: None }
            },
            HomeRouteMsg::ListGamesError(e) => {
                self.error = Some(e);
                self.loading = false;
                ScreenUpdate { render: true, request: None }
            },
        }
    }

    /// The error message to show: one only when the last request failed and
    /// no other is in flight.
    pub fn error_message(&self) -> (r: Option<&'static str>)
        ensures
            r is Some <==> (self.error is Some && !self.loading),
            r is Some ==> r->Some_0@ == "Error loading games."@,
    {
        if self.error.is_some() && !self.loading {
            Some("Error loading games.")
        } else {
            None
        }
    }
}

/// Messages to the screen of one game.
#[derive(Clone, Debug, PartialEq, Eq)]
pub enum GameRouteMsg {
    BackToList,
    /// Start a request to retrieve a game
    GetGame(GameId),
    /// Received a successful response from fetching a game
    GetGameSuccess(GameState),
    /// Receive an error response from the request to fetch a game
    GetGameError(FetchError),
}

impl GameRouteMsg {
    /// The message for the server's answer to a request for a game.
    pub fn from_fetch_response(response: Result<GameState, FetchError>) -> (r: GameRouteMsg)
        ensures
            match response {
                Ok(state) => r == GameRouteMsg::GetGameSuccess(state),
                Err(e) => r == GameRouteMsg::GetGameError(e),
            },
    {
        match response {
            Ok(state) => GameRouteMsg::GetGameSuccess(state),
            Err(e) => GameRouteMsg::GetGameError(e),
        }
    }
}

/// Messages to the list of games.
#[derive(Clone, Debug, PartialEq, Eq)]
pub enum GameListModel {
    /// Go to the screen of this game.
    Navigate { game_id: GameId },
    /// Show these games.
    ReplaceList { game_ids: Vec<GameId> },
}

impl GameListModel {
    /// The message for the server's answer to a request for the list of games:
    /// a failed request shows an empty list.
    pub fn from_list_response(response: Result<Vec<GameId>, FetchError>) -> (r: GameListModel)
        ensures
            match response {
                Ok(ids) => r == GameListModel::ReplaceList { game_ids: ids },
                Err(_) => r matches GameListModel::ReplaceList { game_ids } && game_ids@.len() == 0,
            },
    {
        match response {
            Ok(ids) => GameListModel::ReplaceList { game_ids: ids },
            Err(_) => GameListModel::ReplaceList { game_ids: Vec::new() },
        }
    }
}

/// The list of games.
#[derive(Clone, Debug)]
pub struct GameList {
    pub game_ids: Vec<GameId>,
}

impl GameList {
    pub fn new(game_ids: Vec<GameId>) -> (r: GameList)
        ensures
            r.game_ids@ == game_ids@,
    {
        GameList { game_ids }
    }

    /// Handles a message: a new list replaces the one shown; a choice of game
    /// returns the screen to go to.
    pub fn update(&mut self, msg: GameListModel) -> (r: Option<Route>)
        ensures
            match msg {
                GameListModel::Navigate { game_id } => {
                    &&& r == Some(Route::Game { game_id })
                    &&& final(self).game_ids@ == old(self).game_ids@
                },
                GameListModel::ReplaceList { game_ids } => {
                    &&& r is None
                    &&& final(self).game_ids@ == game_ids@
                },
            },
    {
        match msg {
            GameListModel::ReplaceList { game_ids } => {
                self.game_ids = game_ids;
                None
            },
            GameListModel::Navigate { game_id } => Some(Route::Game { game_id }),
        }
    }
}

/// The screen of one game: its session, the last error, and whether a request
/// is in flight.
pub struct GameRoute {
    pub session: GameSession,
    pub error: Option<FetchError>,
    pub loading: bool,
}

impl GameRoute {
    /// The screen of the game `game_id` as first shown, with an empty board,
    /// and the first message to handle: a request for the game.
    pub fn create(game_id: GameId) -> (r: (GameRoute, GameRouteMsg))
        ensures
            r.0.session@ == (SessionView {
                id: game_id,
                board: Seq::empty(),
                status: GameStatus::Open,
            }),
            r.0.error is None,
            !r.0.loading,
            r.1 == GameRouteMsg::GetGame(game_id),
    {
        (
            GameRoute { session: GameSession::new(game_id), error: None, loading: false },
            GameRouteMsg::GetGame(game_id),
        )
    }

    /// Shows another game: a fresh session for `game_id` where it differs from
    /// the game shown; `true` when the screen must be shown again.
    pub fn change(&mut self, game_id: GameId) -> (r: bool)
        ensures
            r == (game_id != old(self).session@.id),
            r ==> final(self).session@ == (SessionView {
                id: game_id,
                board: Seq::empty(),
                status: GameStatus::Open,
            }),
            !r ==> final(self).session@ == old(self).session@,
            final(self).error == old(self).error,
            final(self).loading == old(self).loading,
    {
        if game_id != self.session.id() {
            self.session = GameSession::new(game_id);
            true
        } else {
            false
        }
    }

    /// Handles a message. A game is fetched only when no request is in flight.
    /// A fetched game is applied to the session only when it is the game of
    /// this screen; any answer ends the request in flight, and an error is
    /// kept until the next success.
    pub fn update(&mut self, msg: GameRouteMsg) -> (r: ScreenUpdate)
        ensures
            match msg {
                GameRouteMsg::BackToList => {
                    &&& final(self).session@ == old(self).session@
                    &&& final(self).error == old(self).error
                    &&& final(self).loading == old(self).loading
                    &&& r == (ScreenUpdate {
                        render: false,
                        request: Some(ScreenRequest::Navigate(Route::Home)),
                    })
                },
                GameRouteMsg::GetGame(game_id) => if old(self).loading {
                    &&& final(self).session@ == old(self).session@
                    &&& final(self).error == old(self).error
                    &&& final(self).loading
                    &&& r == (ScreenUpdate { render: false, request: None })
                } else {
                    &&& final(self).session@ == old(self).session@
                    &&& final(self).error == old(self).error
                    &&& final(self).loading
                    &&& r == (ScreenUpdate {
                        render: true,
                        request: Some(ScreenRequest::GetGame(game_id)),
                    })
                },
                GameRouteMsg::GetGameSuccess(state) => {
                    &&& final(self).session@.id == old(self).session@.id
                    &&& (state.id == old(self).session@.id ==> final(self).session@.board
                        == crate::board::grid_view(&state.board) && final(self).session@.status
                        == state.status)
                    &&& (state.id != old(self).session@.id ==> final(self).session@ == old(
                        self,
                    ).session@)
                    &&& final(self).error is None
                    &&& !final(self).loading
                    &&& r == (ScreenUpdate { render: true, request: None })
                },
                GameRouteMsg::GetGameError(e) => {
                    &&& final(self).session@ == old(self).session@
                    &&& final(self).error == Some(e)
                    &&& !final(self).loading
                    &&& r == (ScreenUpdate { render: true, request: None })
                },
            },
    {
        match msg {
            GameRouteMsg::BackToList => ScreenUpdate {
                render: false,
                request: Some(ScreenRequest::Navigate(Route::Home)),
            },
            GameRouteMsg::GetGame(game_id) => {
                if self.loading {
                    return ScreenUpdate { render: false, request: None };
                }
                self.loading = true;
                ScreenUpdate { render: true, request: Some(ScreenRequest::GetGame(game_id)) }
            },
            GameRouteMsg::GetGameSuccess(state) => {
                if state.id == self.session.id() {
                    let _ = self.session.apply_server_response(Ok(state));
                }
                self.error = None;
                self.loading = false;
                ScreenUpdate { render: true, request: None }
            },
            GameRouteMsg::GetGameError(e) => {
                self.error = Some(e);
                self.loading = false;
                ScreenUpdate { render: true, request: None }
            },
        }
    }
}

} // verus!
