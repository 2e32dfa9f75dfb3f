use mines::home::{Difficulty, Main, MainModel, MainUpdate, MainView};
use mines::screens::{
    GameList, GameListModel, GameRoute, GameRouteMsg, HomeRoute, HomeRouteMsg, ScreenRequest,
    ScreenUpdate,
};
use mines::{FetchError, GameCreateInput, GameCreated, GameId, GameState, GameStatus, Route};

fn id(value: u128) -> GameId {
    GameId { value }
}

#[test]
fn difficulty_sizes() {
    assert_eq!(Difficulty::Small.dimensions(), (5, 5));
    assert_eq!(Difficulty::Medium.dimensions(), (10, 10));
    assert_eq!(Difficulty::Large.dimensions(), (25, 25));
    assert_eq!(
        GameCreateInput::from(Difficulty::Large),
        GameCreateInput { columns: 25, rows: 25 }
    );
}

#[test]
fn difficulty_labels() {
    assert_eq!(Difficulty::Small.label(), "Small (5 x 5)");
    assert_eq!(Difficulty::Medium.label(), "Medium (10 x 10)");
    assert_eq!(Difficulty::Large.label(), "Large (25 x 25)");
}

#[test]
fn main_creates_game_of_chosen_size() {
    let mut main = Main::new();
    assert_eq!(main.difficulty, Difficulty::Medium);
    assert_eq!(
        main.update(MainModel::SetDifficulty(Difficulty::Medium)),
        MainUpdate { view: None, create: None }
    );
    assert_eq!(
        main.update(MainModel::SetDifficulty(Difficulty::Small)),
        MainUpdate {
            view: Some(MainView::DifficultyChanged(Difficulty::Small)),
            create: None
        }
    );
    assert_eq!(main.difficulty, Difficulty::Small);
    assert_eq!(
        main.update(MainModel::Create),
        MainUpdate {
            view: Some(MainView::Creating),
            create: Some(GameCreateInput { columns: 5, rows: 5 })
        }
    );
    assert_eq!(
        MainView::from_create_response(Ok(GameCreated { id: id(3) })),
        MainView::CreateGameSuccess(id(3))
    );
    assert_eq!(
        MainView::from_create_response(Err(FetchError::Conflict)),
        MainView::CreateGameError(FetchError::Conflict)
    );
}

#[test]
fn home_lists_then_creates() {
    let (mut home, first) = HomeRoute::create(vec![id(1)]);
    assert!(matches!(first, HomeRouteMsg::ListGames));
    assert_eq!(
        home.update(first),
        ScreenUpdate { render: true, request: Some(ScreenRequest::ListGames) }
    );
    assert_eq!(
        home.update(HomeRouteMsg::CreateGame),
        ScreenUpdate { render: false, request: None }
    );
    home.update(HomeRouteMsg::ListGamesSuccess(vec![id(1), id(2)]));
    assert_eq!(home.game_ids, vec![id(1), id(2)]);
    assert!(!home.loading);
    assert_eq!(
        home.update(HomeRouteMsg::CreateGame),
        ScreenUpdate {
            render: true,
            request: Some(ScreenRequest::CreateGame(GameCreateInput { columns: 5, rows: 5 }))
        }
    );
    assert_eq!(home.error_message(), None);
    home.update(HomeRouteMsg::CreateGameSuccess(id(7)));
    assert_eq!(home.game_ids, vec![id(1), id(2), id(7)]);
}

#[test]
fn home_shows_error_when_idle() {
    let (mut home, first) = HomeRoute::create(Vec::new());
    home.update(first);
    home.update(HomeRouteMsg::ListGamesError(FetchError::FetchError));
    assert_eq!(home.error, Some(FetchError::FetchError));
    assert_eq!(home.error_message(), Some("Error loading games."));
    home.update(HomeRouteMsg::ListGames);
    assert_eq!(home.error_message(), None);
    home.update(HomeRouteMsg::CreateGameError(FetchError::NotFound));
    assert_eq!(home.error_message(), Some("Error loading games."));
}

#[test]
fn game_route_fetches_and_applies_own_game() {
    let (mut route, first) = GameRoute::create(id(9));
    assert_eq!(first, GameRouteMsg::GetGame(id(9)));
    assert_eq!(
        route.update(first),
        ScreenUpdate { render: true, request: Some(ScreenRequest::GetGame(id(9))) }
    );
    assert_eq!(
        route.update(GameRouteMsg::GetGame(id(9))),
        ScreenUpdate { render: false, request: None }
    );
    let other = GameState {
        id: id(8),
        board: vec![vec![mines::BoardValue::Mine]],
        status: GameStatus::Lost,
    };
    route.update(GameRouteMsg::GetGameSuccess(other));
    assert!(route.session.board().is_empty());
    assert_eq!(route.session.status(), GameStatus::Open);
    assert!(!route.loading);
    let own = GameState {
        id: id(9),
        board: vec![vec![mines::BoardValue::Open(1)]],
        status: GameStatus::Won,
    };
    route.update(GameRouteMsg::GetGame(id(9)));
    route.update(GameRouteMsg::GetGameSuccess(own));
    assert_eq!(route.session.board(), &vec![vec![mines::BoardValue::Open(1)]]);
    assert_eq!(route.session.status(), GameStatus::Won);
}

#[test]
fn game_route_keeps_error_and_goes_back() {
    let (mut route, _) = GameRoute::create(id(9));
    route.update(GameRouteMsg::GetGameError(FetchError::NotFound));
    assert_eq!(route.error, Some(FetchError::NotFound));
    assert_eq!(
        route.update(GameRouteMsg::BackToList),
        ScreenUpdate { render: false, request: Some(ScreenRequest::Navigate(Route::Home)) }
    );
    assert!(!route.change(id(9)));
    assert!(route.change(id(10)));
    assert_eq!(route.session.id(), id(10));
    assert!(route.session.board().is_empty());
    assert_eq!(route.session.status(), GameStatus::Open);
}

#[test]
fn responses_become_messages() {
    assert!(matches!(
        HomeRouteMsg::from_create_response(Ok(GameCreated { id: id(4) })),
        HomeRouteMsg::CreateGameSuccess(g) if g == id(4)
    ));
    assert!(matches!(
        HomeRouteMsg::from_create_response(Err(FetchError::FetchError)),
        HomeRouteMsg::CreateGameError(FetchError::FetchError)
    ));
    assert!(matches!(
        HomeRouteMsg::from_list_response(Ok(vec![id(1)])),
        HomeRouteMsg::ListGamesSuccess(ids) if ids == vec![id(1)]
    ));
    assert!(matches!(
        HomeRouteMsg::from_list_response(Err(FetchError::ParseError)),
        HomeRouteMsg::ListGamesError(FetchError::ParseError)
    ));
    assert_eq!(
        GameRouteMsg::from_fetch_response(Err(FetchError::NotFound)),
        GameRouteMsg::GetGameError(FetchError::NotFound)
    );
}

#[test]
fn game_list_replaces_and_navigates() {
    let mut list = GameList::new(vec![id(1)]);
    assert_eq!(
        GameListModel::from_list_response(Err(FetchError::FetchError)),
        GameListModel::ReplaceList { game_ids: Vec::new() }
    );
    let msg = GameListModel::from_list_response(Ok(vec![id(2), id(3)]));
    assert_eq!(list.update(msg), None);
    assert_eq!(list.game_ids, vec![id(2), id(3)]);
    assert_eq!(
        list.update(GameListModel::Navigate { game_id: id(3) }),
        Some(Route::Game { game_id: id(3) })
    );
    assert_eq!(list.game_ids, vec![id(2), id(3)]);
}
