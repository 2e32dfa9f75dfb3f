use mines::{GameId, Route};

const ID_TEXT: &str = "550e8400-e29b-41d4-a716-446655440000";
const ID_VALUE: u128 = 0x550e8400e29b41d4a716446655440000;

#[test]
fn reads_paths() {
    assert_eq!(Route::from_path(""), Route::Home);
    assert_eq!(Route::from_path("/"), Route::Home);
    assert_eq!(Route::from_path("/game"), Route::GameList);
    assert_eq!(
        Route::from_path(&format!("/game/{}", ID_TEXT)),
        Route::Game { game_id: GameId { value: ID_VALUE } }
    );
    assert_eq!(Route::from("/game"), Route::GameList);
}

#[test]
fn unknown_paths_are_not_found() {
    assert_eq!(Route::from_path("/game/"), Route::NotFound);
    assert_eq!(Route::from_path("/game/123"), Route::NotFound);
    assert_eq!(
        Route::from_path(&format!("/game/{}/", ID_TEXT)),
        Route::NotFound
    );
    assert_eq!(Route::from_path("/games"), Route::NotFound);
    assert_eq!(Route::from_path("game"), Route::NotFound);
    assert_eq!(Route::from_path("//"), Route::NotFound);
    assert_eq!(Route::from_path("/404"), Route::NotFound);
}

#[test]
fn writes_paths() {
    assert_eq!(Route::Home.to_path(), "/");
    assert_eq!(Route::GameList.to_path(), "/game");
    assert_eq!(Route::NotFound.to_path(), "/404");
    assert_eq!(
        Route::Game { game_id: GameId { value: ID_VALUE } }.to_path(),
        format!("/game/{}", ID_TEXT)
    );
}

#[test]
fn written_paths_read_back() {
    for route in [
        Route::Home,
        Route::GameList,
        Route::NotFound,
        Route::Game { game_id: GameId { value: ID_VALUE } },
        Route::Game { game_id: GameId { value: 0 } },
    ] {
        assert_eq!(Route::from_path(&route.to_path()), route);
    }
}
