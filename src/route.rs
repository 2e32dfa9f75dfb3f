//! The screens of the client and the paths that name them.
use vstd::prelude::*;

use crate::game_id::{
    game_id_of_text, hyphenated_text, lemma_hyphenated_text_shape, uuid_text_length, GameId,
};
use crate::text::{contains_char, same_text, starts_with_text};

verus! {

/// A screen of the client.
#[derive(Clone, Copy, Debug, PartialEq, Eq, Structural)]
pub enum Route {
    /// Screen showing a specific game
    Game { game_id: GameId },
    /// Screen showing the list of games
    GameList,
    /// Default landing screen
    Home,
    /// Screen to display when the requested path does not exist
    NotFound,
}

/// The screen that a path names: `""` and `"/"` the home screen, `"/game"` the
/// list of games, `"/game/<uuid>"` a game; any other path, an id that is no
/// UUID among them, names no screen.
pub open spec fn route_of_path(s: Seq<char>) -> Route {
    let prefix = "/game/"@;
    if s.len() == 0 || s == "/"@ {
        Route::Home
    } else if s == "/game"@ {
        Route::GameList
    } else if prefix.len() <= s.len() && s.subrange(0, prefix.len() as int) == prefix
        && !s.subrange(prefix.len() as int, s.len() as int).contains('/') {
        match game_id_of_text(s.subrange(prefix.len() as int, s.len() as int)) {
            Some(game_id) => Route::Game { game_id },
            None => Route::NotFound,
        }
    } else {
        Route::NotFound
    }
}

/// The path of a screen.
pub open spec fn path_of_route(r: Route) -> Seq<char> {
    match r {
        Route::Game { game_id } => "/game/"@ + hyphenated_text(game_id.value),
        Route::GameList => "/game"@,
        Route::Home => "/"@,
        Route::NotFound => "/404"@,
    }
}

impl Route {
    /// The screen that `path` names. The path of any screen names that
    /// screen again.
    pub fn from_path(path: &str) -> (r: Route)
        ensures
            r == route_of_path(path@),
            forall|x: Route| path@ == #[trigger] path_of_route(x) ==> r == x,
            r is Game ==> 6 <= path@.len() && uuid_text_length((path@.len() - 6) as nat),
    {
        proof {
            reveal_strlit("/");
            reveal_strlit("/game");
            reveal_strlit("/game/");
            reveal_strlit("/404");
        }
        let prefix = "/game/";
        let n = path.unicode_len();
        if n == 0 || same_text(path, "/") {
            proof {
                assert forall|x: Route| path@ == #[trigger] path_of_route(x) implies Route::Home == x by {
                    if let Route::Game { game_id } = x {
                        lemma_hyphenated_text_shape(game_id.value);
                    }
                    assert("/game"@.len() == 5);
                    assert("/404"@.len() == 4);
                }
            }
            Route::Home
        } else if same_text(path, "/game") {
            proof {
                assert forall|x: Route| path@ == #[trigger] path_of_route(x) implies Route::GameList == x by {
                    if let Route::Game { game_id } = x {
                        lemma_hyphenated_text_shape(game_id.value);
                    }
                    assert("/404"@.len() == 4);
                }
            }
            Route::GameList
        } else if starts_with_text(path, prefix) {
            let m = prefix.unicode_len();
            let rest = path.substring_char(m, n);
            if contains_char(rest, '/') {
                proof {
                    assert forall|x: Route| path@ == #[trigger] path_of_route(x) implies Route::NotFound == x by {
                        if let Route::Game { game_id } = x {
                            lemma_hyphenated_text_shape(game_id.value);
                            assert(rest@ =~= hyphenated_text(game_id.value));
                        }
                    }
                }
                Route::NotFound
            } else {
                let parsed = GameId::parse(rest);
                proof {
                    assert forall|x: Route| path@ == #[trigger] path_of_route(x) implies (match parsed {
                        Some(game_id) => Route::Game { game_id },
                        None => Route::NotFound,
                    }) == x by {
                        if let Route::Game { game_id } = x {
                            lemma_hyphenated_text_shape(game_id.value);
                            assert(rest@ =~= hyphenated_text(game_id.value));
                        }
                    }
                }
                match parsed {
                    Some(game_id) => Route::Game { game_id },
                    None => Route::NotFound,
                }
            }
        } else {
            proof {
                assert forall|x: Route| path@ == #[trigger] path_of_route(x) implies Route::NotFound == x by {
                    if let Route::Game { game_id } = x {
                        lemma_hyphenated_text_shape(game_id.value);
                        assert(path@.subrange(0, 6) =~= "/game/"@);
                    }
                }
            }
            Route::NotFound
        }
    }

    /// The path of this screen: `"/game/<uuid>"`, `"/game"`, `"/"` or `"/404"`.
    pub fn to_path(&self) -> (r: String)
        ensures
            r@ == path_of_route(*self),
    {
        match self {
            Route::Game { game_id } => {
                let mut s = String::from_str("/game/");
                let id = game_id.to_hyphenated();
                s.append(id.as_str());
                s
            },
            Route::GameList => String::from_str("/game"),
            Route::Home => String::from_str("/"),
            Route::NotFound => String::from_str("/404"),
        }
    }
}

impl<'a> From<&'a str> for Route {
    fn from(path: &'a str) -> Route {
        Route::from_path(path)
    }
}

impl<'a> vstd::std_specs::convert::FromSpecImpl<&'a str> for Route {
    open spec fn obeys_from_spec() -> bool {
        true
    }

    open spec fn from_spec(path: &'a str) -> Route {
        route_of_path(path@)
    }
}

} // verus!
