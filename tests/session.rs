use mines::{
    BoardCellInteract, BoardValue, CellInteract, CellInteractKind, CellUpdate, FetchError,
    GameId, GameMoveInput, GameMoveType, GameSession, GameState, GameStatus,
};

fn game_id() -> GameId {
    GameId { value: 0x550e8400e29b41d4a716446655440000 }
}

fn codes(rows: &[&[&str]]) -> Vec<Vec<String>> {
    rows.iter()
        .map(|row| row.iter().map(|c| c.to_string()).collect())
        .collect()
}

fn state(board: &[&[&str]], status: &str) -> GameState {
    GameState::from_wire(
        "550e8400-e29b-41d4-a716-446655440000",
        &codes(board),
        status,
    )
    .unwrap()
}

fn closed_session() -> GameSession {
    let mut session = GameSession::new(game_id());
    let first = session.apply_server_response(Ok(state(
        &[&[" ", " ", " "], &[" ", " ", " "]],
        "OPEN",
    )));
    assert_eq!(first, None);
    session
}

#[test]
fn game_starts_empty() {
    let session = GameSession::new(game_id());
    assert_eq!(session.id(), game_id());
    assert!(session.board().is_empty());
    assert_eq!(session.status(), GameStatus::Open);
    assert_eq!(session.cell(0, 0), None);
    assert_eq!(session.cell_text(0, 0), None);
}

#[test]
fn updates_board_with_cells() {
    let mut session = GameSession::new(game_id());
    let change = session.apply_server_response(Ok(state(&[&[" ", "1", "F", "M"]], "LOST")));
    assert_eq!(
        session.board(),
        &vec![vec![
            BoardValue::Closed,
            BoardValue::Open(1),
            BoardValue::Flag,
            BoardValue::Mine
        ]]
    );
    assert_eq!(change, Some(GameStatus::Lost));
}

#[test]
fn stays_empty_on_open() {
    let mut session = GameSession::new(game_id());
    let change = session.apply_server_response(Ok(state(&[], "OPEN")));
    assert_eq!(change, None);
    assert_eq!(session.status().banner(), "");
}

#[test]
fn booms_on_lost() {
    let mut session = GameSession::new(game_id());
    let change = session.apply_server_response(Ok(state(&[], "LOST")));
    assert_eq!(change, Some(GameStatus::Lost));
    assert_eq!(change.unwrap().banner(), "BOOM 💥");
}

#[test]
fn dings_on_won() {
    let mut session = GameSession::new(game_id());
    let change = session.apply_server_response(Ok(state(&[], "WON")));
    assert_eq!(change, Some(GameStatus::Won));
    assert_eq!(change.unwrap().banner(), "You did the thing! 🥳");
}

#[test]
fn lost_status_changes_exactly_once() {
    let mut session = closed_session();
    let lost = state(&[&["M", " ", " "], &[" ", " ", " "]], "LOST");
    assert_eq!(
        session.apply_server_response(Ok(lost.clone())),
        Some(GameStatus::Lost)
    );
    assert_eq!(session.status(), GameStatus::Lost);
    assert_eq!(session.apply_server_response(Ok(lost)), None);
    assert_eq!(session.status(), GameStatus::Lost);
}

#[test]
fn modifier_click_flags_closed_cell() {
    let mut session = closed_session();
    let interaction = session.interact(0, 1, BoardCellInteract::Flag).unwrap();
    assert_eq!(
        interaction,
        CellInteract { row: 0, column: 1, kind: CellInteractKind::Flag }
    );
    assert_eq!(session.cell(0, 1), Some(BoardValue::Flag));
    assert_eq!(session.cell_text(0, 1), Some("F".to_string()));
    let input = GameMoveInput::from(interaction);
    assert_eq!(input.move_type, GameMoveType::Flag);
    assert_eq!(input.move_type.wire_name(), "FLAG");
}

#[test]
fn click_on_flag_removes_it() {
    let mut session = closed_session();
    for input in [BoardCellInteract::Open, BoardCellInteract::Flag] {
        session.interact(1, 2, BoardCellInteract::Flag).unwrap();
        assert_eq!(session.cell(1, 2), Some(BoardValue::Flag));
        let interaction = session.interact(1, 2, input).unwrap();
        assert_eq!(interaction.kind, CellInteractKind::RemoveFlag);
        assert_eq!(session.cell(1, 2), Some(BoardValue::Closed));
        assert_eq!(
            GameMoveInput::from(&interaction).move_type.wire_name(),
            "REMOVE_FLAG"
        );
    }
}

#[test]
fn plain_click_opens_then_server_reveals_count() {
    let mut session = closed_session();
    let interaction = session.interact(1, 0, BoardCellInteract::Open).unwrap();
    assert_eq!(interaction.kind, CellInteractKind::Open);
    assert_eq!(session.cell(1, 0), Some(BoardValue::Pending));
    assert_eq!(session.cell_text(1, 0), Some("*".to_string()));
    let change = session.apply_server_response(Ok(state(
        &[&[" ", " ", " "], &["2", " ", " "]],
        "OPEN",
    )));
    assert_eq!(change, None);
    assert_eq!(session.cell(1, 0), Some(BoardValue::Open(2)));
    assert_eq!(session.cell_text(1, 0), Some("2".to_string()));
}

#[test]
fn optimistic_update_leaves_other_cells() {
    let mut session = GameSession::new(game_id());
    session.apply_server_response(Ok(state(&[&["1", "F", " "], &["M", " ", "3"]], "OPEN")));
    let before = session.board().clone();
    session.apply_local_interaction(&CellInteract {
        row: 1,
        column: 1,
        kind: CellInteractKind::Open,
    });
    for r in 0..2 {
        for c in 0..3 {
            if (r, c) == (1, 1) {
                assert_eq!(session.cell(r, c), Some(BoardValue::Pending));
            } else {
                assert_eq!(session.cell(r, c), Some(before[r][c]));
                assert_eq!(
                    session.cell_text(r, c),
                    Some(before[r][c].to_display_text())
                );
            }
        }
    }
}

#[test]
fn click_outside_board_changes_nothing() {
    let mut session = closed_session();
    let before = session.board().clone();
    assert_eq!(session.interact(2, 0, BoardCellInteract::Open), None);
    assert_eq!(session.interact(0, 3, BoardCellInteract::Flag), None);
    session.apply_local_interaction(&CellInteract {
        row: 5,
        column: 5,
        kind: CellInteractKind::Flag,
    });
    assert_eq!(session.board(), &before);
}

#[test]
fn conflict_keeps_optimistic_value() {
    let mut session = closed_session();
    session.interact(0, 0, BoardCellInteract::Open).unwrap();
    let before = session.board().clone();
    let change = session.apply_server_response(Err(FetchError::Conflict));
    assert_eq!(change, None);
    assert_eq!(session.cell(0, 0), Some(BoardValue::Pending));
    assert_eq!(session.board(), &before);
    assert_eq!(session.status(), GameStatus::Open);
}

#[test]
fn single_update_touches_one_cell() {
    let mut session = closed_session();
    session.apply_cell_update(CellUpdate::Single {
        row: 1,
        column: 1,
        value: BoardValue::Mine,
    });
    assert_eq!(session.cell(1, 1), Some(BoardValue::Mine));
    assert_eq!(session.cell(0, 0), Some(BoardValue::Closed));
    assert_eq!(session.cell(1, 2), Some(BoardValue::Closed));
    session.apply_cell_update(CellUpdate::Single {
        row: 9,
        column: 0,
        value: BoardValue::Mine,
    });
    assert_eq!(session.board().len(), 2);
}

#[test]
fn all_update_replaces_board() {
    let mut session = closed_session();
    session.interact(0, 0, BoardCellInteract::Open).unwrap();
    let cells = vec![vec![BoardValue::Open(1), BoardValue::Flag]];
    session.apply_cell_update(CellUpdate::All { cells: cells.clone() });
    assert_eq!(session.board(), &cells);
    assert_eq!(session.status(), GameStatus::Open);
}

#[test]
fn update_value_at_covers_named_cells() {
    let all = CellUpdate::All {
        cells: vec![vec![BoardValue::Open(4), BoardValue::Mine]],
    };
    assert_eq!(all.value_at(0, 1), Some(BoardValue::Mine));
    assert_eq!(all.value_at(0, 2), None);
    assert_eq!(all.value_at(1, 0), None);
    let single = CellUpdate::Single {
        row: 2,
        column: 3,
        value: BoardValue::Flag,
    };
    assert_eq!(single.value_at(2, 3), Some(BoardValue::Flag));
    assert_eq!(single.value_at(3, 2), None);
}
