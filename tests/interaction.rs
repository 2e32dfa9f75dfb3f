use mines::{classify, BoardCellInteract, BoardValue, CellInteractKind};

#[test]
fn modifier_keys_give_flag_signal() {
    assert_eq!(BoardCellInteract::from_modifiers(false, false), BoardCellInteract::Open);
    assert_eq!(BoardCellInteract::from_modifiers(true, false), BoardCellInteract::Flag);
    assert_eq!(BoardCellInteract::from_modifiers(false, true), BoardCellInteract::Flag);
    assert_eq!(BoardCellInteract::from_modifiers(true, true), BoardCellInteract::Flag);
    assert_eq!(CellInteractKind::from_modifiers(false, false), CellInteractKind::Open);
    assert_eq!(CellInteractKind::from_modifiers(true, false), CellInteractKind::Flag);
    assert_eq!(CellInteractKind::from_modifiers(false, true), CellInteractKind::Flag);
}

#[test]
fn closed_cell_with_modifier_is_flagged() {
    let kind = classify(BoardValue::Closed, BoardCellInteract::Flag);
    assert_eq!(kind, CellInteractKind::Flag);
    assert_eq!(kind.optimistic_value(), BoardValue::Flag);
}

#[test]
fn flagged_cell_is_unflagged_by_any_click() {
    for input in [BoardCellInteract::Flag, BoardCellInteract::Open] {
        let kind = classify(BoardValue::Flag, input);
        assert_eq!(kind, CellInteractKind::RemoveFlag);
        assert_eq!(kind.optimistic_value(), BoardValue::Closed);
    }
}

#[test]
fn closed_cell_without_modifier_is_opened() {
    let kind = classify(BoardValue::Closed, BoardCellInteract::Open);
    assert_eq!(kind, CellInteractKind::Open);
    assert_eq!(kind.optimistic_value(), BoardValue::Pending);
}

#[test]
fn other_cells_are_opened() {
    for v in [BoardValue::Mine, BoardValue::Open(3), BoardValue::Pending] {
        for input in [BoardCellInteract::Flag, BoardCellInteract::Open] {
            assert_eq!(classify(v, input), CellInteractKind::Open);
        }
    }
}

#[test]
fn classification_is_deterministic() {
    let values = [
        BoardValue::Closed,
        BoardValue::Flag,
        BoardValue::Mine,
        BoardValue::Open(1),
        BoardValue::Pending,
    ];
    for v in values {
        for input in [BoardCellInteract::Flag, BoardCellInteract::Open] {
            let first = classify(v, input);
            for _ in 0..3 {
                assert_eq!(classify(v, input), first);
            }
        }
    }
}
