//! Classification of a click on a cell into the move it stands for, and the
//! value a cell shows at once, before the server answers.
use vstd::prelude::*;

use crate::board_value::BoardValue;

verus! {

/// A click on a cell, as the input signal gives it: with a modifier key held
/// (alt or ctrl) it asks for a flag, without one it asks to open.
#[derive(Clone, Copy, Debug, PartialEq, Eq, Structural)]
pub enum BoardCellInteract {
    Flag,
    Open,
}

/// The move that an interaction with a cell makes.
#[derive(Clone, Copy, Debug, PartialEq, Eq, Structural)]
pub enum CellInteractKind {
    Flag,
    RemoveFlag,
    Open,
}

/// An interaction with the cell at (`row`, `column`).
#[derive(Clone, Copy, Debug, PartialEq, Eq, Structural)]
pub struct CellInteract {
    pub row: usize,
    pub column: usize,
    pub kind: CellInteractKind,
}

/// The input signal of a click, given whether alt and ctrl were held.
pub open spec fn signal_of_modifiers(alt: bool, ctrl: bool) -> BoardCellInteract {
    if alt || ctrl {
        BoardCellInteract::Flag
    } else {
        BoardCellInteract::Open
    }
}

/// The move that a click makes on a cell showing `current`: a flagged cell is
/// always unflagged; a closed cell clicked with a modifier is flagged; any
/// other click opens.
pub open spec fn classification(
    current: BoardValue,
    input: BoardCellInteract,
) -> CellInteractKind {
    if current == BoardValue::Flag {
        CellInteractKind::RemoveFlag
    } else if current == BoardValue::Closed && input == BoardCellInteract::Flag {
        CellInteractKind::Flag
    } else {
        CellInteractKind::Open
    }
}

/// The value a cell shows as soon as a move is made on it, before any answer
/// from the server: what is known without it.
pub open spec fn optimistic(kind: CellInteractKind) -> BoardValue {
    match kind {
        CellInteractKind::RemoveFlag => BoardValue::Closed,
        CellInteractKind::Flag => BoardValue::Flag,
        CellInteractKind::Open => BoardValue::Pending,
    }
}

impl BoardCellInteract {
    /// The input signal of a click: `Flag` when alt or ctrl was held.
    pub fn from_modifiers(alt: bool, ctrl: bool) -> (r: BoardCellInteract)
        ensures
            r == signal_of_modifiers(alt, ctrl),
    {
        if alt || ctrl {
            BoardCellInteract::Flag
        } else {
            BoardCellInteract::Open
        }
    }
}

impl CellInteractKind {
    /// The move asked for by a click, before the cell's value is considered:
    /// `Flag` when alt or ctrl was held, else `Open`.
    pub fn from_modifiers(alt: bool, ctrl: bool) -> (r: CellInteractKind)
        ensures
            r == (if alt || ctrl {
                CellInteractKind::Flag
            } else {
                CellInteractKind::Open
            }),
    {
        if alt || ctrl {
            CellInteractKind::Flag
        } else {
            CellInteractKind::Open
        }
    }

    /// The value a cell shows as soon as this move is made on it: `Closed` for
    /// `RemoveFlag`, `Flag` for `Flag`, `Pending` for `Open`.
    pub fn optimistic_value(&self) -> (r: BoardValue)
        ensures
            r == optimistic(*self),
    {
        match self {
            CellInteractKind::RemoveFlag => BoardValue::Closed,
            CellInteractKind::Flag => BoardValue::Flag,
            CellInteractKind::Open => BoardValue::Pending,
        }
    }
}

/// The move that a click makes on a cell showing `current`.
pub fn classify(current: BoardValue, input: BoardCellInteract) -> (r: CellInteractKind)
    ensures
        r == classification(current, input),
{
    match (current, input) {
        (BoardValue::Flag, _) => CellInteractKind::RemoveFlag,
        (BoardValue::Closed, BoardCellInteract::Flag) => CellInteractKind::Flag,
        _ => CellInteractKind::Open,
    }
}

/// Classification is deterministic: the same cell value and the same input
/// signal always give the same move, whatever else differs between the calls.
pub proof fn lemma_classification_deterministic(
    current1: BoardValue,
    input1: BoardCellInteract,
    current2: BoardValue,
    input2: BoardCellInteract,
)
    requires
        current1 == current2,
        input1 == input2,
    ensures
        classification(current1, input1) == classification(current2, input2),
{
}

} // verus!
