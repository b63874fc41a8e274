//! The selection state machine: consumes resolved pointer clicks, drives
//! piece relocations on the board, and exposes the current selection and
//! per-square highlight categories for a renderer.

use vstd::prelude::*;

use crate::board::BoardError;
use crate::board::BoardState;
use crate::board::BoardView;
use crate::board::Coordinate;
use crate::board::PieceId;

verus! {

/// What the controller currently holds between clicks. A click that lands on
/// a square always knows the square's occupant at once, so an occupied-square
/// click selects the piece directly and an empty-square click selects
/// nothing: no separate bare-square selection state is reachable, and none is
/// represented.
#[derive(Clone, Copy, PartialEq, Eq, Structural, Debug)]
pub enum SelectionState {
    /// Nothing selected.
    Empty,
    /// A piece and the square it was picked up from, awaiting a destination
    /// click.
    PieceSelected(PieceId, Coordinate),
}

/// Mathematical model of a controller: the board model plus the selection.
#[verifier::ext_equal]
pub struct ControllerView {
    pub board: BoardView,
    pub state: SelectionState,
}

impl ControllerView {
    /// A sound controller: the board is well formed, and a held selection
    /// names the piece the board records at the selected square.
    pub open spec fn wf(self) -> bool {
        &&& self.board.wf()
        &&& self.state matches SelectionState::PieceSelected(id, c) ==> c.valid()
            && self.board.occupant(c) == Some(id)
    }

    /// The controller after one click, resolved by the picking layer to a
    /// board coordinate or to none:
    /// with nothing selected, a click off the board or on an empty square
    /// changes nothing, and a click on an occupied square picks that piece
    /// up; with a piece selected, a click off the board only deselects, and a
    /// click on any square commits an unconditional move there and deselects.
    pub open spec fn step(self, resolved: Option<Coordinate>) -> ControllerView {
        match self.state {
            SelectionState::Empty => match resolved {
                None => self,
                Some(c) => match self.board.occupant(c) {
                    Some(id) => ControllerView {
                        state: SelectionState::PieceSelected(id, c),
                        ..self
                    },
                    None => self,
                },
            },
            SelectionState::PieceSelected(id, _from) => match resolved {
                None => ControllerView { state: SelectionState::Empty, ..self },
                Some(to) => ControllerView {
                    board: self.board.move_piece_spec(id, to),
                    state: SelectionState::Empty,
                },
            },
        }
    }

    /// The click evicts no occupant record: either no move is committed, or
    /// the destination square records nothing, or only the moving piece
    /// itself.
    pub open spec fn evicts_nothing(self, resolved: Option<Coordinate>) -> bool {
        match (self.state, resolved) {
            (SelectionState::PieceSelected(id, _from), Some(to)) => self.board.occupant(to)
                is None || self.board.occupant(to) == Some(id),
            _ => true,
        }
    }
}

/// The highlight category a renderer paints one square with.
#[derive(Clone, Copy, PartialEq, Eq, Structural, Debug)]
pub enum Highlight {
    /// The square under the cursor.
    UnderCursor,
    /// The square the current selection was picked up from.
    Selected,
    /// Light base color of the checker pattern.
    LightBase,
    /// Dark base color of the checker pattern.
    DarkBase,
}

/// The highlight a square gets, in precedence order: under-cursor beats
/// selected-square beats the light/dark base of the checker pattern.
pub open spec fn highlight_spec(
    square: Coordinate,
    under_cursor: Option<Coordinate>,
    selection: SelectionState,
) -> Highlight {
    if under_cursor == Some(square) {
        Highlight::UnderCursor
    } else if selection matches SelectionState::PieceSelected(_id, c) && c == square {
        Highlight::Selected
    } else if square.is_white_spec() {
        Highlight::LightBase
    } else {
        Highlight::DarkBase
    }
}

/// The highlight category for one square, given the square under the cursor
/// (if any) and the current selection: exactly `highlight_spec`.
pub fn highlight_for(
    square: Coordinate,
    under_cursor: Option<Coordinate>,
    selection: SelectionState,
) -> (h: Highlight)
    ensures
        h == highlight_spec(square, under_cursor, selection),
{
    let hovered = match under_cursor {
        Some(u) => u == square,
        None => false,
    };
    if hovered {
        Highlight::UnderCursor
    } else {
        let selected = match selection {
            SelectionState::PieceSelected(_id, c) => c == square,
            SelectionState::Empty => false,
        };
        if selected {
            Highlight::Selected
        } else if square.is_white() {
            Highlight::LightBase
        } else {
            Highlight::DarkBase
        }
    }
}

/// The selection state machine. It exclusively owns the board: clicks are the
/// only mutation, and renderers read piece positions and the current
/// selection through it.
pub struct SelectionController {
    board: BoardState,
    state: SelectionState,
}

impl View for SelectionController {
    type V = ControllerView;

    closed spec fn view(&self) -> ControllerView {
        ControllerView { board: self.board@, state: self.state }
    }
}

impl SelectionController {
    /// Takes ownership of a board; nothing is selected yet.
    pub fn new(board: BoardState) -> (ctl: SelectionController)
        requires
            board@.wf(),
        ensures
            ctl@ == (ControllerView { board: board@, state: SelectionState::Empty }),
            ctl@.wf(),
    {
        SelectionController { board, state: SelectionState::Empty }
    }

    /// The current selection, for highlight rendering. Read-only.
    pub fn current_selection(&self) -> (s: SelectionState)
        ensures
            s == self@.state,
    {
        self.state
    }

    /// Read access to the board, for occupant and piece-position queries.
    pub fn board(&self) -> (b: &BoardState)
        ensures
            b@ == self@.board,
    {
        &self.board
    }

    /// Consumes one resolved click and performs exactly the transition that
    /// `ControllerView::step` describes. Never fails: an unresolved click is
    /// an ordinary branch, and a held selection always names a live piece, so
    /// the committed move cannot be refused.
    pub fn handle_click(&mut self, resolved: Option<Coordinate>)
        requires
            old(self)@.wf(),
            resolved matches Some(c) ==> c.valid(),
        ensures
            final(self)@ == old(self)@.step(resolved),
            final(self)@.wf(),
            old(self)@.board.synced() && old(self)@.evicts_nothing(resolved)
                ==> final(self)@.board.synced(),
    {
        match self.state {
            SelectionState::Empty => {
                if let Some(c) = resolved {
                    match self.board.occupant_at(c) {
                        Some(id) => {
                            self.state = SelectionState::PieceSelected(id, c);
                        },
                        None => (),
                    }
                }
            },
            SelectionState::PieceSelected(id, _from) => {
                self.state = SelectionState::Empty;
                if let Some(to) = resolved {
                    let moved = self.board.move_piece(id, to);
                    match moved {
                        Ok(()) => (),
                        Err(BoardError::InvalidPieceId) => {
                            // A held selection always names a live piece.
                            proof {
                                assert(false);
                            }
                        },
                    }
                }
            },
        }
    }
}

} // verus!
