//! Laws of the selection flow, stated and proved over the mathematical models
//! of the board and the controller.

use vstd::prelude::*;

use crate::board::Coordinate;
use crate::board::PieceId;
use crate::selection::ControllerView;
use crate::selection::SelectionState;

verus! {

/// Law: any click that evicts no occupant record keeps the controller sound
/// and keeps the occupancy record in step with every piece's position field,
/// so, by `lemma_at_most_one_piece_per_square`, at most one piece reports any
/// given coordinate in every state reached through such clicks. A click that
/// commits a move onto an occupied square is the one exception: it leaves the
/// evicted piece's position field stale.
pub proof fn lemma_step_preserves_invariant(v: ControllerView, resolved: Option<Coordinate>)
    requires
        v.wf(),
        resolved matches Some(c) ==> c.valid(),
        v.board.synced(),
        v.evicts_nothing(resolved),
    ensures
        v.step(resolved).wf(),
        v.step(resolved).board.synced(),
{
    match (v.state, resolved) {
        (SelectionState::PieceSelected(id, _from), Some(to)) => {
            crate::board::lemma_move_preserves_wf(v.board, id, to);
            crate::board::lemma_move_to_free_square_preserves_synced(v.board, id, to);
        },
        _ => (),
    }
}

/// Law (idempotence): with nothing selected, clicking an empty square changes
/// nothing, so clicking it twice changes nothing either.
pub proof fn lemma_empty_square_click_idempotent(v: ControllerView, c: Coordinate)
    requires
        v.wf(),
        c.valid(),
        v.state is Empty,
        v.board.occupant(c) is None,
    ensures
        v.step(Some(c)) == v,
        v.step(Some(c)).step(Some(c)) == v,
{
}

/// Law (round trip): selecting a piece and then clicking its own square
/// commits a move to that same square, which returns the selection to empty
/// and leaves the board exactly as it was — every piece's position included.
pub proof fn lemma_select_then_reclick_round_trip(v: ControllerView, c: Coordinate, id: PieceId)
    requires
        v.wf(),
        c.valid(),
        v.state is Empty,
        v.board.occupant(c) == Some(id),
    ensures
        v.step(Some(c)).step(Some(c)) == v,
        v.step(Some(c)).step(Some(c)).state is Empty,
        v.step(Some(c)).step(Some(c)).board.pieces[id as int].position == v.board.pieces[
            id as int
        ].position,
{
    let after = v.step(Some(c)).step(Some(c));
    assert(after.board == v.board.move_piece_spec(id, c));
    crate::board::lemma_index_injective(v.board.pieces[id as int].position, c);
    assert(v.board.pieces[id as int].position == c);
    assert(after.board.pieces =~= v.board.pieces);
    assert(after.board.squares =~= v.board.squares);
    assert(after =~= v);
}

/// Law: a held selection exists only between two clicks. Whatever the next
/// click resolves to — off the board, or any square — it empties the
/// selection, so a selection never persists across a completed move.
pub proof fn lemma_selection_never_survives_a_click(
    v: ControllerView,
    resolved: Option<Coordinate>,
)
    requires
        v.state is PieceSelected,
    ensures
        v.step(resolved).state is Empty,
{
}

/// Law: a click the picking layer could not resolve to a square changes
/// nothing while nothing is selected.
pub proof fn lemma_unresolved_click_keeps_empty(v: ControllerView)
    requires
        v.state is Empty,
    ensures
        v.step(None) == v,
{
}

/// Law: a click off the board while a piece is selected only deselects: the
/// selection empties and the board is untouched.
pub proof fn lemma_unresolved_click_deselects(v: ControllerView)
    requires
        v.state is PieceSelected,
    ensures
        v.step(None).state is Empty,
        v.step(None).board == v.board,
{
}

} // verus!
