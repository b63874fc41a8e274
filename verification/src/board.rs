//! The board: pieces, coordinates, and the occupancy record that maps each
//! square to the piece sitting on it, if any.

use vstd::prelude::*;

verus! {

/// Identifies a live piece: an index into the board's piece table.
pub type PieceId = usize;

/// One of the 64 squares, as a (file, rank) pair, each in [0, 8).
#[derive(Clone, Copy, PartialEq, Eq, Structural, Debug)]
pub struct Coordinate {
    pub file: u8,
    pub rank: u8,
}

impl Coordinate {
    /// Both components name one of the eight files / ranks.
    pub open spec fn valid(self) -> bool {
        self.file < 8 && self.rank < 8
    }

    /// The square's position in a row-major scan of the board.
    pub open spec fn index(self) -> int {
        self.file * 8 + self.rank
    }

    /// Whether the square gets the light base color in the alternating
    /// checker pattern.
    pub open spec fn is_white_spec(self) -> bool {
        (self.file + self.rank + 1) % 2 == 0
    }

    pub fn new(file: u8, rank: u8) -> (c: Coordinate)
        requires
            file < 8,
            rank < 8,
        ensures
            c == (Coordinate { file, rank }),
            c.valid(),
    {
        Coordinate { file, rank }
    }

    pub fn is_white(&self) -> (r: bool)
        ensures
            r == self.is_white_spec(),
    {
        (self.file as usize + self.rank as usize + 1) % 2 == 0
    }
}

/// Two distinct valid coordinates never share a row-major index.
pub proof fn lemma_index_injective(a: Coordinate, b: Coordinate)
    requires
        a.valid(),
        b.valid(),
        a.index() == b.index(),
    ensures
        a == b,
{
}

/// The side a piece belongs to.
#[derive(Clone, Copy, PartialEq, Eq, Structural, Debug)]
pub enum PieceColor {
    White,
    Black,
}

/// The kind of a piece.
#[derive(Clone, Copy, PartialEq, Eq, Structural, Debug)]
pub enum PieceKind {
    King,
    Queen,
    Bishop,
    Knight,
    Rook,
    Pawn,
}

/// A piece. Its `position` field is the single source of truth for where the
/// piece logically stands; only a committed move rewrites it.
#[derive(Clone, Copy, PartialEq, Eq, Structural, Debug)]
pub struct Piece {
    pub color: PieceColor,
    pub kind: PieceKind,
    pub position: Coordinate,
}

/// The one failure the board can report: a piece identifier that names no
/// live piece. A logic error in the caller; the board is left unchanged.
#[derive(Clone, Copy, PartialEq, Eq, Structural, Debug)]
pub enum BoardError {
    InvalidPieceId,
}

/// Mathematical model of a board: the piece table as a sequence, and the
/// occupancy record as a 64-entry sequence over row-major square indices.
#[verifier::ext_equal]
pub struct BoardView {
    pub pieces: Seq<Piece>,
    pub squares: Seq<Option<PieceId>>,
}

impl BoardView {
    /// The piece recorded at a square, if any.
    pub open spec fn occupant(self, c: Coordinate) -> Option<PieceId> {
        self.squares[c.index()]
    }

    /// Structural soundness: one occupancy entry per square, every piece on a
    /// real square, and every recorded occupant a live piece that stands
    /// where the record says.
    pub open spec fn wf(self) -> bool {
        &&& self.squares.len() == 64
        &&& self.pieces.len() <= usize::MAX
        &&& forall|i: int|
            0 <= i < self.pieces.len() ==> (#[trigger] self.pieces[i]).position.valid()
        &&& forall|s: int|
            0 <= s < 64 ==> ((#[trigger] self.squares[s]) matches Some(id) ==> id
                < self.pieces.len() && self.pieces[id as int].position.index() == s)
    }

    /// The occupancy record and the pieces' own position fields agree in both
    /// directions: every piece is recorded exactly at its position. Holds of a
    /// fresh board and of every board mutated only by moves onto squares that
    /// were empty (or onto the mover's own square); a move that evicts an
    /// occupant leaves the evicted piece's position field stale and breaks it.
    pub open spec fn synced(self) -> bool {
        forall|i: int|
            0 <= i < self.pieces.len() ==> self.squares[(#[trigger] self.pieces[i]).position.index()]
                == Some(i as PieceId)
    }

    /// The board after relocating piece `id` to `to`: the mover's old square
    /// is cleared, the destination records the mover (silently overwriting
    /// any previous occupant record), and the mover's position becomes `to`.
    pub open spec fn move_piece_spec(self, id: PieceId, to: Coordinate) -> BoardView {
        BoardView {
            pieces: self.pieces.update(
                id as int,
                (Piece { position: to, ..self.pieces[id as int] }),
            ),
            squares: self.squares.update(self.pieces[id as int].position.index(), None).update(
                to.index(),
                Some(id),
            ),
        }
    }
}

/// In a well-formed, synced board no two pieces report the same position: the
/// occupancy record holds at most one entry per square, and synced boards
/// record every piece at its own position.
pub proof fn lemma_at_most_one_piece_per_square(b: BoardView, i: int, j: int)
    requires
        b.wf(),
        b.synced(),
        0 <= i < b.pieces.len(),
        0 <= j < b.pieces.len(),
        b.pieces[i].position == b.pieces[j].position,
    ensures
        i == j,
{
    assert(b.squares[b.pieces[i].position.index()] == Some(i as PieceId));
    assert(b.squares[b.pieces[j].position.index()] == Some(j as PieceId));
}

/// The file a piece of the standard layout starts on: white back rank, white
/// pawns, black back rank, black pawns, eight pieces each.
pub open spec fn standard_file(i: int) -> u8 {
    if i < 8 {
        0
    } else if i < 16 {
        1
    } else if i < 24 {
        7
    } else {
        6
    }
}

/// The kind of piece `i` of the standard layout: each back rank runs rook,
/// knight, bishop, queen, king, bishop, knight, rook; the other two ranks are
/// pawns.
pub open spec fn standard_kind(i: int) -> PieceKind {
    if (8 <= i && i < 16) || 24 <= i {
        PieceKind::Pawn
    } else {
        let r = i % 8;
        if r == 0 || r == 7 {
            PieceKind::Rook
        } else if r == 1 || r == 6 {
            PieceKind::Knight
        } else if r == 2 || r == 5 {
            PieceKind::Bishop
        } else if r == 3 {
            PieceKind::Queen
        } else {
            PieceKind::King
        }
    }
}

/// Piece `i` of the standard 32-piece starting layout: pieces 0..16 are
/// white, 16..32 black, each rank filled in rank order.
pub open spec fn standard_piece(i: int) -> Piece {
    Piece {
        color: if i < 16 {
            PieceColor::White
        } else {
            PieceColor::Black
        },
        kind: standard_kind(i),
        position: Coordinate { file: standard_file(i), rank: (i % 8) as u8 },
    }
}

/// The standard starting layout as a piece table.
pub open spec fn standard_pieces() -> Seq<Piece> {
    Seq::new(32, |i: int| standard_piece(i))
}

/// No two pieces of the standard layout start on the same square.
proof fn lemma_standard_positions_distinct(i: int, j: int)
    requires
        0 <= i < 32,
        0 <= j < 32,
        i != j,
    ensures
        standard_piece(i).position.index() != standard_piece(j).position.index(),
{
}

/// Piece `i` of the standard layout, built to match `standard_piece`.
fn standard_piece_at(i: usize) -> (p: Piece)
    requires
        i < 32,
    ensures
        p == standard_piece(i as int),
{
    let color = if i < 16 {
        PieceColor::White
    } else {
        PieceColor::Black
    };
    let file: u8 = if i < 8 {
        0
    } else if i < 16 {
        1
    } else if i < 24 {
        7
    } else {
        6
    };
    let rank: u8 = (i % 8) as u8;
    let back_rank = i < 8 || (16 <= i && i < 24);
    let kind = if !back_rank {
        PieceKind::Pawn
    } else {
        let r = i % 8;
        if r == 0 || r == 7 {
            PieceKind::Rook
        } else if r == 1 || r == 6 {
            PieceKind::Knight
        } else if r == 2 || r == 5 {
            PieceKind::Bishop
        } else if r == 3 {
            PieceKind::Queen
        } else {
            PieceKind::King
        }
    };
    Piece { color, kind, position: Coordinate { file, rank } }
}

/// The board: a piece table indexed by `PieceId` and an occupancy record,
/// one entry per square, kept in step with piece moves.
pub struct BoardState {
    pieces: Vec<Piece>,
    squares: Vec<Option<PieceId>>,
}

impl View for BoardState {
    type V = BoardView;

    closed spec fn view(&self) -> BoardView {
        BoardView { pieces: self.pieces@, squares: self.squares@ }
    }
}

/// Row-major index of a square, for the occupancy record.
fn square_index(c: Coordinate) -> (s: usize)
    requires
        c.valid(),
    ensures
        s == c.index(),
        s < 64,
{
    c.file as usize * 8 + c.rank as usize
}

impl BoardState {
    /// A board holding the 32 pieces of the standard starting layout, each
    /// recorded at its starting square.
    pub fn standard() -> (b: BoardState)
        ensures
            b@.wf(),
            b@.synced(),
            b@.pieces == standard_pieces(),
    {
        let mut pieces: Vec<Piece> = Vec::new();
        let mut i: usize = 0;
        while i < 32
            invariant
                i <= 32,
                pieces@.len() == i,
                forall|j: int| 0 <= j < i ==> pieces@[j] == standard_piece(j),
            decreases 32 - i,
        {
            pieces.push(standard_piece_at(i));
            i += 1;
        }
        let mut squares: Vec<Option<PieceId>> = Vec::new();
        let mut s: usize = 0;
        while s < 64
            invariant
                s <= 64,
                squares@.len() == s,
                forall|t: int| 0 <= t < s ==> (#[trigger] squares@[t]) is None,
            decreases 64 - s,
        {
            squares.push(None);
            s += 1;
        }
        let mut k: usize = 0;
        while k < 32
            invariant
                k <= 32,
                pieces@.len() == 32,
                forall|j: int| 0 <= j < 32 ==> pieces@[j] == standard_piece(j),
                squares@.len() == 64,
                forall|t: int|
                    0 <= t < 64 ==> ((#[trigger] squares@[t]) matches Some(id) ==> id < k
                        && standard_piece(id as int).position.index() == t),
                forall|j: int|
                    0 <= j < k ==> squares@[(#[trigger] pieces@[j]).position.index()] == Some(
                        j as PieceId,
                    ),
            decreases 32 - k,
        {
            proof {
                assert forall|j: int|
                    0 <= j < k implies (#[trigger] pieces@[j]).position.index()
                    != pieces@[k as int].position.index() by {
                    lemma_standard_positions_distinct(j, k as int);
                }
            }
            proof {
                assert(pieces@[k as int] == standard_piece(k as int));
                assert(pieces@[k as int].position.valid());
            }
            let idx = square_index(pieces[k].position);
            squares.set(idx, Some(k));
            k += 1;
        }
        let b = BoardState { pieces, squares };
        proof {
            assert(b@.pieces =~= standard_pieces());
        }
        b
    }

    /// How many pieces the board tracks; identifiers below this count name a
    /// live piece.
    pub fn num_pieces(&self) -> (n: usize)
        ensures
            n == self@.pieces.len(),
    {
        self.pieces.len()
    }

    /// The piece a live identifier names.
    pub fn piece(&self, id: PieceId) -> (p: Piece)
        requires
            id < self@.pieces.len(),
        ensures
            p == self@.pieces[id as int],
    {
        self.pieces[id]
    }

    /// The piece recorded at `c`, if any: a plain read of the occupancy
    /// record, no side effects.
    pub fn occupant_at(&self, c: Coordinate) -> (r: Option<PieceId>)
        requires
            self@.wf(),
            c.valid(),
        ensures
            r == self@.occupant(c),
            r matches Some(id) ==> id < self@.pieces.len() && self@.pieces[id as int].position
                == c,
    {
        let s = square_index(c);
        let r = self.squares[s];
        proof {
            if let Some(id) = r {
                lemma_index_injective(self@.pieces[id as int].position, c);
            }
        }
        r
    }

    /// Unconditionally relocates piece `id` to `to`: no legality check, no
    /// turn order, no special case for `to` equal to the piece's own square.
    /// Whatever occupant the destination recorded is silently overwritten;
    /// the evicted piece's own position field is left stale (a known gap of
    /// the move flow, kept as such). Fails, leaving the board unchanged, only
    /// when `id` names no live piece.
    pub fn move_piece(&mut self, id: PieceId, to: Coordinate) -> (r: Result<(), BoardError>)
        requires
            old(self)@.wf(),
            to.valid(),
        ensures
            final(self)@.wf(),
            r is Ok <==> id < old(self)@.pieces.len(),
            r matches Err(e) ==> e == BoardError::InvalidPieceId && final(self)@ == old(self)@,
            id < old(self)@.pieces.len() ==> final(self)@ == old(self)@.move_piece_spec(id, to),
            id < old(self)@.pieces.len() ==> final(self)@.occupant(to) == Some(id)
                && final(self)@.pieces[id as int].position == to,
            id < old(self)@.pieces.len() && old(self)@.pieces[id as int].position != to
                ==> final(self)@.occupant(old(self)@.pieces[id as int].position) is None,
            old(self)@.synced() && (old(self)@.occupant(to) is None || old(self)@.occupant(to)
                == Some(id)) && id < old(self)@.pieces.len() ==> final(self)@.synced(),
    {
        if id >= self.pieces.len() {
            return Err(BoardError::InvalidPieceId);
        }
        let from = self.pieces[id].position;
        let from_index = square_index(from);
        let to_index = square_index(to);
        self.squares.set(from_index, None);
        self.squares.set(to_index, Some(id));
        let moved = Piece { position: to, ..self.pieces[id] };
        self.pieces.set(id, moved);
        proof {
            lemma_move_preserves_wf(old(self)@, id, to);
            assert(self@ =~= old(self)@.move_piece_spec(id, to));
            if old(self)@.synced() && (old(self)@.occupant(to) is None || old(self)@.occupant(to)
                == Some(id)) {
                lemma_move_to_free_square_preserves_synced(old(self)@, id, to);
            }
        }
        Ok(())
    }
}

/// A move keeps the board well-formed: the destination records the mover at
/// its new position, the vacated square records nothing, and every other
/// record is untouched.
pub proof fn lemma_move_preserves_wf(b: BoardView, id: PieceId, to: Coordinate)
    requires
        b.wf(),
        to.valid(),
        id < b.pieces.len(),
    ensures
        b.move_piece_spec(id, to).wf(),
{
    let after = b.move_piece_spec(id, to);
    let from_index = b.pieces[id as int].position.index();
    assert forall|s: int|
        0 <= s < 64 implies ((#[trigger] after.squares[s]) matches Some(o) ==> o
            < after.pieces.len() && after.pieces[o as int].position.index() == s) by {
        if after.squares[s] is Some {
            let o = after.squares[s]->Some_0;
            if s == to.index() {
                assert(o == id);
            } else {
                assert(s != to.index() && s != from_index);
                assert(b.squares[s] == Some(o));
                assert(b.pieces[o as int].position.index() == s);
                assert(o != id);
            }
        }
    }
}

/// A move onto a square that records no occupant (or only the mover itself)
/// keeps the occupancy record and the position fields in step.
pub proof fn lemma_move_to_free_square_preserves_synced(b: BoardView, id: PieceId, to: Coordinate)
    requires
        b.wf(),
        b.synced(),
        to.valid(),
        id < b.pieces.len(),
        b.occupant(to) is None || b.occupant(to) == Some(id),
    ensures
        b.move_piece_spec(id, to).synced(),
{
    let after = b.move_piece_spec(id, to);
    let from_index = b.pieces[id as int].position.index();
    assert forall|i: int|
        0 <= i < after.pieces.len() implies after.squares[(#[trigger] after.pieces[i]).position.index()]
            == Some(i as PieceId) by {
        if i == id {
            assert(after.pieces[i].position == to);
        } else {
            let t = b.pieces[i].position.index();
            assert(b.squares[t] == Some(i as PieceId));
            assert(t != from_index) by {
                if t == from_index {
                    assert(b.squares[from_index] == Some(id));
                }
            }
            assert(t != to.index()) by {
                if t == to.index() {
                    assert(b.occupant(to) == Some(i as PieceId));
                }
            }
            assert(after.pieces[i] == b.pieces[i]);
            assert(after.squares[t] == b.squares[t]);
        }
    }
}

} // verus!

