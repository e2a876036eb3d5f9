use vstd::prelude::*;

use crate::piece::{square_after_move, square_can_move, Color, Piece, PieceKind, Square};
use crate::position::Position;

verus! {

broadcast use vstd::array::group_array_axioms;

/// The kind of piece that starts on the given file of a back rank.
pub open spec fn back_rank_kind(file: int) -> PieceKind {
    if file == 0 || file == 7 {
        PieceKind::Rook
    } else if file == 1 || file == 6 {
        PieceKind::Knight
    } else if file == 2 || file == 5 {
        PieceKind::Bishop
    } else if file == 3 {
        PieceKind::Queen
    } else {
        PieceKind::King
    }
}

/// The square holds a piece of the given side and kind that has not moved.
pub open spec fn holds_fresh(square: Square, color: Color, kind: PieceKind) -> bool {
    square matches Square::Taken(piece) && piece.fresh(color, kind)
}

/// What stands on the square of the given rank and file when a game starts:
/// white on ranks 0 and 1, black on ranks 6 and 7, the rest empty.
pub open spec fn is_starting_square(square: Square, rank: int, file: int) -> bool {
    if rank == 0 {
        holds_fresh(square, Color::White, back_rank_kind(file))
    } else if rank == 1 {
        holds_fresh(square, Color::White, PieceKind::Pawn)
    } else if rank == 6 {
        holds_fresh(square, Color::Black, PieceKind::Pawn)
    } else if rank == 7 {
        holds_fresh(square, Color::Black, back_rank_kind(file))
    } else {
        square is Empty
    }
}

/// No piece on the starting board has moved yet.
pub proof fn lemma_starting_pieces_have_not_moved(square: Square, rank: int, file: int)
    requires
        is_starting_square(square, rank, file),
    ensures
        square matches Square::Taken(piece) ==> piece.spec_move_count() == 0,
{
}

/// The two armies start as mirror images of each other across the middle of the board: the
/// square of rank `r` and the square of rank `7 - r` on the same file are both empty, or hold
/// pieces of the same kind and the same move count on opposite sides, white on ranks 0 and 1.
pub proof fn lemma_starting_board_is_mirror_image(white: Square, black: Square, rank: int, file: int)
    requires
        0 <= rank < 8,
        0 <= file < 8,
        is_starting_square(white, rank, file),
        is_starting_square(black, 7 - rank, file),
    ensures
        (white is Empty) == (black is Empty),
        (white is Empty) == (2 <= rank < 6),
        white matches Square::Taken(w) ==> (black matches Square::Taken(b) && b.spec_kind()
            == w.spec_kind() && b.spec_move_count() == w.spec_move_count() && (rank < 2 ==> (
        w.spec_color() == Color::White && b.spec_color() == Color::Black)) && (rank >= 6 ==> (
        w.spec_color() == Color::Black && b.spec_color() == Color::White))),
{
}

/// Whether a piece stands on the square, as a number.
pub open spec fn occupancy(square: Square) -> int {
    if square is Taken {
        1
    } else {
        0
    }
}

/// The number of pieces on the squares.
pub open spec fn piece_count(squares: Seq<Square>) -> int
    decreases squares.len(),
{
    if squares.len() == 0 {
        0
    } else {
        piece_count(squares.drop_last()) + occupancy(squares.last())
    }
}

/// Replacing one square changes the number of pieces by what the new square holds minus what
/// the old one held.
pub proof fn lemma_piece_count_update(squares: Seq<Square>, i: int, square: Square)
    requires
        0 <= i < squares.len(),
    ensures
        piece_count(squares.update(i, square)) == piece_count(squares) - occupancy(squares[i])
            + occupancy(square),
    decreases squares.len(),
{
    let updated = squares.update(i, square);
    if i == squares.len() - 1 {
        assert(updated.drop_last() =~= squares.drop_last());
    } else {
        assert(updated.drop_last() =~= squares.drop_last().update(i, square));
        lemma_piece_count_update(squares.drop_last(), i, square);
    }
}

/// The 64 squares of a board, stored rank by rank.
#[derive(Copy, Clone, Debug)]
pub struct Board {
    squares: [Square; 64],
}

impl View for Board {
    type V = Seq<Square>;

    closed spec fn view(&self) -> Seq<Square> {
        self.squares@
    }
}

impl Board {
    /// What stands on the given square.
    pub open spec fn at(self, position: Position) -> Square {
        self@[position.square_index()]
    }

    /// The board after the piece on `from` went to `to`: it counts one more move, `to` holds it,
    /// whatever stood there is gone, and `from` is empty. Moving onto the same square changes
    /// nothing.
    pub open spec fn after_move(self, from: Position, to: Position) -> Seq<Square> {
        if from == to {
            self@
        } else {
            self@.update(to.square_index(), square_after_move(self.at(from))).update(
                from.square_index(),
                Square::Empty,
            )
        }
    }

    /// A board always has 64 squares.
    pub proof fn lemma_len(self)
        ensures
            self@.len() == 64,
    {
    }

    /// The board with which a game starts.
    pub fn new() -> (b: Board)
        ensures
            b@.len() == 64,
            forall|i: int| 0 <= i < 64 ==> is_starting_square(#[trigger] b@[i], i / 8, i % 8),
    {
        let mut squares: [Square; 64] = vstd::array::array_fill_for_copy_types(Square::Empty);

        // rank 0
        squares[0] = Square::Taken(Piece::white(PieceKind::Rook));
        squares[1] = Square::Taken(Piece::white(PieceKind::Knight));
        squares[2] = Square::Taken(Piece::white(PieceKind::Bishop));
        squares[3] = Square::Taken(Piece::white(PieceKind::Queen));
        squares[4] = Square::Taken(Piece::white(PieceKind::King));
        squares[5] = Square::Taken(Piece::white(PieceKind::Bishop));
        squares[6] = Square::Taken(Piece::white(PieceKind::Knight));
        squares[7] = Square::Taken(Piece::white(PieceKind::Rook));
        // rank 1
        for i in 0..8
            invariant
                forall|j: int| 0 <= j < 8 ==> is_starting_square(#[trigger] squares@[j], 0, j),
                forall|j: int| 8 <= j < 8 + i ==> holds_fresh(#[trigger] squares@[j], Color::White, PieceKind::Pawn),
                forall|j: int| 8 + i <= j < 64 ==> (#[trigger] squares@[j]) is Empty,
        {
            squares[8 + i] = Square::Taken(Piece::white(PieceKind::Pawn));
        }
        // rank 6
        for i in 0..8
            invariant
                forall|j: int| 0 <= j < 8 ==> is_starting_square(#[trigger] squares@[j], 0, j),
                forall|j: int| 8 <= j < 16 ==> holds_fresh(#[trigger] squares@[j], Color::White, PieceKind::Pawn),
                forall|j: int| 16 <= j < 48 ==> (#[trigger] squares@[j]) is Empty,
                forall|j: int| 48 <= j < 48 + i ==> holds_fresh(#[trigger] squares@[j], Color::Black, PieceKind::Pawn),
                forall|j: int| 48 + i <= j < 64 ==> (#[trigger] squares@[j]) is Empty,
        {
            squares[8 * 6 + i] = Square::Taken(Piece::black(PieceKind::Pawn));
        }
        // rank 7
        squares[56] = Square::Taken(Piece::black(PieceKind::Rook));
        squares[57] = Square::Taken(Piece::black(PieceKind::Knight));
        squares[58] = Square::Taken(Piece::black(PieceKind::Bishop));
        squares[59] = Square::Taken(Piece::black(PieceKind::Queen));
        squares[60] = Square::Taken(Piece::black(PieceKind::King));
        squares[61] = Square::Taken(Piece::black(PieceKind::Bishop));
        squares[62] = Square::Taken(Piece::black(PieceKind::Knight));
        squares[63] = Square::Taken(Piece::black(PieceKind::Rook));

        let b = Board { squares };
        assert forall|i: int| 0 <= i < 64 implies is_starting_square(#[trigger] b@[i], i / 8, i % 8) by {
            if 56 <= i {
                assert(i / 8 == 7);
            } else if 48 <= i {
                assert(i / 8 == 6);
            } else if 16 <= i {
                assert(2 <= i / 8 <= 5);
            } else if 8 <= i {
                assert(i / 8 == 1);
            } else {
                assert(i / 8 == 0);
            }
        }
        b
    }

    /// A board with no piece on it.
    pub fn empty() -> (b: Board)
        ensures
            b@.len() == 64,
            forall|i: int| 0 <= i < 64 ==> (#[trigger] b@[i]) is Empty,
    {
        Board { squares: vstd::array::array_fill_for_copy_types(Square::Empty) }
    }

    /// Places `piece` on `position`, replacing whatever stood there.
    pub fn put(&mut self, position: Position, piece: Piece)
        ensures
            final(self)@ == old(self)@.update(position.square_index(), Square::Taken(piece)),
    {
        let index = Self::index(&position);
        self.squares[index] = Square::Taken(piece);
    }

    /// Where the square is stored.
    fn index(position: &Position) -> (i: usize)
        ensures
            i == position.square_index(),
            i < 64,
    {
        position.row() * 8 + position.col()
    }

    /// What stands on the given square.
    pub fn square(&self, position: &Position) -> (s: Square)
        ensures
            s == self.at(*position),
    {
        self.squares[Self::index(position)]
    }

    /// Moves whatever stands on `from` to `to`, counting one more move for it and leaving `from`
    /// empty; nothing happens when the squares are the same. The move count must not overflow.
    pub fn move_piece(&mut self, from: &Position, to: &Position)
        requires
            *from != *to ==> square_can_move(old(self).at(*from)),
        ensures
            final(self)@ == old(self).after_move(*from, *to),
    {
        if from == to {
            return;
        }
        let from_index = Self::index(from);
        let to_index = Self::index(to);
        self.squares[to_index] = self.squares[from_index].increase_move_count();
        self.squares[from_index] = Square::Empty;
    }
}

impl Default for Board {
    fn default() -> (b: Board)
        ensures
            b@.len() == 64,
            forall|i: int| 0 <= i < 64 ==> is_starting_square(#[trigger] b@[i], i / 8, i % 8),
    {
        Board::new()
    }
}

} // verus!
