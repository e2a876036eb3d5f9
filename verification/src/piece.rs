use vstd::prelude::*;

use crate::position::{lemma_relations_in_coordinates, Position};

verus! {

/// The side a piece belongs to.
#[derive(Copy, Clone, PartialEq, Eq, Debug, Structural)]
pub enum Color {
    White,
    Black,
}

/// What a piece is.
#[derive(Copy, Clone, Debug)]
pub enum PieceKind {
    King,
    Queen,
    Rook,
    Bishop,
    Knight,
    Pawn,
}

/// The one-letter name of a kind of piece.
pub open spec fn ascii_symbol_of(kind: PieceKind) -> Seq<char> {
    match kind {
        PieceKind::King => "K"@,
        PieceKind::Queen => "Q"@,
        PieceKind::Rook => "R"@,
        PieceKind::Bishop => "B"@,
        PieceKind::Knight => "N"@,
        PieceKind::Pawn => "P"@,
    }
}

/// The chess symbol of a kind of piece (the filled glyphs, used for both sides).
pub open spec fn unicode_symbol_of(kind: PieceKind) -> Seq<char> {
    match kind {
        PieceKind::King => "\u{265A}"@,
        PieceKind::Queen => "\u{265B}"@,
        PieceKind::Rook => "\u{265C}"@,
        PieceKind::Bishop => "\u{265D}"@,
        PieceKind::Knight => "\u{265E}"@,
        PieceKind::Pawn => "\u{265F}"@,
    }
}

impl PieceKind {
    /// The one-letter name of the kind.
    pub fn ascii_symbol(self) -> (s: &'static str)
        ensures
            s@ == ascii_symbol_of(self),
    {
        match self {
            PieceKind::King => "K",
            PieceKind::Queen => "Q",
            PieceKind::Rook => "R",
            PieceKind::Bishop => "B",
            PieceKind::Knight => "N",
            PieceKind::Pawn => "P",
        }
    }
}

/// A piece on the board: its side, its kind and how many times it has moved.
#[derive(Copy, Clone, Debug)]
pub struct Piece {
    color: Color,
    kind: PieceKind,
    move_count: usize,
}

/// Whether a piece of the given side, kind and move count may go from `from` to `to` by the
/// way it moves, before looking at what stands on the board. A king steps to any neighbouring
/// square; a pawn goes one rank forward (white towards higher ranks, black towards lower ones)
/// on its file or onto a neighbouring file, or two ranks forward on its file while it has not
/// moved yet. Whether the pawn's destination suits it is `pawn_destination_fits`.
pub open spec fn piece_may_move(
    color: Color,
    kind: PieceKind,
    move_count: int,
    from: Position,
    to: Position,
) -> bool {
    match kind {
        PieceKind::King => to.spec_is_adjacent(from),
        PieceKind::Queen => to.spec_is_on_diagonal(from) || to.spec_is_on_main_axis(from),
        PieceKind::Rook => to.spec_is_on_main_axis(from),
        PieceKind::Bishop => to.spec_is_on_diagonal(from),
        PieceKind::Knight => to.spec_is_ell_away(from),
        PieceKind::Pawn => match color {
            Color::White => {
                ||| to.spec_rank() == from.spec_rank() + 1 && to.file_distance(from) <= 1
                ||| move_count == 0 && to.spec_rank() == from.spec_rank() + 2
                    && to.file_distance(from) == 0
            },
            Color::Black => {
                ||| to.spec_rank() + 1 == from.spec_rank() && to.file_distance(from) <= 1
                ||| move_count == 0 && to.spec_rank() + 2 == from.spec_rank()
                    && to.file_distance(from) == 0
            },
        },
    }
}

/// What a pawn needs to find on its destination: advancing on its file it cannot take a piece
/// of the other side, and stepping onto a neighbouring file it must find a piece there (a
/// capture). A piece of its own side on the destination is refused later, like any other
/// piece's. Other pieces need nothing here.
pub open spec fn pawn_destination_fits(piece: Piece, from: Position, to: Position, target: Square) -> bool {
    piece.spec_kind() is Pawn ==> if to.file_distance(from) == 0 {
        !(target matches Square::Taken(other) && other.spec_color() != piece.spec_color())
    } else {
        target is Taken
    }
}

impl Piece {
    pub closed spec fn spec_color(self) -> Color {
        self.color
    }

    pub closed spec fn spec_kind(self) -> PieceKind {
        self.kind
    }

    pub closed spec fn spec_move_count(self) -> int {
        self.move_count as int
    }

    /// The same piece with its move count raised by one.
    pub closed spec fn with_one_more_move(self) -> Piece {
        Piece { move_count: (self.move_count + 1) as usize, ..self }
    }

    /// Raising the move count keeps the side and the kind and adds one move.
    pub proof fn lemma_with_one_more_move(self)
        requires
            self.spec_move_count() < usize::MAX,
        ensures
            self.moved_once_more(self.with_one_more_move()),
    {
    }

    /// A piece of the given kind and side that has not moved yet.
    pub open spec fn fresh(self, color: Color, kind: PieceKind) -> bool {
        self.spec_color() == color && self.spec_kind() == kind && self.spec_move_count() == 0
    }

    /// The same piece, having moved once more.
    pub open spec fn moved_once_more(self, next: Piece) -> bool {
        next.spec_color() == self.spec_color() && next.spec_kind() == self.spec_kind()
            && next.spec_move_count() == self.spec_move_count() + 1
    }

    pub open spec fn spec_legal_move(self, from: Position, to: Position) -> bool {
        piece_may_move(self.spec_color(), self.spec_kind(), self.spec_move_count(), from, to)
    }

    /// A white piece of the given kind that has not moved yet.
    pub fn white(kind: PieceKind) -> (p: Piece)
        ensures
            p.fresh(Color::White, kind),
    {
        Piece { kind, color: Color::White, move_count: 0 }
    }

    /// A black piece of the given kind that has not moved yet.
    pub fn black(kind: PieceKind) -> (p: Piece)
        ensures
            p.fresh(Color::Black, kind),
    {
        Piece { kind, color: Color::Black, move_count: 0 }
    }

    /// The same piece with its move count raised by one; the count must not overflow.
    pub fn increase_move_count(&self) -> (p: Piece)
        requires
            self.spec_move_count() < usize::MAX,
        ensures
            p == self.with_one_more_move(),
            self.moved_once_more(p),
    {
        Piece { kind: self.kind, color: self.color, move_count: self.move_count + 1 }
    }

    /// Whether the move count can be raised once more without overflow.
    pub fn can_move_once_more(&self) -> (b: bool)
        ensures
            b == (self.spec_move_count() < usize::MAX),
    {
        self.move_count < usize::MAX
    }

    /// Every move but a knight's runs along a rank, a file or a diagonal.
    pub proof fn lemma_only_knights_leave_the_lines(self, from: Position, to: Position)
        requires
            self.spec_legal_move(from, to),
            !(self.spec_kind() is Knight),
        ensures
            from.is_aligned_with(to),
    {
    }

    /// The one-letter name of the piece's kind.
    pub fn ascii_symbol(self) -> (s: &'static str)
        ensures
            s@ == ascii_symbol_of(self.spec_kind()),
    {
        self.kind.ascii_symbol()
    }

    /// The chess symbol of the piece's kind.
    pub fn unicode_symbol(self) -> (s: &'static str)
        ensures
            s@ == unicode_symbol_of(self.spec_kind()),
    {
        match self.kind {
            PieceKind::King => "\u{265A}",
            PieceKind::Queen => "\u{265B}",
            PieceKind::Rook => "\u{265C}",
            PieceKind::Bishop => "\u{265D}",
            PieceKind::Knight => "\u{265E}",
            PieceKind::Pawn => "\u{265F}",
        }
    }

    /// The symbol shown for the piece: the chess glyph or the letter.
    pub fn display_symbol(self, use_unicode: bool) -> (s: &'static str)
        ensures
            s@ == (if use_unicode {
                unicode_symbol_of(self.spec_kind())
            } else {
                ascii_symbol_of(self.spec_kind())
            }),
    {
        if use_unicode {
            self.unicode_symbol()
        } else {
            self.ascii_symbol()
        }
    }

    /// The side of the piece.
    pub fn color(self) -> (c: Color)
        ensures
            c == self.spec_color(),
    {
        self.color
    }

    /// Whether the piece's way of moving allows going from `from` to `to` (see
    /// `piece_may_move`); the board is not looked at.
    pub fn legal_move(&self, from: &Position, to: &Position) -> (b: bool)
        ensures
            b == self.spec_legal_move(*from, *to),
    {
        match self.kind {
            PieceKind::King => to.is_adjacent(from),
            PieceKind::Queen => to.is_on_diagonal(from) || to.is_on_main_axis(from),
            PieceKind::Rook => to.is_on_main_axis(from),
            PieceKind::Bishop => to.is_on_diagonal(from),
            PieceKind::Knight => to.is_ell_away(from),
            PieceKind::Pawn => {
                let files = if to.col() > from.col() {
                    to.col() - from.col()
                } else {
                    from.col() - to.col()
                };
                match self.color {
                    Color::White => to.is_one_up(from) && files <= 1 || self.move_count == 0
                        && to.is_two_up(from) && files == 0,
                    Color::Black => to.is_one_down(from) && files <= 1 || self.move_count == 0
                        && to.is_two_down(from) && files == 0,
                }
            },
        }
    }

    /// The kind of the piece.
    pub fn kind(self) -> (k: PieceKind)
        ensures
            k == self.spec_kind(),
    {
        self.kind
    }
}

/// What stands on a square.
#[derive(Copy, Clone, Debug)]
pub enum Square {
    Empty,
    Taken(Piece),
}

/// The square after the piece on it (if any) has moved once more.
pub open spec fn square_after_move(square: Square) -> Square {
    match square {
        Square::Empty => Square::Empty,
        Square::Taken(piece) => Square::Taken(piece.with_one_more_move()),
    }
}

/// The move count of a square's piece can still be raised without overflow.
pub open spec fn square_can_move(square: Square) -> bool {
    square matches Square::Taken(piece) ==> piece.spec_move_count() < usize::MAX
}

impl Square {
    /// The piece on the square, if any.
    pub fn piece(self) -> (p: Option<Piece>)
        ensures
            p == (match self {
                Square::Empty => None,
                Square::Taken(piece) => Some(piece),
            }),
    {
        match self {
            Square::Empty => None,
            Square::Taken(piece) => Some(piece),
        }
    }

    /// The square after its piece, if any, has moved once more.
    pub fn increase_move_count(&self) -> (s: Square)
        requires
            square_can_move(*self),
        ensures
            s == square_after_move(*self),
    {
        match self {
            Square::Empty => *self,
            Square::Taken(piece) => Square::Taken(piece.increase_move_count()),
        }
    }
}

/// A queen moves exactly where a rook or a bishop could: its moves are the union of theirs.
pub proof fn lemma_queen_moves_like_rook_or_bishop(
    queen: Piece,
    rook: Piece,
    bishop: Piece,
    from: Position,
    to: Position,
)
    requires
        queen.spec_kind() is Queen,
        rook.spec_kind() is Rook,
        bishop.spec_kind() is Bishop,
    ensures
        queen.spec_legal_move(from, to) <==> (rook.spec_legal_move(from, to)
            || bishop.spec_legal_move(from, to)),
{
}

/// How each piece moves, in the coordinates of its squares (`dr` the change of rank, `df` the
/// change of file, the move going to a different square): a rook keeps its rank or its file; a
/// bishop changes rank and file by the same amount, in either direction; a queen does either;
/// a king changes each by at most one; a knight by one and two, or two and one; a pawn goes one
/// rank forward (up for white, down for black) changing its file by at most one, or two ranks
/// forward on its file while unmoved.
pub proof fn lemma_moves_in_coordinates(piece: Piece, from: Position, to: Position)
    ensures
        ({
            let dr = to.spec_rank() - from.spec_rank();
            let df = to.spec_file() - from.spec_file();
            let elsewhere = dr != 0 || df != 0;
            let straight = elsewhere && (dr == 0 || df == 0);
            let diagonal = elsewhere && (dr == df || dr == -df);
            piece.spec_legal_move(from, to) <==> match piece.spec_kind() {
                PieceKind::Rook => straight,
                PieceKind::Bishop => diagonal,
                PieceKind::Queen => straight || diagonal,
                PieceKind::King => elsewhere && -1 <= dr <= 1 && -1 <= df <= 1,
                PieceKind::Knight => ((dr == 1 || dr == -1) && (df == 2 || df == -2)) || ((dr == 2
                    || dr == -2) && (df == 1 || df == -1)),
                PieceKind::Pawn => {
                    let forward = if piece.spec_color() == Color::White {
                        1int
                    } else {
                        -1int
                    };
                    ||| dr == forward && -1 <= df <= 1
                    ||| dr == 2 * forward && df == 0 && piece.spec_move_count() == 0
                },
            }
        }),
{
    lemma_relations_in_coordinates(to, from);
}

} // verus!
