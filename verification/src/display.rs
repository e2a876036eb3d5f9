use vstd::prelude::*;

use crate::board::Board;
use crate::piece::{ascii_symbol_of, unicode_symbol_of, Color, Square};
use crate::position::Position;

verus! {

/// How one square of the board is drawn.
#[derive(Copy, Clone, Debug)]
pub struct SquareLook {
    /// The symbol of the piece on the square and its side, if a piece stands there.
    pub piece: Option<(&'static str, Color)>,
    /// Light squares are those whose rank and file add up to an even number.
    pub light: bool,
    /// The square holds the selected piece.
    pub selected: bool,
    /// The cursor is on the square.
    pub under_cursor: bool,
}

/// The square at the given rank and file lies at `(other.rank, other.file)`.
pub open spec fn at_coordinates(other: Position, rank: int, file: int) -> bool {
    other.spec_rank() == rank && other.spec_file() == file
}

/// `look` is how the square at the given rank and file is drawn: light when rank and file add up
/// to an even number, marked when it is the selected square or the cursor's square, and showing
/// the symbol (chess glyph or letter) and side of the piece on it, if any.
pub open spec fn describes_square(
    look: SquareLook,
    board: Board,
    rank: int,
    file: int,
    cursor: Position,
    selected: Option<Position>,
    use_unicode_symbols: bool,
) -> bool {
    &&& look.light == ((rank + file) % 2 == 0)
    &&& look.selected == (selected matches Some(p) && at_coordinates(p, rank, file))
    &&& look.under_cursor == at_coordinates(cursor, rank, file)
    &&& match board@[rank * 8 + file] {
        Square::Empty => look.piece is None,
        Square::Taken(piece) => look.piece matches Some((symbol, color)) && color
            == piece.spec_color() && symbol@ == (if use_unicode_symbols {
            unicode_symbol_of(piece.spec_kind())
        } else {
            ascii_symbol_of(piece.spec_kind())
        }),
    }
}

/// The board is checkered: squares next to each other on a rank, or on a file, have opposite
/// shades, and the square at rank 0, file 0 is light.
pub proof fn lemma_board_is_checkered(
    look: SquareLook,
    right: SquareLook,
    below: SquareLook,
    board: Board,
    rank: int,
    file: int,
    cursor: Position,
    selected: Option<Position>,
    use_unicode_symbols: bool,
)
    requires
        0 <= rank < 7,
        0 <= file < 7,
        describes_square(look, board, rank, file, cursor, selected, use_unicode_symbols),
        describes_square(right, board, rank, file + 1, cursor, selected, use_unicode_symbols),
        describes_square(below, board, rank + 1, file, cursor, selected, use_unicode_symbols),
    ensures
        right.light != look.light,
        below.light != look.light,
        rank == 0 && file == 0 ==> look.light,
{
}

/// How the square at `position` is drawn, given the cursor, the selection and whether chess
/// glyphs are used.
pub fn square_look(
    board: &Board,
    position: &Position,
    cursor: &Position,
    selected: Option<Position>,
    use_unicode_symbols: bool,
) -> (look: SquareLook)
    ensures
        describes_square(
            look,
            *board,
            position.spec_rank(),
            position.spec_file(),
            *cursor,
            selected,
            use_unicode_symbols,
        ),
{
    proof {
        position.lemma_equal_iff_same_coordinates(*cursor);
        if let Some(p) = selected {
            position.lemma_equal_iff_same_coordinates(p);
        }
    }
    let piece = match board.square(position).piece() {
        Some(piece) => Some((piece.display_symbol(use_unicode_symbols), piece.color())),
        None => None,
    };
    let is_selected = match selected {
        Some(p) => p == *position,
        None => false,
    };
    SquareLook {
        piece,
        light: (position.row() + position.col()) % 2 == 0,
        selected: is_selected,
        under_cursor: *position == *cursor,
    }
}

/// The letter naming a file: `a` for file 0 up to `h` for file 7.
pub fn file_label(col: usize) -> (c: char)
    requires
        col < 8,
    ensures
        c as int == 'a' as int + col,
{
    (97u8 + col as u8) as char
}

/// The number naming a rank as drawn: rank 0 is drawn at the top as 8, rank 7 at the bottom
/// as 1.
pub fn rank_label(row: usize) -> (n: usize)
    requires
        row < 8,
    ensures
        n == 8 - row,
{
    8 - row
}

/// One piece of a line of the drawn board.
#[derive(Copy, Clone, Debug)]
pub enum BoardCell {
    /// Blank space as wide as a square.
    Margin,
    /// The letter of a file, in the lines above and below the board.
    FileLabel(char),
    /// The number of a rank, left of its squares.
    RankLabel(usize),
    /// The number of a rank, right of its squares.
    TrailingRankLabel(usize),
    /// A square of the board.
    Square(SquareLook),
}

/// A margin followed by the letters of the eight files.
pub open spec fn is_file_line(line: Seq<BoardCell>) -> bool {
    &&& line.len() == 9
    &&& line[0] is Margin
    &&& forall|col: int|
        0 <= col < 8 ==> ((#[trigger] line[col + 1]) matches BoardCell::FileLabel(c) && c as int
            == 'a' as int + col)
}

/// The line of the given rank: its number, its eight squares from file 0 to file 7, its number
/// again.
pub open spec fn is_rank_line(
    line: Seq<BoardCell>,
    board: Board,
    rank: int,
    cursor: Position,
    selected: Option<Position>,
    use_unicode_symbols: bool,
) -> bool {
    &&& line.len() == 10
    &&& line[0] == BoardCell::RankLabel((8 - rank) as usize)
    &&& line[9] == BoardCell::TrailingRankLabel((8 - rank) as usize)
    &&& forall|col: int|
        0 <= col < 8 ==> ((#[trigger] line[col + 1]) matches BoardCell::Square(look)
            && describes_square(look, board, rank, col, cursor, selected, use_unicode_symbols))
}

fn file_line() -> (line: Vec<BoardCell>)
    ensures
        is_file_line(line@),
{
    let mut line: Vec<BoardCell> = Vec::new();
    line.push(BoardCell::Margin);
    for col in 0..8
        invariant
            line.len() == col + 1,
            line@[0] is Margin,
            forall|c: int|
                0 <= c < col ==> ((#[trigger] line@[c + 1]) matches BoardCell::FileLabel(l)
                    && l as int == 'a' as int + c),
    {
        line.push(BoardCell::FileLabel(file_label(col)));
    }
    line
}

/// The lines of the drawn board, top to bottom: a blank line, the file letters, the eight ranks
/// from rank 0 to rank 7, and the file letters again.
pub fn board_lines(
    board: &Board,
    cursor: &Position,
    selected: Option<Position>,
    use_unicode_symbols: bool,
) -> (lines: Vec<Vec<BoardCell>>)
    ensures
        lines.len() == 11,
        lines@[0]@ == seq![BoardCell::Margin],
        is_file_line(lines@[1]@),
        forall|rank: int|
            0 <= rank < 8 ==> is_rank_line(
                #[trigger] lines@[rank + 2]@,
                *board,
                rank,
                *cursor,
                selected,
                use_unicode_symbols,
            ),
        is_file_line(lines@[10]@),
{
    let mut lines: Vec<Vec<BoardCell>> = Vec::new();
    lines.push(vec![BoardCell::Margin]);
    lines.push(file_line());
    for row in 0..8
        invariant
            lines.len() == row + 2,
            lines@[0]@ == seq![BoardCell::Margin],
            is_file_line(lines@[1]@),
            forall|rank: int|
                0 <= rank < row ==> is_rank_line(
                    #[trigger] lines@[rank + 2]@,
                    *board,
                    rank,
                    *cursor,
                    selected,
                    use_unicode_symbols,
                ),
    {
        let rank = rank_label(row);
        let mut line: Vec<BoardCell> = Vec::new();
        line.push(BoardCell::RankLabel(rank));
        for col in 0..8
            invariant
                row < 8,
                rank == 8 - row,
                line.len() == col + 1,
                line@[0] == BoardCell::RankLabel((8 - row) as usize),
                forall|c: int|
                    0 <= c < col ==> ((#[trigger] line@[c + 1]) matches BoardCell::Square(look)
                        && describes_square(
                        look,
                        *board,
                        row as int,
                        c,
                        *cursor,
                        selected,
                        use_unicode_symbols,
                    )),
        {
            let position = Position::new(row, col);
            line.push(BoardCell::Square(square_look(board, &position, cursor, selected, use_unicode_symbols)));
        }
        line.push(BoardCell::TrailingRankLabel(rank));
        lines.push(line);
    }
    lines.push(file_line());
    lines
}

} // verus!
