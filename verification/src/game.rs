use vstd::prelude::*;

use crate::board::{is_starting_square, lemma_piece_count_update, occupancy, piece_count, Board};
use crate::piece::{
    pawn_destination_fits, square_after_move, square_can_move, Color, Piece, PieceKind, Square,
};
use crate::position::Position;

verus! {

/// Why a move was refused.
#[derive(Copy, Clone, Debug, PartialEq, Eq, Structural)]
pub enum MoveError {
    EmptyMove,
    EmptyFromSquare,
    IllegalMoveForPiece,
    WrongPlayer,
    PathBlocked,
    InvalidDestination,
}

/// The text shown to the player for each refusal.
pub open spec fn move_error_message(error: MoveError) -> Seq<char> {
    match error {
        MoveError::EmptyMove => "Choose a different destination square."@,
        MoveError::EmptyFromSquare => "Choose a square with a piece to move."@,
        MoveError::IllegalMoveForPiece => "That piece cannot move there."@,
        MoveError::WrongPlayer => "It is not that piece's turn."@,
        MoveError::PathBlocked => "Another piece is blocking that move."@,
        MoveError::InvalidDestination => "That piece cannot move there."@,
    }
}

impl MoveError {
    /// The text shown to the player for this refusal.
    pub fn message(&self) -> (s: &'static str)
        ensures
            s@ == move_error_message(*self),
    {
        match self {
            MoveError::EmptyMove => "Choose a different destination square.",
            MoveError::EmptyFromSquare => "Choose a square with a piece to move.",
            MoveError::IllegalMoveForPiece => "That piece cannot move there.",
            MoveError::WrongPlayer => "It is not that piece's turn.",
            MoveError::PathBlocked => "Another piece is blocking that move.",
            MoveError::InvalidDestination => "That piece cannot move there.",
        }
    }
}

/// The side whose turn it is after `move_index` moves: white moves first.
pub open spec fn player_for(move_index: int) -> Color {
    if move_index % 2 == 0 {
        Color::White
    } else {
        Color::Black
    }
}

/// A game: the board and the number of moves made so far.
#[derive(Debug)]
pub struct GameState {
    pub board: Board,
    move_index: u32,
}

impl GameState {
    /// The number of moves made so far.
    pub closed spec fn spec_move_index(self) -> int {
        self.move_index as int
    }

    /// The board of the game.
    pub closed spec fn spec_board(self) -> Board {
        self.board
    }

    /// The side to move.
    pub open spec fn spec_current_player(self) -> Color {
        player_for(self.spec_move_index())
    }

    /// Every square strictly between `from` and `to` on the straight walk between them is empty.
    pub open spec fn path_is_clear(self, from: Position, to: Position) -> bool {
        forall|k: int|
            1 <= k < from.step_distance(to) ==> (#[trigger] self.spec_board()@[from.rank_along(to, k) * 8
                + from.file_along(to, k)]) is Empty
    }

    /// A knight stands on the square.
    pub open spec fn holds_knight(self, position: Position) -> bool {
        self.spec_board().at(position) matches Square::Taken(piece) && piece.spec_kind() is Knight
    }

    /// The piece's way of moving allows the move, and, for a pawn, the destination suits it.
    pub open spec fn piece_may_go(self, piece: Piece, from: Position, to: Position) -> bool {
        &&& piece.spec_legal_move(from, to)
        &&& pawn_destination_fits(piece, from, to, self.spec_board().at(to))
    }

    /// The answer to a request to move the piece on `from` to `to`: the first rule that the move
    /// breaks, checked in this order, or `Ok` when it breaks none. Knights jump, so the squares
    /// between the ends only matter for the other pieces.
    pub open spec fn move_outcome(self, from: Position, to: Position) -> Result<(), MoveError> {
        if from == to {
            Err(MoveError::EmptyMove)
        } else {
            match self.spec_board().at(from) {
                Square::Empty => Err(MoveError::EmptyFromSquare),
                Square::Taken(piece) => {
                    if piece.spec_color() != self.spec_current_player() {
                        Err(MoveError::WrongPlayer)
                    } else if !self.piece_may_go(piece, from, to) {
                        Err(MoveError::IllegalMoveForPiece)
                    } else if !(piece.spec_kind() is Knight) && !self.path_is_clear(from, to) {
                        Err(MoveError::PathBlocked)
                    } else if self.spec_board().at(to) matches Square::Taken(other) && other.spec_color()
                        == piece.spec_color() {
                        Err(MoveError::InvalidDestination)
                    } else {
                        Ok(())
                    }
                },
            }
        }
    }

    /// The request passes the checks that come before the squares between its ends are looked at.
    pub open spec fn reaches_path_check(self, from: Position, to: Position) -> bool {
        &&& from != to
        &&& self.spec_board().at(from) matches Square::Taken(piece)
        &&& piece.spec_color() == self.spec_current_player()
        &&& self.piece_may_go(piece, from, to)
    }

    /// An accepted move must not overflow the move counters.
    pub open spec fn can_answer(self, from: Position, to: Position) -> bool {
        self.move_outcome(from, to) is Ok ==> {
            &&& self.spec_move_index() < u32::MAX
            &&& square_can_move(self.spec_board().at(from))
        }
    }

    /// The game as it stands when it starts: the starting board, no move made, white to move.
    pub open spec fn is_new_game(self) -> bool {
        &&& self.spec_move_index() == 0
        &&& self.spec_board()@.len() == 64
        &&& forall|i: int|
            0 <= i < 64 ==> is_starting_square(#[trigger] self.spec_board()@[i], i / 8, i % 8)
    }

    /// `next` is this game after the request to move the piece on `from` to `to` was answered:
    /// moved when the rules allow it, unchanged otherwise.
    pub open spec fn answered(self, next: GameState, from: Position, to: Position) -> bool {
        if self.move_outcome(from, to) is Ok {
            &&& next.spec_board()@ == self.spec_board().after_move(from, to)
            &&& next.spec_move_index() == self.spec_move_index() + 1
        } else {
            next == self
        }
    }

    /// Whether a request to move from `from` to `to` can be answered without overflowing a
    /// counter (see `can_answer`); callers outside the verified code test this before
    /// `move_piece`.
    pub fn can_answer_move(&self, from: &Position, to: &Position) -> (b: bool)
        ensures
            b == self.can_answer(*from, *to),
    {
        match self.validate_move(from, to) {
            Ok(()) => self.move_index < u32::MAX && match self.board.square(from) {
                Square::Taken(piece) => piece.can_move_once_more(),
                Square::Empty => true,
            },
            Err(_) => true,
        }
    }

    /// The board of the game.
    pub fn board(&self) -> (b: &Board)
        ensures
            *b == self.spec_board(),
    {
        &self.board
    }

    /// A game of the given board in which `move_index` moves have been made.
    pub fn from_board(board: Board, move_index: u32) -> (game: GameState)
        ensures
            game.spec_board() == board,
            game.spec_move_index() == move_index,
    {
        GameState { board, move_index }
    }

    /// Moves the piece on `from` to `to` when the rules allow it; then the board is updated and
    /// the other side is to move. A refused move changes nothing.
    pub fn move_piece(&mut self, from: &Position, to: &Position) -> (result: Result<(), MoveError>)
        requires
            old(self).can_answer(*from, *to),
        ensures
            result == old(self).move_outcome(*from, *to),
            result is Ok ==> final(self).spec_board()@ == old(self).spec_board().after_move(*from, *to)
                && final(self).spec_move_index() == old(self).spec_move_index() + 1,
            result is Err ==> *final(self) == *old(self),
    {
        self.validate_move(from, to)?;
        self.board.move_piece(from, to);
        self.move_index += 1;
        Ok(())
    }

    fn validate_move(&self, from: &Position, to: &Position) -> (result: Result<(), MoveError>)
        ensures
            result == self.move_outcome(*from, *to),
    {
        if from == to {
            return Err(MoveError::EmptyMove);
        }
        match self.board.square(from) {
            Square::Taken(piece) => {
                self.validate_moving_player(&piece)?;
                self.validate_move_for_piece(piece, from, to)?;
                proof {
                    if !(piece.spec_kind() is Knight) {
                        piece.lemma_only_knights_leave_the_lines(*from, *to);
                    }
                }
                self.validate_move_path(piece, from, to)?;
            },
            Square::Empty => return Err(MoveError::EmptyFromSquare),
        }
        Ok(())
    }

    fn validate_move_path(&self, piece: Piece, from: &Position, to: &Position) -> (result: Result<
        (),
        MoveError,
    >)
        requires
            !(piece.spec_kind() is Knight) ==> from.is_aligned_with(*to),
        ensures
            result == (if !(piece.spec_kind() is Knight) && !self.path_is_clear(*from, *to) {
                Err(MoveError::PathBlocked)
            } else if self.board.at(*to) matches Square::Taken(other) && other.spec_color()
                == piece.spec_color() {
                Err(MoveError::InvalidDestination)
            } else {
                Ok(())
            }),
    {
        if let PieceKind::Knight = piece.kind() {
            // a knight jumps: only its destination matters
            if let Square::Taken(other_piece) = self.board.square(to) {
                if piece.color() == other_piece.color() {
                    return Err(MoveError::InvalidDestination);
                }
            }
            return Ok(());
        }
        let path = from.path(to);

        if path.len() == 0 {
            return Ok(());
        }
        let limit = path.len() - 1;

        let mut i: usize = 1;
        while i < limit
            invariant
                !(piece.spec_kind() is Knight),
                limit == path.len() - 1,
                limit == from.step_distance(*to),
                1 <= i,
                i <= limit || limit == 0,
                forall|k: int|
                    0 <= k < path.len() ==> (#[trigger] path[k]).spec_rank() == from.rank_along(
                        *to,
                        k,
                    ) && path[k].spec_file() == from.file_along(*to, k),
                forall|k: int|
                    1 <= k < i ==> (#[trigger] self.board@[from.rank_along(*to, k) * 8
                        + from.file_along(*to, k)]) is Empty,
            decreases limit - i,
        {
            match self.board.square(&path[i]) {
                Square::Empty => {},
                Square::Taken(_) => {
                    return Err(MoveError::PathBlocked);
                },
            }
            i = i + 1;
        }

        if let Square::Taken(other_piece) = self.board.square(&path[path.len() - 1]) {
            if piece.color() == other_piece.color() {
                return Err(MoveError::InvalidDestination);
            }
        }
        Ok(())
    }

    /// The side to move: white after an even number of moves, black after an odd one.
    pub fn current_player(&self) -> (c: Color)
        ensures
            c == self.spec_current_player(),
    {
        if self.move_index % 2 == 0 {
            Color::White
        } else {
            Color::Black
        }
    }

    fn validate_moving_player(&self, piece: &Piece) -> (result: Result<(), MoveError>)
        ensures
            result == (if piece.spec_color() == self.spec_current_player() {
                Ok(())
            } else {
                Err(MoveError::WrongPlayer)
            }),
    {
        if piece.color() == self.current_player() {
            Ok(())
        } else {
            Err(MoveError::WrongPlayer)
        }
    }

    fn validate_move_for_piece(&self, piece: Piece, from: &Position, to: &Position) -> (result:
        Result<(), MoveError>)
        ensures
            result == (if self.piece_may_go(piece, *from, *to) {
                Ok(())
            } else {
                Err(MoveError::IllegalMoveForPiece)
            }),
    {
        if piece.legal_move(from, to) && self.pawn_destination_suits(piece, from, to) {
            Ok(())
        } else {
            Err(MoveError::IllegalMoveForPiece)
        }
    }

    fn pawn_destination_suits(&self, piece: Piece, from: &Position, to: &Position) -> (b: bool)
        ensures
            b == pawn_destination_fits(piece, *from, *to, self.spec_board().at(*to)),
    {
        match piece.kind() {
            PieceKind::Pawn => {
                let target = self.board.square(to);
                if from.col() == to.col() {
                    match target {
                        Square::Empty => true,
                        Square::Taken(other) => other.color() == piece.color(),
                    }
                } else {
                    match target {
                        Square::Empty => false,
                        Square::Taken(_) => true,
                    }
                }
            },
            _ => true,
        }
    }
}

impl Default for GameState {
    /// A new game: the starting board, white to move.
    fn default() -> (game: GameState)
        ensures
            game.is_new_game(),
    {
        GameState { board: Board::default(), move_index: 0 }
    }
}

/// White moves first: in a new game it is white's turn.
pub proof fn lemma_white_moves_first(game: GameState)
    requires
        game.is_new_game(),
    ensures
        game.spec_current_player() == Color::White,
{
}

/// Turns alternate: once a move is accepted the other side is to move, and a refused request
/// leaves the turn where it was.
pub proof fn lemma_turns_alternate(game: GameState, from: Position, to: Position, next: GameState)
    requires
        game.answered(next, from, to),
    ensures
        game.move_outcome(from, to) is Ok ==> next.spec_current_player()
            != game.spec_current_player(),
        game.move_outcome(from, to) is Err ==> next.spec_current_player()
            == game.spec_current_player(),
{
}

/// What an accepted move does: the piece on `from` belongs to the side to move; afterwards it
/// stands on `to` with one more move counted, `from` is empty, a piece taken on `to` belonged to
/// the other side, and every other square is as it was.
pub proof fn lemma_accepted_move(game: GameState, from: Position, to: Position, next: GameState)
    requires
        from.is_valid(),
        to.is_valid(),
        game.can_answer(from, to),
        game.move_outcome(from, to) is Ok,
        game.answered(next, from, to),
    ensures
        match game.spec_board().at(from) {
            Square::Taken(piece) => {
                &&& piece.spec_color() == game.spec_current_player()
                &&& next.spec_board().at(to) matches Square::Taken(moved) && piece.moved_once_more(
                    moved,
                )
                &&& game.spec_board().at(to) matches Square::Taken(taken) ==> taken.spec_color()
                    != piece.spec_color()
            },
            Square::Empty => false,
        },
        next.spec_board().at(from) is Empty,
        forall|p: Position|
            #![trigger next.spec_board().at(p)]
            p.is_valid() && p != from && p != to ==> next.spec_board().at(p)
                == game.spec_board().at(p),
{
    game.spec_board().lemma_len();
    from.lemma_square_index_injective(to);
    if let Square::Taken(piece) = game.spec_board().at(from) {
        piece.lemma_with_one_more_move();
    }
    assert forall|p: Position|
        #![trigger next.spec_board().at(p)]
        p.is_valid() && p != from && p != to implies next.spec_board().at(p)
            == game.spec_board().at(p) by {
        p.lemma_square_index_injective(from);
        p.lemma_square_index_injective(to);
    }
}

/// Requests that are always refused: a move onto the same square, a move from an empty square,
/// a move of the other side's piece, and a move onto a square held by a piece of the same side.
pub proof fn lemma_refused_requests(game: GameState, from: Position, to: Position)
    ensures
        from == to ==> game.move_outcome(from, to) == Err::<(), MoveError>(MoveError::EmptyMove),
        from != to ==> match game.spec_board().at(from) {
            Square::Empty => game.move_outcome(from, to) == Err::<(), MoveError>(
                MoveError::EmptyFromSquare,
            ),
            Square::Taken(piece) => {
                &&& piece.spec_color() != game.spec_current_player() ==> game.move_outcome(from, to)
                    == Err::<(), MoveError>(MoveError::WrongPlayer)
                &&& game.spec_board().at(to) matches Square::Taken(other) ==> (other.spec_color()
                    == piece.spec_color() ==> game.move_outcome(from, to) is Err)
            },
        },
{
}

/// Pieces other than knights do not jump: a move that passes the turn and movement checks is
/// refused as blocked when any square strictly between its ends holds a piece.
pub proof fn lemma_no_jumping_over_pieces(game: GameState, from: Position, to: Position, k: int)
    requires
        game.reaches_path_check(from, to),
        !game.holds_knight(from),
        1 <= k < from.step_distance(to),
        game.spec_board()@[from.rank_along(to, k) * 8 + from.file_along(to, k)] is Taken,
    ensures
        game.move_outcome(from, to) == Err::<(), MoveError>(MoveError::PathBlocked),
{
}

/// Knights jump: once a knight's move passes the turn and movement checks, only its
/// destination matters; the squares in between are not looked at.
pub proof fn lemma_knights_jump(game: GameState, from: Position, to: Position)
    requires
        game.reaches_path_check(from, to),
        game.holds_knight(from),
    ensures
        game.move_outcome(from, to) == (if game.spec_board().at(to) matches Square::Taken(other)
            && game.spec_board().at(from) matches Square::Taken(piece) && other.spec_color()
            == piece.spec_color() {
            Err::<(), MoveError>(MoveError::InvalidDestination)
        } else {
            Ok(())
        }),
{
}

/// The number of requests among the first `n` of `requests` that were accepted, the `i`-th
/// being answered in `games[i]`.
pub open spec fn accepted_count(
    games: Seq<GameState>,
    requests: Seq<(Position, Position)>,
    n: int,
) -> int
    decreases n,
{
    if n <= 0 {
        0
    } else {
        accepted_count(games, requests, n - 1) + (if games[n - 1].move_outcome(
            requests[n - 1].0,
            requests[n - 1].1,
        ) is Ok {
            1int
        } else {
            0int
        })
    }
}

proof fn lemma_move_index_counts_accepted(
    games: Seq<GameState>,
    requests: Seq<(Position, Position)>,
    n: int,
)
    requires
        games.len() == requests.len() + 1,
        games[0].spec_move_index() == 0,
        forall|i: int|
            0 <= i < requests.len() ==> (#[trigger] games[i]).answered(
                games[i + 1],
                requests[i].0,
                requests[i].1,
            ),
        0 <= n <= requests.len(),
    ensures
        games[n].spec_move_index() == accepted_count(games, requests, n),
    decreases n,
{
    if n > 0 {
        lemma_move_index_counts_accepted(games, requests, n - 1);
        assert(games[n - 1].answered(games[n], requests[n - 1].0, requests[n - 1].1));
    }
}

/// The side to move follows the number of accepted moves: after a new game has answered a
/// sequence of requests (`games[i + 1]` being `games[i]` after the `i`-th request), it is
/// white's turn when an even number of them was accepted and black's otherwise.
pub proof fn lemma_turn_follows_accepted_moves(
    games: Seq<GameState>,
    requests: Seq<(Position, Position)>,
)
    requires
        games.len() == requests.len() + 1,
        games[0].is_new_game(),
        forall|i: int|
            0 <= i < requests.len() ==> (#[trigger] games[i]).answered(
                games[i + 1],
                requests[i].0,
                requests[i].1,
            ),
    ensures
        games.last().spec_move_index() == accepted_count(games, requests, requests.len() as int),
        games.last().spec_current_player() == player_for(
            accepted_count(games, requests, requests.len() as int),
        ),
{
    lemma_move_index_counts_accepted(games, requests, requests.len() as int);
}

/// A move never adds a piece: an accepted move removes exactly the piece taken on `to`, if any,
/// and a refused one removes none.
pub proof fn lemma_pieces_are_only_taken(game: GameState, from: Position, to: Position, next: GameState)
    requires
        from.is_valid(),
        to.is_valid(),
        game.answered(next, from, to),
    ensures
        piece_count(next.spec_board()@) == piece_count(game.spec_board()@) - (if game.move_outcome(
            from,
            to,
        ) is Ok {
            occupancy(game.spec_board().at(to))
        } else {
            0
        }),
{
    game.spec_board().lemma_len();
    if game.move_outcome(from, to) is Ok {
        let squares = game.spec_board()@;
        let moved = square_after_move(game.spec_board().at(from));
        let first = squares.update(to.square_index(), moved);
        from.lemma_square_index_injective(to);
        lemma_piece_count_update(squares, to.square_index(), moved);
        lemma_piece_count_update(first, from.square_index(), Square::Empty);
    }
}

} // verus!
