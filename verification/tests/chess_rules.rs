use chess::{Board, Color, GameState, MoveError, Piece, PieceKind, Position, Square};

fn pos(rank: usize, file: usize) -> Position {
    Position::new(rank, file)
}

fn empty_board() -> Board {
    Board::empty()
}

fn game_with(board: Board, move_index: u32) -> GameState {
    GameState::from_board(board, move_index)
}

fn put(board: &mut Board, position: Position, piece: Piece) {
    board.put(position, piece);
}

fn empty_game_with(piece: Piece, position: Position) -> GameState {
    let mut board = empty_board();
    put(&mut board, position, piece);
    game_with(
        board,
        match piece.color() {
            Color::White => 0,
            Color::Black => 1,
        },
    )
}

fn assert_move_ok(game: &mut GameState, from: Position, to: Position) {
    assert!(
        game.move_piece(&from, &to).is_ok(),
        "expected move from {from:?} to {to:?} to be legal"
    );
}

fn assert_move_err(game: &mut GameState, from: Position, to: Position) {
    assert!(
        game.move_piece(&from, &to).is_err(),
        "expected move from {from:?} to {to:?} to be illegal"
    );
}

#[test]
fn white_moves_first_and_turns_alternate() {
    let mut game = GameState::default();

    assert_move_err(&mut game, pos(6, 0), pos(5, 0));
    assert_move_ok(&mut game, pos(1, 0), pos(2, 0));
    assert_move_err(&mut game, pos(1, 1), pos(2, 1));
    assert_move_ok(&mut game, pos(6, 0), pos(5, 0));
}

#[test]
fn rejects_empty_source_square_and_empty_move() {
    let mut game = GameState::default();

    assert_move_err(&mut game, pos(3, 3), pos(4, 3));
    assert_move_err(&mut game, pos(1, 0), pos(1, 0));
}

#[test]
fn sliding_pieces_move_on_clear_files_ranks_and_diagonals() {
    let mut game = empty_game_with(Piece::white(PieceKind::Queen), pos(3, 3));
    assert_move_ok(&mut game, pos(3, 3), pos(3, 7));

    let mut game = empty_game_with(Piece::white(PieceKind::Rook), pos(3, 3));
    assert_move_ok(&mut game, pos(3, 3), pos(7, 3));

    let mut game = empty_game_with(Piece::white(PieceKind::Bishop), pos(3, 3));
    assert_move_ok(&mut game, pos(3, 3), pos(6, 6));
}

#[test]
fn sliding_pieces_cannot_jump_over_other_pieces() {
    let mut board = empty_board();
    put(&mut board, pos(0, 0), Piece::white(PieceKind::Rook));
    put(&mut board, pos(0, 3), Piece::black(PieceKind::Bishop));

    let mut game = game_with(board, 0);
    assert_move_err(&mut game, pos(0, 0), pos(0, 7));
}

#[test]
fn pieces_can_capture_enemies_but_not_friendly_pieces() {
    let mut board = empty_board();
    put(&mut board, pos(0, 0), Piece::white(PieceKind::Rook));
    put(&mut board, pos(0, 4), Piece::black(PieceKind::Bishop));

    let mut game = game_with(board, 0);
    assert_move_ok(&mut game, pos(0, 0), pos(0, 4));

    let mut board = empty_board();
    put(&mut board, pos(0, 0), Piece::white(PieceKind::Rook));
    put(&mut board, pos(0, 4), Piece::white(PieceKind::Bishop));

    let mut game = game_with(board, 0);
    assert_move_err(&mut game, pos(0, 0), pos(0, 4));
}

#[test]
fn knights_move_in_an_l_shape() {
    assert!(Piece::white(PieceKind::Knight).legal_move(&pos(3, 3), &pos(5, 4)));
    assert!(Piece::white(PieceKind::Knight).legal_move(&pos(3, 3), &pos(4, 5)));
    assert!(!Piece::white(PieceKind::Knight).legal_move(&pos(3, 3), &pos(5, 5)));
}

#[test]
fn pawns_can_advance_one_square_or_two_from_their_starting_square() {
    let mut game = empty_game_with(Piece::white(PieceKind::Pawn), pos(1, 4));
    assert_move_ok(&mut game, pos(1, 4), pos(3, 4));

    let mut game = empty_game_with(Piece::black(PieceKind::Pawn), pos(6, 4));
    assert_move_ok(&mut game, pos(6, 4), pos(4, 4));

    let mut game = empty_game_with(
        Piece::white(PieceKind::Pawn).increase_move_count(),
        pos(2, 4),
    );
    assert_move_err(&mut game, pos(2, 4), pos(4, 4));
}

// ---- further cases ----

fn kind_letter(square: Square) -> Option<(&'static str, Color)> {
    square.piece().map(|p| (p.ascii_symbol(), p.color()))
}

#[test]
fn each_refusal_comes_with_its_own_error() {
    let mut game = GameState::default();
    assert_eq!(game.move_piece(&pos(1, 0), &pos(1, 0)), Err(MoveError::EmptyMove));
    assert_eq!(game.move_piece(&pos(3, 3), &pos(4, 3)), Err(MoveError::EmptyFromSquare));
    assert_eq!(game.move_piece(&pos(6, 0), &pos(5, 0)), Err(MoveError::WrongPlayer));
    assert_eq!(game.move_piece(&pos(1, 0), &pos(4, 0)), Err(MoveError::IllegalMoveForPiece));
    assert_eq!(game.move_piece(&pos(0, 0), &pos(2, 0)), Err(MoveError::PathBlocked));
    assert_eq!(game.move_piece(&pos(0, 3), &pos(1, 3)), Err(MoveError::InvalidDestination));
    assert_eq!(game.move_piece(&pos(1, 3), &pos(2, 3)), Ok(()));
}

#[test]
fn a_refused_move_leaves_the_board_and_the_turn_alone() {
    let mut game = GameState::default();
    assert!(game.move_piece(&pos(1, 0), &pos(4, 0)).is_err());
    assert_eq!(kind_letter(game.board.square(&pos(1, 0))), Some(("P", Color::White)));
    assert!(matches!(game.board.square(&pos(4, 0)), Square::Empty));
    // still white's turn
    assert_eq!(game.move_piece(&pos(1, 0), &pos(2, 0)), Ok(()));
}

#[test]
fn an_accepted_move_carries_the_piece_and_counts_the_move() {
    let mut game = GameState::default();
    assert_eq!(game.move_piece(&pos(1, 4), &pos(2, 4)), Ok(()));
    assert!(matches!(game.board.square(&pos(1, 4)), Square::Empty));
    assert_eq!(kind_letter(game.board.square(&pos(2, 4))), Some(("P", Color::White)));
    // the pawn has moved, so it may no longer advance two squares
    assert_eq!(game.move_piece(&pos(6, 0), &pos(5, 0)), Ok(()));
    assert_eq!(
        game.move_piece(&pos(2, 4), &pos(4, 4)),
        Err(MoveError::IllegalMoveForPiece)
    );
}

#[test]
fn a_capture_removes_exactly_one_piece() {
    let mut board = empty_board();
    put(&mut board, pos(0, 0), Piece::white(PieceKind::Rook));
    put(&mut board, pos(0, 4), Piece::black(PieceKind::Bishop));
    let mut game = game_with(board, 0);
    assert_eq!(game.move_piece(&pos(0, 0), &pos(0, 4)), Ok(()));
    let mut pieces = 0;
    for rank in 0..8 {
        for file in 0..8 {
            if game.board.square(&pos(rank, file)).piece().is_some() {
                pieces += 1;
            }
        }
    }
    assert_eq!(pieces, 1);
    assert_eq!(kind_letter(game.board.square(&pos(0, 4))), Some(("R", Color::White)));
}

#[test]
fn the_starting_board_holds_both_armies() {
    let board = Board::new();
    let back = ["R", "N", "B", "Q", "K", "B", "N", "R"];
    for file in 0..8 {
        assert_eq!(kind_letter(board.square(&pos(0, file))), Some((back[file], Color::White)));
        assert_eq!(kind_letter(board.square(&pos(1, file))), Some(("P", Color::White)));
        for rank in 2..6 {
            assert!(board.square(&pos(rank, file)).piece().is_none());
        }
        assert_eq!(kind_letter(board.square(&pos(6, file))), Some(("P", Color::Black)));
        assert_eq!(kind_letter(board.square(&pos(7, file))), Some((back[file], Color::Black)));
    }
    let default_board = Board::default();
    assert_eq!(kind_letter(default_board.square(&pos(7, 4))), Some(("K", Color::Black)));
}

#[test]
fn moving_a_square_onto_itself_changes_nothing_on_the_board() {
    let mut board = Board::new();
    board.move_piece(&pos(0, 0), &pos(0, 0));
    assert_eq!(kind_letter(board.square(&pos(0, 0))), Some(("R", Color::White)));
    board.move_piece(&pos(3, 3), &pos(0, 0));
    assert!(board.square(&pos(0, 0)).piece().is_none());
    assert!(board.square(&pos(3, 3)).piece().is_none());
}

#[test]
fn pawns_must_advance_on_the_same_file_without_capturing() {
    let mut game = empty_game_with(Piece::white(PieceKind::Pawn), pos(1, 4));
    assert_move_err(&mut game, pos(1, 4), pos(2, 5));

    let mut board = empty_board();
    put(&mut board, pos(1, 4), Piece::white(PieceKind::Pawn));
    put(&mut board, pos(2, 4), Piece::black(PieceKind::Knight));

    let mut game = game_with(board, 0);
    assert_move_err(&mut game, pos(1, 4), pos(2, 4));
}

#[test]
fn pawns_capture_one_square_diagonally_forward() {
    let mut board = empty_board();
    put(&mut board, pos(1, 4), Piece::white(PieceKind::Pawn));
    put(&mut board, pos(2, 5), Piece::black(PieceKind::Knight));

    let mut game = game_with(board, 0);
    assert_move_ok(&mut game, pos(1, 4), pos(2, 5));

    let mut board = empty_board();
    put(&mut board, pos(6, 4), Piece::black(PieceKind::Pawn));
    put(&mut board, pos(5, 3), Piece::white(PieceKind::Knight));

    let mut game = game_with(board, 1);
    assert_move_ok(&mut game, pos(6, 4), pos(5, 3));

    let mut game = empty_game_with(Piece::white(PieceKind::Pawn), pos(1, 4));
    assert_move_err(&mut game, pos(1, 4), pos(2, 5));
}

#[test]
fn kings_move_one_square_in_any_direction() {
    let mut game = empty_game_with(Piece::white(PieceKind::King), pos(3, 3));
    assert_move_ok(&mut game, pos(3, 3), pos(4, 3));

    let mut game = empty_game_with(Piece::white(PieceKind::King), pos(3, 3));
    assert_move_ok(&mut game, pos(3, 3), pos(4, 4));
}

#[test]
fn knights_can_jump_over_occupied_squares() {
    let mut board = empty_board();
    put(&mut board, pos(0, 1), Piece::white(PieceKind::Knight));
    put(&mut board, pos(1, 1), Piece::white(PieceKind::Pawn));
    put(&mut board, pos(2, 2), Piece::black(PieceKind::Pawn));

    let mut game = game_with(board, 0);
    assert_move_ok(&mut game, pos(0, 1), pos(2, 2));
}

#[test]
fn kings_step_to_every_neighbour_and_no_further() {
    let king = Piece::white(PieceKind::King);
    for (rank, file) in [(2, 2), (2, 3), (2, 4), (3, 2), (3, 4), (4, 2), (4, 3), (4, 4)] {
        assert!(king.legal_move(&pos(3, 3), &pos(rank, file)));
    }
    assert!(!king.legal_move(&pos(3, 3), &pos(3, 3)));
    assert!(!king.legal_move(&pos(3, 3), &pos(5, 5)));
    assert!(!king.legal_move(&pos(3, 3), &pos(3, 5)));
}

#[test]
fn pawn_movement_rules() {
    let white = Piece::white(PieceKind::Pawn);
    assert!(white.legal_move(&pos(1, 4), &pos(2, 4)));
    assert!(white.legal_move(&pos(1, 4), &pos(2, 5)));
    assert!(white.legal_move(&pos(1, 4), &pos(3, 4)));
    assert!(!white.legal_move(&pos(1, 4), &pos(3, 5)));
    assert!(!white.legal_move(&pos(1, 4), &pos(2, 6)));
    assert!(!white.legal_move(&pos(1, 4), &pos(0, 4)));
    let black = Piece::black(PieceKind::Pawn);
    assert!(black.legal_move(&pos(6, 4), &pos(4, 4)));
    assert!(black.legal_move(&pos(6, 4), &pos(5, 3)));
    assert!(!black.legal_move(&pos(6, 4), &pos(7, 4)));
    let moved = black.increase_move_count();
    assert!(!moved.legal_move(&pos(6, 4), &pos(4, 4)));
    assert!(moved.legal_move(&pos(6, 4), &pos(5, 4)));
}

#[test]
fn a_pawn_never_moves_onto_its_own_side() {
    let mut board = empty_board();
    put(&mut board, pos(1, 4), Piece::white(PieceKind::Pawn));
    put(&mut board, pos(2, 5), Piece::white(PieceKind::Knight));
    let mut game = game_with(board, 0);
    assert_eq!(
        game.move_piece(&pos(1, 4), &pos(2, 5)),
        Err(MoveError::InvalidDestination)
    );

    let mut board = empty_board();
    put(&mut board, pos(1, 4), Piece::white(PieceKind::Pawn));
    put(&mut board, pos(2, 4), Piece::white(PieceKind::Knight));
    let mut game = game_with(board, 0);
    assert_eq!(
        game.move_piece(&pos(1, 4), &pos(2, 4)),
        Err(MoveError::InvalidDestination)
    );
}

#[test]
fn the_side_to_move_follows_the_accepted_moves() {
    let mut game = GameState::default();
    assert_eq!(game.current_player(), Color::White);
    assert!(game.move_piece(&pos(1, 0), &pos(4, 0)).is_err());
    assert_eq!(game.current_player(), Color::White);
    assert_eq!(game.move_piece(&pos(1, 0), &pos(2, 0)), Ok(()));
    assert_eq!(game.current_player(), Color::Black);
    assert_eq!(game.move_piece(&pos(6, 0), &pos(5, 0)), Ok(()));
    assert_eq!(game.current_player(), Color::White);
    assert!(game.board().square(&pos(2, 0)).piece().is_some());
}

#[test]
fn a_pawn_cannot_advance_two_squares_through_a_piece() {
    let mut board = empty_board();
    put(&mut board, pos(1, 4), Piece::white(PieceKind::Pawn));
    put(&mut board, pos(2, 4), Piece::black(PieceKind::Knight));
    let mut game = game_with(board, 0);
    assert_eq!(game.move_piece(&pos(1, 4), &pos(3, 4)), Err(MoveError::PathBlocked));
}

#[test]
fn knights_jump_in_the_opening_but_not_onto_their_own_side() {
    let mut game = GameState::default();
    assert_eq!(game.move_piece(&pos(0, 1), &pos(1, 3)), Err(MoveError::InvalidDestination));
    assert_eq!(game.move_piece(&pos(0, 1), &pos(2, 2)), Ok(()));
    assert_eq!(game.move_piece(&pos(7, 6), &pos(5, 5)), Ok(()));
    assert_eq!(kind_letter(game.board.square(&pos(2, 2))), Some(("N", Color::White)));
    assert_eq!(kind_letter(game.board.square(&pos(5, 5))), Some(("N", Color::Black)));
}

#[test]
fn position_relations() {
    assert!(pos(3, 3).is_adjacent(&pos(4, 2)));
    assert!(!pos(3, 3).is_adjacent(&pos(3, 3)));
    assert!(pos(3, 3).is_on_diagonal(&pos(0, 0)));
    assert!(!pos(3, 3).is_on_diagonal(&pos(3, 3)));
    assert!(pos(3, 3).is_on_main_axis(&pos(3, 0)));
    assert!(!pos(3, 3).is_on_main_axis(&pos(3, 3)));
    assert!(pos(3, 3).is_ell_away(&pos(1, 2)));
    assert!(pos(2, 0).is_one_up(&pos(1, 0)));
    assert!(pos(3, 0).is_two_up(&pos(1, 0)));
    assert!(pos(5, 0).is_one_down(&pos(6, 0)));
    assert!(pos(4, 0).is_two_down(&pos(6, 0)));
    // symmetric
    assert_eq!(pos(1, 2).is_ell_away(&pos(3, 3)), pos(3, 3).is_ell_away(&pos(1, 2)));
    assert_eq!(pos(3, 3).row(), 3);
    assert_eq!(pos(3, 5).col(), 5);
    assert_eq!(Position::zero(), pos(0, 0));
}

#[test]
fn paths_walk_one_step_at_a_time() {
    assert_eq!(pos(0, 0).path(&pos(3, 3)), vec![pos(0, 0), pos(1, 1), pos(2, 2), pos(3, 3)]);
    assert_eq!(pos(5, 2).path(&pos(2, 2)), vec![pos(5, 2), pos(4, 2), pos(3, 2), pos(2, 2)]);
    assert_eq!(pos(4, 4).path(&pos(4, 4)), vec![pos(4, 4)]);
}

#[test]
fn symbols_of_pieces() {
    assert_eq!(PieceKind::Knight.ascii_symbol(), "N");
    assert_eq!(Piece::black(PieceKind::Queen).ascii_symbol(), "Q");
    assert_eq!(Piece::white(PieceKind::King).unicode_symbol(), "\u{265A}");
    assert_eq!(Piece::white(PieceKind::Pawn).display_symbol(true), "\u{265F}");
    assert_eq!(Piece::white(PieceKind::Pawn).display_symbol(false), "P");
    assert_eq!(Piece::black(PieceKind::Rook).color(), Color::Black);
}

#[test]
fn error_messages() {
    assert_eq!(MoveError::EmptyMove.message(), "Choose a different destination square.");
    assert_eq!(MoveError::WrongPlayer.message(), "It is not that piece's turn.");
    assert_eq!(MoveError::PathBlocked.message(), "Another piece is blocking that move.");
    assert_eq!(MoveError::InvalidDestination.message(), "That piece cannot move there.");
}
