use chess::display::{board_lines, file_label, rank_label, square_look, BoardCell};
use chess::preferences::{parse_flag, prefers_unicode_symbols};
use chess::{App, Board, Color, Key, Position};

fn pos(rank: usize, file: usize) -> Position {
    Position::new(rank, file)
}

#[test]
fn flags_read_yes_and_no_words() {
    for yes in ["1", "true", "yes", "on", " TRUE ", "\tYes\n", "On"] {
        assert_eq!(parse_flag(yes), Some(true), "{yes:?}");
    }
    for no in ["0", "false", "no", "off", "  False", "OFF\u{3000}"] {
        assert_eq!(parse_flag(no), Some(false), "{no:?}");
    }
    for other in ["", "   ", "2", "truth", "y", "o n", "\u{130}"] {
        assert_eq!(parse_flag(other), None, "{other:?}");
    }
}

#[test]
fn glyphs_are_used_unless_a_setting_asks_for_letters() {
    assert!(prefers_unicode_symbols(None, None));
    assert!(prefers_unicode_symbols(Some(true), Some(false)));
    assert!(!prefers_unicode_symbols(Some(false), None));
    assert!(!prefers_unicode_symbols(None, Some(true)));
    assert!(!prefers_unicode_symbols(Some(true), Some(true)));
}

#[test]
fn a_new_session_starts_in_the_corner_with_nothing_selected() {
    let app = App::new(true);
    assert_eq!(app.cursor(), pos(0, 0));
    assert_eq!(app.selected(), None);
    assert!(app.use_unicode_symbols());
    assert!(!app.should_exit());
    assert!(app.game().board.square(&pos(0, 0)).piece().is_some());
}

#[test]
fn the_cursor_stays_on_the_board() {
    let mut app = App::new(false);
    app.move_cursor(-1, -1);
    assert_eq!(app.cursor(), pos(0, 0));
    app.move_cursor(3, 9);
    assert_eq!(app.cursor(), pos(3, 7));
    app.move_cursor(isize::MAX, isize::MIN);
    assert_eq!(app.cursor(), pos(7, 0));
    app.move_cursor(-2, 1);
    assert_eq!(app.cursor(), pos(5, 1));
    app.move_cursor(2, -1);
    assert_eq!(app.cursor(), pos(7, 0));
}

#[test]
fn keys_drive_the_session() {
    let mut app = App::new(false);
    app.handle_key_event(Key::Down);
    assert_eq!(app.cursor(), pos(1, 0));
    app.handle_key_event(Key::Char('l'));
    assert_eq!(app.cursor(), pos(1, 1));
    app.handle_key_event(Key::Right);
    app.handle_key_event(Key::Char('h'));
    app.handle_key_event(Key::Up);
    app.handle_key_event(Key::Char('j'));
    assert_eq!(app.cursor(), pos(1, 1));
    app.handle_key_event(Key::Enter);
    assert_eq!(app.selected(), Some(pos(1, 1)));
    app.handle_key_event(Key::Esc);
    assert_eq!(app.selected(), None);
    app.handle_key_event(Key::Char('x'));
    app.handle_key_event(Key::Other);
    assert_eq!(app.cursor(), pos(1, 1));
    assert!(!app.should_exit());
    app.handle_key_event(Key::Char('q'));
    assert!(app.should_exit());
}

#[test]
fn selecting_and_dropping_moves_a_piece() {
    let mut app = App::new(false);
    // select the pawn on rank 1, file 0
    app.move_cursor(1, 0);
    app.handle_key_event(Key::Char(' '));
    assert_eq!(app.selected(), Some(pos(1, 0)));
    // drop it two ranks further
    app.move_cursor(2, 0);
    app.confirm_selection();
    assert_eq!(app.selected(), None);
    assert!(app.game().board.square(&pos(1, 0)).piece().is_none());
    assert_eq!(
        app.game().board.square(&pos(3, 0)).piece().map(|p| p.color()),
        Some(Color::White)
    );
}

#[test]
fn a_refused_drop_still_clears_the_selection() {
    let mut app = App::new(false);
    app.move_cursor(1, 0);
    app.confirm_selection();
    app.move_cursor(4, 0);
    app.confirm_selection();
    assert_eq!(app.selected(), None);
    assert!(app.game().board.square(&pos(1, 0)).piece().is_some());
    assert!(app.game().board.square(&pos(5, 0)).piece().is_none());
}

#[test]
fn confirming_twice_on_one_square_puts_it_down() {
    let mut app = App::new(false);
    app.move_cursor(1, 0);
    app.confirm_selection();
    app.confirm_selection();
    assert_eq!(app.selected(), None);
    assert!(app.game().board.square(&pos(1, 0)).piece().is_some());
    app.exit();
    assert!(app.should_exit());
    app.clear_selection();
    assert_eq!(app.selected(), None);
}

#[test]
fn how_squares_are_drawn() {
    let board = Board::new();
    let look = square_look(&board, &pos(0, 4), &pos(0, 4), Some(pos(0, 4)), false);
    assert_eq!(look.piece, Some(("K", Color::White)));
    assert!(look.light);
    assert!(look.selected);
    assert!(look.under_cursor);

    let look = square_look(&board, &pos(7, 4), &pos(0, 0), None, true);
    assert_eq!(look.piece, Some(("\u{265A}", Color::Black)));
    assert!(!look.light);
    assert!(!look.selected);
    assert!(!look.under_cursor);

    let look = square_look(&board, &pos(4, 4), &pos(0, 0), Some(pos(1, 1)), true);
    assert_eq!(look.piece, None);
}

#[test]
fn board_labels() {
    assert_eq!(file_label(0), 'a');
    assert_eq!(file_label(7), 'h');
    assert_eq!(rank_label(0), 8);
    assert_eq!(rank_label(7), 1);
}

#[test]
fn the_drawn_board_has_labels_around_its_ranks() {
    let board = Board::new();
    let lines = board_lines(&board, &pos(2, 3), Some(pos(1, 0)), false);
    assert_eq!(lines.len(), 11);
    assert_eq!(lines[0].len(), 1);
    assert!(matches!(lines[0][0], BoardCell::Margin));
    for edge in [1, 10] {
        assert_eq!(lines[edge].len(), 9);
        assert!(matches!(lines[edge][0], BoardCell::Margin));
        assert!(matches!(lines[edge][1], BoardCell::FileLabel('a')));
        assert!(matches!(lines[edge][8], BoardCell::FileLabel('h')));
    }
    for row in 0..8 {
        let line = &lines[row + 2];
        assert_eq!(line.len(), 10);
        assert!(matches!(line[0], BoardCell::RankLabel(r) if r == 8 - row));
        assert!(matches!(line[9], BoardCell::TrailingRankLabel(r) if r == 8 - row));
    }
    match lines[2][5] {
        BoardCell::Square(look) => assert_eq!(look.piece, Some(("K", Color::White))),
        _ => panic!("expected a square"),
    }
    match lines[3][1] {
        BoardCell::Square(look) => assert!(look.selected && !look.under_cursor),
        _ => panic!("expected a square"),
    }
    match lines[4][4] {
        BoardCell::Square(look) => assert!(look.under_cursor && look.piece.is_none()),
        _ => panic!("expected a square"),
    }
}
