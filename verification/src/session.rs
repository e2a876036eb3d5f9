use vstd::prelude::*;

use crate::game::GameState;
use crate::position::Position;

verus! {

/// A key the player pressed, as far as the game tells keys apart.
#[derive(Copy, Clone, Debug, PartialEq, Eq, Structural)]
pub enum Key {
    Char(char),
    Left,
    Right,
    Up,
    Down,
    Enter,
    Esc,
    Other,
}

/// `q` quits.
pub open spec fn is_quit_key(key: Key) -> bool {
    key == Key::Char('q')
}

/// The arrow keys and `h`, `j`, `k`, `l` move the cursor by (ranks, files).
pub open spec fn cursor_step(key: Key) -> Option<(int, int)> {
    match key {
        Key::Left => Some((0, -1)),
        Key::Right => Some((0, 1)),
        Key::Up => Some((-1, 0)),
        Key::Down => Some((1, 0)),
        Key::Char(c) => if c == 'h' {
            Some((0, -1))
        } else if c == 'l' {
            Some((0, 1))
        } else if c == 'k' {
            Some((-1, 0))
        } else if c == 'j' {
            Some((1, 0))
        } else {
            None
        },
        _ => None,
    }
}

/// The letter keys step like the arrows they stand for (`h` left, `j` down, `k` up, `l` right);
/// up and down are opposite steps that change only the rank, up going towards rank 0 (the top of
/// the drawn board); left and right are opposite steps that change only the file, left going
/// towards file 0.
pub proof fn lemma_letter_keys_step_like_arrows()
    ensures
        cursor_step(Key::Char('h')) == cursor_step(Key::Left),
        cursor_step(Key::Char('j')) == cursor_step(Key::Down),
        cursor_step(Key::Char('k')) == cursor_step(Key::Up),
        cursor_step(Key::Char('l')) == cursor_step(Key::Right),
        cursor_step(Key::Up) matches Some(up) && cursor_step(Key::Down) matches Some(down) && up.0
            < 0 && up.1 == 0 && down.0 == -up.0 && down.1 == 0,
        cursor_step(Key::Left) matches Some(left) && cursor_step(Key::Right) matches Some(right)
            && left.1 < 0 && left.0 == 0 && right.1 == -left.1 && right.0 == 0,
{
}

/// Enter and space select a piece or drop it.
pub open spec fn is_confirm_key(key: Key) -> bool {
    key == Key::Enter || key == Key::Char(' ')
}

/// Escape drops the selection.
pub open spec fn is_clear_key(key: Key) -> bool {
    key == Key::Esc
}

/// A coordinate kept on the board: below 0 becomes 0, above 7 becomes 7.
pub open spec fn clamp_to_board(x: int) -> int {
    if x < 0 {
        0
    } else if x > 7 {
        7
    } else {
        x
    }
}

/// `x + delta`, saturating at 0, then capped at 7.
fn step_within_board(x: usize, delta: isize) -> (r: usize)
    requires
        x < 8,
    ensures
        r == clamp_to_board(x + delta),
{
    if delta >= 8 {
        7
    } else if delta <= -8 {
        0
    } else {
        let sum: isize = x as isize + delta;
        if sum < 0 {
            0
        } else if sum > 7 {
            7
        } else {
            sum as usize
        }
    }
}

/// The state of a session: the game, the cursor, the square picked up (if any), how pieces are
/// drawn, and whether the player asked to quit.
#[derive(Debug)]
pub struct App {
    game: GameState,
    cursor: Position,
    selected: Option<Position>,
    use_unicode_symbols: bool,
    exit: bool,
}

impl App {
    pub closed spec fn spec_game(self) -> GameState {
        self.game
    }

    pub closed spec fn spec_cursor(self) -> Position {
        self.cursor
    }

    pub closed spec fn spec_selected(self) -> Option<Position> {
        self.selected
    }

    pub closed spec fn spec_use_unicode_symbols(self) -> bool {
        self.use_unicode_symbols
    }

    pub closed spec fn spec_exit(self) -> bool {
        self.exit
    }

    /// `next` is this session with only the exit flag set.
    pub open spec fn after_exit(self, next: App) -> bool {
        &&& next.spec_exit()
        &&& next.spec_game() == self.spec_game()
        &&& next.spec_cursor() == self.spec_cursor()
        &&& next.spec_selected() == self.spec_selected()
        &&& next.spec_use_unicode_symbols() == self.spec_use_unicode_symbols()
    }

    /// `next` is this session with the cursor moved by the given numbers of ranks and files,
    /// kept on the board.
    pub open spec fn after_cursor_move(self, next: App, row_delta: int, col_delta: int) -> bool {
        &&& next.spec_cursor().spec_rank() == clamp_to_board(
            self.spec_cursor().spec_rank() + row_delta,
        )
        &&& next.spec_cursor().spec_file() == clamp_to_board(
            self.spec_cursor().spec_file() + col_delta,
        )
        &&& next.spec_game() == self.spec_game()
        &&& next.spec_selected() == self.spec_selected()
        &&& next.spec_use_unicode_symbols() == self.spec_use_unicode_symbols()
        &&& next.spec_exit() == self.spec_exit()
    }

    /// Confirming cannot overflow a move counter (see `GameState::can_answer`).
    pub open spec fn can_confirm(self) -> bool {
        self.spec_selected() matches Some(from) ==> (from != self.spec_cursor()
            ==> self.spec_game().can_answer(from, self.spec_cursor()))
    }

    /// `next` is this session after the player confirmed on the cursor's square: with nothing
    /// selected, the square becomes selected; confirming the selected square again drops the
    /// selection; otherwise the selected piece is asked to move to the cursor and the selection
    /// is dropped, whatever the answer.
    pub open spec fn after_confirm(self, next: App) -> bool {
        &&& match self.spec_selected() {
            None => {
                &&& next.spec_selected() == Some(self.spec_cursor())
                &&& next.spec_game() == self.spec_game()
            },
            Some(from) => {
                &&& next.spec_selected() is None
                &&& if from == self.spec_cursor() {
                    next.spec_game() == self.spec_game()
                } else {
                    self.spec_game().answered(next.spec_game(), from, self.spec_cursor())
                }
            },
        }
        &&& next.spec_cursor() == self.spec_cursor()
        &&& next.spec_use_unicode_symbols() == self.spec_use_unicode_symbols()
        &&& next.spec_exit() == self.spec_exit()
    }

    /// `next` is this session with the selection dropped.
    pub open spec fn after_clear(self, next: App) -> bool {
        &&& next.spec_selected() is None
        &&& next.spec_game() == self.spec_game()
        &&& next.spec_cursor() == self.spec_cursor()
        &&& next.spec_use_unicode_symbols() == self.spec_use_unicode_symbols()
        &&& next.spec_exit() == self.spec_exit()
    }

    /// Whether confirming cannot overflow a move counter (see `can_confirm`); callers outside
    /// the verified code test this before a confirming key or call.
    pub fn can_confirm_selection(&self) -> (b: bool)
        ensures
            b == self.can_confirm(),
    {
        match self.selected {
            Some(from) => from == self.cursor || self.game.can_answer_move(&from, &self.cursor),
            None => true,
        }
    }

    /// A new session: a new game, the cursor on rank 0, file 0, nothing selected.
    pub fn new(use_unicode_symbols: bool) -> (app: App)
        ensures
            app.spec_game().is_new_game(),
            app.spec_cursor().spec_rank() == 0,
            app.spec_cursor().spec_file() == 0,
            app.spec_selected() is None,
            app.spec_use_unicode_symbols() == use_unicode_symbols,
            !app.spec_exit(),
    {
        App {
            game: GameState::default(),
            cursor: Position::zero(),
            selected: None,
            use_unicode_symbols,
            exit: false,
        }
    }

    /// Acts on a key press.
    pub fn handle_key_event(&mut self, key: Key)
        requires
            is_confirm_key(key) ==> old(self).can_confirm(),
        ensures
            is_quit_key(key) ==> old(self).after_exit(*final(self)),
            cursor_step(key) matches Some(step) ==> old(self).after_cursor_move(
                *final(self),
                step.0,
                step.1,
            ),
            is_confirm_key(key) ==> old(self).after_confirm(*final(self)),
            is_clear_key(key) ==> old(self).after_clear(*final(self)),
            !is_quit_key(key) && cursor_step(key) is None && !is_confirm_key(key) && !is_clear_key(
                key,
            ) ==> *final(self) == *old(self),
    {
        match key {
            Key::Char('q') => self.exit(),
            Key::Left | Key::Char('h') => self.move_cursor(0, -1),
            Key::Right | Key::Char('l') => self.move_cursor(0, 1),
            Key::Up | Key::Char('k') => self.move_cursor(-1, 0),
            Key::Down | Key::Char('j') => self.move_cursor(1, 0),
            Key::Enter | Key::Char(' ') => self.confirm_selection(),
            Key::Esc => self.clear_selection(),
            _ => {},
        }
    }

    /// Asks to quit.
    pub fn exit(&mut self)
        ensures
            old(self).after_exit(*final(self)),
    {
        self.exit = true;
    }

    /// Moves the cursor by the given numbers of ranks and files, staying on the board.
    pub fn move_cursor(&mut self, row_delta: isize, col_delta: isize)
        ensures
            old(self).after_cursor_move(*final(self), row_delta as int, col_delta as int),
    {
        let row = step_within_board(self.cursor.row(), row_delta);
        let col = step_within_board(self.cursor.col(), col_delta);
        self.cursor = Position::new(row, col);
    }

    /// Selects the cursor's square, drops the selection, or moves the selected piece to the
    /// cursor (see `after_confirm`).
    pub fn confirm_selection(&mut self)
        requires
            old(self).can_confirm(),
        ensures
            old(self).after_confirm(*final(self)),
    {
        match self.selected {
            Some(from) => {
                if from == self.cursor {
                    self.selected = None;
                } else {
                    let cursor = self.cursor;
                    let _ = self.game.move_piece(&from, &cursor);
                    self.selected = None;
                }
            },
            None => {
                self.selected = Some(self.cursor);
            },
        }
    }

    /// Drops the selection.
    pub fn clear_selection(&mut self)
        ensures
            old(self).after_clear(*final(self)),
    {
        self.selected = None;
    }

    /// The game being played.
    pub fn game(&self) -> (game: &GameState)
        ensures
            *game == self.spec_game(),
    {
        &self.game
    }

    /// The square under the cursor.
    pub fn cursor(&self) -> (cursor: Position)
        ensures
            cursor == self.spec_cursor(),
    {
        self.cursor
    }

    /// The square picked up, if any.
    pub fn selected(&self) -> (selected: Option<Position>)
        ensures
            selected == self.spec_selected(),
    {
        self.selected
    }

    /// Whether pieces are drawn with chess glyphs.
    pub fn use_unicode_symbols(&self) -> (b: bool)
        ensures
            b == self.spec_use_unicode_symbols(),
    {
        self.use_unicode_symbols
    }

    /// Whether the player asked to quit.
    pub fn should_exit(&self) -> (b: bool)
        ensures
            b == self.spec_exit(),
    {
        self.exit
    }
}

/// Confirming twice on the same square, with nothing selected, picks the square up and puts it
/// down again: nothing is selected and the game is as it was.
pub proof fn lemma_confirm_twice_changes_nothing(first: App, second: App, third: App)
    requires
        first.spec_selected() is None,
        first.after_confirm(second),
        second.after_confirm(third),
    ensures
        third.spec_selected() is None,
        third.spec_game() == first.spec_game(),
        third.spec_cursor() == first.spec_cursor(),
{
}

/// A cursor step that stays on the board is undone by the opposite step.
pub proof fn lemma_cursor_step_undone(
    first: App,
    second: App,
    third: App,
    row_delta: int,
    col_delta: int,
)
    requires
        first.spec_cursor().is_valid(),
        0 <= first.spec_cursor().spec_rank() + row_delta < 8,
        0 <= first.spec_cursor().spec_file() + col_delta < 8,
        first.after_cursor_move(second, row_delta, col_delta),
        second.after_cursor_move(third, -row_delta, -col_delta),
    ensures
        third.spec_cursor() == first.spec_cursor(),
        third.spec_selected() == first.spec_selected(),
        third.spec_game() == first.spec_game(),
{
    third.spec_cursor().lemma_equal_iff_same_coordinates(first.spec_cursor());
}

} // verus!
