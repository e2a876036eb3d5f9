# chess

A terminal chess board. `src/` is the verified library: squares and their
geometry (`position`), pieces and their movement rules (`piece`), the board
(`board`), move validation and turns (`game`), the state of a playing session
and its key bindings (`session`), how squares are drawn (`display`), and the
reading of the yes/no settings that choose between chess glyphs and letters
(`preferences`). `app/` reads the terminal and the environment and draws with
ratatui; every decision it makes goes through the library.

Moves follow these rules: white moves first and the sides alternate; a king
steps to any neighbouring square; queens, rooks and bishops slide along their
lines without jumping; knights jump; a pawn advances one square on its file (two
from its first move) onto a square not held by the other side, and steps one
square diagonally forward only to take a piece; no piece ends on a square held by
its own side. Check, castling, en passant, promotion and the end of the game are
not part of these rules.
