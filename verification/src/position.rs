use vstd::prelude::*;

verus! {

/// The absolute value of an integer.
pub open spec fn abs(x: int) -> int {
    if x < 0 {
        -x
    } else {
        x
    }
}

/// The direction (-1, 0 or 1) in which one has to move from `from` to reach `to`.
pub open spec fn direction(from: int, to: int) -> int {
    if to > from {
        1
    } else if to < from {
        -1
    } else {
        0
    }
}

/// The coordinate reached from `from` after `k` steps in direction `dir`.
pub open spec fn advance(from: int, dir: int, k: int) -> int {
    if dir > 0 {
        from + k
    } else if dir < 0 {
        from - k
    } else {
        from
    }
}

/// A square of the board, given by its rank (row) and its file (column).
/// Both coordinates lie in `0..8`.
#[derive(Copy, Clone, Debug, PartialEq, Eq, Structural)]
pub struct Position {
    rank: usize,
    file: usize,
}

impl Position {
    /// The rank (row) of the square.
    pub closed spec fn spec_rank(self) -> int {
        self.rank as int
    }

    /// The file (column) of the square.
    pub closed spec fn spec_file(self) -> int {
        self.file as int
    }

    /// Every position lies on the board.
    #[verifier::type_invariant]
    pub open spec fn is_valid(self) -> bool {
        0 <= self.spec_rank() < 8 && 0 <= self.spec_file() < 8
    }

    /// The index of the square in a board stored rank by rank.
    pub open spec fn square_index(self) -> int {
        self.spec_rank() * 8 + self.spec_file()
    }

    /// Number of files between the two squares.
    pub open spec fn file_distance(self, other: Position) -> int {
        abs(self.spec_file() - other.spec_file())
    }

    /// Number of ranks between the two squares.
    pub open spec fn rank_distance(self, other: Position) -> int {
        abs(self.spec_rank() - other.spec_rank())
    }

    /// The number of king steps between the two squares.
    pub open spec fn step_distance(self, other: Position) -> int {
        let f = self.file_distance(other);
        let r = self.rank_distance(other);
        if f > r {
            f
        } else {
            r
        }
    }

    pub open spec fn spec_is_adjacent(self, other: Position) -> bool {
        self.step_distance(other) == 1
    }

    pub open spec fn spec_is_on_diagonal(self, other: Position) -> bool {
        self != other && self.file_distance(other) == self.rank_distance(other)
    }

    pub open spec fn spec_is_on_main_axis(self, other: Position) -> bool {
        self != other && (self.file_distance(other) == 0 || self.rank_distance(other) == 0)
    }

    pub open spec fn spec_is_ell_away(self, other: Position) -> bool {
        ||| self.file_distance(other) == 2 && self.rank_distance(other) == 1
        ||| self.file_distance(other) == 1 && self.rank_distance(other) == 2
    }

    /// The two squares share a rank, a file or a diagonal (or are the same square).
    pub open spec fn is_aligned_with(self, other: Position) -> bool {
        ||| self.file_distance(other) == 0
        ||| self.rank_distance(other) == 0
        ||| self.file_distance(other) == self.rank_distance(other)
    }

    /// The rank of the `k`-th square on the straight walk from `self` towards `to`.
    pub open spec fn rank_along(self, to: Position, k: int) -> int {
        advance(self.spec_rank(), direction(self.spec_rank(), to.spec_rank()), k)
    }

    /// The file of the `k`-th square on the straight walk from `self` towards `to`.
    pub open spec fn file_along(self, to: Position, k: int) -> int {
        advance(self.spec_file(), direction(self.spec_file(), to.spec_file()), k)
    }

    /// The square seen in a mirror laid along the board's edge: same rank, file `7 - file`.
    pub closed spec fn mirrored(self) -> Position {
        Position { rank: self.rank, file: (7 - self.file) as usize }
    }

    /// Mirroring keeps the rank and turns file `f` into `7 - f`, staying on the board.
    pub proof fn lemma_mirrored(self)
        requires
            self.is_valid(),
        ensures
            self.mirrored().spec_rank() == self.spec_rank(),
            self.mirrored().spec_file() == 7 - self.spec_file(),
            self.mirrored().is_valid(),
    {
    }

    /// Two positions are equal exactly when their coordinates are.
    pub proof fn lemma_equal_iff_same_coordinates(self, other: Position)
        ensures
            (self == other) <==> (self.spec_rank() == other.spec_rank() && self.spec_file()
                == other.spec_file()),
    {
    }

    /// Distinct squares of the board have distinct indices.
    pub proof fn lemma_square_index_injective(self, other: Position)
        requires
            self.is_valid(),
            other.is_valid(),
        ensures
            0 <= self.square_index() < 64,
            (self == other) <==> (self.square_index() == other.square_index()),
    {
    }

    /// Makes a position; both coordinates must be below 8.
    pub fn new(rank: usize, file: usize) -> (p: Position)
        requires
            rank < 8,
            file < 8,
        ensures
            p.spec_rank() == rank,
            p.spec_file() == file,
    {
        Position { rank, file }
    }

    /// The squares walked through from `self` to `to`, both ends included, one king step at a time
    /// in a fixed direction. The walk only reaches `to` when the squares are aligned, which the
    /// caller must ensure.
    pub fn path(&self, to: &Position) -> (path: Vec<Position>)
        requires
            self.is_aligned_with(*to),
        ensures
            path.len() == self.step_distance(*to) + 1,
            forall|k: int|
                0 <= k < path.len() ==> (#[trigger] path[k]).spec_rank() == self.rank_along(*to, k)
                    && path[k].spec_file() == self.file_along(*to, k),
            path[0] == *self,
            path[path.len() - 1] == *to,
    {
        proof {
            use_type_invariant(self);
            use_type_invariant(to);
        }
        let mut path: Vec<Position> = Vec::new();
        let dx: i8 = if to.file > self.file {
            1
        } else if to.file < self.file {
            -1
        } else {
            0
        };
        let dy: i8 = if to.rank > self.rank {
            1
        } else if to.rank < self.rank {
            -1
        } else {
            0
        };
        let ghost n = self.step_distance(*to);
        let mut position = *self;
        let ghost mut i: int = 0;

        while &position != to
            invariant
                self.is_valid(),
                to.is_valid(),
                self.is_aligned_with(*to),
                n == self.step_distance(*to),
                dx == direction(self.spec_file(), to.spec_file()),
                dy == direction(self.spec_rank(), to.spec_rank()),
                0 <= i <= n,
                path.len() == i,
                position.spec_rank() == self.rank_along(*to, i),
                position.spec_file() == self.file_along(*to, i),
                forall|k: int|
                    0 <= k < i ==> (#[trigger] path[k]).spec_rank() == self.rank_along(*to, k)
                        && path[k].spec_file() == self.file_along(*to, k),
            decreases n - i,
        {
            path.push(position);
            let rank: usize = if dy > 0 {
                position.rank + 1
            } else if dy < 0 {
                position.rank - 1
            } else {
                position.rank
            };
            let file: usize = if dx > 0 {
                position.file + 1
            } else if dx < 0 {
                position.file - 1
            } else {
                position.file
            };
            position = Position::new(rank, file);
            proof {
                i = i + 1;
            }
        }
        path.push(position);
        path
    }

    /// The rank (row) of the square.
    pub fn row(&self) -> (r: usize)
        ensures
            r == self.spec_rank(),
            r < 8,
    {
        proof {
            use_type_invariant(self);
        }
        self.rank
    }

    /// The file (column) of the square.
    pub fn col(&self) -> (c: usize)
        ensures
            c == self.spec_file(),
            c < 8,
    {
        proof {
            use_type_invariant(self);
        }
        self.file
    }

    /// The corner square at rank 0, file 0.
    pub fn zero() -> (p: Position)
        ensures
            p.spec_rank() == 0,
            p.spec_file() == 0,
    {
        Position::new(0, 0)
    }

    /// The distances between the files and between the ranks of the two squares.
    fn distances(&self, other: &Position) -> (d: (usize, usize))
        ensures
            d.0 == self.file_distance(*other),
            d.1 == self.rank_distance(*other),
    {
        let files = if self.file > other.file {
            self.file - other.file
        } else {
            other.file - self.file
        };
        let ranks = if self.rank > other.rank {
            self.rank - other.rank
        } else {
            other.rank - self.rank
        };
        (files, ranks)
    }

    /// The squares touch: one king step apart.
    pub fn is_adjacent(&self, other: &Position) -> (b: bool)
        ensures
            b == self.spec_is_adjacent(*other),
    {
        let d = self.distances(other);
        let max = if d.0 > d.1 {
            d.0
        } else {
            d.1
        };
        max == 1
    }

    /// The squares are distinct and share a diagonal.
    pub fn is_on_diagonal(&self, other: &Position) -> (b: bool)
        ensures
            b == self.spec_is_on_diagonal(*other),
    {
        let d = self.distances(other);
        self != other && d.0 == d.1
    }

    /// The squares are distinct and share a rank or a file.
    pub fn is_on_main_axis(&self, other: &Position) -> (b: bool)
        ensures
            b == self.spec_is_on_main_axis(*other),
    {
        let d = self.distances(other);
        self != other && (d.0 == 0 || d.1 == 0)
    }

    /// The squares are a knight's jump apart.
    pub fn is_ell_away(&self, other: &Position) -> (b: bool)
        ensures
            b == self.spec_is_ell_away(*other),
    {
        let d = self.distances(other);
        d.0 == 2 && d.1 == 1 || d.0 == 1 && d.1 == 2
    }

    /// `self` lies one rank above `from`.
    pub fn is_one_up(&self, from: &Position) -> (b: bool)
        ensures
            b == (self.spec_rank() == from.spec_rank() + 1),
    {
        proof {
            use_type_invariant(from);
        }
        self.rank == from.rank + 1
    }

    /// `self` lies two ranks above `from`.
    pub fn is_two_up(&self, from: &Position) -> (b: bool)
        ensures
            b == (self.spec_rank() == from.spec_rank() + 2),
    {
        proof {
            use_type_invariant(from);
        }
        self.rank == from.rank + 2
    }

    /// `self` lies one rank below `from`.
    pub fn is_one_down(&self, from: &Position) -> (b: bool)
        ensures
            b == (self.spec_rank() + 1 == from.spec_rank()),
    {
        proof {
            use_type_invariant(self);
        }
        self.rank + 1 == from.rank
    }

    /// `self` lies two ranks below `from`.
    pub fn is_two_down(&self, from: &Position) -> (b: bool)
        ensures
            b == (self.spec_rank() + 2 == from.spec_rank()),
    {
        proof {
            use_type_invariant(self);
        }
        self.rank + 2 == from.rank
    }
}

/// The relations between two squares do not depend on which square is named first.
pub proof fn lemma_relations_are_symmetric(a: Position, b: Position)
    ensures
        a.spec_is_adjacent(b) == b.spec_is_adjacent(a),
        a.spec_is_on_diagonal(b) == b.spec_is_on_diagonal(a),
        a.spec_is_on_main_axis(b) == b.spec_is_on_main_axis(a),
        a.spec_is_ell_away(b) == b.spec_is_ell_away(a),
        a.is_aligned_with(b) == b.is_aligned_with(a),
        a.step_distance(b) == b.step_distance(a),
{
}

/// What the relations between two squares mean, in the squares' coordinates: with
/// `df = |file(a) - file(b)|` and `dr = |rank(a) - rank(b)|`, two distinct squares share a
/// diagonal when `df == dr`, share a rank or file when `df == 0` or `dr == 0`, touch when the
/// larger of `df` and `dr` is 1, and are a knight's jump apart when `{df, dr} == {1, 2}`.
pub proof fn lemma_relations_in_coordinates(a: Position, b: Position)
    ensures
        a.spec_is_on_diagonal(b) <==> ((a.spec_rank() != b.spec_rank() || a.spec_file()
            != b.spec_file()) && (a.spec_file() - b.spec_file() == a.spec_rank() - b.spec_rank()
            || a.spec_file() - b.spec_file() == b.spec_rank() - a.spec_rank())),
        a.spec_is_on_main_axis(b) <==> ((a.spec_rank() != b.spec_rank() || a.spec_file()
            != b.spec_file()) && (a.spec_file() == b.spec_file() || a.spec_rank()
            == b.spec_rank())),
        a.spec_is_adjacent(b) <==> ((a.spec_rank() != b.spec_rank() || a.spec_file()
            != b.spec_file()) && -1 <= a.spec_rank() - b.spec_rank() <= 1 && -1
            <= a.spec_file() - b.spec_file() <= 1),
        a.spec_is_ell_away(b) <==> ({
            let df = a.spec_file() - b.spec_file();
            let dr = a.spec_rank() - b.spec_rank();
            ||| (df == 2 || df == -2) && (dr == 1 || dr == -1)
            ||| (df == 1 || df == -1) && (dr == 2 || dr == -2)
        }),
{
    a.lemma_equal_iff_same_coordinates(b);
}

/// Mirroring the board across its middle file changes none of the relations between squares:
/// the board has no preferred diagonal direction and no preferred side.
pub proof fn lemma_relations_survive_mirroring(a: Position, b: Position)
    requires
        a.is_valid(),
        b.is_valid(),
    ensures
        a.mirrored().spec_is_on_diagonal(b.mirrored()) == a.spec_is_on_diagonal(b),
        a.mirrored().spec_is_on_main_axis(b.mirrored()) == a.spec_is_on_main_axis(b),
        a.mirrored().spec_is_adjacent(b.mirrored()) == a.spec_is_adjacent(b),
        a.mirrored().spec_is_ell_away(b.mirrored()) == a.spec_is_ell_away(b),
{
    a.lemma_mirrored();
    b.lemma_mirrored();
    a.lemma_equal_iff_same_coordinates(b);
    a.mirrored().lemma_equal_iff_same_coordinates(b.mirrored());
    lemma_relations_in_coordinates(a, b);
    lemma_relations_in_coordinates(a.mirrored(), b.mirrored());
}

} // verus!
