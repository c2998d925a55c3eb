use vstd::prelude::*;

verus! {

/// Number of columns on the board.
pub const COLUMNS: usize = 7;

/// Number of pieces a column can hold.
pub const ROWS: usize = 6;

/// One piece dropped by a player; immutable once created.
#[derive(Clone, Copy, Debug, PartialEq, Eq)]
pub struct PlayerMove {
    pub player: u8,
    pub column: usize,
    pub row: usize,
}

impl PlayerMove {
    pub fn new(player: u8, column: usize, row: usize) -> (r: PlayerMove)
        ensures
            r == (PlayerMove { player, column, row }),
    {
        PlayerMove { player, column, row }
    }
}

/// How many moves of `moves` sit in column `c`.
pub open spec fn count_col(moves: Seq<PlayerMove>, c: int) -> nat
    decreases moves.len(),
{
    if moves.len() == 0 {
        0
    } else {
        count_col(moves.drop_last(), c) + if moves.last().column as int == c {
            1nat
        } else {
            0nat
        }
    }
}

/// The player who makes the move with the given index: Player 1 moves first.
pub open spec fn player_for(index: int) -> u8 {
    if index % 2 == 0 {
        1
    } else {
        2
    }
}

/// Some move of player `p` occupies the cell at (`c`, `r`).
pub open spec fn owns(moves: Seq<PlayerMove>, p: u8, c: int, r: int) -> bool {
    exists|i: int|
        0 <= i < moves.len() && #[trigger] moves[i].player == p && moves[i].column as int == c
            && moves[i].row as int == r
}

/// Player `p` holds the four cells starting at (`c`, `r`) in direction (`dc`, `dr`).
pub open spec fn four_from(moves: Seq<PlayerMove>, p: u8, c: int, r: int, dc: int, dr: int) -> bool {
    &&& owns(moves, p, c, r)
    &&& owns(moves, p, c + dc, r + dr)
    &&& owns(moves, p, c + 2 * dc, r + 2 * dr)
    &&& owns(moves, p, c + 3 * dc, r + 3 * dr)
}

/// Along the axis (`dc`, `dr`) through (`c`, `r`), player `p` holds at least four
/// contiguous cells, the cell (`c`, `r`) among them.
pub open spec fn axis_line(moves: Seq<PlayerMove>, p: u8, c: int, r: int, dc: int, dr: int) -> bool {
    ||| four_from(moves, p, c, r, dc, dr)
    ||| four_from(moves, p, c - dc, r - dr, dc, dr)
    ||| four_from(moves, p, c - 2 * dc, r - 2 * dr, dc, dr)
    ||| four_from(moves, p, c - 3 * dc, r - 3 * dr, dc, dr)
}

/// The move `m` lies on a line of four of its player: horizontal, vertical, or
/// one of the two diagonals.
pub open spec fn line_through(moves: Seq<PlayerMove>, m: PlayerMove) -> bool {
    let c = m.column as int;
    let r = m.row as int;
    ||| axis_line(moves, m.player, c, r, 1, 0)
    ||| axis_line(moves, m.player, c, r, 0, 1)
    ||| axis_line(moves, m.player, c, r, 1, 1)
    ||| axis_line(moves, m.player, c, r, 1, -1)
}

/// Some move of the sequence lies on a line of four.
pub open spec fn has_winning_line(moves: Seq<PlayerMove>) -> bool {
    exists|i: int| 0 <= i < moves.len() && line_through(moves, #[trigger] moves[i])
}

/// The position of `x` relative to `base` is `d`.
fn at_offset(x: usize, base: usize, d: i64) -> (b: bool)
    requires
        -3 <= d <= 3,
    ensures
        b == (x as int == base as int + d as int),
{
    if d >= 0 {
        x >= base && x - base == d as usize
    } else {
        base >= x && base - x == (0 - d) as usize
    }
}

/// Whether player `p` holds the cell at offset (`dc`, `dr`) from (`c`, `r`).
fn owns_cell(moves: &[PlayerMove], p: u8, c: usize, r: usize, dc: i64, dr: i64) -> (b: bool)
    requires
        -3 <= dc <= 3,
        -3 <= dr <= 3,
    ensures
        b == owns(moves@, p, c as int + dc as int, r as int + dr as int),
{
    let mut i: usize = 0;
    while i < moves.len()
        invariant
            i <= moves@.len(),
            -3 <= dc <= 3,
            -3 <= dr <= 3,
            forall|j: int|
                0 <= j < i ==> !(#[trigger] moves@[j].player == p && moves@[j].column as int
                    == c as int + dc as int && moves@[j].row as int == r as int + dr as int),
        decreases moves@.len() - i,
    {
        let m = moves[i];
        if m.player == p && at_offset(m.column, c, dc) && at_offset(m.row, r, dr) {
            return true;
        }
        i = i + 1;
    }
    false
}

/// `j` steps of size `d`, for a direction component `d`.
fn step(j: i64, d: i64) -> (s: i64)
    requires
        -3 <= j <= 3,
        -1 <= d <= 1,
    ensures
        s == j * d,
        -3 <= s <= 3,
{
    if d == 0 {
        assert(j * d == 0) by (nonlinear_arith)
            requires
                d == 0,
        ;
        0
    } else if d == 1 {
        assert(j * d == j) by (nonlinear_arith)
            requires
                d == 1,
        ;
        j
    } else {
        assert(j * d == -j) by (nonlinear_arith)
            requires
                d == -1,
        ;
        0 - j
    }
}

/// Whether player `p` holds four cells from offset `k` times (-`dc`, -`dr`) on.
fn four_from_exec(moves: &[PlayerMove], p: u8, c: usize, r: usize, dc: i64, dr: i64, k: i64) -> (b: bool)
    requires
        -1 <= dc <= 1,
        -1 <= dr <= 1,
        0 <= k <= 3,
    ensures
        b == four_from(moves@, p, c as int - k * dc, r as int - k * dr, dc as int, dr as int),
{
    let b0 = owns_cell(moves, p, c, r, step(0 - k, dc), step(0 - k, dr));
    let b1 = owns_cell(moves, p, c, r, step(1 - k, dc), step(1 - k, dr));
    let b2 = owns_cell(moves, p, c, r, step(2 - k, dc), step(2 - k, dr));
    let b3 = owns_cell(moves, p, c, r, step(3 - k, dc), step(3 - k, dr));
    assert((0 - k) * dc == -(k * dc) && (1 - k) * dc == dc - k * dc && (2 - k) * dc == 2 * dc - k * dc
        && (3 - k) * dc == 3 * dc - k * dc) by (nonlinear_arith);
    assert((0 - k) * dr == -(k * dr) && (1 - k) * dr == dr - k * dr && (2 - k) * dr == 2 * dr - k * dr
        && (3 - k) * dr == 3 * dr - k * dr) by (nonlinear_arith);
    b0 && b1 && b2 && b3
}

/// Whether player `p` has four contiguous cells through (`c`, `r`) along (`dc`, `dr`).
fn axis_line_exec(moves: &[PlayerMove], p: u8, c: usize, r: usize, dc: i64, dr: i64) -> (b: bool)
    requires
        -1 <= dc <= 1,
        -1 <= dr <= 1,
    ensures
        b == axis_line(moves@, p, c as int, r as int, dc as int, dr as int),
{
    let b0 = four_from_exec(moves, p, c, r, dc, dr, 0);
    let b1 = four_from_exec(moves, p, c, r, dc, dr, 1);
    let b2 = four_from_exec(moves, p, c, r, dc, dr, 2);
    let b3 = four_from_exec(moves, p, c, r, dc, dr, 3);
    b0 || b1 || b2 || b3
}

impl PlayerMove {
    /// Whether this move lies on a line of four of its player within `moves`.
    pub fn is_winner(&self, moves: &[PlayerMove]) -> (b: bool)
        ensures
            b == line_through(moves@, *self),
    {
        let p = self.player;
        let c = self.column;
        let r = self.row;
        axis_line_exec(moves, p, c, r, 1, 0) || axis_line_exec(moves, p, c, r, 0, 1)
            || axis_line_exec(moves, p, c, r, 1, 1) || axis_line_exec(moves, p, c, r, 1, -1)
    }
}

/// Whether any move of `moves` lies on a line of four.
pub fn has_winning_move(moves: &[PlayerMove]) -> (b: bool)
    ensures
        b == has_winning_line(moves@),
{
    let mut i: usize = 0;
    while i < moves.len()
        invariant
            i <= moves@.len(),
            forall|j: int| 0 <= j < i ==> !line_through(moves@, #[trigger] moves@[j]),
        decreases moves@.len() - i,
    {
        if moves[i].is_winner(moves) {
            return true;
        }
        i = i + 1;
    }
    false
}

/// Adding a move to the end raises the count of its own column by one and
/// leaves the other columns as they were.
pub proof fn lemma_count_push(moves: Seq<PlayerMove>, m: PlayerMove, c: int)
    ensures
        count_col(moves.push(m), c) == count_col(moves, c) + if m.column as int == c {
            1nat
        } else {
            0nat
        },
{
    assert(moves.push(m).drop_last() =~= moves);
}

/// Game state: the moves played so far, whose turn it is, the winner once there
/// is one, and whether the latest move is still settling.
pub struct Board {
    pub moves: Vec<PlayerMove>,
    pub player_turn: u8,
    pub winner: Option<u8>,
    pub in_progress: bool,
}

impl Board {
    /// Moves alternate from Player 1 on, each stacked on top of its column, at
    /// most six to a column; without a winner the turn belongs to the player of
    /// the next move, or of the settling one.
    pub open spec fn wf(&self) -> bool {
        let m = self.moves@;
        &&& forall|i: int|
            0 <= i < m.len() ==> {
                &&& (#[trigger] m[i]).column < COLUMNS
                &&& m[i].row < ROWS
                &&& m[i].player == player_for(i)
                &&& (m[i].row as int) < count_col(m, m[i].column as int)
            }
        &&& forall|i: int, j: int|
            0 <= i < j < m.len() ==> !(#[trigger] m[i].column == #[trigger] m[j].column && m[i].row
                == m[j].row)
        &&& forall|c: int| #[trigger] count_col(m, c) <= ROWS
        &&& self.player_turn == 1 || self.player_turn == 2
        &&& self.winner matches Some(w) ==> (w == 1 || w == 2)
        &&& self.in_progress ==> m.len() > 0
        &&& self.winner is None ==> self.player_turn == player_for(
            m.len() - if self.in_progress {
                1int
            } else {
                0int
            },
        )
    }

    /// An empty board with Player 1 to move and nothing settling.
    pub open spec fn is_fresh(&self) -> bool {
        &&& self.wf()
        &&& self.moves@.len() == 0
        &&& self.player_turn == 1
        &&& self.winner is None
        &&& !self.in_progress
    }

    /// An empty board with Player 1 to move.
    pub fn new() -> (b: Board)
        ensures
            b.is_fresh(),
    {
        let b = Board { moves: Vec::new(), player_turn: 1, winner: None, in_progress: false };
        assert forall|c: int| #[trigger] count_col(b.moves@, c) <= ROWS by {}
        b
    }

    /// How many moves sit in `column`.
    pub fn count_in_column(&self, column: usize) -> (n: usize)
        requires
            self.wf(),
        ensures
            n == count_col(self.moves@, column as int),
    {
        let mut n: usize = 0;
        let mut i: usize = 0;
        while i < self.moves.len()
            invariant
                i <= self.moves@.len(),
                n == count_col(self.moves@.take(i as int), column as int),
                n <= i,
            decreases self.moves@.len() - i,
        {
            proof {
                assert(self.moves@.take(i + 1).drop_last() =~= self.moves@.take(i as int));
            }
            if self.moves[i].column == column {
                n = n + 1;
            }
            i = i + 1;
        }
        assert(self.moves@.take(i as int) =~= self.moves@);
        n
    }

    /// A move can be placed in `column` now: it is a column of the board with
    /// room left, there is no winner and no move is settling.
    pub open spec fn can_place(&self, column: usize) -> bool {
        &&& column < COLUMNS
        &&& count_col(self.moves@, column as int) < ROWS
        &&& self.winner is None
        &&& !self.in_progress
    }

    /// The move that a piece dropped in `column` now makes.
    pub open spec fn next_move(&self, column: usize) -> PlayerMove {
        PlayerMove {
            player: self.player_turn,
            column,
            row: count_col(self.moves@, column as int) as usize,
        }
    }

    /// `b` is this board after an attempt to drop a piece in `column`: the
    /// move is added and starts settling where it is allowed, and nothing
    /// changes where it is not.
    pub open spec fn placed_to(&self, column: usize, b: &Board) -> bool {
        &&& self.can_place(column) ==> {
            &&& b.moves@ == self.moves@.push(self.next_move(column))
            &&& b.in_progress
            &&& b.player_turn == self.player_turn
            &&& b.winner == self.winner
        }
        &&& !self.can_place(column) ==> *b == *self
    }

    /// Places a piece of the player to move in `column`, on top of the pieces
    /// already there, and marks it as settling; `None`, with nothing changed,
    /// when the move is not allowed.
    pub fn place(&mut self, column: usize) -> (r: Option<PlayerMove>)
        requires
            old(self).wf(),
        ensures
            final(self).wf(),
            old(self).placed_to(column, &*final(self)),
            r == if old(self).can_place(column) {
                Some(old(self).next_move(column))
            } else {
                None::<PlayerMove>
            },
    {
        if column >= COLUMNS || self.winner.is_some() || self.in_progress {
            return None;
        }
        let row = self.count_in_column(column);
        if row >= ROWS {
            return None;
        }
        let m = PlayerMove::new(self.player_turn, column, row);
        let ghost old_moves = self.moves@;
        self.moves.push(m);
        self.in_progress = true;
        proof {
            let nm = self.moves@;
            assert(nm == old_moves.push(m));
            assert forall|c: int| #[trigger] count_col(nm, c) <= ROWS by {
                lemma_count_push(old_moves, m, c);
            }
            assert forall|i: int| 0 <= i < nm.len() implies {
                &&& (#[trigger] nm[i]).column < COLUMNS
                &&& nm[i].row < ROWS
                &&& nm[i].player == player_for(i)
                &&& (nm[i].row as int) < count_col(nm, nm[i].column as int)
            } by {
                lemma_count_push(old_moves, m, nm[i].column as int);
                if i < old_moves.len() {
                    assert(nm[i] == old_moves[i]);
                }
            }
            assert forall|i: int, j: int|
                0 <= i < j < nm.len() implies !(#[trigger] nm[i].column == #[trigger] nm[j].column
                && nm[i].row == nm[j].row) by {
                assert(nm[i] == old_moves[i]);
                if j < old_moves.len() {
                    assert(nm[j] == old_moves[j]);
                }
            }
        }
        Some(m)
    }

    /// `b` is this board after the settling move has landed: with a line of
    /// four on the board its player wins, else the turn passes to the other
    /// player; a board with no move settling stays as it is.
    pub open spec fn settles_to(&self, b: &Board) -> bool {
        &&& !b.in_progress
        &&& b.moves@ == self.moves@
        &&& !self.in_progress ==> *b == *self
        &&& self.in_progress && self.winner is None && has_winning_line(self.moves@)
            ==> b.winner == Some(self.moves@.last().player) && b.player_turn == self.player_turn
        &&& self.in_progress && self.winner is None && !has_winning_line(self.moves@)
            ==> b.winner is None && b.player_turn == 3 - self.player_turn
        &&& self.winner is Some ==> b.winner == self.winner && b.player_turn == self.player_turn
    }

    /// Applies the end of the settling move (see `settles_to`).
    pub fn on_move_settled(&mut self)
        requires
            old(self).wf(),
        ensures
            final(self).wf(),
            old(self).settles_to(&*final(self)),
    {
        if !self.in_progress {
            return;
        }
        self.in_progress = false;
        if self.winner.is_some() {
            return;
        }
        if has_winning_move(self.moves.as_slice()) {
            let last = self.moves[self.moves.len() - 1];
            self.winner = Some(last.player);
        } else {
            self.player_turn = 3 - self.player_turn;
        }
    }

    /// Clears the board for a new game: no moves, no winner, nothing
    /// settling, Player 1 to move.
    pub fn reset(&mut self)
        ensures
            final(self).is_fresh(),
    {
        *self = Board::new();
    }
}

/// No column ever holds more than six moves.
pub proof fn lemma_column_capacity(b: Board, c: int)
    requires
        b.wf(),
    ensures
        count_col(b.moves@, c) <= ROWS,
{
}

/// Without a winner and with no move settling, Player 1 is to move after an
/// even number of moves and Player 2 after an odd number.
pub proof fn lemma_turn_parity(b: Board)
    requires
        b.wf(),
        b.winner is None,
        !b.in_progress,
    ensures
        b.player_turn == if b.moves@.len() % 2 == 0 {
            1u8
        } else {
            2u8
        },
{
}

/// A cell held in a sequence is held in it without its last move, or is the
/// last move's own cell.
proof fn lemma_owns_split(moves: Seq<PlayerMove>, p: u8, c: int, r: int)
    requires
        moves.len() > 0,
        owns(moves, p, c, r),
        !owns(moves.drop_last(), p, c, r),
    ensures
        moves.last().player == p,
        moves.last().column as int == c,
        moves.last().row as int == r,
{
    let i = choose|i: int|
        0 <= i < moves.len() && #[trigger] moves[i].player == p && moves[i].column as int == c
            && moves[i].row as int == r;
    if i < moves.len() - 1 {
        assert(moves.drop_last()[i] == moves[i]);
    }
}

/// A line of four that the sequence holds and its prefix does not passes
/// through the last move, on the same axis.
proof fn lemma_four_new(moves: Seq<PlayerMove>, p: u8, c: int, r: int, dc: int, dr: int)
    requires
        moves.len() > 0,
        four_from(moves, p, c, r, dc, dr),
        !four_from(moves.drop_last(), p, c, r, dc, dr),
    ensures
        moves.last().player == p,
        axis_line(moves, p, moves.last().column as int, moves.last().row as int, dc, dr),
{
    let pre = moves.drop_last();
    if !owns(pre, p, c, r) {
        lemma_owns_split(moves, p, c, r);
    } else if !owns(pre, p, c + dc, r + dr) {
        lemma_owns_split(moves, p, c + dc, r + dr);
    } else if !owns(pre, p, c + 2 * dc, r + 2 * dr) {
        lemma_owns_split(moves, p, c + 2 * dc, r + 2 * dr);
    } else {
        lemma_owns_split(moves, p, c + 3 * dc, r + 3 * dr);
    }
}

/// An axis line that the sequence holds and its prefix does not passes through
/// the last move.
proof fn lemma_axis_new(moves: Seq<PlayerMove>, p: u8, c: int, r: int, dc: int, dr: int)
    requires
        moves.len() > 0,
        axis_line(moves, p, c, r, dc, dr),
        !axis_line(moves.drop_last(), p, c, r, dc, dr),
    ensures
        moves.last().player == p,
        axis_line(moves, p, moves.last().column as int, moves.last().row as int, dc, dr),
{
    if four_from(moves, p, c, r, dc, dr) {
        lemma_four_new(moves, p, c, r, dc, dr);
    } else if four_from(moves, p, c - dc, r - dr, dc, dr) {
        lemma_four_new(moves, p, c - dc, r - dr, dc, dr);
    } else if four_from(moves, p, c - 2 * dc, r - 2 * dr, dc, dr) {
        lemma_four_new(moves, p, c - 2 * dc, r - 2 * dr, dc, dr);
    } else {
        lemma_four_new(moves, p, c - 3 * dc, r - 3 * dr, dc, dr);
    }
}

/// When the moves before the last one hold no line of four, the sequence holds
/// one exactly when a line of four passes through the last move.
pub proof fn lemma_win_at_last(moves: Seq<PlayerMove>)
    requires
        moves.len() > 0,
        !has_winning_line(moves.drop_last()),
    ensures
        has_winning_line(moves) == line_through(moves, moves.last()),
{
    let last = moves.last();
    let pre = moves.drop_last();
    if line_through(moves, last) {
        assert(moves[moves.len() - 1] == last);
    }
    if has_winning_line(moves) {
        let i = choose|i: int| 0 <= i < moves.len() && line_through(moves, #[trigger] moves[i]);
        if i < moves.len() - 1 {
            let m = moves[i];
            assert(pre[i] == m);
            assert(!line_through(pre, pre[i]));
            let c = m.column as int;
            let r = m.row as int;
            if axis_line(moves, m.player, c, r, 1, 0) && !axis_line(pre, m.player, c, r, 1, 0) {
                lemma_axis_new(moves, m.player, c, r, 1, 0);
            } else if axis_line(moves, m.player, c, r, 0, 1) && !axis_line(pre, m.player, c, r, 0, 1) {
                lemma_axis_new(moves, m.player, c, r, 0, 1);
            } else if axis_line(moves, m.player, c, r, 1, 1) && !axis_line(pre, m.player, c, r, 1, 1) {
                lemma_axis_new(moves, m.player, c, r, 1, 1);
            } else {
                lemma_axis_new(moves, m.player, c, r, 1, -1);
            }
        }
    }
}

} // verus!
