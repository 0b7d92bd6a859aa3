//! The 3x3 grid and its read-only evaluators: occupancy, winner, full board.

use vstd::prelude::*;

use crate::player::Player;

verus! {

/// Tuple of the form (column, row) used for addressing board cells.
pub type Position = (usize, usize);

/// Player `p` owns the line through cells `a`, `b`, `c` of the grid `s`:
/// all three cells carry that player's mark. Empty cells never count.
pub open spec fn line_won_on(s: Seq<Option<Player>>, a: int, b: int, c: int, p: Player) -> bool {
    s[a] == Some(p) && s[b] == Some(p) && s[c] == Some(p)
}

/// Player `p` owns one of the 8 winning lines of the grid `s`:
/// 3 columns, 3 rows, 2 diagonals. Cell (col, row) lives at index
/// `3 * col + row`.
pub open spec fn wins_on(s: Seq<Option<Player>>, p: Player) -> bool {
    ||| line_won_on(s, 0, 1, 2, p)  // column 0
    ||| line_won_on(s, 3, 4, 5, p)  // column 1
    ||| line_won_on(s, 6, 7, 8, p)  // column 2
    ||| line_won_on(s, 0, 3, 6, p)  // row 0
    ||| line_won_on(s, 1, 4, 7, p)  // row 1
    ||| line_won_on(s, 2, 5, 8, p)  // row 2
    ||| line_won_on(s, 0, 4, 8, p)  // main diagonal
    ||| line_won_on(s, 2, 4, 6, p)  // anti-diagonal
}

/// Every cell of the grid `s` is occupied.
pub open spec fn full_on(s: Seq<Option<Player>>) -> bool {
    forall|i: int| 0 <= i < 9 ==> (#[trigger] s[i]) is Some
}

/// Every cell of the grid `s` is empty.
pub open spec fn empty_on(s: Seq<Option<Player>>) -> bool {
    forall|i: int| 0 <= i < 9 ==> (#[trigger] s[i]) is None
}

/// 3x3 tic-tac-toe board. The grid is stored column by column: cell
/// (col, row) lives at index `3 * col + row`, and an empty cell is `None`.
#[derive(Debug)]
pub struct Board {
    pub cells: [Option<Player>; 9],
}

impl Board {
    /// The occupant of cell (col, row).
    pub open spec fn spec_get(self, col: int, row: int) -> Option<Player>
        recommends
            0 <= col < 3 && 0 <= row < 3,
    {
        self.cells@[3 * col + row]
    }

    /// Player `p` owns one of the 8 winning lines of this board.
    pub open spec fn spec_wins(self, p: Player) -> bool {
        wins_on(self.cells@, p)
    }

    /// Every cell of this board is occupied.
    pub open spec fn spec_full(self) -> bool {
        full_on(self.cells@)
    }

    /// Every cell of this board is empty.
    pub open spec fn spec_empty(self) -> bool {
        empty_on(self.cells@)
    }

    /// Create a new 3x3 grid with each cell instantiated to `None`.
    pub fn new() -> (b: Board)
        ensures
            b.spec_empty(),
    {
        Board { cells: [None, None, None, None, None, None, None, None, None] }
    }

    /// Create a new 3x3 grid with a given set of values, one inner array
    /// per column.
    pub fn from_array(values: [[Option<Player>; 3]; 3]) -> (b: Board)
        ensures
            forall|col: int, row: int|
                0 <= col < 3 && 0 <= row < 3 ==> #[trigger] b.spec_get(col, row)
                    == values@[col]@[row],
    {
        Board {
            cells: [
                values[0][0],
                values[0][1],
                values[0][2],
                values[1][0],
                values[1][1],
                values[1][2],
                values[2][0],
                values[2][1],
                values[2][2],
            ],
        }
    }

    /// The occupant of (col, row), or `None` when the position lies outside
    /// the grid: out-of-range positions read as empty.
    pub fn get(&self, pos: Position) -> (r: Option<Player>)
        ensures
            pos.0 < 3 && pos.1 < 3 ==> r == self.spec_get(pos.0 as int, pos.1 as int),
            !(pos.0 < 3 && pos.1 < 3) ==> r is None,
    {
        let (col, row) = pos;
        if col < 3 && row < 3 {
            self.cells[3 * col + row]
        } else {
            None
        }
    }

    /// Direct write of a mark, used by the game after validating the move;
    /// the caller is the sole guardian of bounds and occupancy.
    pub fn set(&mut self, pos: Position, p: Player)
        requires
            pos.0 < 3,
            pos.1 < 3,
        ensures
            final(self).cells@ == old(self).cells@.update(
                3 * (pos.0 as int) + (pos.1 as int),
                Some(p),
            ),
            final(self).spec_get(pos.0 as int, pos.1 as int) == Some(p),
            forall|col: int, row: int|
                0 <= col < 3 && 0 <= row < 3 && !(col == pos.0 && row == pos.1)
                    ==> #[trigger] final(self).spec_get(col, row)
                        == old(self).spec_get(col, row),
    {
        let (col, row) = pos;
        self.cells[3 * col + row] = Some(p);
    }

    /// Check for winners on a given board, either `Some(Player)` or `None`.
    ///
    /// The lines are scanned in a fixed order, but the two clauses below pin
    /// the result whenever at most one player owns a line — the only
    /// situation an alternating game can produce.
    pub fn winner(&self) -> (r: Option<Player>)
        ensures
            r matches Some(p) ==> self.spec_wins(p),
            r is None <==> !self.spec_wins(Player::X) && !self.spec_wins(Player::O),
    {
        // Vertical lines
        if let Some(p) = self.line_owner(0, 1, 2) {
            return Some(p);
        }
        if let Some(p) = self.line_owner(3, 4, 5) {
            return Some(p);
        }
        if let Some(p) = self.line_owner(6, 7, 8) {
            return Some(p);
        }
        // Horizontal lines
        if let Some(p) = self.line_owner(0, 3, 6) {
            return Some(p);
        }
        if let Some(p) = self.line_owner(1, 4, 7) {
            return Some(p);
        }
        if let Some(p) = self.line_owner(2, 5, 8) {
            return Some(p);
        }
        // Diagonals
        if let Some(p) = self.line_owner(0, 4, 8) {
            return Some(p);
        }
        if let Some(p) = self.line_owner(2, 4, 6) {
            return Some(p);
        }
        None
    }

    /// The player whose marks fill the line through cells `a`, `b`, `c`,
    /// if there is one.
    fn line_owner(&self, a: usize, b: usize, c: usize) -> (r: Option<Player>)
        requires
            a < 9,
            b < 9,
            c < 9,
        ensures
            r matches Some(p) ==> line_won_on(self.cells@, a as int, b as int, c as int, p),
            r is None ==> forall|p: Player|
                !line_won_on(self.cells@, a as int, b as int, c as int, p),
    {
        match (self.cells[a], self.cells[b], self.cells[c]) {
            (Some(p), Some(q), Some(s)) => {
                if p == q && p == s {
                    Some(p)
                } else {
                    None
                }
            },
            _ => None,
        }
    }

    /// An empty board has no winner: a winning line needs three of one
    /// player's marks, and an empty grid holds none.
    pub proof fn lemma_empty_board_no_winner(self)
        requires
            self.spec_empty(),
        ensures
            forall|p: Player| !self.spec_wins(p),
    {
    }

    /// Check for a full board: true iff no cell is empty.
    pub fn is_full(&self) -> (r: bool)
        ensures
            r == self.spec_full(),
    {
        let mut i: usize = 0;
        while i < 9
            invariant
                i <= 9,
                forall|j: int| 0 <= j < i ==> (#[trigger] self.cells@[j]) is Some,
            decreases 9 - i,
        {
            if self.cells[i].is_none() {
                return false;
            }
            i = i + 1;
        }
        true
    }
}

} // verus!
