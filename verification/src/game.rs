//! The turn-taking state machine: move validation, outcome classification,
//! and the cross-round record.

use vstd::prelude::*;

use crate::board::Board;
use crate::board::Position;
use crate::board::full_on;
use crate::board::wins_on;
use crate::player::Player;

verus! {

/// Result of an attempted move. `Win` and `Draw` are terminal; `Switch`
/// means the move was accepted and the turn passed; `NoChange` means the
/// move was rejected (out of range, cell occupied, or game already over)
/// and the state is unchanged.
#[derive(Debug, Eq, PartialEq, Structural)]
pub enum MoveOutcome {
    Win(Player),
    Draw,
    Switch,
    NoChange,
}

/// Win/Loss record over the course of multiple games. The counters only
/// ever grow, one step per terminal outcome, and survive `reset`.
#[derive(Clone, Copy, Debug, Eq, PartialEq, Structural)]
pub struct Record {
    pub xwins: u32,
    pub owins: u32,
    pub draws: u32,
}

impl Record {
    /// A fresh record with every counter at zero.
    pub fn new() -> (r: Self)
        ensures
            r.xwins == 0,
            r.owins == 0,
            r.draws == 0,
    {
        Self { xwins: 0, owins: 0, draws: 0 }
    }
}

/// Tic-tac-toe game state: the board, the active player, whether the round
/// is still ongoing, the winner of a finished round, and the cross-round
/// record.
#[derive(Debug)]
pub struct GameState {
    pub board: Board,
    pub turn: Player,
    pub ongoing: bool,
    pub winner: Option<Player>,
    pub log: Record,
}

impl GameState {
    /// While a round is ongoing, no winner is recorded and no line is
    /// complete. `new` establishes this and `play` and `reset` preserve it.
    pub open spec fn wf(self) -> bool {
        self.ongoing ==> {
            &&& self.winner is None
            &&& !self.board.spec_wins(Player::X)
            &&& !self.board.spec_wins(Player::O)
        }
    }

    /// A proposed move is accepted exactly when the round is still ongoing,
    /// the position lies on the grid, and the target cell is empty.
    pub open spec fn move_accepted(self, col: int, row: int) -> bool {
        &&& self.ongoing
        &&& 0 <= col < 3
        &&& 0 <= row < 3
        &&& self.board.spec_get(col, row) is None
    }

    /// The grid after the active player marks (col, row).
    pub open spec fn grid_after_move(self, col: int, row: int) -> Seq<Option<Player>> {
        self.board.cells@.update(3 * col + row, Some(self.turn))
    }

    /// How `play` classifies the move at (col, row): a rejected move is
    /// `NoChange`; an accepted one is `Win` when it completes a line for
    /// the mover, else `Draw` when it fills the board, else `Switch`. The
    /// win check comes first, so a full board with a complete line is a
    /// win, never a draw.
    pub open spec fn outcome_of(self, col: int, row: int) -> MoveOutcome {
        if !self.move_accepted(col, row) {
            MoveOutcome::NoChange
        } else {
            let after = self.grid_after_move(col, row);
            if wins_on(after, self.turn) {
                MoveOutcome::Win(self.turn)
            } else if full_on(after) {
                MoveOutcome::Draw
            } else {
                MoveOutcome::Switch
            }
        }
    }

    /// Setup a new game, with X going first and an all-zero record.
    pub fn new() -> (g: Self)
        ensures
            g.wf(),
            g.board.spec_empty(),
            g.turn == Player::X,
            g.ongoing,
            g.winner is None,
            g.log.xwins == 0,
            g.log.owins == 0,
            g.log.draws == 0,
    {
        Self {
            board: Board::new(),
            turn: Player::X,
            ongoing: true,
            winner: None,
            log: Record::new(),
        }
    }

    /// Attempt to make a move on the current board.
    ///
    /// The returned outcome is exactly `outcome_of` on the pre-state, and
    /// the clauses below pin every field of the post-state: a rejected move
    /// changes nothing; an accepted one adds the mover's mark and, per
    /// outcome, finishes the round and bumps exactly one counter (`Win`,
    /// `Draw`) or passes the turn to the other player (`Switch`).
    pub fn play(&mut self, pos: Position) -> (r: MoveOutcome)
        requires
            old(self).wf(),
            old(self).log.xwins < u32::MAX,
            old(self).log.owins < u32::MAX,
            old(self).log.draws < u32::MAX,
        ensures
            final(self).wf(),
            r == old(self).outcome_of(pos.0 as int, pos.1 as int),
            old(self).move_accepted(pos.0 as int, pos.1 as int) ==> final(self).board.cells@
                == old(self).grid_after_move(pos.0 as int, pos.1 as int),
            r == MoveOutcome::NoChange ==> *final(self) == *old(self),
            r matches MoveOutcome::Win(p) ==> {
                &&& p == old(self).turn
                &&& !final(self).ongoing
                &&& final(self).winner == Some(p)
                &&& final(self).turn == old(self).turn
                &&& final(self).log.xwins == old(self).log.xwins
                    + (if p == Player::X { 1int } else { 0int })
                &&& final(self).log.owins == old(self).log.owins
                    + (if p == Player::O { 1int } else { 0int })
                &&& final(self).log.draws == old(self).log.draws
            },
            r == MoveOutcome::Draw ==> {
                &&& !final(self).ongoing
                &&& final(self).winner is None
                &&& final(self).turn == old(self).turn
                &&& final(self).log.xwins == old(self).log.xwins
                &&& final(self).log.owins == old(self).log.owins
                &&& final(self).log.draws == old(self).log.draws + 1
            },
            r == MoveOutcome::Switch ==> {
                &&& final(self).ongoing
                &&& final(self).winner is None
                &&& final(self).turn == old(self).turn.spec_other()
                &&& final(self).log == old(self).log
            },
    {
        let (col, row) = pos;
        if !self.ongoing {
            return MoveOutcome::NoChange;
        }
        if col >= 3 || row >= 3 {
            return MoveOutcome::NoChange;
        }
        if self.board.get(pos).is_some() {
            return MoveOutcome::NoChange;
        }

        let mover = self.turn;
        self.board.set(pos, mover);

        match self.board.winner() {
            Some(p) => {
                self.ongoing = false;
                self.winner = Some(p);
                if p == Player::X {
                    self.log.xwins = self.log.xwins + 1;
                } else {
                    self.log.owins = self.log.owins + 1;
                }
                MoveOutcome::Win(p)
            },
            None => {
                if self.board.is_full() {
                    self.ongoing = false;
                    self.log.draws = self.log.draws + 1;
                    MoveOutcome::Draw
                } else {
                    self.turn = self.turn.other();
                    MoveOutcome::Switch
                }
            },
        }
    }

    /// An out-of-range position (column or row at least 3) is never an
    /// accepted move, whatever the rest of the state: by `play`'s contract
    /// such a call returns `NoChange` and leaves every field of the game
    /// unmodified.
    pub proof fn lemma_out_of_range_rejected(self, col: int, row: int)
        requires
            col >= 3 || row >= 3,
        ensures
            !self.move_accepted(col, row),
            self.outcome_of(col, row) == MoveOutcome::NoChange,
    {
    }

    /// A move onto an occupied cell, or any move once the round has
    /// finished, is rejected: by `play`'s contract it returns `NoChange`
    /// and leaves the state exactly as it was, so repeating the call any
    /// number of times keeps returning `NoChange` on the same unchanged
    /// state.
    pub proof fn lemma_rejected_move_idempotent(self, col: int, row: int)
        requires
            !self.ongoing || self.board.spec_get(col, row) is Some,
        ensures
            !self.move_accepted(col, row),
            self.outcome_of(col, row) == MoveOutcome::NoChange,
    {
    }

    /// The win check precedes the full-board check: a move that completes
    /// a line for the mover is classified `Win`, never `Draw`, even when
    /// the same mark also fills the board.
    pub proof fn lemma_win_precedes_draw(self, col: int, row: int)
        requires
            self.move_accepted(col, row),
            wins_on(self.grid_after_move(col, row), self.turn),
        ensures
            self.outcome_of(col, row) == MoveOutcome::Win(self.turn),
            self.outcome_of(col, row) != MoveOutcome::Draw,
    {
    }

    /// Reset everything besides the game log: empty board, X to move,
    /// round ongoing, no winner.
    pub fn reset(&mut self)
        ensures
            final(self).wf(),
            final(self).board.spec_empty(),
            final(self).turn == Player::X,
            final(self).ongoing,
            final(self).winner is None,
            final(self).log == old(self).log,
    {
        self.board = Board::new();
        self.turn = Player::X;
        self.ongoing = true;
        self.winner = None;
    }
}

} // verus!
