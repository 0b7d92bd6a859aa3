//! Player labels and the turn-advancing swap between them.

use vstd::prelude::*;

verus! {

/// Two tic-tac-toe player labels.
#[derive(Clone, Copy, Debug, Eq, Hash, PartialEq, Structural)]
pub enum Player {
    X,
    O,
}

impl Player {
    /// The opposing label: X and O swap.
    pub open spec fn spec_other(self) -> Player {
        match self {
            Player::X => Player::O,
            Player::O => Player::X,
        }
    }

    /// Return the other player label.
    pub fn other(&self) -> (r: Self)
        ensures
            r == self.spec_other(),
    {
        match self {
            Player::X => Player::O,
            Player::O => Player::X,
        }
    }
}

/// Swapping the active player never hands back the same label, and swapping
/// twice gives back the label it started from. Together with the turn clauses of
/// `GameState::play` (the turn swaps exactly on a `Switch` outcome and stays
/// put on every other one), the turn alternates strictly between X and O
/// along any run of accepted moves.
pub proof fn lemma_other_alternates(p: Player)
    ensures
        p.spec_other() != p,
        p.spec_other().spec_other() == p,
{
}

} // verus!
