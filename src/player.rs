use vstd::prelude::*;
use crate::world::{ItemIdentifier, RoomIdentifier};

verus! {

/// The player: where they stand, their score and move count, and what they
/// carry, in the order it was picked up.
pub struct Player {
    pub moves: u32,
    pub score: u32,
    pub location: RoomIdentifier,
    pub items: Vec<ItemIdentifier>,
}

impl Player {
    /// A player with no moves, no score, nothing carried and no location yet.
    pub fn new() -> (r: Player)
        ensures
            r.moves == 0,
            r.score == 0,
            r.location == RoomIdentifier::Void,
            r.items@ == Seq::<ItemIdentifier>::empty(),
    {
        Player { score: 0, moves: 0, items: Vec::new(), location: RoomIdentifier::Void }
    }

    /// Counts one move.
    pub fn made_move(&mut self)
        requires
            old(self).moves < u32::MAX,
        ensures
            final(self).moves == old(self).moves + 1,
            final(self).score == old(self).score,
            final(self).location == old(self).location,
            final(self).items == old(self).items,
    {
        self.moves = self.moves + 1;
    }

    /// Adds `points` to the score.
    pub fn earned_points(&mut self, points: u32)
        requires
            old(self).score + points <= u32::MAX,
        ensures
            final(self).score == old(self).score + points,
            final(self).moves == old(self).moves,
            final(self).location == old(self).location,
            final(self).items == old(self).items,
    {
        self.score = self.score + points;
    }
}

} // verus!
