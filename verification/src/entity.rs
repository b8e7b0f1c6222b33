//! Identifiers of the things that take part in a game.

use vstd::prelude::*;

verus! {

/// The identity of a game, a player or a tile. Two references name the same
/// thing exactly when their numbers are equal; the numbers also give the
/// order in which a tick goes through games and tiles.
#[derive(Clone, Copy, Debug, PartialEq, Eq, Structural, Hash)]
pub struct EntityRef(pub u64);

impl EntityRef {
    pub fn new(id: u64) -> (entity: EntityRef)
        ensures
            entity.0 == id,
    {
        EntityRef(id)
    }

    pub fn id(&self) -> (id: u64)
        ensures
            id == self.0,
    {
        self.0
    }
}

} // verus!
