//! How much damage a thing can still take.

use crate::entity::EntityRef;
use vstd::prelude::*;

verus! {

/// The damage that a thing can still take. At zero it is dead.
#[derive(Clone, Copy, Debug, PartialEq, Eq, Structural)]
pub struct Health(pub usize);

impl Health {
    pub fn new(value: usize) -> (health: Health)
        ensures
            health.0 == value,
    {
        Health(value)
    }

    pub fn get(&self) -> (value: usize)
        ensures
            value == self.0,
    {
        self.0
    }
}

/// The label under which the systems that look after health run.
#[derive(Clone, Copy, Debug, PartialEq, Eq, Structural, Hash)]
pub struct HealthSystems;

/// The systems that look after health.
pub struct HealthPlugin;

/// The entities among the first `n` whose health is zero, in the order in
/// which they are listed.
pub open spec fn spec_dead(changed: Seq<(EntityRef, Health)>, n: int) -> Seq<EntityRef>
    decreases n,
{
    if n <= 0 {
        Seq::empty()
    } else if changed[n - 1].1.0 == 0 {
        spec_dead(changed, n - 1).push(changed[n - 1].0)
    } else {
        spec_dead(changed, n - 1)
    }
}

impl HealthPlugin {
    /// Picks, among the entities whose health has changed, those that are to
    /// be removed from the world because none is left.
    pub fn despawn_dead_entities(changed: &Vec<(EntityRef, Health)>) -> (dead: Vec<EntityRef>)
        ensures
            dead@ == spec_dead(changed@, changed@.len() as int),
    {
        let mut dead: Vec<EntityRef> = Vec::new();
        let mut i: usize = 0;
        while i < changed.len()
            invariant
                i <= changed.len(),
                dead@ == spec_dead(changed@, i as int),
            decreases changed.len() - i,
        {
            if changed[i].1.get() == 0 {
                dead.push(changed[i].0);
            }
            i += 1;
        }
        dead
    }
}

} // verus!
