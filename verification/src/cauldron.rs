//! The cauldron from which the villain of a dungeon game buys monsters.

use crate::entity::EntityRef;
use crate::monsters::Monster;
use vstd::prelude::*;

verus! {

/// The label under which the systems of the cauldron run.
#[derive(Clone, Copy, Debug, PartialEq, Eq, Structural, Hash)]
pub struct CauldronSystems;

/// The systems of the cauldron.
pub struct CauldronPlugin;

/// Marks the cauldron.
#[derive(Clone, Copy, Debug, PartialEq, Eq, Structural)]
pub struct Cauldron;

/// A monster on offer, and its price.
#[derive(Clone, Copy, Debug, PartialEq, Eq, Structural)]
pub struct CauldronOption {
    pub monster: Monster,
    pub price: usize,
}

/// The offers of a cauldron.
#[derive(Clone, Debug)]
pub struct CauldronOptions(pub Vec<EntityRef>);

/// The monsters that the villain owns.
#[derive(Clone, Debug)]
pub struct MonstersOwned(pub Vec<EntityRef>);

/// The offer that was bought.
#[derive(Clone, Copy, Debug, PartialEq, Eq, Structural)]
pub struct CauldronPurchase(pub EntityRef);

impl CauldronOption {
    pub fn new(monster: Monster, price: usize) -> (option: CauldronOption)
        ensures
            option == (CauldronOption { monster, price }),
    {
        CauldronOption { monster, price }
    }
}

impl Cauldron {
    /// What the cauldron offers on the first floor.
    pub open spec fn spec_options() -> Seq<CauldronOption> {
        seq![
            CauldronOption { monster: Monster::Slime, price: 4 },
            CauldronOption { monster: Monster::Slime, price: 5 },
            CauldronOption { monster: Monster::Goblin, price: 6 },
            CauldronOption { monster: Monster::Skeleton, price: 7 },
        ]
    }

    /// What the cauldron offers on a floor. Only the first floor has a
    /// cauldron.
    pub fn options(floor: usize) -> (options: Vec<CauldronOption>)
        requires
            floor == 0,
        ensures
            options@ == Cauldron::spec_options(),
    {
        vec![
            CauldronOption::new(Monster::Slime, 4),
            CauldronOption::new(Monster::Slime, 5),
            CauldronOption::new(Monster::Goblin, 6),
            CauldronOption::new(Monster::Skeleton, 7),
        ]
    }
}

} // verus!
