//! The two sides of a dungeon game: a hero who goes down floor by floor, and
//! a villain who sends monsters.

use crate::entity::EntityRef;
use crate::health::Health;
use vstd::prelude::*;

verus! {

/// The label under which a dungeon game is started.
#[derive(Clone, Copy, Debug, PartialEq, Eq, Structural, Hash)]
pub struct GameInstanceSystems;

/// Starts dungeon games.
pub struct GameInstancePlugin;

/// The hero of a game.
#[derive(Clone, Copy, Debug, PartialEq, Eq, Structural, Hash)]
pub struct GameHero(pub EntityRef);

/// The villain of a game.
#[derive(Clone, Copy, Debug, PartialEq, Eq, Structural, Hash)]
pub struct GameVillain(pub EntityRef);

/// Marks the side whose turn it is.
#[derive(Clone, Copy, Debug, PartialEq, Eq, Structural, Hash)]
pub struct HasTurn;

/// How deep the hero has come.
#[derive(Clone, Copy, Debug, PartialEq, Eq, Structural, Hash)]
pub struct Floor(pub usize);

impl Default for Floor {
    fn default() -> (floor: Floor)
        ensures
            floor.0 == 0,
    {
        Floor(0)
    }
}

/// Health on top of one's own, which is struck first.
#[derive(Clone, Copy, Debug, PartialEq, Eq, Structural, Hash)]
pub struct BonusHealth(pub usize);

/// Which of the two players someone is.
#[derive(Clone, Copy, Debug, PartialEq, Eq, Structural, Hash)]
pub enum Player {
    One,
    Two,
}

/// Marks the hero.
#[derive(Clone, Copy, Debug, PartialEq, Eq, Structural)]
pub struct Hero;

/// Marks the villain.
#[derive(Clone, Copy, Debug, PartialEq, Eq, Structural)]
pub struct Villain;

/// What a side starts a game with.
#[derive(Clone, Copy, Debug, PartialEq, Eq, Structural)]
pub struct Side {
    pub player: Player,
    pub health: Option<Health>,
    pub has_turn: bool,
}

impl Hero {
    /// The health of the hero at the start of a game.
    pub const HEALTH: usize = 100;
}

impl GameInstancePlugin {
    /// The two sides of a new game: the hero is player one, has a hundred
    /// health and moves first; the villain is player two.
    pub fn start_game() -> (sides: (Side, Side))
        ensures
            sides.0 == (Side {
                player: Player::One,
                health: Some(Health(Hero::HEALTH)),
                has_turn: true,
            }),
            sides.1 == (Side { player: Player::Two, health: None, has_turn: false }),
    {
        (
            Side { player: Player::One, health: Some(Health::new(Hero::HEALTH)), has_turn: true },
            Side { player: Player::Two, health: None, has_turn: false },
        )
    }
}

} // verus!
