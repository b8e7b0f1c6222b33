//! The tower that fires a laser in the direction it has been given. Its own
//! cell takes in beams from every direction.

use crate::entity::EntityRef;
use crate::lasers::direction::Direction;
use crate::lasers::position::Position;
use crate::tiles::{ActivationError, Command, SpawnCommand, Missing, Tile, TileId, TileParameters};
use crate::lasers::capability::{Collider, Consumption, DirectionSet};
use crate::lasers::tracer::{Laser, LaserEmitter, LaserHitEvent, Shooter};
use crate::world::{World, WorldModel};
use crate::merchandise::components::Money;
use crate::merchandise::registry::Merchandise;
use crate::game_loop::InGame;
use crate::tiles::{Owner, PlacedTile};
use vstd::prelude::*;

verus! {

/// The kind of tile that a laser tower is.
#[derive(Clone, Copy, Debug, PartialEq, Eq, Structural)]
pub struct LaserTower;

impl LaserTower {
    /// What a tile of this kind costs.
    pub const PRICE: usize = 10;

    /// The name under which tiles of this kind are sold.
    pub const NAME: &'static str = "Laser Tower";
}

/// Puts a laser tower of `player` on the board.
#[derive(Clone, Copy, Debug, PartialEq, Eq, Structural)]
pub struct LaserTowerSpawn {
    pub position: Position,
    pub player: EntityRef,
}

/// Makes the cell of the tower take in beams and fires its laser.
#[derive(Clone, Copy, Debug, PartialEq, Eq, Structural)]
pub struct LaserTowerActivate {
    pub tile: EntityRef,
    pub position: Position,
    pub direction: Direction,
    pub shooter: EntityRef,
}

/// A beam has struck the tower.
#[derive(Clone, Copy, Debug, PartialEq, Eq, Structural)]
pub struct LaserTowerOnHit {
    pub tile: EntityRef,
    pub strength: usize,
    pub shooter: EntityRef,
}

impl Tile for LaserTower {
    open spec fn spec_id() -> TileId {
        TileId(3)
    }

    open spec fn spec_spawn(position: Position, player: EntityRef, game: EntityRef) -> SpawnCommand {
        SpawnCommand::LaserTower(LaserTowerSpawn { position, player })
    }

    /// A tower needs a direction, and an owner on whose behalf it fires.
    open spec fn spec_activate(
        &self,
        entity: EntityRef,
        parameters: TileParameters,
        shooter: Option<EntityRef>,
    ) -> Result<Command, ActivationError> {
        match (parameters.direction, shooter) {
            (None, _) => Err(
                ActivationError { tile: entity, kind: TileId(3), missing: Missing::Direction },
            ),
            (Some(_), None) => Err(
                ActivationError { tile: entity, kind: TileId(3), missing: Missing::Owner },
            ),
            (Some(direction), Some(shooter)) => Ok(
                Command::LaserTowerActivate(
                    LaserTowerActivate {
                        tile: entity,
                        position: parameters.position,
                        direction,
                        shooter,
                    },
                ),
            ),
        }
    }

    /// A tower does not answer a hit.
    open spec fn spec_on_hit(&self, entity: EntityRef, strength: usize, shooter: EntityRef) -> Option<
        Command,
    > {
        None
    }

    fn id() -> (id: TileId) {
        TileId(3)
    }

    fn spawn(position: Position, player: EntityRef, game: EntityRef) -> (command: SpawnCommand) {
        SpawnCommand::LaserTower(LaserTowerSpawn { position, player })
    }

    fn activate(&self, entity: EntityRef, parameters: TileParameters, shooter: Option<EntityRef>) -> (outcome:
        Result<Command, ActivationError>) {
        let Some(direction) = parameters.direction else {
            return Err(
                ActivationError { tile: entity, kind: TileId(3), missing: Missing::Direction },
            );
        };
        let Some(shooter) = shooter else {
            return Err(ActivationError { tile: entity, kind: TileId(3), missing: Missing::Owner });
        };
        Ok(
            Command::LaserTowerActivate(
                LaserTowerActivate { tile: entity, position: parameters.position, direction, shooter },
            ),
        )
    }

    fn on_hit(&self, entity: EntityRef, strength: usize, shooter: EntityRef) -> (command: Option<
        Command,
    >) {
        None
    }
}

impl LaserTowerActivate {
    /// The world with the cell of the tower taking in beams from every
    /// direction, and with an emitter in it that fires a laser of the usual
    /// power in the direction of the tower, on behalf of its owner.
    pub open spec fn spec_applied(self, world: WorldModel) -> WorldModel {
        world.with_collider(
            Collider::spec_sink(
                self.position,
                self.tile,
                DirectionSet::spec_from(Direction::spec_all()),
            ),
        ).with_laser(
            LaserEmitter {
                position: self.position,
                direction: self.direction,
                shooter: Shooter(self.shooter),
                strength: Laser::POWER,
            },
        )
    }

    pub fn apply(self, world: &mut World)
        ensures
            final(world)@ == self.spec_applied(old(world)@),
    {
        world.spawn_collider(Consumption::bundle(self.tile, Direction::all(), self.position));
        world.spawn_laser(
            LaserEmitter::new(self.position, self.direction, Shooter::new(self.shooter)),
        );
    }
}

impl LaserTowerOnHit {
    /// The world after the beam has struck the tower.
    pub open spec fn spec_applied(self, world: WorldModel) -> WorldModel {
        world.struck(self.tile, self.strength, self.shooter)
    }

    pub fn apply(self, world: &mut World)
        requires
            old(world)@.countable(),
        ensures
            final(world)@ == self.spec_applied(old(world)@),
            final(world)@.countable(),
    {
        world.resolve_hit(
            &LaserHitEvent { strength: self.strength, consumer: self.tile, shooter: self.shooter },
        );
    }
}

impl Merchandise for LaserTower {
    open spec fn spec_price() -> Money {
        Money(LaserTower::PRICE)
    }

    open spec fn spec_name() -> Seq<char> {
        LaserTower::NAME@
    }

    fn price() -> (price: Money) {
        Money::new(LaserTower::PRICE)
    }

    fn name() -> (name: &'static str) {
        LaserTower::NAME
    }
}

impl LaserTowerSpawn {
    /// The tower as it is put on the board under the name `entity`: owned by
    /// the player and in the player's game, facing North. A player who is in no game gets
    /// no tile.
    pub fn apply(self, entity: EntityRef, in_game: Option<InGame>) -> (placed: Option<
        PlacedTile<LaserTower>,
    >)
        ensures
            placed == match in_game {
                Some(in_game) => Some(
                    PlacedTile {
                        entity,
                        position: self.position,
                        direction: Some(Direction::North),
                        rotation: None,
                        amplification: None,
                        owner: Some(Owner(self.player)),
                        tile: LaserTower,
                        in_game,
                    },
                ),
                None => None,
            },
    {
        match in_game {
            Some(in_game) => Some(
                PlacedTile {
                    entity,
                    position: self.position,
                    direction: Some(Direction::North),
                    rotation: None,
                    amplification: None,
                    owner: Some(Owner::new(self.player)),
                    tile: LaserTower,
                    in_game,
                },
            ),
            None => None,
        }
    }
}

} // verus!
