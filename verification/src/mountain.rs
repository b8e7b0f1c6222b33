//! A mountain. It belongs to nobody and takes in beams from every direction
//! until it is worn down.

use crate::entity::EntityRef;
use crate::lasers::position::Position;
use crate::tiles::{ActivationError, Command, SpawnCommand, Tile, TileId, TileParameters};
use crate::lasers::capability::{Collider, Consumption, DirectionSet};
use crate::lasers::direction::Direction;
use crate::lasers::tracer::LaserHitEvent;
use crate::world::{World, WorldModel};
use crate::game_loop::InGame;
use crate::health::Health;
use crate::tiles::PlacedTile;
use vstd::prelude::*;

verus! {

/// The kind of tile that a mountain is.
#[derive(Clone, Copy, Debug, PartialEq, Eq, Structural)]
pub struct MountainTile;

impl MountainTile {
    /// The health of a new mountain.
    pub const HEALTH: usize = 5;
}

/// Puts a mountain on the board of `game`.
#[derive(Clone, Copy, Debug, PartialEq, Eq, Structural)]
pub struct MountainSpawn {
    pub position: Position,
    pub game: EntityRef,
}

/// Makes the cell of the mountain take in beams.
#[derive(Clone, Copy, Debug, PartialEq, Eq, Structural)]
pub struct MountainActivate {
    pub tile: EntityRef,
    pub position: Position,
}

/// A beam has struck the mountain.
#[derive(Clone, Copy, Debug, PartialEq, Eq, Structural)]
pub struct MountainOnHit {
    pub tile: EntityRef,
    pub strength: usize,
    pub shooter: EntityRef,
}

impl Tile for MountainTile {
    open spec fn spec_id() -> TileId {
        TileId(1)
    }

    open spec fn spec_spawn(position: Position, player: EntityRef, game: EntityRef) -> SpawnCommand {
        SpawnCommand::Mountain(MountainSpawn { position, game })
    }

    open spec fn spec_activate(
        &self,
        entity: EntityRef,
        parameters: TileParameters,
        shooter: Option<EntityRef>,
    ) -> Result<Command, ActivationError> {
        Ok(
            Command::MountainActivate(
                MountainActivate { tile: entity, position: parameters.position },
            ),
        )
    }

    open spec fn spec_on_hit(&self, entity: EntityRef, strength: usize, shooter: EntityRef) -> Option<
        Command,
    > {
        Some(Command::MountainOnHit(MountainOnHit { tile: entity, strength, shooter }))
    }

    fn id() -> (id: TileId) {
        TileId(1)
    }

    fn spawn(position: Position, player: EntityRef, game: EntityRef) -> (command: SpawnCommand) {
        SpawnCommand::Mountain(MountainSpawn { position, game })
    }

    fn activate(&self, entity: EntityRef, parameters: TileParameters, shooter: Option<EntityRef>) -> (outcome:
        Result<Command, ActivationError>) {
        Ok(
            Command::MountainActivate(
                MountainActivate { tile: entity, position: parameters.position },
            ),
        )
    }

    fn on_hit(&self, entity: EntityRef, strength: usize, shooter: EntityRef) -> (command: Option<
        Command,
    >) {
        Some(Command::MountainOnHit(MountainOnHit { tile: entity, strength, shooter }))
    }
}

impl MountainActivate {
    /// The world with the cell of the mountain taking in beams from every
    /// direction.
    pub open spec fn spec_applied(self, world: WorldModel) -> WorldModel {
        world.with_collider(
            Collider::spec_sink(
                self.position,
                self.tile,
                DirectionSet::spec_from(Direction::spec_all()),
            ),
        )
    }

    pub fn apply(self, world: &mut World)
        ensures
            final(world)@ == self.spec_applied(old(world)@),
    {
        world.spawn_collider(Consumption::bundle(self.tile, Direction::all(), self.position));
    }
}

impl MountainOnHit {
    /// The world after the beam has struck the mountain.
    pub open spec fn spec_applied(self, world: WorldModel) -> WorldModel {
        world.struck(self.tile, self.strength, self.shooter)
    }

    pub fn apply(self, world: &mut World)
        requires
            old(world)@.countable(),
        ensures
            final(world)@ == self.spec_applied(old(world)@),
            final(world)@.countable(),
    {
        world.resolve_hit(
            &LaserHitEvent { strength: self.strength, consumer: self.tile, shooter: self.shooter },
        );
    }
}

impl MountainSpawn {
    /// The mountain as it is put on the board under the name `entity`, and
    /// the health it starts with.
    pub fn apply(self, entity: EntityRef) -> (placed: (PlacedTile<MountainTile>, Health))
        ensures
            placed.0 == (PlacedTile {
                entity,
                position: self.position,
                direction: None,
                rotation: None,
                amplification: None,
                owner: None,
                tile: MountainTile,
                in_game: InGame(self.game),
            }),
            placed.1 == Health(MountainTile::HEALTH),
    {
        (
            PlacedTile {
                entity,
                position: self.position,
                direction: None,
                rotation: None,
                amplification: None,
                owner: None,
                tile: MountainTile,
                in_game: InGame::new(self.game),
            },
            Health::new(MountainTile::HEALTH),
        )
    }
}

} // verus!
