//! A deposit of money. A beam that strikes it carries money off to the
//! player who fired it, and wears the deposit down once the money is gone.

use crate::entity::EntityRef;
use crate::lasers::position::Position;
use crate::tiles::{ActivationError, Command, SpawnCommand, Tile, TileId, TileParameters};
use crate::lasers::capability::{Collider, Consumption, DirectionSet};
use crate::lasers::direction::Direction;
use crate::lasers::tracer::LaserHitEvent;
use crate::world::{World, WorldModel};
use crate::game_loop::InGame;
use crate::tiles::PlacedTile;
use vstd::prelude::*;

verus! {

/// The kind of tile that a deposit is.
#[derive(Clone, Copy, Debug, PartialEq, Eq, Structural)]
pub struct ResourceDepositTile;

/// Puts a deposit on the board of `game`.
#[derive(Clone, Copy, Debug, PartialEq, Eq, Structural)]
pub struct ResourceDepositSpawn {
    pub position: Position,
    pub game: EntityRef,
}

/// Makes the cell of the deposit take in beams.
#[derive(Clone, Copy, Debug, PartialEq, Eq, Structural)]
pub struct ResourceDepositActivate {
    pub tile: EntityRef,
    pub position: Position,
}

/// A beam of `shooter` has struck the deposit.
#[derive(Clone, Copy, Debug, PartialEq, Eq, Structural)]
pub struct ResourceDepositOnHit {
    pub tile: EntityRef,
    pub strength: usize,
    pub shooter: EntityRef,
}

impl Tile for ResourceDepositTile {
    open spec fn spec_id() -> TileId {
        TileId(2)
    }

    open spec fn spec_spawn(position: Position, player: EntityRef, game: EntityRef) -> SpawnCommand {
        SpawnCommand::ResourceDeposit(ResourceDepositSpawn { position, game })
    }

    open spec fn spec_activate(
        &self,
        entity: EntityRef,
        parameters: TileParameters,
        shooter: Option<EntityRef>,
    ) -> Result<Command, ActivationError> {
        Ok(
            Command::ResourceDepositActivate(
                ResourceDepositActivate { tile: entity, position: parameters.position },
            ),
        )
    }

    open spec fn spec_on_hit(&self, entity: EntityRef, strength: usize, shooter: EntityRef) -> Option<
        Command,
    > {
        Some(
            Command::ResourceDepositOnHit(ResourceDepositOnHit { tile: entity, strength, shooter }),
        )
    }

    fn id() -> (id: TileId) {
        TileId(2)
    }

    fn spawn(position: Position, player: EntityRef, game: EntityRef) -> (command: SpawnCommand) {
        SpawnCommand::ResourceDeposit(ResourceDepositSpawn { position, game })
    }

    fn activate(&self, entity: EntityRef, parameters: TileParameters, shooter: Option<EntityRef>) -> (outcome:
        Result<Command, ActivationError>) {
        Ok(
            Command::ResourceDepositActivate(
                ResourceDepositActivate { tile: entity, position: parameters.position },
            ),
        )
    }

    fn on_hit(&self, entity: EntityRef, strength: usize, shooter: EntityRef) -> (command: Option<
        Command,
    >) {
        Some(
            Command::ResourceDepositOnHit(ResourceDepositOnHit { tile: entity, strength, shooter }),
        )
    }
}

impl ResourceDepositActivate {
    /// The world with the cell of the deposit taking in beams from every
    /// direction.
    pub open spec fn spec_applied(self, world: WorldModel) -> WorldModel {
        world.with_collider(
            Collider::spec_sink(
                self.position,
                self.tile,
                DirectionSet::spec_from(Direction::spec_all()),
            ),
        )
    }

    pub fn apply(self, world: &mut World)
        ensures
            final(world)@ == self.spec_applied(old(world)@),
    {
        world.spawn_collider(Consumption::bundle(self.tile, Direction::all(), self.position));
    }
}

impl ResourceDepositOnHit {
    /// The world after the beam has struck the deposit.
    pub open spec fn spec_applied(self, world: WorldModel) -> WorldModel {
        world.struck(self.tile, self.strength, self.shooter)
    }

    pub fn apply(self, world: &mut World)
        requires
            old(world)@.countable(),
        ensures
            final(world)@ == self.spec_applied(old(world)@),
            final(world)@.countable(),
    {
        world.resolve_hit(
            &LaserHitEvent { strength: self.strength, consumer: self.tile, shooter: self.shooter },
        );
    }
}

impl ResourceDepositSpawn {
    /// The deposit as it is put on the board under the name `entity`.
    pub fn apply(self, entity: EntityRef) -> (placed: PlacedTile<ResourceDepositTile>)
        ensures
            placed == (PlacedTile {
                entity,
                position: self.position,
                direction: None,
                rotation: None,
                amplification: None,
                owner: None,
                tile: ResourceDepositTile,
                in_game: InGame(self.game),
            }),
    {
        PlacedTile {
            entity,
            position: self.position,
            direction: None,
            rotation: None,
            amplification: None,
            owner: None,
            tile: ResourceDepositTile,
            in_game: InGame::new(self.game),
        }
    }
}

} // verus!
