//! The headquarters of a player. It takes in beams from every direction.

use crate::entity::EntityRef;
use crate::lasers::position::Position;
use crate::tiles::{ActivationError, Command, SpawnCommand, Tile, TileId, TileParameters};
use crate::lasers::capability::{Collider, Consumption, DirectionSet};
use crate::lasers::direction::Direction;
use crate::lasers::tracer::LaserHitEvent;
use crate::world::{World, WorldModel};
use crate::game_loop::InGame;
use crate::tiles::{Owner, PlacedTile};
use vstd::prelude::*;

verus! {

/// The kind of tile that a headquarters is.
#[derive(Clone, Copy, Debug, PartialEq, Eq, Structural)]
pub struct HQTile;

/// Puts the headquarters of `player` on the board.
#[derive(Clone, Copy, Debug, PartialEq, Eq, Structural)]
pub struct HQSpawn {
    pub position: Position,
    pub player: EntityRef,
}

/// Makes the cell of the headquarters take in beams.
#[derive(Clone, Copy, Debug, PartialEq, Eq, Structural)]
pub struct HQActivate {
    pub tile: EntityRef,
    pub position: Position,
}

/// A beam has struck the headquarters.
#[derive(Clone, Copy, Debug, PartialEq, Eq, Structural)]
pub struct HQOnHit {
    pub tile: EntityRef,
    pub strength: usize,
    pub shooter: EntityRef,
}

impl Tile for HQTile {
    open spec fn spec_id() -> TileId {
        TileId(0)
    }

    open spec fn spec_spawn(position: Position, player: EntityRef, game: EntityRef) -> SpawnCommand {
        SpawnCommand::HQ(HQSpawn { position, player })
    }

    open spec fn spec_activate(
        &self,
        entity: EntityRef,
        parameters: TileParameters,
        shooter: Option<EntityRef>,
    ) -> Result<Command, ActivationError> {
        Ok(Command::HQActivate(HQActivate { tile: entity, position: parameters.position }))
    }

    open spec fn spec_on_hit(&self, entity: EntityRef, strength: usize, shooter: EntityRef) -> Option<
        Command,
    > {
        Some(Command::HQOnHit(HQOnHit { tile: entity, strength, shooter }))
    }

    fn id() -> (id: TileId) {
        TileId(0)
    }

    fn spawn(position: Position, player: EntityRef, game: EntityRef) -> (command: SpawnCommand) {
        SpawnCommand::HQ(HQSpawn { position, player })
    }

    fn activate(&self, entity: EntityRef, parameters: TileParameters, shooter: Option<EntityRef>) -> (outcome:
        Result<Command, ActivationError>) {
        Ok(Command::HQActivate(HQActivate { tile: entity, position: parameters.position }))
    }

    fn on_hit(&self, entity: EntityRef, strength: usize, shooter: EntityRef) -> (command: Option<
        Command,
    >) {
        Some(Command::HQOnHit(HQOnHit { tile: entity, strength, shooter }))
    }
}

impl HQActivate {
    /// The world with the cell of the headquarters taking in beams from every
    /// direction.
    pub open spec fn spec_applied(self, world: WorldModel) -> WorldModel {
        world.with_collider(
            Collider::spec_sink(
                self.position,
                self.tile,
                DirectionSet::spec_from(Direction::spec_all()),
            ),
        )
    }

    pub fn apply(self, world: &mut World)
        ensures
            final(world)@ == self.spec_applied(old(world)@),
    {
        world.spawn_collider(Consumption::bundle(self.tile, Direction::all(), self.position));
    }
}

impl HQOnHit {
    /// The world after the beam has struck the headquarters.
    pub open spec fn spec_applied(self, world: WorldModel) -> WorldModel {
        world.struck(self.tile, self.strength, self.shooter)
    }

    pub fn apply(self, world: &mut World)
        requires
            old(world)@.countable(),
        ensures
            final(world)@ == self.spec_applied(old(world)@),
            final(world)@.countable(),
    {
        world.resolve_hit(
            &LaserHitEvent { strength: self.strength, consumer: self.tile, shooter: self.shooter },
        );
    }
}

impl HQSpawn {
    /// The headquarters as it is put on the board under the name `entity`: owned by
    /// the player and in the player's game. A player who is in no game gets
    /// no tile.
    pub fn apply(self, entity: EntityRef, in_game: Option<InGame>) -> (placed: Option<
        PlacedTile<HQTile>,
    >)
        ensures
            placed == match in_game {
                Some(in_game) => Some(
                    PlacedTile {
                        entity,
                        position: self.position,
                        direction: None,
                        rotation: None,
                        amplification: None,
                        owner: Some(Owner(self.player)),
                        tile: HQTile,
                        in_game,
                    },
                ),
                None => None,
            },
    {
        match in_game {
            Some(in_game) => Some(
                PlacedTile {
                    entity,
                    position: self.position,
                    direction: None,
                    rotation: None,
                    amplification: None,
                    owner: Some(Owner::new(self.player)),
                    tile: HQTile,
                    in_game,
                },
            ),
            None => None,
        }
    }
}

} // verus!
