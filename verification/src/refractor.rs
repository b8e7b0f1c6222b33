//! A tile that bends beams which enter through its back, and takes in those
//! that strike its front.

use crate::entity::EntityRef;
use crate::lasers::direction::Direction;
use crate::lasers::position::Position;
use crate::tiles::{ActivationError, Command, SpawnCommand, Missing, Tile, TileId, TileParameters};
use crate::lasers::capability::{Collider, Consumption, DirectionSet, Refraction};
use crate::lasers::tracer::LaserHitEvent;
use crate::world::{World, WorldModel};
use crate::merchandise::components::Money;
use crate::merchandise::registry::Merchandise;
use crate::game_loop::InGame;
use crate::tiles::{Owner, PlacedTile};
use vstd::prelude::*;

verus! {

/// The kind of tile that a refractor is.
#[derive(Clone, Copy, Debug, PartialEq, Eq, Structural)]
pub struct RefractorTile;

impl RefractorTile {
    /// What a tile of this kind costs.
    pub const PRICE: usize = 5;

    /// The name under which tiles of this kind are sold.
    pub const NAME: &'static str = "Refractor Tower";
}

/// Puts a refractor of `player` on the board.
#[derive(Clone, Copy, Debug, PartialEq, Eq, Structural)]
pub struct RefractorSpawn {
    pub position: Position,
    pub player: EntityRef,
}

/// Puts a refraction facing `direction` in the cell, which takes in beams
/// that travel in one of the front directions of `direction`.
#[derive(Clone, Copy, Debug, PartialEq, Eq, Structural)]
pub struct RefractorActivate {
    pub tile: EntityRef,
    pub position: Position,
    pub direction: Direction,
}

/// A beam has struck the refractor.
#[derive(Clone, Copy, Debug, PartialEq, Eq, Structural)]
pub struct RefractorOnHit {
    pub tile: EntityRef,
    pub strength: usize,
    pub shooter: EntityRef,
}

impl Tile for RefractorTile {
    open spec fn spec_id() -> TileId {
        TileId(5)
    }

    open spec fn spec_spawn(position: Position, player: EntityRef, game: EntityRef) -> SpawnCommand {
        SpawnCommand::Refractor(RefractorSpawn { position, player })
    }

    /// A refractor needs a direction.
    open spec fn spec_activate(
        &self,
        entity: EntityRef,
        parameters: TileParameters,
        shooter: Option<EntityRef>,
    ) -> Result<Command, ActivationError> {
        match parameters.direction {
            Some(direction) => Ok(
                Command::RefractorActivate(
                    RefractorActivate { tile: entity, position: parameters.position, direction },
                ),
            ),
            None => Err(
                ActivationError { tile: entity, kind: TileId(5), missing: Missing::Direction },
            ),
        }
    }

    open spec fn spec_on_hit(&self, entity: EntityRef, strength: usize, shooter: EntityRef) -> Option<
        Command,
    > {
        Some(Command::RefractorOnHit(RefractorOnHit { tile: entity, strength, shooter }))
    }

    fn id() -> (id: TileId) {
        TileId(5)
    }

    fn spawn(position: Position, player: EntityRef, game: EntityRef) -> (command: SpawnCommand) {
        SpawnCommand::Refractor(RefractorSpawn { position, player })
    }

    fn activate(&self, entity: EntityRef, parameters: TileParameters, shooter: Option<EntityRef>) -> (outcome:
        Result<Command, ActivationError>) {
        match parameters.direction {
            Some(direction) => Ok(
                Command::RefractorActivate(
                    RefractorActivate { tile: entity, position: parameters.position, direction },
                ),
            ),
            None => Err(
                ActivationError { tile: entity, kind: TileId(5), missing: Missing::Direction },
            ),
        }
    }

    fn on_hit(&self, entity: EntityRef, strength: usize, shooter: EntityRef) -> (command: Option<
        Command,
    >) {
        Some(Command::RefractorOnHit(RefractorOnHit { tile: entity, strength, shooter }))
    }
}

impl RefractorActivate {
    /// The world with a refraction facing the direction of the refractor in
    /// its cell, which takes in the beams that travel in one of the front
    /// directions of that direction.
    pub open spec fn spec_applied(self, world: WorldModel) -> WorldModel {
        world.with_collider(
            Collider {
                refraction: Some(Refraction { facing: self.direction }),
                ..Collider::spec_sink(
                    self.position,
                    self.tile,
                    DirectionSet::spec_from(self.direction.spec_front_directions()),
                )
            },
        )
    }

    pub fn apply(self, world: &mut World)
        ensures
            final(world)@ == self.spec_applied(old(world)@),
    {
        let front = self.direction.front_directions();
        let vulnerable = vec![front[0], front[1], front[2]];
        assert(vulnerable@ == self.direction.spec_front_directions());
        let mut collider = Consumption::bundle(self.tile, vulnerable, self.position);
        collider.refraction = Some(Refraction::new(self.direction));
        world.spawn_collider(collider);
    }
}

impl RefractorOnHit {
    /// The world after the beam has struck the refractor.
    pub open spec fn spec_applied(self, world: WorldModel) -> WorldModel {
        world.struck(self.tile, self.strength, self.shooter)
    }

    pub fn apply(self, world: &mut World)
        requires
            old(world)@.countable(),
        ensures
            final(world)@ == self.spec_applied(old(world)@),
            final(world)@.countable(),
    {
        world.resolve_hit(
            &LaserHitEvent { strength: self.strength, consumer: self.tile, shooter: self.shooter },
        );
    }
}

impl Merchandise for RefractorTile {
    open spec fn spec_price() -> Money {
        Money(RefractorTile::PRICE)
    }

    open spec fn spec_name() -> Seq<char> {
        RefractorTile::NAME@
    }

    fn price() -> (price: Money) {
        Money::new(RefractorTile::PRICE)
    }

    fn name() -> (name: &'static str) {
        RefractorTile::NAME
    }
}

impl RefractorSpawn {
    /// The refractor as it is put on the board under the name `entity`: owned by
    /// the player and in the player's game, facing North. A player who is in no game gets
    /// no tile.
    pub fn apply(self, entity: EntityRef, in_game: Option<InGame>) -> (placed: Option<
        PlacedTile<RefractorTile>,
    >)
        ensures
            placed == match in_game {
                Some(in_game) => Some(
                    PlacedTile {
                        entity,
                        position: self.position,
                        direction: Some(Direction::North),
                        rotation: None,
                        amplification: None,
                        owner: Some(Owner(self.player)),
                        tile: RefractorTile,
                        in_game,
                    },
                ),
                None => None,
            },
    {
        match in_game {
            Some(in_game) => Some(
                PlacedTile {
                    entity,
                    position: self.position,
                    direction: Some(Direction::North),
                    rotation: None,
                    amplification: None,
                    owner: Some(Owner::new(self.player)),
                    tile: RefractorTile,
                    in_game,
                },
            ),
            None => None,
        }
    }
}

} // verus!
