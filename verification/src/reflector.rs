//! A mirror that players place and turn.

use crate::entity::EntityRef;
use crate::lasers::direction::Direction;
use crate::lasers::position::Position;
use crate::tiles::{ActivationError, Command, SpawnCommand, Missing, Tile, TileId, TileParameters};
use crate::lasers::capability::{Collider, Reflection};
use crate::world::{World, WorldModel};
use crate::merchandise::components::Money;
use crate::merchandise::registry::Merchandise;
use crate::game_loop::InGame;
use crate::tiles::{Owner, PlacedTile};
use vstd::prelude::*;

verus! {

/// The kind of tile that a reflector is.
#[derive(Clone, Copy, Debug, PartialEq, Eq, Structural)]
pub struct ReflectorTile;

impl ReflectorTile {
    /// What a tile of this kind costs.
    pub const PRICE: usize = 5;

    /// The name under which tiles of this kind are sold.
    pub const NAME: &'static str = "Reflector Tower";
}

/// Puts a reflector of `player` on the board.
#[derive(Clone, Copy, Debug, PartialEq, Eq, Structural)]
pub struct ReflectorSpawn {
    pub position: Position,
    pub player: EntityRef,
}

/// Puts a mirror facing `direction` in the cell.
#[derive(Clone, Copy, Debug, PartialEq, Eq, Structural)]
pub struct ReflectorActivate {
    pub position: Position,
    pub direction: Direction,
}

impl Tile for ReflectorTile {
    open spec fn spec_id() -> TileId {
        TileId(4)
    }

    open spec fn spec_spawn(position: Position, player: EntityRef, game: EntityRef) -> SpawnCommand {
        SpawnCommand::Reflector(ReflectorSpawn { position, player })
    }

    /// A reflector needs a direction.
    open spec fn spec_activate(
        &self,
        entity: EntityRef,
        parameters: TileParameters,
        shooter: Option<EntityRef>,
    ) -> Result<Command, ActivationError> {
        match parameters.direction {
            Some(direction) => Ok(
                Command::ReflectorActivate(
                    ReflectorActivate { position: parameters.position, direction },
                ),
            ),
            None => Err(
                ActivationError { tile: entity, kind: TileId(4), missing: Missing::Direction },
            ),
        }
    }

    /// A reflector does not answer a hit.
    open spec fn spec_on_hit(&self, entity: EntityRef, strength: usize, shooter: EntityRef) -> Option<
        Command,
    > {
        None
    }

    fn id() -> (id: TileId) {
        TileId(4)
    }

    fn spawn(position: Position, player: EntityRef, game: EntityRef) -> (command: SpawnCommand) {
        SpawnCommand::Reflector(ReflectorSpawn { position, player })
    }

    fn activate(&self, entity: EntityRef, parameters: TileParameters, shooter: Option<EntityRef>) -> (outcome:
        Result<Command, ActivationError>) {
        match parameters.direction {
            Some(direction) => Ok(
                Command::ReflectorActivate(
                    ReflectorActivate { position: parameters.position, direction },
                ),
            ),
            None => Err(
                ActivationError { tile: entity, kind: TileId(4), missing: Missing::Direction },
            ),
        }
    }

    fn on_hit(&self, entity: EntityRef, strength: usize, shooter: EntityRef) -> (command: Option<
        Command,
    >) {
        None
    }
}

impl ReflectorActivate {
    /// The world with a mirror facing the direction of the reflector in its
    /// cell.
    pub open spec fn spec_applied(self, world: WorldModel) -> WorldModel {
        world.with_collider(
            Collider {
                reflection: Some(Reflection { facing: self.direction }),
                ..Collider::spec_at(self.position)
            },
        )
    }

    pub fn apply(self, world: &mut World)
        ensures
            final(world)@ == self.spec_applied(old(world)@),
    {
        let mut collider = Collider::at(self.position);
        collider.reflection = Some(Reflection::new(self.direction));
        world.spawn_collider(collider);
    }
}

impl Merchandise for ReflectorTile {
    open spec fn spec_price() -> Money {
        Money(ReflectorTile::PRICE)
    }

    open spec fn spec_name() -> Seq<char> {
        ReflectorTile::NAME@
    }

    fn price() -> (price: Money) {
        Money::new(ReflectorTile::PRICE)
    }

    fn name() -> (name: &'static str) {
        ReflectorTile::NAME
    }
}

impl ReflectorSpawn {
    /// The reflector as it is put on the board under the name `entity`: owned by
    /// the player and in the player's game, facing North. A player who is in no game gets
    /// no tile.
    pub fn apply(self, entity: EntityRef, in_game: Option<InGame>) -> (placed: Option<
        PlacedTile<ReflectorTile>,
    >)
        ensures
            placed == match in_game {
                Some(in_game) => Some(
                    PlacedTile {
                        entity,
                        position: self.position,
                        direction: Some(Direction::North),
                        rotation: None,
                        amplification: None,
                        owner: Some(Owner(self.player)),
                        tile: ReflectorTile,
                        in_game,
                    },
                ),
                None => None,
            },
    {
        match in_game {
            Some(in_game) => Some(
                PlacedTile {
                    entity,
                    position: self.position,
                    direction: Some(Direction::North),
                    rotation: None,
                    amplification: None,
                    owner: Some(Owner::new(self.player)),
                    tile: ReflectorTile,
                    in_game,
                },
            ),
            None => None,
        }
    }
}

} // verus!
