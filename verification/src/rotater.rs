//! A tile that turns every beam by the rotation it has been given.

use crate::entity::EntityRef;
use crate::lasers::capability::Rotation;
use crate::lasers::position::Position;
use crate::tiles::{ActivationError, Command, SpawnCommand, Missing, Tile, TileId, TileParameters};
use crate::lasers::capability::Collider;
use crate::world::{World, WorldModel};
use crate::merchandise::components::Money;
use crate::merchandise::registry::Merchandise;
use crate::game_loop::InGame;
use crate::tiles::{Owner, PlacedTile};
use vstd::prelude::*;

verus! {

/// The kind of tile that a rotater is.
#[derive(Clone, Copy, Debug, PartialEq, Eq, Structural)]
pub struct RotaterTile;

impl RotaterTile {
    /// What a tile of this kind costs.
    pub const PRICE: usize = 5;

    /// The name under which tiles of this kind are sold.
    pub const NAME: &'static str = "Rotater Tower";
}

/// Puts a rotater of `player` on the board.
#[derive(Clone, Copy, Debug, PartialEq, Eq, Structural)]
pub struct RotaterSpawn {
    pub position: Position,
    pub player: EntityRef,
}

/// Puts the rotation in the cell.
#[derive(Clone, Copy, Debug, PartialEq, Eq, Structural)]
pub struct RotaterActivate {
    pub position: Position,
    pub rotation: Rotation,
}

impl Tile for RotaterTile {
    open spec fn spec_id() -> TileId {
        TileId(6)
    }

    open spec fn spec_spawn(position: Position, player: EntityRef, game: EntityRef) -> SpawnCommand {
        SpawnCommand::Rotater(RotaterSpawn { position, player })
    }

    /// A rotater needs a rotation.
    open spec fn spec_activate(
        &self,
        entity: EntityRef,
        parameters: TileParameters,
        shooter: Option<EntityRef>,
    ) -> Result<Command, ActivationError> {
        match parameters.rotation {
            Some(rotation) => Ok(
                Command::RotaterActivate(RotaterActivate { position: parameters.position, rotation }),
            ),
            None => Err(
                ActivationError { tile: entity, kind: TileId(6), missing: Missing::Rotation },
            ),
        }
    }

    /// A rotater does not answer a hit.
    open spec fn spec_on_hit(&self, entity: EntityRef, strength: usize, shooter: EntityRef) -> Option<
        Command,
    > {
        None
    }

    fn id() -> (id: TileId) {
        TileId(6)
    }

    fn spawn(position: Position, player: EntityRef, game: EntityRef) -> (command: SpawnCommand) {
        SpawnCommand::Rotater(RotaterSpawn { position, player })
    }

    fn activate(&self, entity: EntityRef, parameters: TileParameters, shooter: Option<EntityRef>) -> (outcome:
        Result<Command, ActivationError>) {
        match parameters.rotation {
            Some(rotation) => Ok(
                Command::RotaterActivate(RotaterActivate { position: parameters.position, rotation }),
            ),
            None => Err(
                ActivationError { tile: entity, kind: TileId(6), missing: Missing::Rotation },
            ),
        }
    }

    fn on_hit(&self, entity: EntityRef, strength: usize, shooter: EntityRef) -> (command: Option<
        Command,
    >) {
        None
    }
}

impl RotaterActivate {
    /// The world with the rotation in the cell of the rotater.
    pub open spec fn spec_applied(self, world: WorldModel) -> WorldModel {
        world.with_collider(
            Collider { rotation: Some(self.rotation), ..Collider::spec_at(self.position) },
        )
    }

    pub fn apply(self, world: &mut World)
        ensures
            final(world)@ == self.spec_applied(old(world)@),
    {
        let mut collider = Collider::at(self.position);
        collider.rotation = Some(Rotation::new(self.rotation.get()));
        world.spawn_collider(collider);
    }
}

impl Merchandise for RotaterTile {
    open spec fn spec_price() -> Money {
        Money(RotaterTile::PRICE)
    }

    open spec fn spec_name() -> Seq<char> {
        RotaterTile::NAME@
    }

    fn price() -> (price: Money) {
        Money::new(RotaterTile::PRICE)
    }

    fn name() -> (name: &'static str) {
        RotaterTile::NAME
    }
}

impl RotaterSpawn {
    /// The rotater as it is put on the board under the name `entity`: owned by
    /// the player and in the player's game, with a rotation of one step. A player who is in no game gets
    /// no tile.
    pub fn apply(self, entity: EntityRef, in_game: Option<InGame>) -> (placed: Option<
        PlacedTile<RotaterTile>,
    >)
        ensures
            placed == match in_game {
                Some(in_game) => Some(
                    PlacedTile {
                        entity,
                        position: self.position,
                        direction: None,
                        rotation: Some(Rotation(1)),
                        amplification: None,
                        owner: Some(Owner(self.player)),
                        tile: RotaterTile,
                        in_game,
                    },
                ),
                None => None,
            },
    {
        match in_game {
            Some(in_game) => Some(
                PlacedTile {
                    entity,
                    position: self.position,
                    direction: None,
                    rotation: Some(Rotation(1)),
                    amplification: None,
                    owner: Some(Owner::new(self.player)),
                    tile: RotaterTile,
                    in_game,
                },
            ),
            None => None,
        }
    }
}

} // verus!
