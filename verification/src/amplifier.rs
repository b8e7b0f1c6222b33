//! A tile that makes every beam that passes stronger by one.

use crate::entity::EntityRef;
use crate::lasers::position::Position;
use crate::tiles::{ActivationError, Command, SpawnCommand, Tile, TileId, TileParameters};
use crate::lasers::capability::{Amplification, Collider};
use crate::world::{World, WorldModel};
use crate::merchandise::components::Money;
use crate::merchandise::registry::Merchandise;
use crate::game_loop::InGame;
use crate::tiles::{Owner, PlacedTile};
use vstd::prelude::*;

verus! {

/// The kind of tile that an amplifier is.
#[derive(Clone, Copy, Debug, PartialEq, Eq, Structural)]
pub struct AmplifierTile;

impl AmplifierTile {
    /// What a tile of this kind costs.
    pub const PRICE: usize = 3;

    /// The name under which tiles of this kind are sold.
    pub const NAME: &'static str = "Amplifier Tower";

    /// What an amplifier adds to the strength of a beam.
    pub const GAIN: usize = 1;
}

/// Puts an amplifier of `player` on the board.
#[derive(Clone, Copy, Debug, PartialEq, Eq, Structural)]
pub struct AmplifierSpawn {
    pub position: Position,
    pub player: EntityRef,
}

/// Puts the amplification in the cell.
#[derive(Clone, Copy, Debug, PartialEq, Eq, Structural)]
pub struct AmplifierActivate {
    pub position: Position,
}

impl Tile for AmplifierTile {
    open spec fn spec_id() -> TileId {
        TileId(7)
    }

    open spec fn spec_spawn(position: Position, player: EntityRef, game: EntityRef) -> SpawnCommand {
        SpawnCommand::Amplifier(AmplifierSpawn { position, player })
    }

    open spec fn spec_activate(
        &self,
        entity: EntityRef,
        parameters: TileParameters,
        shooter: Option<EntityRef>,
    ) -> Result<Command, ActivationError> {
        Ok(Command::AmplifierActivate(AmplifierActivate { position: parameters.position }))
    }

    /// An amplifier does not answer a hit.
    open spec fn spec_on_hit(&self, entity: EntityRef, strength: usize, shooter: EntityRef) -> Option<
        Command,
    > {
        None
    }

    fn id() -> (id: TileId) {
        TileId(7)
    }

    fn spawn(position: Position, player: EntityRef, game: EntityRef) -> (command: SpawnCommand) {
        SpawnCommand::Amplifier(AmplifierSpawn { position, player })
    }

    fn activate(&self, entity: EntityRef, parameters: TileParameters, shooter: Option<EntityRef>) -> (outcome:
        Result<Command, ActivationError>) {
        Ok(Command::AmplifierActivate(AmplifierActivate { position: parameters.position }))
    }

    fn on_hit(&self, entity: EntityRef, strength: usize, shooter: EntityRef) -> (command: Option<
        Command,
    >) {
        None
    }
}

impl AmplifierActivate {
    /// The world with an amplification of one in the cell of the amplifier.
    pub open spec fn spec_applied(self, world: WorldModel) -> WorldModel {
        world.with_collider(
            Collider {
                amplification: Some(Amplification(AmplifierTile::GAIN)),
                ..Collider::spec_at(self.position)
            },
        )
    }

    pub fn apply(self, world: &mut World)
        ensures
            final(world)@ == self.spec_applied(old(world)@),
    {
        let mut collider = Collider::at(self.position);
        collider.amplification = Some(Amplification::new(AmplifierTile::GAIN));
        world.spawn_collider(collider);
    }
}

impl Merchandise for AmplifierTile {
    open spec fn spec_price() -> Money {
        Money(AmplifierTile::PRICE)
    }

    open spec fn spec_name() -> Seq<char> {
        AmplifierTile::NAME@
    }

    fn price() -> (price: Money) {
        Money::new(AmplifierTile::PRICE)
    }

    fn name() -> (name: &'static str) {
        AmplifierTile::NAME
    }
}

impl AmplifierSpawn {
    /// The amplifier as it is put on the board under the name `entity`: owned by
    /// the player and in the player's game. A player who is in no game gets
    /// no tile.
    pub fn apply(self, entity: EntityRef, in_game: Option<InGame>) -> (placed: Option<
        PlacedTile<AmplifierTile>,
    >)
        ensures
            placed == match in_game {
                Some(in_game) => Some(
                    PlacedTile {
                        entity,
                        position: self.position,
                        direction: None,
                        rotation: None,
                        amplification: None,
                        owner: Some(Owner(self.player)),
                        tile: AmplifierTile,
                        in_game,
                    },
                ),
                None => None,
            },
    {
        match in_game {
            Some(in_game) => Some(
                PlacedTile {
                    entity,
                    position: self.position,
                    direction: None,
                    rotation: None,
                    amplification: None,
                    owner: Some(Owner::new(self.player)),
                    tile: AmplifierTile,
                    in_game,
                },
            ),
            None => None,
        }
    }
}

} // verus!
