//! Tiles that players place on the board, and what they do when a game
//! acts: each active tile hands in one command, and the commands change the
//! world before any beam is traced.

use crate::amplifier::{AmplifierActivate, AmplifierSpawn};
use crate::entity::EntityRef;
use crate::game_loop::{Game, GamePhase, InGame};
use crate::hq::{HQActivate, HQOnHit, HQSpawn};
use crate::laser_tower::{LaserTowerActivate, LaserTowerOnHit, LaserTowerSpawn};
use crate::lasers::capability::{Amplification, Rotation};
use crate::lasers::direction::Direction;
use crate::lasers::position::Position;
use crate::lasers::tracer::LaserHitEvent;
use crate::mountain::{MountainActivate, MountainOnHit, MountainSpawn};
use crate::reflector::{ReflectorActivate, ReflectorSpawn};
use crate::refractor::{RefractorActivate, RefractorOnHit, RefractorSpawn};
use crate::resource_deposit::{
    ResourceDepositActivate, ResourceDepositOnHit, ResourceDepositSpawn,
};
use crate::rotater::{RotaterActivate, RotaterSpawn};
use crate::game_loop::contains_entity;
use crate::tilemap::TilemapEntities;
use crate::world::{World, WorldModel};
use std::marker::PhantomData;
use vstd::prelude::*;

verus! {

/// The points of a tick at which tiles act, in their order: new tiles are
/// put on the board, the tiles of an acting game hand in their commands, and,
/// once the beams are traced, the tiles that were hit answer.
#[derive(Clone, Copy, Debug, PartialEq, Eq, Structural, Hash)]
pub enum TileSystems {
    Spawn,
    Activate,
    OnHit,
}

/// The number that tells the kinds of tile apart.
#[derive(Clone, Copy, Debug, PartialEq, Eq, Structural, Hash)]
pub struct TileId(pub u8);

/// The player who owns a tile.
#[derive(Clone, Copy, Debug, PartialEq, Eq, Structural)]
pub struct Owner(pub EntityRef);

impl Owner {
    pub fn new(entity: EntityRef) -> (owner: Owner)
        ensures
            owner.0 == entity,
    {
        Owner(entity)
    }
}

/// Asks for a tile of the kind `tile_id` on the cell of the map tile
/// `on_tile`.
#[derive(Clone, Copy, Debug, PartialEq, Eq, Structural)]
pub struct TileSpawnEvent {
    pub tile_id: TileId,
    pub on_tile: EntityRef,
    pub owner: EntityRef,
    pub game: EntityRef,
}

/// What a tile is activated with: its cell, and whichever of a direction, a
/// rotation and an amplification it has been given.
#[derive(Clone, Copy, Debug, PartialEq, Eq, Structural)]
pub struct TileParameters {
    pub position: Position,
    pub direction: Option<Direction>,
    pub rotation: Option<Rotation>,
    pub amplification: Option<Amplification>,
}

impl TileParameters {
    pub fn new(
        position: &Position,
        direction: Option<&Direction>,
        rotation: Option<&Rotation>,
        amplification: Option<&Amplification>,
    ) -> (parameters: TileParameters)
        ensures
            parameters.position == *position,
            parameters.direction == match direction {
                Some(direction) => Some(*direction),
                None => None,
            },
            parameters.rotation == match rotation {
                Some(rotation) => Some(*rotation),
                None => None,
            },
            parameters.amplification == match amplification {
                Some(amplification) => Some(*amplification),
                None => None,
            },
    {
        let direction = match direction {
            Some(direction) => Some(*direction),
            None => None,
        };
        let rotation = match rotation {
            Some(rotation) => Some(*rotation),
            None => None,
        };
        let amplification = match amplification {
            Some(amplification) => Some(*amplification),
            None => None,
        };
        TileParameters { position: *position, direction, rotation, amplification }
    }

    pub fn from_position(position: &Position) -> (parameters: TileParameters)
        ensures
            parameters == (TileParameters {
                position: *position,
                direction: None,
                rotation: None,
                amplification: None,
            }),
    {
        TileParameters { position: *position, direction: None, rotation: None, amplification: None }
    }
}

/// What a tile lacked when it was activated.
#[derive(Clone, Copy, Debug, PartialEq, Eq, Structural)]
pub enum Missing {
    Direction,
    Rotation,
    Owner,
}

/// A tile could not be activated because it was placed without something
/// that its kind needs.
#[derive(Clone, Copy, Debug, PartialEq, Eq, Structural)]
pub struct ActivationError {
    pub tile: EntityRef,
    pub kind: TileId,
    pub missing: Missing,
}

/// The command that puts a new tile on the board.
#[derive(Clone, Copy, Debug, PartialEq, Eq, Structural)]
pub enum SpawnCommand {
    HQ(HQSpawn),
    Mountain(MountainSpawn),
    ResourceDeposit(ResourceDepositSpawn),
    LaserTower(LaserTowerSpawn),
    Reflector(ReflectorSpawn),
    Refractor(RefractorSpawn),
    Rotater(RotaterSpawn),
    Amplifier(AmplifierSpawn),
}

/// A change to the world that a tile has asked for.
#[derive(Clone, Copy, Debug, PartialEq, Eq, Structural)]
pub enum Command {
    HQActivate(HQActivate),
    HQOnHit(HQOnHit),
    MountainActivate(MountainActivate),
    MountainOnHit(MountainOnHit),
    ResourceDepositActivate(ResourceDepositActivate),
    ResourceDepositOnHit(ResourceDepositOnHit),
    LaserTowerActivate(LaserTowerActivate),
    LaserTowerOnHit(LaserTowerOnHit),
    ReflectorActivate(ReflectorActivate),
    RefractorActivate(RefractorActivate),
    RefractorOnHit(RefractorOnHit),
    RotaterActivate(RotaterActivate),
    AmplifierActivate(AmplifierActivate),
}

impl Command {
    /// The world after the command has been carried out.
    pub open spec fn spec_applied(self, world: WorldModel) -> WorldModel {
        match self {
            Command::HQActivate(command) => command.spec_applied(world),
            Command::HQOnHit(command) => command.spec_applied(world),
            Command::MountainActivate(command) => command.spec_applied(world),
            Command::MountainOnHit(command) => command.spec_applied(world),
            Command::ResourceDepositActivate(command) => command.spec_applied(world),
            Command::ResourceDepositOnHit(command) => command.spec_applied(world),
            Command::LaserTowerActivate(command) => command.spec_applied(world),
            Command::LaserTowerOnHit(command) => command.spec_applied(world),
            Command::ReflectorActivate(command) => command.spec_applied(world),
            Command::RefractorActivate(command) => command.spec_applied(world),
            Command::RefractorOnHit(command) => command.spec_applied(world),
            Command::RotaterActivate(command) => command.spec_applied(world),
            Command::AmplifierActivate(command) => command.spec_applied(world),
        }
    }

    /// The world after the first `n` of the commands have been carried out,
    /// one after the other.
    pub open spec fn spec_applied_all(commands: Seq<Command>, world: WorldModel, n: int) -> WorldModel
        decreases n,
    {
        if n <= 0 {
            world
        } else {
            commands[n - 1].spec_applied(Command::spec_applied_all(commands, world, n - 1))
        }
    }

    pub fn apply(self, world: &mut World)
        requires
            old(world)@.countable(),
        ensures
            final(world)@ == self.spec_applied(old(world)@),
            final(world)@.countable(),
    {
        match self {
            Command::HQActivate(command) => command.apply(world),
            Command::HQOnHit(command) => command.apply(world),
            Command::MountainActivate(command) => command.apply(world),
            Command::MountainOnHit(command) => command.apply(world),
            Command::ResourceDepositActivate(command) => command.apply(world),
            Command::ResourceDepositOnHit(command) => command.apply(world),
            Command::LaserTowerActivate(command) => command.apply(world),
            Command::LaserTowerOnHit(command) => command.apply(world),
            Command::ReflectorActivate(command) => command.apply(world),
            Command::RefractorActivate(command) => command.apply(world),
            Command::RefractorOnHit(command) => command.apply(world),
            Command::RotaterActivate(command) => command.apply(world),
            Command::AmplifierActivate(command) => command.apply(world),
        }
    }

    /// Carries out the commands of a tick as one batch, in their order.
    pub fn apply_all(commands: &Vec<Command>, world: &mut World)
        requires
            old(world)@.countable(),
        ensures
            final(world)@ == Command::spec_applied_all(
                commands@,
                old(world)@,
                commands@.len() as int,
            ),
            final(world)@.countable(),
    {
        let mut i: usize = 0;
        while i < commands.len()
            invariant
                i <= commands.len(),
                world@ == Command::spec_applied_all(commands@, old(world)@, i as int),
                world@.countable(),
            decreases commands.len() - i,
        {
            commands[i].apply(world);
            i += 1;
        }
    }
}

/// A kind of tile.
pub trait Tile: Sized {
    spec fn spec_id() -> TileId;

    /// The command that puts a tile of this kind on the board.
    spec fn spec_spawn(position: Position, player: EntityRef, game: EntityRef) -> SpawnCommand;

    /// The command that a tile of this kind hands in when its game acts, or
    /// what the tile lacks.
    spec fn spec_activate(
        &self,
        entity: EntityRef,
        parameters: TileParameters,
        shooter: Option<EntityRef>,
    ) -> Result<Command, ActivationError>;

    /// The command with which a tile of this kind answers a hit, if it
    /// answers.
    spec fn spec_on_hit(&self, entity: EntityRef, strength: usize, shooter: EntityRef) -> Option<
        Command,
    >;

    fn id() -> (id: TileId)
        ensures
            id == Self::spec_id(),
    ;

    fn spawn(position: Position, player: EntityRef, game: EntityRef) -> (command: SpawnCommand)
        ensures
            command == Self::spec_spawn(position, player, game),
    ;

    fn activate(&self, entity: EntityRef, parameters: TileParameters, shooter: Option<EntityRef>) -> (outcome:
        Result<Command, ActivationError>)
        ensures
            outcome == self.spec_activate(entity, parameters, shooter),
    ;

    fn on_hit(&self, entity: EntityRef, strength: usize, shooter: EntityRef) -> (command: Option<
        Command,
    >)
        ensures
            command == self.spec_on_hit(entity, strength, shooter),
    ;
}

/// A tile on the board, with everything that has been attached to it.
#[derive(Clone, Copy, Debug)]
pub struct PlacedTile<T> {
    pub entity: EntityRef,
    pub position: Position,
    pub direction: Option<Direction>,
    pub rotation: Option<Rotation>,
    pub amplification: Option<Amplification>,
    pub owner: Option<Owner>,
    pub tile: T,
    pub in_game: InGame,
}

impl<T: Tile> PlacedTile<T> {
    pub open spec fn spec_parameters(&self) -> TileParameters {
        TileParameters {
            position: self.position,
            direction: self.direction,
            rotation: self.rotation,
            amplification: self.amplification,
        }
    }

    pub open spec fn spec_shooter(&self) -> Option<EntityRef> {
        match self.owner {
            Some(owner) => Some(owner.0),
            None => None,
        }
    }

    /// What activating this tile gives.
    pub open spec fn spec_outcome(&self) -> Result<Command, ActivationError> {
        self.tile.spec_activate(self.entity, self.spec_parameters(), self.spec_shooter())
    }

    pub fn outcome(&self) -> (outcome: Result<Command, ActivationError>)
        ensures
            outcome == self.spec_outcome(),
    {
        let direction = match &self.direction {
            Some(direction) => Some(direction),
            None => None,
        };
        let rotation = match &self.rotation {
            Some(rotation) => Some(rotation),
            None => None,
        };
        let amplification = match &self.amplification {
            Some(amplification) => Some(amplification),
            None => None,
        };
        let parameters = TileParameters::new(&self.position, direction, rotation, amplification);
        let shooter = match self.owner {
            Some(owner) => Some(owner.0),
            None => None,
        };
        self.tile.activate(self.entity, parameters, shooter)
    }
}

/// Whether the game has begun to act in the tick that is running.
pub open spec fn acting(game: Game) -> bool {
    game.changed && game.phase == GamePhase::Act
}

/// Whether a game with this number has begun to act.
pub open spec fn acting_number(games: Seq<Game>, number: int) -> bool {
    exists|i: int| 0 <= i < games.len() && acting(#[trigger] games[i]) && games[i].entity.0 == number
}

/// The place of a tile in the order of activation: tiles are ordered by the
/// number of their game and, within a game, by their own number.
pub open spec fn tile_key<T>(tile: PlacedTile<T>) -> int {
    tile.in_game.0.0 * 0x1_0000_0000_0000_0000 + tile.entity.0
}

/// Whether the tile is still to be activated when all tiles with keys below
/// `floor` have been: its game has begun to act, and its key is `floor` or
/// above.
pub open spec fn due<T>(games: Seq<Game>, tile: PlacedTile<T>, floor: int) -> bool {
    tile_key(tile) >= floor && acting_number(games, tile.in_game.0.0 as int)
}

/// The smallest key of a tile among the first `n` that is due.
pub open spec fn next_key<T>(
    games: Seq<Game>,
    tiles: Seq<PlacedTile<T>>,
    floor: int,
    n: int,
) -> Option<int>
    decreases n,
{
    if n <= 0 {
        None
    } else {
        let before = next_key(games, tiles, floor, n - 1);
        let key = tile_key(tiles[n - 1]);
        if due(games, tiles[n - 1], floor) && (before is None || key < before->0) {
            Some(key)
        } else {
            before
        }
    }
}

/// The places, among the first `n`, of the tiles with the key, in rising
/// order.
pub open spec fn with_key<T>(tiles: Seq<PlacedTile<T>>, key: int, n: int) -> Seq<int>
    decreases n,
{
    if n <= 0 {
        Seq::empty()
    } else if tile_key(tiles[n - 1]) == key {
        with_key(tiles, key, n - 1).push(n - 1)
    } else {
        with_key(tiles, key, n - 1)
    }
}

/// The places of the tiles that are due, in the order in which they are
/// activated: by rising key, and tiles with the same key in the order in
/// which they are listed.
pub open spec fn activation_order<T>(
    games: Seq<Game>,
    tiles: Seq<PlacedTile<T>>,
    floor: int,
) -> Seq<int>
    decreases 0x1_0000_0000_0000_0000_0000_0000_0000_0000 - floor,
{
    match next_key(games, tiles, floor, tiles.len() as int) {
        Some(key) => {
            proof {
                lemma_next_key(games, tiles, floor, tiles.len() as int);
            }
            with_key(tiles, key, tiles.len() as int) + activation_order(games, tiles, key + 1)
        },
        None => Seq::empty(),
    }
}

/// What activating the tiles at the places gives, place by place.
pub open spec fn outcomes_at<T: Tile>(tiles: Seq<PlacedTile<T>>, order: Seq<int>) -> Seq<
    Result<Command, ActivationError>,
> {
    Seq::new(order.len(), |k: int| tiles[order[k]].spec_outcome())
}

/// What activating the tiles gives: the outcome for every tile of a game
/// that has begun to act, in the order of activation.
pub open spec fn spec_activation<T: Tile>(games: Seq<Game>, tiles: Seq<PlacedTile<T>>) -> Seq<
    Result<Command, ActivationError>,
> {
    outcomes_at(tiles, activation_order(games, tiles, 0))
}

/// What `next_key` finds is the key of a tile that is due, and no tile that
/// is due has a smaller one.
pub proof fn lemma_next_key<T>(games: Seq<Game>, tiles: Seq<PlacedTile<T>>, floor: int, n: int)
    requires
        0 <= n <= tiles.len(),
    ensures
        match next_key(games, tiles, floor, n) {
            Some(key) => {
                &&& floor <= key < 0x1_0000_0000_0000_0000_0000_0000_0000_0000
                &&& exists|i: int|
                    0 <= i < n && due(games, #[trigger] tiles[i], floor) && tile_key(tiles[i])
                        == key
                &&& forall|i: int|
                    0 <= i < n && due(games, #[trigger] tiles[i], floor) ==> tile_key(tiles[i])
                        >= key
            },
            None => forall|i: int| 0 <= i < n ==> !due(games, #[trigger] tiles[i], floor),
        },
    decreases n,
{
    if n > 0 {
        lemma_next_key(games, tiles, floor, n - 1);
        let before = next_key(games, tiles, floor, n - 1);
        let key = tile_key(tiles[n - 1]);
        if due(games, tiles[n - 1], floor) && (before is None || key < before->0) {
            assert(due(games, tiles[n - 1], floor) && tile_key(tiles[n - 1]) == key);
        } else if before is Some {
            let i = choose|i: int|
                0 <= i < n - 1 && due(games, #[trigger] tiles[i], floor) && tile_key(tiles[i])
                    == before->0;
            assert(0 <= i < n && due(games, tiles[i], floor) && tile_key(tiles[i]) == before->0);
        }
    }
}

/// `with_key` lists exactly the places of the tiles with the key, each once
/// and in rising order.
pub proof fn lemma_with_key<T>(tiles: Seq<PlacedTile<T>>, key: int, n: int)
    requires
        0 <= n <= tiles.len(),
    ensures
        forall|k: int|
            0 <= k < with_key(tiles, key, n).len() ==> 0 <= #[trigger] with_key(tiles, key, n)[k]
                < n && tile_key(tiles[with_key(tiles, key, n)[k]]) == key,
        forall|i: int|
            0 <= i < n && tile_key(#[trigger] tiles[i]) == key ==> with_key(tiles, key, n).contains(
                i,
            ),
        forall|a: int, b: int|
            0 <= a < b < with_key(tiles, key, n).len() ==> #[trigger] with_key(tiles, key, n)[a]
                < #[trigger] with_key(tiles, key, n)[b],
    decreases n,
{
    if n > 0 {
        lemma_with_key(tiles, key, n - 1);
        let before = with_key(tiles, key, n - 1);
        let now = with_key(tiles, key, n);
        assert forall|i: int| 0 <= i < n && tile_key(#[trigger] tiles[i]) == key implies now.contains(
            i,
        ) by {
            if i < n - 1 {
                assert(before.contains(i));
                let k = choose|k: int| 0 <= k < before.len() && before[k] == i;
                assert(now[k] == i);
            } else {
                assert(now[now.len() - 1] == i);
            }
        }
    }
}

/// The order of activation holds every tile that is due exactly once and no
/// other, and runs by rising key. Where no two tiles have the same key, it
/// does not depend on the order in which the tiles are listed.
pub proof fn lemma_activation_order<T>(games: Seq<Game>, tiles: Seq<PlacedTile<T>>, floor: int)
    requires
        0 <= floor,
    ensures
        ({
            let order = activation_order(games, tiles, floor);
            &&& forall|k: int|
                0 <= k < order.len() ==> 0 <= #[trigger] order[k] < tiles.len() && due(
                    games,
                    tiles[order[k]],
                    floor,
                )
            &&& forall|i: int|
                0 <= i < tiles.len() && due(games, #[trigger] tiles[i], floor) ==> order.contains(
                    i,
                )
            &&& forall|a: int, b: int|
                0 <= a < b < order.len() ==> {
                    let first = tile_key(tiles[#[trigger] order[a]]);
                    let second = tile_key(tiles[#[trigger] order[b]]);
                    first < second || (first == second && order[a] < order[b])
                }
            &&& order.no_duplicates()
        }),
    decreases 0x1_0000_0000_0000_0000_0000_0000_0000_0000 - floor,
{
    let n = tiles.len() as int;
    let order = activation_order(games, tiles, floor);
    lemma_next_key(games, tiles, floor, n);
    match next_key(games, tiles, floor, n) {
        Some(key) => {
            let first = with_key(tiles, key, n);
            let rest = activation_order(games, tiles, key + 1);
            lemma_with_key(tiles, key, n);
            lemma_activation_order(games, tiles, key + 1);
            let witness = choose|i: int|
                0 <= i < n && due(games, #[trigger] tiles[i], floor) && tile_key(tiles[i]) == key;
            assert forall|k: int| 0 <= k < order.len() implies 0 <= #[trigger] order[k] < n && due(
                games,
                tiles[order[k]],
                floor,
            ) && (if k < first.len() {
                tile_key(tiles[order[k]]) == key
            } else {
                tile_key(tiles[order[k]]) > key
            }) by {
                if k < first.len() {
                    assert(order[k] == first[k]);
                    assert(tiles[order[k]].in_game.0.0 == tiles[witness].in_game.0.0);
                } else {
                    assert(order[k] == rest[k - first.len()]);
                }
            }
            assert forall|i: int| 0 <= i < n && due(games, #[trigger] tiles[i], floor) implies order.contains(
                i,
            ) by {
                if tile_key(tiles[i]) == key {
                    assert(first.contains(i));
                    let k = choose|k: int| 0 <= k < first.len() && first[k] == i;
                    assert(order[k] == i);
                } else {
                    assert(due(games, tiles[i], key + 1));
                    assert(rest.contains(i));
                    let k = choose|k: int| 0 <= k < rest.len() && rest[k] == i;
                    assert(order[first.len() + k] == i);
                }
            }
            assert forall|a: int, b: int| 0 <= a < b < order.len() implies {
                let lower = tile_key(tiles[#[trigger] order[a]]);
                let upper = tile_key(tiles[#[trigger] order[b]]);
                lower < upper || (lower == upper && order[a] < order[b])
            } by {
                if b < first.len() {
                    assert(order[a] == first[a] && order[b] == first[b]);
                } else if a >= first.len() {
                    assert(order[a] == rest[a - first.len()]);
                    assert(order[b] == rest[b - first.len()]);
                }
            }
        },
        None => {},
    }
}

/// The commands with which the tiles answer the first `n` hits: for each hit
/// in turn, what the first tile that is the consumer of the hit answers, if
/// there is such a tile and it answers.
pub open spec fn spec_hit_commands<T: Tile>(
    collisions: Seq<LaserHitEvent>,
    tiles: Seq<PlacedTile<T>>,
    n: int,
) -> Seq<Command>
    decreases n,
{
    if n <= 0 {
        Seq::empty()
    } else {
        let before = spec_hit_commands(collisions, tiles, n - 1);
        let hit = collisions[n - 1];
        match tile_of(tiles, hit.consumer, tiles.len() as int) {
            Some(i) => match tiles[i].tile.spec_on_hit(tiles[i].entity, hit.strength, hit.shooter) {
                Some(command) => before.push(command),
                None => before,
            },
            None => before,
        }
    }
}

/// The index of the first among the first `n` tiles that is the entity.
pub open spec fn tile_of<T>(tiles: Seq<PlacedTile<T>>, entity: EntityRef, n: int) -> Option<int>
    decreases n,
{
    if n <= 0 {
        None
    } else {
        match tile_of(tiles, entity, n - 1) {
            Some(i) => Some(i),
            None => if tiles[n - 1].entity == entity {
                Some(n - 1)
            } else {
                None
            },
        }
    }
}

proof fn lemma_tile_found_stays<T>(tiles: Seq<PlacedTile<T>>, entity: EntityRef, i: int, n: int)
    requires
        0 <= i < n <= tiles.len(),
        tile_of(tiles, entity, i + 1) == Some(i),
    ensures
        tile_of(tiles, entity, n) == Some(i),
    decreases n,
{
    if n > i + 1 {
        lemma_tile_found_stays(tiles, entity, i, n - 1);
    }
}

/// A new tile to be put on the board, and the tile of the map that is no
/// longer empty once it is.
#[derive(Clone, Copy, Debug, PartialEq, Eq, Structural)]
pub struct Placement {
    pub command: SpawnCommand,
    pub on_tile: EntityRef,
}

/// The placements that one request leads to on one map: one for each of the
/// first `n` entries of the map whose tile is the one asked for.
pub open spec fn spec_placements_on<T: Tile>(
    tiles: Seq<(Position, EntityRef)>,
    spawn: TileSpawnEvent,
    n: int,
) -> Seq<Placement>
    decreases n,
{
    if n <= 0 {
        Seq::empty()
    } else if tiles[n - 1].1 == spawn.on_tile {
        spec_placements_on::<T>(tiles, spawn, n - 1).push(
            Placement {
                command: T::spec_spawn(tiles[n - 1].0, spawn.owner, spawn.game),
                on_tile: tiles[n - 1].1,
            },
        )
    } else {
        spec_placements_on::<T>(tiles, spawn, n - 1)
    }
}

/// The placements that the first `n` requests lead to on one map. Requests
/// for another kind of tile than `T` lead to none.
pub open spec fn spec_placements_in<T: Tile>(
    tiles: Seq<(Position, EntityRef)>,
    spawns: Seq<TileSpawnEvent>,
    n: int,
) -> Seq<Placement>
    decreases n,
{
    if n <= 0 {
        Seq::empty()
    } else if spawns[n - 1].tile_id == T::spec_id() {
        spec_placements_in::<T>(tiles, spawns, n - 1) + spec_placements_on::<T>(
            tiles,
            spawns[n - 1],
            tiles.len() as int,
        )
    } else {
        spec_placements_in::<T>(tiles, spawns, n - 1)
    }
}

/// The placements that the requests lead to on the first `n` maps.
pub open spec fn spec_placements<T: Tile>(
    tilemaps: Seq<TilemapEntities>,
    spawns: Seq<TileSpawnEvent>,
    n: int,
) -> Seq<Placement>
    decreases n,
{
    if n <= 0 {
        Seq::empty()
    } else {
        spec_placements::<T>(tilemaps, spawns, n - 1) + spec_placements_in::<T>(
            tilemaps[n - 1].tiles@,
            spawns,
            spawns.len() as int,
        )
    }
}

/// The systems that every kind of tile has, for the kind `T`.
pub struct TilePlugin<T> {
    marker: PhantomData<T>,
}

impl<T> Default for TilePlugin<T> {
    fn default() -> Self {
        TilePlugin { marker: PhantomData }
    }
}

impl<T: Tile> TilePlugin<T> {
    /// Activates every tile of the games that have begun to act in this
    /// tick. Each such tile is activated once and gives one outcome: its
    /// command, or what it lacks. The tiles are activated in the order of
    /// the numbers of their games and, within a game, of their own numbers,
    /// whatever the order in which games and tiles are listed.
    pub fn activate_tiles(activated_games: &Vec<Game>, activated_tiles: &Vec<PlacedTile<T>>) -> (outcomes:
        Vec<Result<Command, ActivationError>>)
        ensures
            outcomes@ == spec_activation(activated_games@, activated_tiles@),
    {
        let mut outcomes: Vec<Result<Command, ActivationError>> = Vec::new();
        let ghost mut done: Seq<int> = Seq::empty();
        let ghost count = activated_tiles@.len() as int;
        let mut floor: u128 = 0;
        assert(outcomes@ =~= outcomes_at(activated_tiles@, done));
        assert(done + activation_order(activated_games@, activated_tiles@, 0)
            =~= activation_order(activated_games@, activated_tiles@, 0));
        loop
            invariant
                count == activated_tiles@.len(),
                outcomes@ == outcomes_at(activated_tiles@, done),
                forall|k: int| 0 <= k < done.len() ==> 0 <= #[trigger] done[k] < count,
                done + activation_order(activated_games@, activated_tiles@, floor as int)
                    == activation_order(activated_games@, activated_tiles@, 0),
            decreases u128::MAX - floor,
        {
            let Some(key) = Self::next_tile(activated_games, activated_tiles, floor) else {
                assert(done + Seq::<int>::empty() =~= done);
                return outcomes;
            };
            proof {
                lemma_next_key(activated_games@, activated_tiles@, floor as int, count);
            }
            let ghost before = done;
            let ghost rest = activation_order(activated_games@, activated_tiles@, key + 1);
            let mut i: usize = 0;
            while i < activated_tiles.len()
                invariant
                    i <= activated_tiles.len(),
                    count == activated_tiles@.len(),
                    outcomes@ == outcomes_at(activated_tiles@, done),
                    forall|k: int| 0 <= k < done.len() ==> 0 <= #[trigger] done[k] < count,
                    done == before + with_key(activated_tiles@, key as int, i as int),
                decreases activated_tiles.len() - i,
            {
                if Self::key(&activated_tiles[i]) == key {
                    let outcome = activated_tiles[i].outcome();
                    outcomes.push(outcome);
                    proof {
                        let longer = done.push(i as int);
                        assert(outcomes@ =~= outcomes_at(activated_tiles@, longer));
                        assert(longer =~= before + with_key(
                            activated_tiles@,
                            key as int,
                            i as int + 1,
                        ));
                        done = longer;
                    }
                }
                i += 1;
            }
            assert(done + rest =~= before + (with_key(activated_tiles@, key as int, count) + rest));
            if key == u128::MAX {
                proof {
                    lemma_next_key(activated_games@, activated_tiles@, key + 1, count);
                }
                assert(done + Seq::<int>::empty() =~= done);
                return outcomes;
            }
            floor = key + 1;
        }
    }

    /// The key of the tile in the order of activation.
    pub fn key(tile: &PlacedTile<T>) -> (key: u128)
        ensures
            key == tile_key(*tile),
    {
        tile.in_game.0.0 as u128 * 0x1_0000_0000_0000_0000 + tile.entity.0 as u128
    }

    /// Whether a game with this number has begun to act.
    pub fn game_acts(games: &Vec<Game>, number: u64) -> (acts: bool)
        ensures
            acts == acting_number(games@, number as int),
    {
        let mut i: usize = 0;
        while i < games.len()
            invariant
                i <= games.len(),
                forall|j: int|
                    0 <= j < i ==> !(acting(#[trigger] games@[j]) && games@[j].entity.0 == number),
            decreases games.len() - i,
        {
            let game = &games[i];
            if game.changed && game.phase == GamePhase::Act && game.entity.0 == number {
                assert(acting(games@[i as int]) && games@[i as int].entity.0 == number);
                return true;
            }
            i += 1;
        }
        false
    }

    /// The smallest key, not below `floor`, of a tile that is due.
    pub fn next_tile(games: &Vec<Game>, tiles: &Vec<PlacedTile<T>>, floor: u128) -> (next: Option<
        u128,
    >)
        ensures
            match next {
                Some(key) => next_key(games@, tiles@, floor as int, tiles@.len() as int) == Some(
                    key as int,
                ),
                None => next_key(games@, tiles@, floor as int, tiles@.len() as int) is None,
            },
    {
        let mut next: Option<u128> = None;
        let mut i: usize = 0;
        while i < tiles.len()
            invariant
                i <= tiles.len(),
                match next {
                    Some(key) => next_key(games@, tiles@, floor as int, i as int) == Some(
                        key as int,
                    ),
                    None => next_key(games@, tiles@, floor as int, i as int) is None,
                },
            decreases tiles.len() - i,
        {
            let key = Self::key(&tiles[i]);
            if key >= floor && Self::game_acts(games, tiles[i].in_game.0.0) {
                let closer = match next {
                    Some(found) => key < found,
                    None => true,
                };
                if closer {
                    next = Some(key);
                }
            }
            i += 1;
        }
        next
    }

    /// Turns the requests for tiles of the kind `T` into placements: for each
    /// map, and each request in turn, a tile in the cell of the tile of the
    /// map that the request names.
    pub fn spawn_tiles(tile_spawns: &Vec<TileSpawnEvent>, tilemaps: &Vec<TilemapEntities>) -> (placements:
        Vec<Placement>)
        ensures
            placements@ == spec_placements::<T>(tilemaps@, tile_spawns@, tilemaps@.len() as int),
    {
        let mut placements: Vec<Placement> = Vec::new();
        let id = T::id();
        let mut m: usize = 0;
        while m < tilemaps.len()
            invariant
                m <= tilemaps.len(),
                id == T::spec_id(),
                placements@ == spec_placements::<T>(tilemaps@, tile_spawns@, m as int),
            decreases tilemaps.len() - m,
        {
            let tiles = &tilemaps[m].tiles;
            let ghost maps_before = placements@;
            let mut k: usize = 0;
            while k < tile_spawns.len()
                invariant
                    k <= tile_spawns.len(),
                    id == T::spec_id(),
                    tiles@ == tilemaps@[m as int].tiles@,
                    placements@ == maps_before + spec_placements_in::<T>(
                        tiles@,
                        tile_spawns@,
                        k as int,
                    ),
                decreases tile_spawns.len() - k,
            {
                let spawn = tile_spawns[k];
                if spawn.tile_id == id {
                    let ghost spawns_before = placements@;
                    let mut i: usize = 0;
                    while i < tiles.len()
                        invariant
                            i <= tiles.len(),
                            placements@ == spawns_before + spec_placements_on::<T>(
                                tiles@,
                                spawn,
                                i as int,
                            ),
                        decreases tiles.len() - i,
                    {
                        if tiles[i].1 == spawn.on_tile {
                            let command = T::spawn(tiles[i].0, spawn.owner, spawn.game);
                            placements.push(Placement { command, on_tile: tiles[i].1 });
                            assert(placements@ == spawns_before + spec_placements_on::<T>(
                                tiles@,
                                spawn,
                                i as int + 1,
                            ));
                        }
                        i += 1;
                    }
                    assert(placements@ == maps_before + (spec_placements_in::<T>(
                        tiles@,
                        tile_spawns@,
                        k as int,
                    ) + spec_placements_on::<T>(tiles@, spawn, tiles@.len() as int)));
                }
                k += 1;
            }
            m += 1;
        }
        placements
    }

    /// Lets the tiles that were hit answer: one command for each hit whose
    /// consumer is a tile of this kind that answers hits. A hit on something
    /// that is no such tile is passed over.
    pub fn handle_hit_tiles(collisions: &Vec<LaserHitEvent>, tiles: &Vec<PlacedTile<T>>) -> (commands:
        Vec<Command>)
        ensures
            commands@ == spec_hit_commands(collisions@, tiles@, collisions@.len() as int),
    {
        let mut commands: Vec<Command> = Vec::new();
        let mut n: usize = 0;
        while n < collisions.len()
            invariant
                n <= collisions.len(),
                commands@ == spec_hit_commands(collisions@, tiles@, n as int),
            decreases collisions.len() - n,
        {
            let hit = &collisions[n];
            let mut i: usize = 0;
            let mut found: Option<usize> = None;
            while i < tiles.len() && found.is_none()
                invariant
                    i <= tiles.len(),
                    match found {
                        Some(k) => tile_of(tiles@, hit.consumer, tiles@.len() as int) == Some(
                            k as int,
                        ) && k < tiles.len(),
                        None => tile_of(tiles@, hit.consumer, i as int) is None,
                    },
                decreases tiles.len() - i + if found is None { 1int } else { 0int },
            {
                if tiles[i].entity == hit.consumer {
                    proof {
                        lemma_tile_found_stays(
                            tiles@,
                            hit.consumer,
                            i as int,
                            tiles@.len() as int,
                        );
                    }
                    found = Some(i);
                } else {
                    i += 1;
                }
            }
            if let Some(k) = found {
                if let Some(command) = tiles[k].tile.on_hit(
                    tiles[k].entity,
                    hit.strength,
                    hit.shooter,
                ) {
                    commands.push(command);
                }
            }
            n += 1;
        }
        commands
    }
}

/// The tiles of the map that lie within reach of a player's own tiles.
#[derive(Clone, Debug)]
pub struct Territory(pub Vec<EntityRef>);

impl Territory {
    /// How many steps from a tile its owner's territory reaches.
    pub const RANGE: usize = 4;
}

/// Whether the tile of the map lies within reach of one of the first `n`
/// tiles that the player owns.
pub open spec fn in_territory(
    tilemap: TilemapEntities,
    tiles: Seq<(Position, Owner)>,
    player: EntityRef,
    tile: EntityRef,
    n: int,
) -> bool {
    exists|t: int, cell: Position|
        0 <= t < n && (#[trigger] tiles[t]).1.0 == player && cell@.distance_to(tiles[t].0@)
            <= Territory::RANGE && #[trigger] tilemap.spec_get(cell) == Some(tile)
}

/// Whether the player owns one of the first `n` tiles.
pub open spec fn owns_any(tiles: Seq<(Position, Owner)>, player: EntityRef, n: int) -> bool {
    exists|t: int| 0 <= t < n && (#[trigger] tiles[t]).1.0 == player
}

/// The players among the first `n` who own a tile, in their order.
pub open spec fn spec_landed(players: Seq<EntityRef>, tiles: Seq<(Position, Owner)>, n: int) -> Seq<
    EntityRef,
>
    decreases n,
{
    if n <= 0 {
        Seq::empty()
    } else if owns_any(tiles, players[n - 1], tiles.len() as int) {
        spec_landed(players, tiles, n - 1).push(players[n - 1])
    } else {
        spec_landed(players, tiles, n - 1)
    }
}

/// Whether the tile of the map lies in one of the first `k` cells.
pub open spec fn reached_by(
    tilemap: TilemapEntities,
    cells: Seq<Position>,
    tile: EntityRef,
    k: int,
) -> bool {
    exists|j: int| 0 <= j < k && #[trigger] tilemap.spec_get(cells[j]) == Some(tile)
}

proof fn lemma_reached_step(tilemap: TilemapEntities, cells: Seq<Position>, tile: EntityRef, k: int)
    requires
        0 <= k < cells.len(),
    ensures
        reached_by(tilemap, cells, tile, k + 1) <==> reached_by(tilemap, cells, tile, k)
            || tilemap.spec_get(cells[k]) == Some(tile),
{
    if reached_by(tilemap, cells, tile, k + 1) {
        let j = choose|j: int| 0 <= j < k + 1 && #[trigger] tilemap.spec_get(cells[j]) == Some(tile);
        if j < k {
            assert(reached_by(tilemap, cells, tile, k));
        }
    }
    if reached_by(tilemap, cells, tile, k) {
        let j = choose|j: int| 0 <= j < k && #[trigger] tilemap.spec_get(cells[j]) == Some(tile);
        assert(0 <= j < k + 1 && tilemap.spec_get(cells[j]) == Some(tile));
    }
    if tilemap.spec_get(cells[k]) == Some(tile) {
        assert(0 <= k < k + 1 && tilemap.spec_get(cells[k]) == Some(tile));
    }
}

/// One more tile adds to a player's territory what lies within its reach, if
/// the player owns it, and nothing if not.
proof fn lemma_territory_step(
    tilemap: TilemapEntities,
    tiles: Seq<(Position, Owner)>,
    player: EntityRef,
    tile: EntityRef,
    t: int,
    cells: Seq<Position>,
)
    requires
        0 <= t < tiles.len(),
        tiles[t].1.0 == player ==> forall|cell: Position|
            cells.contains(cell) <==> cell@.distance_to(tiles[t].0@) <= Territory::RANGE,
    ensures
        in_territory(tilemap, tiles, player, tile, t + 1) <==> in_territory(
            tilemap,
            tiles,
            player,
            tile,
            t,
        ) || (tiles[t].1.0 == player && reached_by(tilemap, cells, tile, cells.len() as int)),
{
    if in_territory(tilemap, tiles, player, tile, t + 1) {
        let (u, cell) = choose|u: int, cell: Position|
            0 <= u < t + 1 && (#[trigger] tiles[u]).1.0 == player && cell@.distance_to(tiles[u].0@)
                <= Territory::RANGE && #[trigger] tilemap.spec_get(cell) == Some(tile);
        if u < t {
            assert(in_territory(tilemap, tiles, player, tile, t));
        } else {
            assert(cells.contains(cell));
            let j = choose|j: int| 0 <= j < cells.len() && cells[j] == cell;
            assert(tilemap.spec_get(cells[j]) == Some(tile));
        }
    }
    if in_territory(tilemap, tiles, player, tile, t) {
        let (u, cell) = choose|u: int, cell: Position|
            0 <= u < t && (#[trigger] tiles[u]).1.0 == player && cell@.distance_to(tiles[u].0@)
                <= Territory::RANGE && #[trigger] tilemap.spec_get(cell) == Some(tile);
        assert(0 <= u < t + 1 && tiles[u].1.0 == player && cell@.distance_to(tiles[u].0@)
            <= Territory::RANGE && tilemap.spec_get(cell) == Some(tile));
    }
    if tiles[t].1.0 == player && reached_by(tilemap, cells, tile, cells.len() as int) {
        let j = choose|j: int|
            0 <= j < cells.len() && #[trigger] tilemap.spec_get(cells[j]) == Some(tile);
        let cell = cells[j];
        assert(cells.contains(cell));
        assert(0 <= t < t + 1 && tiles[t].1.0 == player && cell@.distance_to(tiles[t].0@)
            <= Territory::RANGE && tilemap.spec_get(cell) == Some(tile));
    }
}

/// The systems that the tiles of all kinds share.
pub struct TilesPlugin;

impl TilesPlugin {
    /// The territory of one player: every tile of the map that lies within
    /// reach of a tile that the player owns, each once.
    pub fn territory_of(tilemap: &TilemapEntities, tiles: &Vec<(Position, Owner)>, player: EntityRef) -> (territory:
        Territory)
        requires
            forall|t: int|
                0 <= t < tiles@.len() ==> (#[trigger] tiles@[t]).0.range_fits(
                    Territory::RANGE as u32,
                ),
        ensures
            territory.0@.no_duplicates(),
            forall|tile: EntityRef|
                territory.0@.contains(tile) <==> in_territory(
                    *tilemap,
                    tiles@,
                    player,
                    tile,
                    tiles@.len() as int,
                ),
    {
        let mut updated_territory: Vec<EntityRef> = Vec::new();
        let mut t: usize = 0;
        while t < tiles.len()
            invariant
                t <= tiles.len(),
                forall|t: int|
                    0 <= t < tiles@.len() ==> (#[trigger] tiles@[t]).0.range_fits(
                        Territory::RANGE as u32,
                    ),
                updated_territory@.no_duplicates(),
                forall|tile: EntityRef|
                    updated_territory@.contains(tile) <==> in_territory(
                        *tilemap,
                        tiles@,
                        player,
                        tile,
                        t as int,
                    ),
            decreases tiles.len() - t,
        {
            let position = tiles[t].0;
            let ghost before = updated_territory@;
            if tiles[t].1.0 == player {
                let cells = position.range(Territory::RANGE as u32);
                let mut k: usize = 0;
                while k < cells.len()
                    invariant
                        k <= cells.len(),
                        updated_territory@.no_duplicates(),
                        forall|tile: EntityRef|
                            updated_territory@.contains(tile) <==> before.contains(tile)
                                || reached_by(*tilemap, cells@, tile, k as int),
                    decreases cells.len() - k,
                {
                    let got = tilemap.get(&cells[k]);
                    let ghost previous = updated_territory@;
                    if let Some(tile_entity) = got {
                        if !contains_entity(&updated_territory, tile_entity) {
                            updated_territory.push(tile_entity);
                        }
                    }
                    proof {
                        let now = updated_territory@;
                        assert forall|tile: EntityRef|
                            now.contains(tile) <==> before.contains(tile) || reached_by(
                                *tilemap,
                                cells@,
                                tile,
                                k as int + 1,
                            ) by {
                            lemma_reached_step(*tilemap, cells@, tile, k as int);
                            assert(previous.contains(tile) <==> before.contains(tile)
                                || reached_by(*tilemap, cells@, tile, k as int));
                            if got is Some {
                                crate::lasers::beam::lemma_push_contains(previous, got->0, tile);
                            }
                        }
                    }
                    k += 1;
                }
                proof {
                    assert forall|tile: EntityRef|
                        updated_territory@.contains(tile) <==> in_territory(
                            *tilemap,
                            tiles@,
                            player,
                            tile,
                            t as int + 1,
                        ) by {
                        lemma_territory_step(*tilemap, tiles@, player, tile, t as int, cells@);
                        assert(before.contains(tile) <==> in_territory(
                            *tilemap,
                            tiles@,
                            player,
                            tile,
                            t as int,
                        ));
                        assert(updated_territory@.contains(tile) <==> before.contains(tile)
                            || reached_by(*tilemap, cells@, tile, cells@.len() as int));
                    }
                }
            } else {
                proof {
                    assert forall|tile: EntityRef|
                        updated_territory@.contains(tile) <==> in_territory(
                            *tilemap,
                            tiles@,
                            player,
                            tile,
                            t as int + 1,
                        ) by {
                        lemma_territory_step(
                            *tilemap,
                            tiles@,
                            player,
                            tile,
                            t as int,
                            Seq::empty(),
                        );
                    }
                }
            }
            t += 1;
        }
        Territory(updated_territory)
    }

    /// The territories of the players who own a tile, in the order of the
    /// players. A player without a tile is passed over.
    pub fn update_territories(
        tilemap: &TilemapEntities,
        tiles: &Vec<(Position, Owner)>,
        players: &Vec<EntityRef>,
    ) -> (territories: Vec<(EntityRef, Territory)>)
        requires
            forall|t: int|
                0 <= t < tiles@.len() ==> (#[trigger] tiles@[t]).0.range_fits(
                    Territory::RANGE as u32,
                ),
        ensures
            territories@.len() == spec_landed(players@, tiles@, players@.len() as int).len(),
            forall|i: int|
                0 <= i < territories@.len() ==> {
                    let (player, territory) = #[trigger] territories@[i];
                    &&& player == spec_landed(players@, tiles@, players@.len() as int)[i]
                    &&& territory.0@.no_duplicates()
                    &&& forall|tile: EntityRef|
                        territory.0@.contains(tile) <==> in_territory(
                            *tilemap,
                            tiles@,
                            player,
                            tile,
                            tiles@.len() as int,
                        )
                },
    {
        let mut territories: Vec<(EntityRef, Territory)> = Vec::new();
        let mut p: usize = 0;
        while p < players.len()
            invariant
                p <= players.len(),
                forall|t: int|
                    0 <= t < tiles@.len() ==> (#[trigger] tiles@[t]).0.range_fits(
                        Territory::RANGE as u32,
                    ),
                territories@.len() == spec_landed(players@, tiles@, p as int).len(),
                forall|i: int|
                    0 <= i < territories@.len() ==> {
                        let (player, territory) = #[trigger] territories@[i];
                        &&& player == spec_landed(players@, tiles@, p as int)[i]
                        &&& territory.0@.no_duplicates()
                        &&& forall|tile: EntityRef|
                            territory.0@.contains(tile) <==> in_territory(
                                *tilemap,
                                tiles@,
                                player,
                                tile,
                                tiles@.len() as int,
                            )
                    },
            decreases players.len() - p,
        {
            let player = players[p];
            let mut owns = false;
            let mut t: usize = 0;
            while t < tiles.len() && !owns
                invariant
                    t <= tiles.len(),
                    owns ==> owns_any(tiles@, player, tiles@.len() as int),
                    !owns ==> !owns_any(tiles@, player, t as int),
                decreases tiles.len() - t + if owns { 0int } else { 1int },
            {
                if tiles[t].1.0 == player {
                    owns = true;
                    assert(0 <= t < tiles@.len() && tiles@[t as int].1.0 == player);
                } else {
                    t += 1;
                }
            }
            if owns {
                let territory = TilesPlugin::territory_of(tilemap, tiles, player);
                territories.push((player, territory));
            }
            p += 1;
        }
        territories
    }
}

} // verus!
