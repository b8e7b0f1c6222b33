//! The choices made when a map is laid out: where the headquarters may
//! stand, and which obstacles give way to them.

use crate::entity::EntityRef;
use crate::game_loop::MapSize;
use crate::hq::HQTile;
use crate::lasers::position::Position;
use crate::mountain::MountainTile;
use crate::resource_deposit::ResourceDepositTile;
use crate::tilemap::{spec_tile_at, Tile, TilemapEntities};
use crate::tiles::{Tile as TileKind, TileId, TileSpawnEvent};
use vstd::prelude::*;

verus! {

/// The label under which the systems of the generator run.
#[derive(Clone, Copy, Debug, PartialEq, Eq, Structural, Hash)]
pub struct MapGeneratorSystems;

/// The systems of the generator.
pub struct MapGeneratorPlugin;

/// The tiles of the map on which an obstacle is to stand.
#[derive(Clone, Debug)]
pub struct ObstacleMap(pub Vec<Tile>);

/// Whether `hexx` can compute the distance between any two of the cells.
pub open spec fn distances_fit(cells: Seq<Position>) -> bool {
    forall|i: int, j: int|
        0 <= i < cells.len() && 0 <= j < cells.len() ==> (#[trigger] cells[i]).distance_fits(
            #[trigger] cells[j],
        )
}

/// Whether `distance` is the smallest distance between two of the cells, or
/// `u32::MAX` where there are fewer than two.
pub open spec fn is_minimum_distance(cells: Seq<Position>, distance: u32) -> bool {
    &&& forall|i: int, j: int|
        0 <= i < j < cells.len() ==> distance <= (#[trigger] cells[i])@.distance_to(
            (#[trigger] cells[j])@,
        )
    &&& if cells.len() < 2 {
        distance == u32::MAX
    } else {
        exists|i: int, j: int|
            0 <= i < j < cells.len() && distance == (#[trigger] cells[i])@.distance_to(
                (#[trigger] cells[j])@,
            )
    }
}

/// Whether the obstacle lies fewer than `HQ_CLEARANCE` steps from one of the
/// first `n` headquarters.
pub open spec fn spec_too_close(obstacle: Tile, hq_positions: Seq<Position>, n: int) -> bool {
    exists|i: int|
        0 <= i < n && (#[trigger] hq_positions[i])@.distance_to(obstacle.0@)
            < MapGeneratorPlugin::HQ_CLEARANCE
}

/// The obstacles among the first `n` that are not too close to any
/// headquarters, in their order.
pub open spec fn spec_cleared(obstacles: Seq<Tile>, hq_positions: Seq<Position>, n: int) -> Seq<Tile>
    decreases n,
{
    if n <= 0 {
        Seq::empty()
    } else if spec_too_close(obstacles[n - 1], hq_positions, hq_positions.len() as int) {
        spec_cleared(obstacles, hq_positions, n - 1)
    } else {
        spec_cleared(obstacles, hq_positions, n - 1).push(obstacles[n - 1])
    }
}

/// The requests for the headquarters of the first `n` players, each on the
/// cell with the player's place in the list. The row ends at the first cell
/// that holds no tile of the map, and where either list ends.
pub open spec fn spec_hq_spawns(
    players: Seq<EntityRef>,
    hq_positions: Seq<Position>,
    tiles: Seq<(Position, EntityRef)>,
    game: EntityRef,
    n: int,
) -> Option<Seq<TileSpawnEvent>>
    decreases n,
{
    if n <= 0 {
        Some(Seq::empty())
    } else {
        match spec_hq_spawns(players, hq_positions, tiles, game, n - 1) {
            Some(before) => match spec_tile_at(tiles, hq_positions[n - 1], tiles.len() as int) {
                Some(on_tile) => Some(
                    before.push(
                        TileSpawnEvent {
                            tile_id: HQTile::spec_id(),
                            on_tile,
                            owner: players[n - 1],
                            game,
                        },
                    ),
                ),
                None => None,
            },
            None => None,
        }
    }
}

impl MapGeneratorPlugin {
    /// No obstacle stands fewer than this many steps from a headquarters.
    pub const HQ_CLEARANCE: u32 = 6;

    /// The smallest distance between two of the cells.
    pub fn minimum_distance(candidate_spawns: &Vec<Position>) -> (distance: u32)
        requires
            distances_fit(candidate_spawns@),
        ensures
            is_minimum_distance(candidate_spawns@, distance),
    {
        let mut minimum_distance: u32 = u32::MAX;
        let ghost mut best: (int, int) = (0, 0);
        let mut i: usize = 0;
        while i < candidate_spawns.len()
            invariant
                i <= candidate_spawns.len(),
                distances_fit(candidate_spawns@),
                forall|a: int, b: int|
                    0 <= a < i && a < b < candidate_spawns@.len() ==> minimum_distance <= (
                    #[trigger] candidate_spawns@[a])@.distance_to(
                        (#[trigger] candidate_spawns@[b])@,
                    ),
                minimum_distance == u32::MAX || (0 <= best.0 < best.1 < candidate_spawns@.len()
                    && minimum_distance == candidate_spawns@[best.0]@.distance_to(
                    candidate_spawns@[best.1]@,
                )),
                i >= 1 && candidate_spawns@.len() >= 2 ==> minimum_distance != u32::MAX,
            decreases candidate_spawns.len() - i,
        {
            let mut j: usize = i + 1;
            while j < candidate_spawns.len()
                invariant
                    i < candidate_spawns.len(),
                    i < j <= candidate_spawns.len(),
                    distances_fit(candidate_spawns@),
                    forall|a: int, b: int|
                        0 <= a < i && a < b < candidate_spawns@.len() ==> minimum_distance <= (
                        #[trigger] candidate_spawns@[a])@.distance_to(
                            (#[trigger] candidate_spawns@[b])@,
                        ),
                    forall|b: int|
                        i < b < j ==> minimum_distance <= candidate_spawns@[i as int]@.distance_to(
                            (#[trigger] candidate_spawns@[b])@,
                        ),
                    minimum_distance == u32::MAX || (0 <= best.0 < best.1
                        < candidate_spawns@.len() && minimum_distance
                        == candidate_spawns@[best.0]@.distance_to(candidate_spawns@[best.1]@)),
                    (i >= 1 || j > i + 1) && candidate_spawns@.len() >= 2 ==> minimum_distance
                        != u32::MAX,
                decreases candidate_spawns.len() - j,
            {
                assert(candidate_spawns@[i as int].distance_fits(candidate_spawns@[j as int]));
                let pair_distance = candidate_spawns[i].unsigned_distance_to(candidate_spawns[j]);
                if pair_distance < minimum_distance {
                    minimum_distance = pair_distance;
                    proof {
                        best = (i as int, j as int);
                    }
                }
                j += 1;
            }
            i += 1;
        }
        proof {
            if candidate_spawns@.len() >= 2 {
                assert(0 <= best.0 < best.1 < candidate_spawns@.len() && minimum_distance
                    == candidate_spawns@[best.0]@.distance_to(candidate_spawns@[best.1]@));
            }
        }
        minimum_distance
    }

    /// Whether the cells lie far enough from each other for headquarters:
    /// the smallest distance between two of them is at least the larger half
    /// extent of the map.
    pub fn spawns_accepted(candidate_spawns: &Vec<Position>, size: &MapSize) -> (accepted: bool)
        requires
            distances_fit(candidate_spawns@),
        ensures
            exists|distance: u32| #[trigger]
                is_minimum_distance(candidate_spawns@, distance) && accepted == (distance
                    >= size.half_width && distance >= size.half_height),
    {
        let minimum_distance = MapGeneratorPlugin::minimum_distance(candidate_spawns);
        let extent = if size.half_width >= size.half_height {
            size.half_width
        } else {
            size.half_height
        };
        minimum_distance as u128 >= extent as u128
    }

    /// Asks for the headquarters of the players, one on each of the cells,
    /// in the order of the lists. As soon as a cell holds no tile of the map
    /// nothing further is asked for. The flag tells whether every player was
    /// served.
    pub fn spawn_hq(
        players: &Vec<EntityRef>,
        hq_positions: &Vec<Position>,
        tilemap: &TilemapEntities,
        game: EntityRef,
    ) -> (spawned: (Vec<TileSpawnEvent>, bool))
        ensures
            ({
                let count = if players@.len() <= hq_positions@.len() {
                    players@.len() as int
                } else {
                    hq_positions@.len() as int
                };
                let served = spawned.0@.len() as int;
                &&& served <= count
                &&& spawned.1 == (served == count)
                &&& spec_hq_spawns(players@, hq_positions@, tilemap.tiles@, game, served) == Some(
                    spawned.0@,
                )
                &&& served < count ==> spec_hq_spawns(
                    players@,
                    hq_positions@,
                    tilemap.tiles@,
                    game,
                    served + 1,
                ) is None
            }),
    {
        let mut tile_spawns: Vec<TileSpawnEvent> = Vec::new();
        let count = if players.len() <= hq_positions.len() {
            players.len()
        } else {
            hq_positions.len()
        };
        let mut n: usize = 0;
        while n < count
            invariant
                n <= count,
                count <= players.len(),
                count <= hq_positions.len(),
                tile_spawns@.len() == n,
                spec_hq_spawns(players@, hq_positions@, tilemap.tiles@, game, n as int) == Some(
                    tile_spawns@,
                ),
            decreases count - n,
        {
            let Some(on_tile) = tilemap.get(&hq_positions[n]) else {
                assert(spec_hq_spawns(
                    players@,
                    hq_positions@,
                    tilemap.tiles@,
                    game,
                    n as int + 1,
                ) is None);
                return (tile_spawns, false);
            };
            tile_spawns.push(
                TileSpawnEvent { tile_id: HQTile::id(), on_tile, owner: players[n], game },
            );
            n += 1;
        }
        (tile_spawns, true)
    }

    /// Takes away the obstacles that lie too close to a headquarters.
    pub fn clear_obstacles(obstacle_map: &mut ObstacleMap, hq_positions: &Vec<Position>)
        requires
            forall|i: int, j: int|
                0 <= i < hq_positions@.len() && 0 <= j < old(obstacle_map).0@.len() ==> (
                #[trigger] hq_positions@[i]).distance_fits((#[trigger] old(obstacle_map).0@[j]).0),
        ensures
            final(obstacle_map).0@ == spec_cleared(
                old(obstacle_map).0@,
                hq_positions@,
                old(obstacle_map).0@.len() as int,
            ),
    {
        let mut kept: Vec<Tile> = Vec::new();
        let mut k: usize = 0;
        while k < obstacle_map.0.len()
            invariant
                k <= obstacle_map.0.len(),
                obstacle_map.0@ == old(obstacle_map).0@,
                forall|i: int, j: int|
                    0 <= i < hq_positions@.len() && 0 <= j < obstacle_map.0@.len() ==> (
                    #[trigger] hq_positions@[i]).distance_fits((#[trigger] obstacle_map.0@[j]).0),
                kept@ == spec_cleared(obstacle_map.0@, hq_positions@, k as int),
            decreases obstacle_map.0.len() - k,
        {
            let obstacle = obstacle_map.0[k];
            let mut too_close = false;
            let mut i: usize = 0;
            while i < hq_positions.len() && !too_close
                invariant
                    i <= hq_positions.len(),
                    k < obstacle_map.0@.len(),
                    obstacle == obstacle_map.0@[k as int],
                    forall|i: int, j: int|
                        0 <= i < hq_positions@.len() && 0 <= j < obstacle_map.0@.len() ==> (
                        #[trigger] hq_positions@[i]).distance_fits(
                            (#[trigger] obstacle_map.0@[j]).0,
                        ),
                    too_close ==> spec_too_close(obstacle, hq_positions@, hq_positions@.len() as int),
                    !too_close ==> !spec_too_close(obstacle, hq_positions@, i as int),
                decreases hq_positions.len() - i + if too_close { 0int } else { 1int },
            {
                assert(hq_positions@[i as int].distance_fits(obstacle_map.0@[k as int].0));
                if hq_positions[i].unsigned_distance_to(obstacle.0)
                    < MapGeneratorPlugin::HQ_CLEARANCE {
                    too_close = true;
                } else {
                    i += 1;
                }
            }
            if !too_close {
                kept.push(obstacle);
            }
            k += 1;
        }
        obstacle_map.0 = kept;
    }

    /// The kind of tile that stands on an obstacle: a mountain where the
    /// draw for the obstacle came out above a quarter, a deposit where not.
    pub fn terrain_kind(above_quarter: bool) -> (kind: TileId)
        ensures
            kind == if above_quarter {
                MountainTile::spec_id()
            } else {
                ResourceDepositTile::spec_id()
            },
    {
        if above_quarter {
            MountainTile::id()
        } else {
            ResourceDepositTile::id()
        }
    }
}

} // verus!
