//! The map: which tile of the map lies in which cell.

use crate::entity::EntityRef;
use crate::lasers::direction::Direction;
use crate::lasers::position::Position;
use vstd::prelude::*;

verus! {

/// A tile of the map, named by its cell.
#[derive(Clone, Copy, Debug, PartialEq, Eq, Structural, Hash)]
pub struct Tile(pub Position);

impl Tile {
    pub fn new(x: i32, y: i32) -> (tile: Tile)
        ensures
            tile.0.x == x,
            tile.0.y == y,
    {
        Tile(Position { x, y })
    }

    pub fn position(&self) -> (position: Position)
        ensures
            position == self.0,
    {
        self.0
    }
}

/// Marks the map among the things of the world.
#[derive(Clone, Copy, Debug, PartialEq, Eq, Structural)]
pub struct Tilemap;

/// Marks a tile of the map on which nothing stands.
#[derive(Clone, Copy, Debug, PartialEq, Eq, Structural)]
pub struct EmptyTile;

/// The cursor that is drawn on a map.
#[derive(Clone, Copy, Debug, PartialEq, Eq, Structural)]
pub struct TilemapCursor(pub EntityRef);

/// The direction in which the pointer lies from the middle of a tile.
#[derive(Clone, Copy, Debug, PartialEq, Eq, Structural)]
pub struct CursorDirection(pub Direction);

/// The tile of the map under the pointer, and the map it belongs to.
#[derive(Clone, Copy, Debug, PartialEq, Eq, Structural)]
pub struct TargetedTile {
    pub tile: EntityRef,
    pub tilemap: EntityRef,
}

/// The tiles of a map by their cells. Where a cell is listed more than once,
/// the first entry counts.
#[derive(Clone, Debug)]
pub struct TilemapEntities {
    pub tiles: Vec<(Position, EntityRef)>,
}

/// The tile of the map in the cell, among the first `n` entries.
pub open spec fn spec_tile_at(tiles: Seq<(Position, EntityRef)>, hex: Position, n: int) -> Option<
    EntityRef,
>
    decreases n,
{
    if n <= 0 {
        None
    } else {
        match spec_tile_at(tiles, hex, n - 1) {
            Some(entity) => Some(entity),
            None => if tiles[n - 1].0 == hex {
                Some(tiles[n - 1].1)
            } else {
                None
            },
        }
    }
}

impl TilemapEntities {
    /// The tile of the map in the cell.
    pub open spec fn spec_get(&self, hex: Position) -> Option<EntityRef> {
        spec_tile_at(self.tiles@, hex, self.tiles@.len() as int)
    }

    /// Whether no cell is listed twice, as in every map that was made empty
    /// and filled by `insert`.
    pub open spec fn wf(&self) -> bool {
        forall|i: int, j: int|
            0 <= i < j < self.tiles@.len() ==> (#[trigger] self.tiles@[i]).0 != (
            #[trigger] self.tiles@[j]).0
    }

    /// A map without tiles.
    pub fn new() -> (tilemap: TilemapEntities)
        ensures
            tilemap.tiles@.len() == 0,
            tilemap.wf(),
    {
        TilemapEntities { tiles: Vec::new() }
    }

    /// The tile of the map in the cell.
    pub fn get(&self, hex: &Position) -> (tile: Option<EntityRef>)
        ensures
            tile == self.spec_get(*hex),
    {
        let mut i: usize = 0;
        while i < self.tiles.len()
            invariant
                i <= self.tiles.len(),
                spec_tile_at(self.tiles@, *hex, i as int) is None,
            decreases self.tiles.len() - i,
        {
            if self.tiles[i].0 == *hex {
                proof {
                    lemma_tile_at_stays(self.tiles@, *hex, i as int + 1, self.tiles@.len() as int);
                }
                return Some(self.tiles[i].1);
            }
            i += 1;
        }
        None
    }

    /// Puts the tile in the cell, unless the cell has a tile already.
    pub fn insert(&mut self, hex: Position, tile: EntityRef) -> (inserted: bool)
        ensures
            inserted == (old(self).spec_get(hex) is None),
            final(self).tiles@ == if inserted {
                old(self).tiles@.push((hex, tile))
            } else {
                old(self).tiles@
            },
            old(self).wf() ==> final(self).wf(),
    {
        if self.get(&hex).is_some() {
            false
        } else {
            proof {
                lemma_tile_at_none(self.tiles@, hex, self.tiles@.len() as int);
            }
            self.tiles.push((hex, tile));
            true
        }
    }
}

/// Where no tile is found for a cell, no entry lists the cell.
pub proof fn lemma_tile_at_none(tiles: Seq<(Position, EntityRef)>, hex: Position, n: int)
    requires
        0 <= n <= tiles.len(),
        spec_tile_at(tiles, hex, n) is None,
    ensures
        forall|i: int| 0 <= i < n ==> (#[trigger] tiles[i]).0 != hex,
    decreases n,
{
    if n > 0 {
        lemma_tile_at_none(tiles, hex, n - 1);
    }
}

/// Later entries do not change what an earlier one has settled.
pub proof fn lemma_tile_at_stays(tiles: Seq<(Position, EntityRef)>, hex: Position, i: int, n: int)
    requires
        0 <= i <= n <= tiles.len(),
        spec_tile_at(tiles, hex, i) is Some,
    ensures
        spec_tile_at(tiles, hex, n) == spec_tile_at(tiles, hex, i),
    decreases n,
{
    if n > i {
        lemma_tile_at_stays(tiles, hex, i, n - 1);
    }
}

/// The label under which the systems of the map run.
#[derive(Clone, Copy, Debug, PartialEq, Eq, Structural, Hash)]
pub struct TilemapSystems;

/// The systems of the map.
pub struct TilemapPlugin;

impl TilemapPlugin {
    /// Which tile is targeted once the pointer is over the cell `coord` of
    /// the map: the tile of the map in that cell, and none if the cell holds
    /// no tile.
    pub fn handle_cursor_position(tilemap: EntityRef, tiles: &TilemapEntities, coord: Position) -> (targeted:
        Option<TargetedTile>)
        ensures
            targeted == match tiles.spec_get(coord) {
                Some(tile) => Some(TargetedTile { tile, tilemap }),
                None => None,
            },
    {
        match tiles.get(&coord) {
            Some(tile) => Some(TargetedTile { tile, tilemap }),
            None => None,
        }
    }
}

} // verus!
