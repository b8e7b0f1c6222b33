//! Cells of the hex board, in axial coordinates.
//!
//! `HexCoordinate` is the mathematical cell, over unbounded integers, in which
//! the contracts are stated. `Position` is the cell as the game stores it.
//! Steps and distances are computed by the `hexx` crate.

use crate::lasers::direction::Direction;
use hexx::{EdgeDirection, Hex};
use vstd::prelude::*;

verus! {

/// A cell of the board as a pair of integers.
pub ghost struct HexCoordinate {
    pub x: int,
    pub y: int,
}

/// The absolute value.
pub open spec fn abs(v: int) -> int {
    if v < 0 {
        -v
    } else {
        v
    }
}

/// The number of steps between the origin and the cell `(x, y)`.
pub open spec fn hex_length(x: int, y: int) -> int {
    let (a, b, c) = (abs(x), abs(y), abs(x + y));
    if a >= b && a >= c {
        a
    } else if b >= c {
        b
    } else {
        c
    }
}

/// The widest range of cells that can be listed.
pub const MAX_RANGE: u32 = 0x7fff;

/// The step that `hexx` takes across the edge with index `edge`, as its table
/// `Hex::NEIGHBORS_COORDS` lists it.
pub open spec fn edge_step(edge: int) -> HexCoordinate {
    if edge == 0 {
        HexCoordinate { x: 1, y: 0 }
    } else if edge == 1 {
        HexCoordinate { x: 0, y: 1 }
    } else if edge == 2 {
        HexCoordinate { x: -1, y: 1 }
    } else if edge == 3 {
        HexCoordinate { x: -1, y: 0 }
    } else if edge == 4 {
        HexCoordinate { x: 0, y: -1 }
    } else {
        HexCoordinate { x: 1, y: -1 }
    }
}

impl HexCoordinate {
    pub open spec fn origin() -> HexCoordinate {
        HexCoordinate { x: 0, y: 0 }
    }

    /// Distance to the origin.
    pub open spec fn length(self) -> int {
        hex_length(self.x, self.y)
    }

    pub open spec fn distance_to(self, other: HexCoordinate) -> int {
        hex_length(self.x - other.x, self.y - other.y)
    }

    /// The adjacent cell in the given direction.
    pub open spec fn neighbor(self, direction: Direction) -> HexCoordinate {
        HexCoordinate {
            x: self.x + edge_step(direction.edge()).x,
            y: self.y + edge_step(direction.edge()).y,
        }
    }

    /// Whether both coordinates can be stored.
    pub open spec fn representable(self) -> bool {
        i32::MIN <= self.x <= i32::MAX && i32::MIN <= self.y <= i32::MAX
    }
}

/// Calls `hexx::Hex::neighbor`, which adds to the cell the entry of
/// `Hex::NEIGHBORS_COORDS` for the edge, with `i32` additions. Sums that
/// leave `i32` are left out.
#[verifier::external_body]
fn hex_neighbor(x: i32, y: i32, edge: u8) -> (r: (i32, i32))
    requires
        edge < 6,
        i32::MIN <= x + edge_step(edge as int).x <= i32::MAX,
        i32::MIN <= y + edge_step(edge as int).y <= i32::MAX,
    ensures
        r.0 == x + edge_step(edge as int).x,
        r.1 == y + edge_step(edge as int).y,
{
    let hex = Hex::new(x, y).neighbor(EdgeDirection::ALL_DIRECTIONS[edge as usize]);
    (hex.x, hex.y)
}

/// Calls `hexx::Hex::unsigned_distance_to`, which subtracts the two cells in
/// `i32`, forms the third cubic coordinate `-x - y` of the difference in
/// `i32`, and returns the largest absolute value of the three. Differences
/// that leave `i32` at either step are left out.
#[verifier::external_body]
fn hex_unsigned_distance(ax: i32, ay: i32, bx: i32, by: i32) -> (r: u32)
    requires
        i32::MIN < ax - bx <= i32::MAX,
        i32::MIN <= ay - by <= i32::MAX,
        i32::MIN <= -(ax - bx) - (ay - by) <= i32::MAX,
    ensures
        r == hex_length(ax - bx, ay - by),
{
    Hex::new(ax, ay).unsigned_distance_to(Hex::new(bx, by))
}

/// Calls `hexx::Hex::range` and collects the cells that it yields. The crate
/// walks the columns from `range` to the left of the cell to `range` to its
/// right and, in each column, the rows that lie no further than `range` from
/// the cell, and adds each offset to the cell in `i32`: it yields every cell
/// within `range` steps once, and no other. It counts the cells beforehand
/// in `u32`, as `3 * range * (range + 1) + 1`. Ranges whose count leaves
/// `u32` and cells whose surroundings leave `i32` are left out.
#[verifier::external_body]
fn hex_range(x: i32, y: i32, range: u32) -> (cells: Vec<(i32, i32)>)
    requires
        range <= MAX_RANGE,
        i32::MIN <= x - range,
        x + range <= i32::MAX,
        i32::MIN <= y - range,
        y + range <= i32::MAX,
    ensures
        cells@.no_duplicates(),
        forall|cx: i32, cy: i32|
            cells@.contains((cx, cy)) <==> hex_length(cx - x, cy - y) <= range,
{
    Hex::new(x, y).range(range).map(|hex| (hex.x, hex.y)).collect()
}

/// A cell of the board as the game stores it.
#[derive(Clone, Copy, Debug, PartialEq, Eq, Structural, Hash)]
pub struct Position {
    pub x: i32,
    pub y: i32,
}

impl View for Position {
    type V = HexCoordinate;

    open spec fn view(&self) -> HexCoordinate {
        HexCoordinate { x: self.x as int, y: self.y as int }
    }
}

impl Default for Position {
    fn default() -> (position: Position)
        ensures
            position@ == HexCoordinate::origin(),
    {
        Position { x: 0, y: 0 }
    }
}

impl Position {
    pub fn new(x: i32, y: i32) -> (position: Position)
        ensures
            position.x == x,
            position.y == y,
    {
        Position { x, y }
    }

    /// Whether `hexx` can compute the distance between the two cells without
    /// leaving `i32`.
    pub open spec fn distance_fits(self, other: Position) -> bool {
        &&& i32::MIN < self.x - other.x <= i32::MAX
        &&& i32::MIN <= self.y - other.y <= i32::MAX
        &&& i32::MIN <= -(self.x - other.x) - (self.y - other.y) <= i32::MAX
    }

    /// Whether the adjacent cell in the direction can be stored.
    pub fn has_neighbor(&self, direction: Direction) -> (has: bool)
        ensures
            has == self@.neighbor(direction).representable(),
    {
        let (step_x, step_y): (i64, i64) = match direction {
            Direction::Northwest => (1, 0),
            Direction::North => (0, 1),
            Direction::Northeast => (-1, 1),
            Direction::Southeast => (-1, 0),
            Direction::South => (0, -1),
            Direction::Southwest => (1, -1),
        };
        let x = self.x as i64 + step_x;
        let y = self.y as i64 + step_y;
        i32::MIN as i64 <= x && x <= i32::MAX as i64 && i32::MIN as i64 <= y && y <= i32::MAX as i64
    }

    /// Whether the distance to the other cell can be computed.
    pub fn can_measure(&self, other: Position) -> (fits: bool)
        ensures
            fits == self.distance_fits(other),
    {
        let x = self.x as i64 - other.x as i64;
        let y = self.y as i64 - other.y as i64;
        let z = -x - y;
        (i32::MIN as i64) < x && x <= i32::MAX as i64 && i32::MIN as i64 <= y && y
            <= i32::MAX as i64 && i32::MIN as i64 <= z && z <= i32::MAX as i64
    }

    /// Whether the cells within `range` steps can be listed.
    pub fn can_range(&self, range: u32) -> (fits: bool)
        ensures
            fits == self.range_fits(range),
    {
        let reach = range as i64;
        range <= MAX_RANGE && i32::MIN as i64 <= self.x as i64 - reach && self.x as i64 + reach
            <= i32::MAX as i64 && i32::MIN as i64 <= self.y as i64 - reach && self.y as i64 + reach
            <= i32::MAX as i64
    }

    pub fn neighbor(&self, direction: Direction) -> (next: Position)
        requires
            self@.neighbor(direction).representable(),
        ensures
            next@ == self@.neighbor(direction),
    {
        let (x, y) = hex_neighbor(self.x, self.y, direction.as_hex());
        Position { x, y }
    }

    /// Whether `hexx` can list the cells within `range` steps of this one
    /// without leaving `i32`.
    pub open spec fn range_fits(self, range: u32) -> bool {
        &&& range <= MAX_RANGE
        &&& i32::MIN <= self.x - range
        &&& self.x + range <= i32::MAX
        &&& i32::MIN <= self.y - range
        &&& self.y + range <= i32::MAX
    }

    /// The cells within `range` steps of this one, each once.
    pub fn range(&self, range: u32) -> (cells: Vec<Position>)
        requires
            self.range_fits(range),
        ensures
            cells@.no_duplicates(),
            forall|cell: Position|
                cells@.contains(cell) <==> cell@.distance_to(self@) <= range,
    {
        let pairs = hex_range(self.x, self.y, range);
        let mut cells: Vec<Position> = Vec::new();
        let mut i: usize = 0;
        while i < pairs.len()
            invariant
                i <= pairs.len(),
                cells@.len() == i,
                forall|j: int|
                    0 <= j < i ==> (#[trigger] cells@[j]).x == pairs@[j].0 && cells@[j].y
                        == pairs@[j].1,
            decreases pairs.len() - i,
        {
            cells.push(Position { x: pairs[i].0, y: pairs[i].1 });
            i += 1;
        }
        proof {
            assert forall|cell: Position|
                cells@.contains(cell) <==> cell@.distance_to(self@) <= range by {
                if cells@.contains(cell) {
                    let j = choose|j: int| 0 <= j < cells@.len() && cells@[j] == cell;
                    assert(pairs@[j] == (cell.x, cell.y));
                    assert(pairs@.contains((cell.x, cell.y)));
                }
                if cell@.distance_to(self@) <= range {
                    assert(pairs@.contains((cell.x, cell.y)));
                    let j = choose|j: int| 0 <= j < pairs@.len() && pairs@[j] == (cell.x, cell.y);
                    assert(cells@[j] == cell);
                }
            }
            assert forall|a: int, b: int|
                0 <= a < cells@.len() && 0 <= b < cells@.len() && a != b implies cells@[a]
                != cells@[b] by {
                assert(pairs@[a] != pairs@[b]);
            }
        }
        cells
    }

    pub fn unsigned_distance_to(&self, other: Position) -> (distance: u32)
        requires
            self.distance_fits(other),
        ensures
            distance == self@.distance_to(other@),
    {
        hex_unsigned_distance(self.x, self.y, other.x, other.y)
    }
}

} // verus!
