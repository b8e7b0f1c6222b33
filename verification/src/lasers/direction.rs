//! The six directions a beam can travel in, and the rotations among them.
//!
//! The board is drawn with North towards growing `y`: a step to the North
//! leads from `(x, y)` to `(x, y + 1)`. The `hexx` crate numbers the six edges
//! of a hexagon from 0 to 5 in clockwise order; on this board edge 0 is
//! Northwest, so that edge 1, the step to `(0, 1)`, is North, and a step to
//! the Northwest leads to `(x + 1, y)`.

use hexx::EdgeDirection;
use vstd::prelude::*;

verus! {

/// One of the six directions in which the edges of a cell face.
#[derive(Clone, Copy, Debug, PartialEq, Eq, Structural, Hash)]
pub enum Direction {
    North,
    South,
    Northeast,
    Southeast,
    Northwest,
    Southwest,
}

/// Calls `hexx::EdgeDirection::const_neg` on the edge with index `edge` and
/// hands back the index of the result. The crate computes the opposite edge
/// as three steps further round the hexagon.
#[verifier::external_body]
fn edge_const_neg(edge: u8) -> (r: u8)
    requires
        edge < 6,
    ensures
        r == (edge + 3) % 6,
{
    EdgeDirection::ALL_DIRECTIONS[edge as usize].const_neg().index()
}

/// Calls `hexx::EdgeDirection::rotate_cw`, which moves the edge index up by
/// `offset` modulo 6.
#[verifier::external_body]
fn edge_rotate_cw(edge: u8, offset: u8) -> (r: u8)
    requires
        edge < 6,
    ensures
        r == (edge + offset % 6) % 6,
{
    EdgeDirection::ALL_DIRECTIONS[edge as usize].rotate_cw(offset).index()
}

/// Calls `hexx::EdgeDirection::rotate_ccw`, which moves the edge index down by
/// `offset` modulo 6.
#[verifier::external_body]
fn edge_rotate_ccw(edge: u8, offset: u8) -> (r: u8)
    requires
        edge < 6,
    ensures
        r == (edge + 6 - offset % 6) % 6,
{
    EdgeDirection::ALL_DIRECTIONS[edge as usize].rotate_ccw(offset).index()
}

impl Default for Direction {
    fn default() -> (direction: Direction)
        ensures
            direction == Direction::North,
    {
        Direction::North
    }
}

impl Direction {
    /// Index of the hexagon edge that faces this direction.
    pub open spec fn edge(self) -> int {
        match self {
            Direction::Northwest => 0,
            Direction::North => 1,
            Direction::Northeast => 2,
            Direction::Southeast => 3,
            Direction::South => 4,
            Direction::Southwest => 5,
        }
    }

    /// The direction that the edge with this index faces; North for an index
    /// that is no edge.
    pub open spec fn of_edge(edge: int) -> Direction {
        if edge == 0 {
            Direction::Northwest
        } else if edge == 2 {
            Direction::Northeast
        } else if edge == 3 {
            Direction::Southeast
        } else if edge == 4 {
            Direction::South
        } else if edge == 5 {
            Direction::Southwest
        } else {
            Direction::North
        }
    }

    /// The direction `steps` places further clockwise; a negative `steps`
    /// turns counterclockwise.
    pub open spec fn turned(self, steps: int) -> Direction {
        Direction::of_edge((self.edge() + steps) % 6)
    }

    pub open spec fn spec_opposite(self) -> Direction {
        match self {
            Direction::North => Direction::South,
            Direction::South => Direction::North,
            Direction::Northeast => Direction::Southwest,
            Direction::Southwest => Direction::Northeast,
            Direction::Southeast => Direction::Northwest,
            Direction::Northwest => Direction::Southeast,
        }
    }

    pub open spec fn spec_front_directions(self) -> Seq<Direction> {
        seq![self.turned(1), self, self.turned(-1)]
    }

    pub open spec fn spec_back_directions(self) -> Seq<Direction> {
        seq![self.spec_opposite().turned(1), self.spec_opposite(), self.spec_opposite().turned(-1)]
    }

    /// All six directions, in the order in which the type lists them.
    pub open spec fn spec_all() -> Seq<Direction> {
        seq![
            Direction::North,
            Direction::South,
            Direction::Northeast,
            Direction::Southeast,
            Direction::Northwest,
            Direction::Southwest,
        ]
    }

    /// All six directions, in the order in which the type lists them.
    pub fn all() -> (all: Vec<Direction>)
        ensures
            all@ == Direction::spec_all(),
    {
        vec![
            Direction::North,
            Direction::South,
            Direction::Northeast,
            Direction::Southeast,
            Direction::Northwest,
            Direction::Southwest,
        ]
    }

    /// The index that `hexx` gives the edge facing this direction.
    pub fn as_hex(&self) -> (edge: u8)
        ensures
            edge == self.edge(),
            edge < 6,
    {
        match self {
            Direction::Northwest => 0,
            Direction::North => 1,
            Direction::Northeast => 2,
            Direction::Southeast => 3,
            Direction::South => 4,
            Direction::Southwest => 5,
        }
    }

    /// The direction of the edge that `hexx` numbers `edge`.
    pub fn from_hex(edge: u8) -> (direction: Direction)
        requires
            edge < 6,
        ensures
            direction == Direction::of_edge(edge as int),
            direction.edge() == edge,
    {
        if edge == 0 {
            Direction::Northwest
        } else if edge == 1 {
            Direction::North
        } else if edge == 2 {
            Direction::Northeast
        } else if edge == 3 {
            Direction::Southeast
        } else if edge == 4 {
            Direction::South
        } else {
            Direction::Southwest
        }
    }

    pub fn opposite(&self) -> (r: Direction)
        ensures
            r == self.spec_opposite(),
            r == self.turned(3),
    {
        Direction::from_hex(edge_const_neg(self.as_hex()))
    }

    pub fn counterclockwise(&self, offset: u8) -> (r: Direction)
        ensures
            r == self.turned(-(offset as int)),
    {
        Direction::from_hex(edge_rotate_ccw(self.as_hex(), offset))
    }

    pub fn clockwise(&self, offset: u8) -> (r: Direction)
        ensures
            r == self.turned(offset as int),
    {
        Direction::from_hex(edge_rotate_cw(self.as_hex(), offset))
    }

    /// The number of clockwise steps that lead from `start` to `self`.
    pub fn steps_between(&self, start: Direction) -> (steps: u8)
        ensures
            steps < 6,
            steps == (self.edge() - start.edge()) % 6,
            start.turned(steps as int) == *self,
    {
        (self.as_hex() + 6 - start.as_hex()) % 6
    }

    pub fn front_directions(&self) -> (front: [Direction; 3])
        ensures
            front@ == self.spec_front_directions(),
    {
        [self.clockwise(1), *self, self.counterclockwise(1)]
    }

    pub fn back_directions(&self) -> (back: [Direction; 3])
        ensures
            back@ == self.spec_back_directions(),
    {
        let opposite_direction = self.opposite();
        [
            opposite_direction.clockwise(1),
            opposite_direction,
            opposite_direction.counterclockwise(1),
        ]
    }
}

} // verus!
