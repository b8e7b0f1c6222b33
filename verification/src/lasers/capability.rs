//! What a tile can do to a beam that enters its cell: turn it, strengthen it,
//! or take it in.

use crate::entity::EntityRef;
use crate::lasers::direction::Direction;
use crate::lasers::position::Position;
use vstd::prelude::*;

verus! {

/// Sends a beam that enters through the back of the tile out through the
/// back, straight away from where the tile is facing.
#[derive(Clone, Copy, Debug, PartialEq, Eq, Structural)]
pub struct Refraction {
    pub facing: Direction,
}

impl Refraction {
    pub open spec fn spec_refract(self, incoming: Direction) -> Option<Direction> {
        if self.facing.spec_back_directions().contains(incoming) {
            Some(self.facing.spec_opposite())
        } else {
            None
        }
    }

    pub fn new(facing: Direction) -> (refraction: Refraction)
        ensures
            refraction.facing == facing,
    {
        Refraction { facing }
    }

    /// The new direction of a beam travelling in one of the back directions of
    /// `facing`; `None`, for no change, in any other.
    pub fn refract(&self, incoming: Direction) -> (outgoing: Option<Direction>)
        ensures
            outgoing == self.spec_refract(incoming),
            outgoing is Some <==> self.facing.spec_back_directions().contains(incoming),
            outgoing is Some ==> outgoing == Some(self.facing.spec_opposite()),
    {
        let back = self.facing.back_directions();
        assert(back@ == self.facing.spec_back_directions());
        if back[0] == incoming || back[1] == incoming || back[2] == incoming {
            Some(self.facing.opposite())
        } else {
            None
        }
    }
}

/// A mirror across the tile, at right angles to `facing`.
#[derive(Clone, Copy, Debug, PartialEq, Eq, Structural)]
pub struct Reflection {
    pub facing: Direction,
}

impl Reflection {
    /// A beam that arrives `k` steps clockwise of `facing` leaves `k` steps
    /// counterclockwise of the opposite of `facing`.
    pub open spec fn spec_reflect(self, incoming: Direction) -> Direction {
        self.facing.spec_opposite().turned(self.facing.edge() - incoming.edge())
    }

    pub fn new(facing: Direction) -> (reflection: Reflection)
        ensures
            reflection.facing == facing,
    {
        Reflection { facing }
    }

    pub fn reflect(&self, incoming: Direction) -> (outgoing: Direction)
        ensures
            outgoing == self.spec_reflect(incoming),
    {
        let opposite = self.facing.opposite();
        if incoming == opposite.counterclockwise(1) {
            self.facing.clockwise(1)
        } else if incoming == opposite.clockwise(1) {
            self.facing.counterclockwise(1)
        } else if incoming == self.facing.counterclockwise(1) {
            opposite.clockwise(1)
        } else if incoming == self.facing.clockwise(1) {
            opposite.counterclockwise(1)
        } else if incoming == self.facing {
            opposite
        } else {
            self.facing
        }
    }
}

/// A three-armed mirror in the shape of a Y, in one of its two orientations.
#[derive(Clone, Copy, Debug, PartialEq, Eq, Structural)]
pub enum YReflection {
    /// A Y tilted to the left.
    LeftTilt,
    /// A Y tilted to the right.
    RightTilt,
}

impl YReflection {
    pub open spec fn spec_reflect(self, incoming: Direction) -> Direction {
        match (self, incoming) {
            (YReflection::RightTilt, Direction::North) => Direction::Northeast,
            (YReflection::RightTilt, Direction::South) => Direction::Southeast,
            (YReflection::RightTilt, Direction::Northeast) => Direction::North,
            (YReflection::RightTilt, Direction::Southeast) => Direction::South,
            (YReflection::RightTilt, Direction::Northwest) => Direction::Southwest,
            (YReflection::RightTilt, Direction::Southwest) => Direction::Northwest,
            (YReflection::LeftTilt, Direction::North) => Direction::Northwest,
            (YReflection::LeftTilt, Direction::South) => Direction::Southwest,
            (YReflection::LeftTilt, Direction::Northeast) => Direction::Southeast,
            (YReflection::LeftTilt, Direction::Southeast) => Direction::Northeast,
            (YReflection::LeftTilt, Direction::Northwest) => Direction::North,
            (YReflection::LeftTilt, Direction::Southwest) => Direction::South,
        }
    }

    pub fn reflect(&self, incoming: Direction) -> (outgoing: Direction)
        ensures
            outgoing == self.spec_reflect(incoming),
    {
        match (self, incoming) {
            (YReflection::RightTilt, Direction::North) => Direction::Northeast,
            (YReflection::RightTilt, Direction::South) => Direction::Southeast,
            (YReflection::RightTilt, Direction::Northeast) => Direction::North,
            (YReflection::RightTilt, Direction::Southeast) => Direction::South,
            (YReflection::RightTilt, Direction::Northwest) => Direction::Southwest,
            (YReflection::RightTilt, Direction::Southwest) => Direction::Northwest,
            (YReflection::LeftTilt, Direction::North) => Direction::Northwest,
            (YReflection::LeftTilt, Direction::South) => Direction::Southwest,
            (YReflection::LeftTilt, Direction::Northeast) => Direction::Southeast,
            (YReflection::LeftTilt, Direction::Southeast) => Direction::Northeast,
            (YReflection::LeftTilt, Direction::Northwest) => Direction::North,
            (YReflection::LeftTilt, Direction::Southwest) => Direction::South,
        }
    }
}

/// Turns a beam counterclockwise by a number of steps.
#[derive(Clone, Copy, Debug, PartialEq, Eq, Structural)]
pub struct Rotation(pub u8);

impl Rotation {
    pub open spec fn spec_rotate(self, incoming: Direction) -> Direction {
        incoming.turned(-(self.0 as int))
    }

    pub fn new(offset: u8) -> (rotation: Rotation)
        ensures
            rotation.0 == offset,
    {
        Rotation(offset)
    }

    pub fn get(&self) -> (offset: u8)
        ensures
            offset == self.0,
    {
        self.0
    }

    pub fn rotate(&self, incoming: Direction) -> (outgoing: Direction)
        ensures
            outgoing == self.spec_rotate(incoming),
    {
        incoming.counterclockwise(self.get())
    }
}

/// Adds its amount to the strength of every beam that passes.
#[derive(Clone, Copy, Debug, PartialEq, Eq, Structural)]
pub struct Amplification(pub usize);

impl Amplification {
    pub fn new(strength: usize) -> (amplification: Amplification)
        ensures
            amplification.0 == strength,
    {
        Amplification(strength)
    }

    pub fn get(&self) -> (amount: usize)
        ensures
            amount == self.0,
    {
        self.0
    }
}

/// A set of directions.
#[derive(Clone, Copy, Debug, PartialEq, Eq, Structural)]
pub struct DirectionSet {
    pub north: bool,
    pub south: bool,
    pub northeast: bool,
    pub southeast: bool,
    pub northwest: bool,
    pub southwest: bool,
}

impl View for DirectionSet {
    type V = Set<Direction>;

    open spec fn view(&self) -> Set<Direction> {
        Set::new(|direction: Direction| self.spec_contains(direction))
    }
}

impl DirectionSet {
    pub open spec fn spec_contains(self, direction: Direction) -> bool {
        match direction {
            Direction::North => self.north,
            Direction::South => self.south,
            Direction::Northeast => self.northeast,
            Direction::Southeast => self.southeast,
            Direction::Northwest => self.northwest,
            Direction::Southwest => self.southwest,
        }
    }

    /// The set of the directions that occur in the list.
    pub open spec fn spec_from(directions: Seq<Direction>) -> DirectionSet {
        DirectionSet {
            north: directions.contains(Direction::North),
            south: directions.contains(Direction::South),
            northeast: directions.contains(Direction::Northeast),
            southeast: directions.contains(Direction::Southeast),
            northwest: directions.contains(Direction::Northwest),
            southwest: directions.contains(Direction::Southwest),
        }
    }

    pub fn empty() -> (set: DirectionSet)
        ensures
            set@ == Set::<Direction>::empty(),
    {
        let set = DirectionSet {
            north: false,
            south: false,
            northeast: false,
            southeast: false,
            northwest: false,
            southwest: false,
        };
        assert(set@ =~= Set::<Direction>::empty());
        set
    }

    pub fn contains(&self, direction: Direction) -> (found: bool)
        ensures
            found == self@.contains(direction),
    {
        match direction {
            Direction::North => self.north,
            Direction::South => self.south,
            Direction::Northeast => self.northeast,
            Direction::Southeast => self.southeast,
            Direction::Northwest => self.northwest,
            Direction::Southwest => self.southwest,
        }
    }

    pub fn insert(&mut self, direction: Direction)
        ensures
            final(self)@ == old(self)@.insert(direction),
    {
        match direction {
            Direction::North => {
                self.north = true;
            },
            Direction::South => {
                self.south = true;
            },
            Direction::Northeast => {
                self.northeast = true;
            },
            Direction::Southeast => {
                self.southeast = true;
            },
            Direction::Northwest => {
                self.northwest = true;
            },
            Direction::Southwest => {
                self.southwest = true;
            },
        }
        assert(self@ =~= old(self)@.insert(direction));
    }

    /// The set of the directions in the list.
    pub fn from_vec(directions: &Vec<Direction>) -> (set: DirectionSet)
        ensures
            set@ == directions@.to_set(),
            set == DirectionSet::spec_from(directions@),
    {
        let mut set = DirectionSet::empty();
        let mut i: usize = 0;
        while i < directions.len()
            invariant
                i <= directions.len(),
                set@ == directions@.take(i as int).to_set(),
            decreases directions.len() - i,
        {
            set.insert(directions[i]);
            proof {
                let before = directions@.take(i as int);
                let after = directions@.take(i as int + 1);
                assert(after == before.push(directions@[i as int]));
                assert forall|d: Direction| after.contains(d) <==> before.contains(d) || d
                    == directions@[i as int] by {
                    if before.contains(d) {
                        let k = choose|k: int| 0 <= k < before.len() && before[k] == d;
                        assert(after[k] == d);
                    }
                    if d == directions@[i as int] {
                        assert(after[i as int] == d);
                    }
                }
                assert(after.to_set() =~= before.to_set().insert(directions@[i as int]));
            }
            i += 1;
        }
        assert(directions@.take(directions@.len() as int) == directions@);
        proof {
            let from = DirectionSet::spec_from(directions@);
            assert(from@ =~= directions@.to_set());
            lemma_direction_set_by_members(set, from);
        }
        set
    }
}

/// Two sets of directions with the same members are the same set.
pub proof fn lemma_direction_set_by_members(a: DirectionSet, b: DirectionSet)
    requires
        a@ == b@,
    ensures
        a == b,
{
    assert forall|direction: Direction| a.spec_contains(direction) == b.spec_contains(
        direction,
    ) by {
        assert(a@.contains(direction) == a.spec_contains(direction));
        assert(b@.contains(direction) == b.spec_contains(direction));
    }
    assert(a.spec_contains(Direction::North) == b.spec_contains(Direction::North));
    assert(a.spec_contains(Direction::South) == b.spec_contains(Direction::South));
    assert(a.spec_contains(Direction::Northeast) == b.spec_contains(Direction::Northeast));
    assert(a.spec_contains(Direction::Southeast) == b.spec_contains(Direction::Southeast));
    assert(a.spec_contains(Direction::Northwest) == b.spec_contains(Direction::Northwest));
    assert(a.spec_contains(Direction::Southwest) == b.spec_contains(Direction::Southwest));
}

/// Marks `entity` as taking in the beams that travel in one of the listed
/// directions when they enter the cell.
#[derive(Clone, Copy, Debug, PartialEq, Eq, Structural)]
pub struct Consumption {
    pub entity: EntityRef,
    pub vulnerable: DirectionSet,
}

impl Consumption {
    pub open spec fn spec_absorbs(&self, incoming: Direction) -> bool {
        self.vulnerable@.contains(incoming)
    }

    pub fn new(tile: EntityRef, vulnerable: Vec<Direction>) -> (consumption: Consumption)
        ensures
            consumption.entity == tile,
            consumption.vulnerable@ == vulnerable@.to_set(),
            consumption.vulnerable == DirectionSet::spec_from(vulnerable@),
    {
        Consumption { entity: tile, vulnerable: DirectionSet::from_vec(&vulnerable) }
    }

    /// A collider at `position` that does nothing but take beams in for `tile`.
    pub fn bundle(tile: EntityRef, vulnerable: Vec<Direction>, position: Position) -> (collider:
        Collider)
        ensures
            collider == Collider::spec_sink(position, tile, DirectionSet::spec_from(vulnerable@)),
            collider.consumption->0.vulnerable@ == vulnerable@.to_set(),
    {
        Collider {
            position,
            refraction: None,
            reflection: None,
            y_reflection: None,
            rotation: None,
            amplification: None,
            consumption: Some(Consumption::new(tile, vulnerable)),
        }
    }

    /// Whether a beam travelling in direction `incoming` is taken in.
    pub fn absorbs(&self, incoming: Direction) -> (absorbed: bool)
        ensures
            absorbed == self.spec_absorbs(incoming),
    {
        self.vulnerable.contains(incoming)
    }
}

/// What stands in one cell of the board, as the tracer sees it: a position
/// and whichever effects are attached to it.
#[derive(Clone, Copy, Debug, PartialEq, Eq, Structural)]
pub struct Collider {
    pub position: Position,
    pub refraction: Option<Refraction>,
    pub reflection: Option<Reflection>,
    pub y_reflection: Option<YReflection>,
    pub rotation: Option<Rotation>,
    pub amplification: Option<Amplification>,
    pub consumption: Option<Consumption>,
}

impl Collider {
    /// Whether at least one effect is attached. A beam does not notice an
    /// entry without any.
    pub open spec fn spec_carries_capability(&self) -> bool {
        ||| self.refraction is Some
        ||| self.reflection is Some
        ||| self.y_reflection is Some
        ||| self.rotation is Some
        ||| self.amplification is Some
        ||| self.consumption is Some
    }

    /// Whether a beam travelling in direction `incoming` ends here.
    pub open spec fn spec_absorbs(&self, incoming: Direction) -> bool {
        self.consumption matches Some(consumption) && consumption.spec_absorbs(incoming)
    }

    /// The direction in which a beam goes on: refraction first, then
    /// reflection, the Y-shaped mirror and rotation, each applied to what the
    /// one before it left.
    pub open spec fn spec_redirect(&self, incoming: Direction) -> Direction {
        let refracted = match self.refraction {
            Some(refraction) => match refraction.spec_refract(incoming) {
                Some(direction) => direction,
                None => incoming,
            },
            None => incoming,
        };
        let reflected = match self.reflection {
            Some(reflection) => reflection.spec_reflect(refracted),
            None => refracted,
        };
        let y_reflected = match self.y_reflection {
            Some(y_reflection) => y_reflection.spec_reflect(reflected),
            None => reflected,
        };
        match self.rotation {
            Some(rotation) => rotation.spec_rotate(y_reflected),
            None => y_reflected,
        }
    }

    /// What the beam gains in strength by passing.
    pub open spec fn spec_gain(&self) -> nat {
        match self.amplification {
            Some(amplification) => amplification.0 as nat,
            None => 0,
        }
    }

    /// The collider at `position` with no effect attached.
    pub open spec fn spec_at(position: Position) -> Collider {
        Collider {
            position,
            refraction: None,
            reflection: None,
            y_reflection: None,
            rotation: None,
            amplification: None,
            consumption: None,
        }
    }

    /// The collider at `position` that does nothing but take in, for
    /// `entity`, the beams that travel in one of the directions of
    /// `vulnerable`.
    pub open spec fn spec_sink(position: Position, entity: EntityRef, vulnerable: DirectionSet) -> Collider {
        Collider {
            consumption: Some(Consumption { entity, vulnerable }),
            ..Collider::spec_at(position)
        }
    }

    /// A collider at `position` with no effect attached yet.
    pub fn at(position: Position) -> (collider: Collider)
        ensures
            collider == Collider::spec_at(position),
    {
        Collider {
            position,
            refraction: None,
            reflection: None,
            y_reflection: None,
            rotation: None,
            amplification: None,
            consumption: None,
        }
    }

    pub fn carries_capability(&self) -> (carries: bool)
        ensures
            carries == self.spec_carries_capability(),
    {
        self.refraction.is_some() || self.reflection.is_some() || self.y_reflection.is_some()
            || self.rotation.is_some() || self.amplification.is_some()
            || self.consumption.is_some()
    }

    pub fn absorbs(&self, incoming: Direction) -> (absorbed: bool)
        ensures
            absorbed == self.spec_absorbs(incoming),
    {
        match self.consumption {
            Some(consumption) => consumption.absorbs(incoming),
            None => false,
        }
    }

    /// Who takes in a beam travelling in direction `incoming`, if anyone.
    pub fn absorber(&self, incoming: Direction) -> (consumer: Option<EntityRef>)
        ensures
            consumer == if self.spec_absorbs(incoming) {
                Some(self.consumption->0.entity)
            } else {
                None
            },
    {
        match self.consumption {
            Some(consumption) => if consumption.absorbs(incoming) {
                Some(consumption.entity)
            } else {
                None
            },
            None => None,
        }
    }

    pub fn redirect(&self, incoming: Direction) -> (outgoing: Direction)
        ensures
            outgoing == self.spec_redirect(incoming),
    {
        let mut direction = incoming;
        if let Some(refraction) = self.refraction {
            if let Some(refracted) = refraction.refract(direction) {
                direction = refracted;
            }
        }
        if let Some(reflection) = self.reflection {
            direction = reflection.reflect(direction);
        }
        if let Some(y_reflection) = self.y_reflection {
            direction = y_reflection.reflect(direction);
        }
        if let Some(rotation) = self.rotation {
            direction = rotation.rotate(direction);
        }
        direction
    }

    pub fn gain(&self) -> (gain: usize)
        ensures
            gain == self.spec_gain(),
    {
        match self.amplification {
            Some(amplification) => amplification.get(),
            None => 0,
        }
    }
}

/// A mirror gives back the direction it was given when the outcome is sent
/// into it again.
pub proof fn lemma_reflect_twice(reflection: Reflection, incoming: Direction)
    ensures
        reflection.spec_reflect(reflection.spec_reflect(incoming)) == incoming,
{
}

/// The same holds of the Y-shaped mirror.
pub proof fn lemma_y_reflect_twice(mirror: YReflection, incoming: Direction)
    ensures
        mirror.spec_reflect(mirror.spec_reflect(incoming)) == incoming,
{
}

/// Every direction is either a front direction or a back direction of
/// `facing`, and never both.
pub proof fn lemma_front_or_back(facing: Direction, direction: Direction)
    ensures
        facing.spec_front_directions().contains(direction)
            != facing.spec_back_directions().contains(direction),
{
    let front = facing.spec_front_directions();
    let back = facing.spec_back_directions();
    if direction == front[0] {
        assert(front.contains(direction));
    } else if direction == front[1] {
        assert(front.contains(direction));
    } else if direction == front[2] {
        assert(front.contains(direction));
    } else if direction == back[0] {
        assert(back.contains(direction));
    } else if direction == back[1] {
        assert(back.contains(direction));
    } else {
        assert(direction == back[2]);
        assert(back.contains(direction));
    }
}

/// A refracting tile turns exactly the beams that come in through its back,
/// and sends them straight away from where it is facing; a beam in a front
/// direction goes on unchanged.
pub proof fn lemma_refract_back_only(refraction: Refraction, incoming: Direction)
    ensures
        refraction.facing.spec_back_directions().contains(incoming) ==> refraction.spec_refract(
            incoming,
        ) == Some(refraction.facing.spec_opposite()),
        refraction.facing.spec_front_directions().contains(incoming) ==> refraction.spec_refract(
            incoming,
        ) is None,
{
    lemma_front_or_back(refraction.facing, incoming);
}

} // verus!
