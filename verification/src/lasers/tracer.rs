//! Follows beams across the board and reports where they went and whom they
//! hit.

use crate::entity::EntityRef;
use crate::game_loop::{ActionCompleteEvent, Game, GamePhase, MapSize};
use crate::lasers::beam::{
    beam_trace, collider_at, lemma_beam_crosses, lemma_beam_fades, lemma_beam_meets,
    lemma_emitted_path, lemma_trace_strength, lemma_unvisited_gain_at_most_total, path_cells,
    room, total_gain, unvisited, unvisited_gain, Beam, BeamEnd,
};
use crate::lasers::capability::Collider;
use crate::lasers::direction::Direction;
use crate::lasers::position::{HexCoordinate, Position};
use vstd::prelude::*;

verus! {

/// The player on whose behalf a beam was fired.
#[derive(Clone, Copy, Debug, PartialEq, Eq, Structural)]
pub struct Shooter(pub EntityRef);

impl Shooter {
    pub fn new(entity: EntityRef) -> (shooter: Shooter)
        ensures
            shooter.0 == entity,
    {
        Shooter(entity)
    }

    pub fn inner(&self) -> (entity: EntityRef)
        ensures
            entity == self.0,
    {
        self.0
    }
}

/// Marks an emitter as firing a laser.
#[derive(Clone, Copy, Debug, PartialEq, Eq, Structural)]
pub struct Laser;

impl Laser {
    /// The strength with which a laser leaves its emitter.
    pub const POWER: usize = 1;
}

/// Where a beam starts. Emitters are made when tiles are activated and are
/// gone when the beams are drawn.
#[derive(Clone, Copy, Debug, PartialEq, Eq, Structural)]
pub struct LaserEmitter {
    pub position: Position,
    pub direction: Direction,
    pub shooter: Shooter,
    pub strength: usize,
}

impl LaserEmitter {
    /// The beam as it leaves this emitter.
    pub open spec fn spec_beam(&self) -> Beam {
        Beam::emitted(self.position@, self.direction, self.strength as nat)
    }

    /// An emitter of a laser of the usual power.
    pub fn new(position: Position, direction: Direction, shooter: Shooter) -> (emitter:
        LaserEmitter)
        ensures
            emitter == (LaserEmitter { position, direction, shooter, strength: Laser::POWER }),
    {
        LaserEmitter { position, direction, shooter, strength: Laser::POWER }
    }
}

/// A beam was taken in by `consumer`.
#[derive(Clone, Copy, Debug, PartialEq, Eq, Structural)]
pub struct LaserHitEvent {
    pub strength: usize,
    pub consumer: EntityRef,
    pub shooter: EntityRef,
}

/// The cells through which one beam is drawn: its emitter's, then each cell
/// in which it met a collider.
#[derive(Clone, Debug)]
pub struct LaserPathEvent {
    pub path: Vec<Position>,
}

/// What became of one beam.
#[derive(Clone, Debug)]
pub struct BeamTrace {
    pub path: LaserPathEvent,
    pub hit: Option<LaserHitEvent>,
}

impl BeamTrace {
    /// Whether this is the record of a beam of `shooter` that ended as `end`
    /// says.
    pub open spec fn spec_records(&self, end: BeamEnd, shooter: EntityRef) -> bool {
        &&& path_cells(self.path.path@) == end.path
        &&& self.hit == match end.consumer {
            Some(consumer) => Some(
                LaserHitEvent { strength: end.strength as usize, consumer, shooter },
            ),
            None => None,
        }
    }
}

/// Whether the cell is on the path.
pub fn path_contains(path: &Vec<Position>, position: Position) -> (found: bool)
    ensures
        found == path_cells(path@).contains(position@),
        found == path@.contains(position),
{
    let mut i: usize = 0;
    while i < path.len()
        invariant
            i <= path.len(),
            forall|j: int| 0 <= j < i ==> path@[j] != position,
        decreases path.len() - i,
    {
        if path[i] == position {
            assert(path_cells(path@)[i as int] == position@);
            return true;
        }
        i += 1;
    }
    assert forall|j: int| 0 <= j < path_cells(path@).len() implies path_cells(path@)[j]
        != position@ by {
        assert(path@[j] != position);
    }
    false
}

/// The first collider that occupies the cell.
pub fn find_collider(colliders: &Vec<Collider>, position: Position) -> (found: Option<usize>)
    ensures
        match found {
            Some(i) => collider_at(colliders@, position@, colliders.len() as int) == Some(
                i as int,
            ) && i < colliders.len(),
            None => collider_at(colliders@, position@, colliders.len() as int) is None,
        },
{
    let mut i: usize = 0;
    while i < colliders.len()
        invariant
            i <= colliders.len(),
            collider_at(colliders@, position@, i as int) is None,
        decreases colliders.len() - i,
    {
        if colliders[i].position == position && colliders[i].carries_capability() {
            proof {
                lemma_found_stays(colliders@, position@, i as int, colliders.len() as int);
            }
            return Some(i);
        }
        i += 1;
    }
    None
}

proof fn lemma_found_stays(colliders: Seq<Collider>, cell: HexCoordinate, i: int, n: int)
    requires
        0 <= i < n <= colliders.len(),
        collider_at(colliders, cell, i + 1) == Some(i),
    ensures
        collider_at(colliders, cell, n) == Some(i),
    decreases n,
{
    if n > i + 1 {
        lemma_found_stays(colliders, cell, i, n - 1);
    }
}

/// Whether a beam of the given strength can pass every amplifier on the board
/// without its strength leaving `usize`.
pub fn amplification_fits(colliders: &Vec<Collider>, strength: usize) -> (fits: bool)
    ensures
        fits == (strength + total_gain(colliders@) <= usize::MAX),
{
    let mut sum: usize = strength;
    let mut i: usize = 0;
    while i < colliders.len()
        invariant
            i <= colliders.len(),
            sum == strength + unvisited_gain(colliders@, Seq::empty(), i as int),
        decreases colliders.len() - i,
    {
        assert(!Seq::<HexCoordinate>::empty().contains(colliders@[i as int].position@));
        let gain = colliders[i].gain();
        if gain > usize::MAX - sum {
            proof {
                lemma_gain_grows(colliders@, i as int + 1, colliders.len() as int);
            }
            return false;
        }
        sum += gain;
        i += 1;
    }
    true
}

proof fn lemma_gain_grows(colliders: Seq<Collider>, i: int, n: int)
    requires
        0 <= i <= n <= colliders.len(),
    ensures
        unvisited_gain(colliders, Seq::empty(), i) <= unvisited_gain(colliders, Seq::empty(), n),
    decreases n,
{
    if n > i {
        lemma_gain_grows(colliders, i, n - 1);
    }
}

/// What holds of the record of any beam: its path starts at the emitter and
/// holds no cell twice, and a hit is no weaker than the beam was when it left
/// the emitter.
proof fn lemma_traced(emitter: &LaserEmitter, colliders: Seq<Collider>, bound: int)
    requires
        emitter.strength + total_gain(colliders) <= usize::MAX,
    ensures
        forall|trace: BeamTrace|
            #[trigger] trace.spec_records(
                beam_trace(colliders, bound, emitter.spec_beam()),
                emitter.shooter.0,
            ) ==> {
                &&& trace.path.path@.len() >= 1
                &&& trace.path.path@[0] == emitter.position
                &&& trace.path.path@.no_duplicates()
                &&& trace.path.path@.len() <= colliders.len() + 1
                &&& trace.hit matches Some(hit) ==> hit.strength >= emitter.strength
            },
{
    let beam = emitter.spec_beam();
    let end = beam_trace(colliders, bound, beam);
    lemma_emitted_path(colliders, bound, beam.position, beam.direction, beam.strength);
    lemma_trace_strength(colliders, bound, beam);
    lemma_unvisited_gain_at_most_total(colliders, beam.path, colliders.len() as int);
    assert forall|trace: BeamTrace|
        #[trigger] trace.spec_records(end, emitter.shooter.0) implies {
        &&& trace.path.path@.len() >= 1
        &&& trace.path.path@[0] == emitter.position
        &&& trace.path.path@.no_duplicates()
        &&& trace.path.path@.len() <= colliders.len() + 1
        &&& trace.hit matches Some(hit) ==> hit.strength >= emitter.strength
    } by {
        let path = trace.path.path@;
        assert(path_cells(path).len() == path.len());
        assert(path_cells(path)[0] == path[0]@);
        assert forall|a: int, b: int| 0 <= a < path.len() && 0 <= b < path.len() && a != b implies path[a]
            != path[b] by {
            assert(path_cells(path)[a] == path[a]@);
            assert(path_cells(path)[b] == path[b]@);
        }
    }
}

/// Follows the beam of one emitter to its end.
///
/// The path starts with the emitter's cell and holds, after it, every cell in
/// which the beam met a collider. A beam that leaves the map or would enter a
/// cell of its path a second time ends where it is, and the cells it crossed
/// since the last collider are not recorded.
pub fn trace_laser(emitter: &LaserEmitter, colliders: &Vec<Collider>, map_size: &MapSize) -> (trace:
    BeamTrace)
    requires
        map_size.spec_traceable(),
        emitter.strength + total_gain(colliders@) <= usize::MAX,
    ensures
        trace.spec_records(
            beam_trace(colliders@, map_size.spec_beam_bound(), emitter.spec_beam()),
            emitter.shooter.0,
        ),
        trace.path.path@.len() >= 1,
        trace.path.path@[0] == emitter.position,
        trace.path.path@.no_duplicates(),
        trace.path.path@.len() <= colliders@.len() + 1,
        trace.hit matches Some(hit) ==> hit.strength >= emitter.strength,
{
    proof {
        lemma_traced(emitter, colliders@, map_size.spec_beam_bound());
    }
    follow(emitter, colliders, map_size)
}

fn follow(emitter: &LaserEmitter, colliders: &Vec<Collider>, map_size: &MapSize) -> (trace:
    BeamTrace)
    requires
        map_size.spec_traceable(),
        emitter.strength + total_gain(colliders@) <= usize::MAX,
    ensures
        trace.spec_records(
            beam_trace(colliders@, map_size.spec_beam_bound(), emitter.spec_beam()),
            emitter.shooter.0,
        ),
{
    let bound = map_size.beam_bound();
    let shooter = emitter.shooter.inner();
    let ghost start = emitter.spec_beam();
    let ghost count = colliders.len() as int;
    let mut path: Vec<Position> = Vec::new();
    path.push(emitter.position);
    assert(path_cells(path@) =~= start.path);
    let reach: i64 = bound as i64 + 1;
    let start_x = emitter.position.x as i64;
    let start_y = emitter.position.y as i64;
    if start_x < -reach || start_x > reach || start_y < -reach || start_y > reach {
        assert(start.position.neighbor(start.direction).length() > bound);
        return BeamTrace { path: LaserPathEvent { path }, hit: None };
    }
    let mut current = emitter.position;
    let mut direction = emitter.direction;
    let mut strength = emitter.strength;
    let ghost mut beam = start;
    proof {
        lemma_unvisited_gain_at_most_total(colliders@, beam.path, count);
    }
    loop
        invariant
            count == colliders.len(),
            bound == map_size.spec_beam_bound(),
            bound <= MapSize::MAX_BEAM_BOUND,
            shooter == emitter.shooter.0,
            start == emitter.spec_beam(),
            beam.position == current@,
            beam.direction == direction,
            beam.strength == strength,
            beam.path == path_cells(path@),
            -(bound + 1) <= current.x <= bound + 1,
            -(bound + 1) <= current.y <= bound + 1,
            strength + unvisited_gain(colliders@, beam.path, count) <= usize::MAX,
            beam_trace(colliders@, bound as int, beam) == beam_trace(
                colliders@,
                bound as int,
                start,
            ),
        decreases
            unvisited(colliders@, beam.path, count),
            room(bound as int, beam.position, beam.direction),
    {
        let next = current.neighbor(direction);
        let origin = Position::new(0, 0);
        assert(next@ == beam.position.neighbor(beam.direction));
        assert(-(bound + 2) <= next.x <= bound + 2 && -(bound + 2) <= next.y <= bound + 2);
        assert(next@.distance_to(origin@) == next@.length());
        if path_contains(&path, next) || next.unsigned_distance_to(origin) > bound {
            proof {
                lemma_beam_fades(colliders@, bound as int, beam);
                assert(beam_trace(colliders@, bound as int, start) == beam.fades());
            }
            return BeamTrace { path: LaserPathEvent { path }, hit: None };
        }
        match find_collider(colliders, next) {
            None => {
                proof {
                    lemma_beam_crosses(colliders@, bound as int, beam);
                    beam = Beam { position: next@, ..beam };
                }
                current = next;
            },
            Some(i) => {
                proof {
                    lemma_beam_meets(colliders@, bound as int, beam, i as int);
                }
                path.push(next);
                assert(path_cells(path@) =~= beam.path.push(next@));
                let collider = &colliders[i];
                match collider.absorber(direction) {
                    Some(consumer) => {
                        let hit = LaserHitEvent { strength, consumer, shooter };
                        return BeamTrace { path: LaserPathEvent { path }, hit: Some(hit) };
                    },
                    None => {
                        let turned = collider.redirect(direction);
                        let gain = collider.gain();
                        proof {
                            beam = Beam {
                                position: next@,
                                direction: turned,
                                strength: beam.strength + collider.spec_gain(),
                                path: beam.path.push(next@),
                            };
                        }
                        direction = turned;
                        strength = strength + gain;
                        current = next;
                    },
                }
            },
        }
    }
}

/// The hit that the beam of the emitter ends in, if it ends in one.
pub open spec fn spec_hit(emitter: LaserEmitter, colliders: Seq<Collider>, bound: int) -> Option<
    LaserHitEvent,
> {
    let end = beam_trace(colliders, bound, emitter.spec_beam());
    match end.consumer {
        Some(consumer) => Some(
            LaserHitEvent { strength: end.strength as usize, consumer, shooter: emitter.shooter.0 },
        ),
        None => None,
    }
}

/// The hits of the beams of the first `n` emitters, in the order of the
/// emitters.
pub open spec fn spec_hits(
    lasers: Seq<LaserEmitter>,
    colliders: Seq<Collider>,
    bound: int,
    n: int,
) -> Seq<LaserHitEvent>
    decreases n,
{
    if n <= 0 {
        Seq::empty()
    } else {
        let before = spec_hits(lasers, colliders, bound, n - 1);
        match spec_hit(lasers[n - 1], colliders, bound) {
            Some(hit) => before.push(hit),
            None => before,
        }
    }
}

/// What tracing the beams of one game in one tick gave.
#[derive(Clone, Debug)]
pub struct LaserReport {
    /// The hits, in the order of the emitters whose beams ended in them.
    pub hits: Vec<LaserHitEvent>,
    /// One path for each emitter, in the order of the emitters.
    pub paths: Vec<LaserPathEvent>,
    /// Set when the beams were traced.
    pub complete: Option<ActionCompleteEvent>,
}

/// The label under which the systems of the tracer run.
#[derive(Clone, Copy, Debug, PartialEq, Eq, Structural, Hash)]
pub struct LaserSystems;

/// The systems of the tracer.
pub struct LaserPlugin;

impl LaserPlugin {
    /// Traces the beam of every emitter while the game is acting, and tells
    /// that the action is complete. In any other phase nothing is traced and
    /// nothing is told.
    pub fn track_lasers(lasers: &Vec<LaserEmitter>, colliders: &Vec<Collider>, game: &Game) -> (report:
        LaserReport)
        requires
            game.size.spec_traceable(),
            forall|i: int|
                0 <= i < lasers@.len() ==> (#[trigger] lasers@[i]).strength + total_gain(
                    colliders@,
                ) <= usize::MAX,
        ensures
            game.phase != GamePhase::Act ==> {
                &&& report.hits@.len() == 0
                &&& report.paths@.len() == 0
                &&& report.complete is None
            },
            game.phase == GamePhase::Act ==> {
                &&& report.complete == Some(ActionCompleteEvent { game: game.entity })
                &&& report.paths@.len() == lasers@.len()
                &&& forall|i: int|
                    0 <= i < lasers@.len() ==> path_cells((#[trigger] report.paths@[i]).path@)
                        == beam_trace(
                        colliders@,
                        game.size.spec_beam_bound(),
                        lasers@[i].spec_beam(),
                    ).path
                &&& report.hits@ == spec_hits(
                    lasers@,
                    colliders@,
                    game.size.spec_beam_bound(),
                    lasers@.len() as int,
                )
            },
    {
        let mut hits: Vec<LaserHitEvent> = Vec::new();
        let mut paths: Vec<LaserPathEvent> = Vec::new();
        if game.phase != GamePhase::Act {
            return LaserReport { hits, paths, complete: None };
        }
        let ghost bound = game.size.spec_beam_bound();
        let mut n: usize = 0;
        while n < lasers.len()
            invariant
                n <= lasers.len(),
                bound == game.size.spec_beam_bound(),
                game.size.spec_traceable(),
                forall|i: int|
                    0 <= i < lasers@.len() ==> (#[trigger] lasers@[i]).strength + total_gain(
                        colliders@,
                    ) <= usize::MAX,
                paths@.len() == n,
                forall|i: int|
                    0 <= i < n ==> path_cells((#[trigger] paths@[i]).path@) == beam_trace(
                        colliders@,
                        bound,
                        lasers@[i].spec_beam(),
                    ).path,
                hits@ == spec_hits(lasers@, colliders@, bound, n as int),
            decreases lasers.len() - n,
        {
            let trace = trace_laser(&lasers[n], colliders, &game.size);
            if let Some(hit) = trace.hit {
                hits.push(hit);
            }
            paths.push(trace.path);
            n += 1;
        }
        LaserReport { hits, paths, complete: Some(ActionCompleteEvent { game: game.entity }) }
    }

    /// Removes every emitter when the game has entered `Draw` in this tick.
    pub fn despawn_lasers(game: &Game, lasers: &mut Vec<LaserEmitter>)
        ensures
            final(lasers)@ == if game.changed && game.phase == GamePhase::Draw {
                Seq::empty()
            } else {
                old(lasers)@
            },
    {
        if game.changed && game.phase == GamePhase::Draw {
            lasers.clear();
        }
    }
}

} // verus!
