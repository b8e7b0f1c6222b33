//! The path of a beam, as mathematics.
//!
//! A beam leaves its emitter and moves from cell to cell in a straight line
//! until something stands in its way. A collider that is vulnerable to the
//! beam's direction takes it in. Any other collider may turn it and adds its
//! amplification, and the beam goes on. The beam ends without a hit when its
//! next cell is already on its path or lies beyond the bound of the map.

use crate::entity::EntityRef;
use crate::lasers::capability::Collider;
use crate::lasers::direction::Direction;
use crate::lasers::position::{HexCoordinate, Position};
use vstd::prelude::*;

verus! {

/// A beam under way.
pub ghost struct Beam {
    /// The cell the beam is in.
    pub position: HexCoordinate,
    /// The direction in which it leaves that cell.
    pub direction: Direction,
    pub strength: nat,
    /// The emitter's cell and, after it, the cells in which the beam met a
    /// collider, in the order in which it met them.
    pub path: Seq<HexCoordinate>,
}

/// How a beam ended.
pub ghost struct BeamEnd {
    pub path: Seq<HexCoordinate>,
    /// The strength the beam had when it ended.
    pub strength: nat,
    /// Who took the beam in, if anyone did.
    pub consumer: Option<EntityRef>,
}

impl Beam {
    /// The beam as it leaves an emitter.
    pub open spec fn emitted(position: HexCoordinate, direction: Direction, strength: nat) -> Beam {
        Beam { position, direction, strength, path: seq![position] }
    }

    /// The end of a beam that nobody takes in.
    pub open spec fn fades(self) -> BeamEnd {
        BeamEnd { path: self.path, strength: self.strength, consumer: None }
    }
}

/// The cells of a stored path.
pub open spec fn path_cells(path: Seq<Position>) -> Seq<HexCoordinate> {
    path.map_values(|position: Position| position@)
}

/// Whether the collider stands in the cell and has an effect attached.
pub open spec fn occupies(collider: Collider, cell: HexCoordinate) -> bool {
    collider.position@ == cell && collider.spec_carries_capability()
}

/// The index of the first among the first `n` colliders that occupies `cell`.
pub open spec fn collider_at(colliders: Seq<Collider>, cell: HexCoordinate, n: int) -> Option<int>
    decreases n,
{
    if n <= 0 {
        None
    } else {
        match collider_at(colliders, cell, n - 1) {
            Some(i) => Some(i),
            None => if occupies(colliders[n - 1], cell) {
                Some(n - 1)
            } else {
                None
            },
        }
    }
}

/// How many of the first `n` colliders stand in a cell that is not on the
/// path.
pub open spec fn unvisited(colliders: Seq<Collider>, path: Seq<HexCoordinate>, n: int) -> nat
    decreases n,
{
    if n <= 0 {
        0
    } else if path.contains(colliders[n - 1].position@) {
        unvisited(colliders, path, n - 1)
    } else {
        unvisited(colliders, path, n - 1) + 1
    }
}

/// The amplification that the first `n` colliders hold in cells that are not
/// on the path.
pub open spec fn unvisited_gain(colliders: Seq<Collider>, path: Seq<HexCoordinate>, n: int) -> nat
    decreases n,
{
    if n <= 0 {
        0
    } else if path.contains(colliders[n - 1].position@) {
        unvisited_gain(colliders, path, n - 1)
    } else {
        unvisited_gain(colliders, path, n - 1) + colliders[n - 1].spec_gain()
    }
}

/// The sum of all amplification on the board.
pub open spec fn total_gain(colliders: Seq<Collider>) -> nat {
    unvisited_gain(colliders, Seq::empty(), colliders.len() as int)
}

/// How far the cell lies along the direction: a coordinate that grows by one
/// with each step in that direction and never exceeds the distance of the
/// cell from the origin.
pub open spec fn progress(cell: HexCoordinate, direction: Direction) -> int {
    match direction {
        Direction::North => cell.y,
        Direction::Northeast => cell.y,
        Direction::Southeast => -cell.x,
        Direction::South => -cell.y,
        Direction::Southwest => -cell.y,
        Direction::Northwest => cell.x,
    }
}

/// An upper bound on the number of steps that can be taken from the cell in
/// the direction before the bound of the map is passed.
pub open spec fn room(bound: int, cell: HexCoordinate, direction: Direction) -> nat {
    let left = bound + 1 - progress(cell, direction);
    if left < 0 {
        0
    } else {
        left as nat
    }
}

/// What a sequence holds once a value has been added at its end: what it
/// held, and that value.
pub proof fn lemma_push_contains<A>(s: Seq<A>, last: A, needle: A)
    ensures
        s.push(last).contains(needle) <==> s.contains(needle) || needle == last,
{
    let pushed = s.push(last);
    if s.contains(needle) {
        let i = choose|i: int| 0 <= i < s.len() && s[i] == needle;
        assert(pushed[i] == needle);
    }
    if needle == last {
        assert(pushed[s.len() as int] == needle);
    }
    if pushed.contains(needle) {
        let i = choose|i: int| 0 <= i < pushed.len() && pushed[i] == needle;
        if i < s.len() {
            assert(s[i] == needle);
        }
    }
}

/// A longer path leaves no more colliders unvisited, and fewer when it has
/// grown by the cell of one of them.
pub proof fn lemma_unvisited_shrinks(
    colliders: Seq<Collider>,
    path: Seq<HexCoordinate>,
    cell: HexCoordinate,
    n: int,
)
    requires
        0 <= n <= colliders.len(),
        !path.contains(cell),
    ensures
        unvisited(colliders, path.push(cell), n) <= unvisited(colliders, path, n),
        (exists|i: int| 0 <= i < n && colliders[i].position@ == cell) ==> unvisited(
            colliders,
            path.push(cell),
            n,
        ) < unvisited(colliders, path, n),
        unvisited(colliders, path, n) <= n,
    decreases n,
{
    if n > 0 {
        lemma_unvisited_shrinks(colliders, path, cell, n - 1);
        lemma_push_contains(path, cell, colliders[n - 1].position@);
        if exists|i: int| 0 <= i < n && colliders[i].position@ == cell {
            let i = choose|i: int| 0 <= i < n && colliders[i].position@ == cell;
            if i < n - 1 {
                assert(0 <= i < n - 1 && colliders[i].position@ == cell);
            }
        }
    }
}

/// When the path grows by the cell of a collider, the amplification left in
/// unvisited cells falls by at least what that collider holds.
pub proof fn lemma_unvisited_gain_shrinks(
    colliders: Seq<Collider>,
    path: Seq<HexCoordinate>,
    cell: HexCoordinate,
    n: int,
)
    requires
        0 <= n <= colliders.len(),
        !path.contains(cell),
    ensures
        unvisited_gain(colliders, path.push(cell), n) <= unvisited_gain(colliders, path, n),
        forall|i: int|
            0 <= i < n && colliders[i].position@ == cell ==> unvisited_gain(
                colliders,
                path.push(cell),
                n,
            ) + #[trigger] colliders[i].spec_gain() <= unvisited_gain(colliders, path, n),
    decreases n,
{
    if n > 0 {
        lemma_unvisited_gain_shrinks(colliders, path, cell, n - 1);
        lemma_push_contains(path, cell, colliders[n - 1].position@);
    }
}

/// The colliders in cells off a path hold no more amplification than the
/// whole board.
pub proof fn lemma_unvisited_gain_at_most_total(
    colliders: Seq<Collider>,
    path: Seq<HexCoordinate>,
    n: int,
)
    requires
        0 <= n <= colliders.len(),
    ensures
        unvisited_gain(colliders, path, n) <= unvisited_gain(colliders, Seq::empty(), n),
        n == colliders.len() ==> unvisited_gain(colliders, path, n) <= total_gain(colliders),
    decreases n,
{
    if n > 0 {
        lemma_unvisited_gain_at_most_total(colliders, path, n - 1);
        assert(!Seq::<HexCoordinate>::empty().contains(colliders[n - 1].position@));
    }
}

/// What `collider_at` finds is the first collider in the cell.
pub proof fn lemma_collider_at(colliders: Seq<Collider>, cell: HexCoordinate, n: int)
    requires
        0 <= n <= colliders.len(),
    ensures
        match collider_at(colliders, cell, n) {
            Some(i) => {
                &&& 0 <= i < n
                &&& occupies(colliders[i], cell)
                &&& forall|j: int| 0 <= j < i ==> !occupies(#[trigger] colliders[j], cell)
            },
            None => forall|j: int| 0 <= j < n ==> !occupies(#[trigger] colliders[j], cell),
        },
    decreases n,
{
    if n > 0 {
        lemma_collider_at(colliders, cell, n - 1);
    }
}

/// The end of the beam, found by following it from where it is.
pub open spec fn beam_trace(colliders: Seq<Collider>, bound: int, beam: Beam) -> BeamEnd
    decreases
        unvisited(colliders, beam.path, colliders.len() as int),
        room(bound, beam.position, beam.direction),
{
    let next = beam.position.neighbor(beam.direction);
    if beam.path.contains(next) || next.length() > bound {
        beam.fades()
    } else {
        match collider_at(colliders, next, colliders.len() as int) {
            None => beam_trace(colliders, bound, Beam { position: next, ..beam }),
            Some(i) => {
                let path = beam.path.push(next);
                if colliders[i].spec_absorbs(beam.direction) {
                    BeamEnd {
                        path,
                        strength: beam.strength,
                        consumer: Some(colliders[i].consumption->0.entity),
                    }
                } else {
                    proof {
                        lemma_collider_at(colliders, next, colliders.len() as int);
                        lemma_unvisited_shrinks(
                            colliders,
                            beam.path,
                            next,
                            colliders.len() as int,
                        );
                    }
                    beam_trace(
                        colliders,
                        bound,
                        Beam {
                            position: next,
                            direction: colliders[i].spec_redirect(beam.direction),
                            strength: beam.strength + colliders[i].spec_gain(),
                            path,
                        },
                    )
                }
            },
        }
    }
}

/// A beam ends where it is when its next cell is on its path or beyond the
/// bound.
pub proof fn lemma_beam_fades(colliders: Seq<Collider>, bound: int, beam: Beam)
    requires
        ({
            let next = beam.position.neighbor(beam.direction);
            beam.path.contains(next) || next.length() > bound
        }),
    ensures
        beam_trace(colliders, bound, beam) == beam.fades(),
{
}

/// A beam crosses a cell that no collider occupies without any change, and
/// has then less room left in its direction.
pub proof fn lemma_beam_crosses(colliders: Seq<Collider>, bound: int, beam: Beam)
    requires
        ({
            let next = beam.position.neighbor(beam.direction);
            &&& !beam.path.contains(next)
            &&& next.length() <= bound
            &&& collider_at(colliders, next, colliders.len() as int) is None
        }),
    ensures
        ({
            let next = beam.position.neighbor(beam.direction);
            &&& beam_trace(colliders, bound, beam) == beam_trace(
                colliders,
                bound,
                Beam { position: next, ..beam },
            )
            &&& room(bound, next, beam.direction) < room(bound, beam.position, beam.direction)
        }),
{
}

/// A beam that meets a collider has the cell added to its path. It ends there
/// if the collider is vulnerable to its direction; if not, it goes on in the
/// direction and with the strength that the collider gives it, and one
/// collider fewer is left unvisited.
pub proof fn lemma_beam_meets(colliders: Seq<Collider>, bound: int, beam: Beam, i: int)
    requires
        ({
            let next = beam.position.neighbor(beam.direction);
            &&& !beam.path.contains(next)
            &&& next.length() <= bound
            &&& collider_at(colliders, next, colliders.len() as int) == Some(i)
        }),
    ensures
        ({
            let next = beam.position.neighbor(beam.direction);
            let path = beam.path.push(next);
            &&& 0 <= i < colliders.len()
            &&& occupies(colliders[i], next)
            &&& unvisited(colliders, path, colliders.len() as int) < unvisited(
                colliders,
                beam.path,
                colliders.len() as int,
            )
            &&& unvisited_gain(colliders, path, colliders.len() as int) + colliders[i].spec_gain()
                <= unvisited_gain(colliders, beam.path, colliders.len() as int)
            &&& beam_trace(colliders, bound, beam) == if colliders[i].spec_absorbs(
                beam.direction,
            ) {
                BeamEnd {
                    path,
                    strength: beam.strength,
                    consumer: Some(colliders[i].consumption->0.entity),
                }
            } else {
                beam_trace(
                    colliders,
                    bound,
                    Beam {
                        position: next,
                        direction: colliders[i].spec_redirect(beam.direction),
                        strength: beam.strength + colliders[i].spec_gain(),
                        path,
                    },
                )
            }
        }),
{
    let next = beam.position.neighbor(beam.direction);
    lemma_collider_at(colliders, next, colliders.len() as int);
    lemma_unvisited_shrinks(colliders, beam.path, next, colliders.len() as int);
    lemma_unvisited_gain_shrinks(colliders, beam.path, next, colliders.len() as int);
}

/// The path of a beam only grows: what was on it when the beam was under way
/// is the start of the path at its end, and the rest holds at most one cell
/// for each collider that the beam had not visited.
pub proof fn lemma_trace_extends_path(colliders: Seq<Collider>, bound: int, beam: Beam)
    ensures
        beam.path.is_prefix_of(beam_trace(colliders, bound, beam).path),
        beam_trace(colliders, bound, beam).path.len() <= beam.path.len() + unvisited(
            colliders,
            beam.path,
            colliders.len() as int,
        ),
    decreases
        unvisited(colliders, beam.path, colliders.len() as int),
        room(bound, beam.position, beam.direction),
{
    let next = beam.position.neighbor(beam.direction);
    if !(beam.path.contains(next) || next.length() > bound) {
        match collider_at(colliders, next, colliders.len() as int) {
            None => {
                lemma_trace_extends_path(colliders, bound, Beam { position: next, ..beam });
            },
            Some(i) => {
                lemma_collider_at(colliders, next, colliders.len() as int);
                lemma_unvisited_shrinks(colliders, beam.path, next, colliders.len() as int);
                let path = beam.path.push(next);
                assert(beam.path.is_prefix_of(path));
                if !colliders[i].spec_absorbs(beam.direction) {
                    lemma_trace_extends_path(
                        colliders,
                        bound,
                        Beam {
                            position: next,
                            direction: colliders[i].spec_redirect(beam.direction),
                            strength: beam.strength + colliders[i].spec_gain(),
                            path,
                        },
                    );
                }
            },
        }
    }
}

/// A beam never comes back to a cell of its path: if no cell stood twice on
/// the path when the beam was under way, none does at its end.
pub proof fn lemma_trace_never_revisits(colliders: Seq<Collider>, bound: int, beam: Beam)
    requires
        beam.path.no_duplicates(),
    ensures
        beam_trace(colliders, bound, beam).path.no_duplicates(),
    decreases
        unvisited(colliders, beam.path, colliders.len() as int),
        room(bound, beam.position, beam.direction),
{
    let next = beam.position.neighbor(beam.direction);
    if !(beam.path.contains(next) || next.length() > bound) {
        match collider_at(colliders, next, colliders.len() as int) {
            None => {
                lemma_trace_never_revisits(colliders, bound, Beam { position: next, ..beam });
            },
            Some(i) => {
                lemma_collider_at(colliders, next, colliders.len() as int);
                lemma_unvisited_shrinks(colliders, beam.path, next, colliders.len() as int);
                let path = beam.path.push(next);
                assert(path.no_duplicates());
                if !colliders[i].spec_absorbs(beam.direction) {
                    lemma_trace_never_revisits(
                        colliders,
                        bound,
                        Beam {
                            position: next,
                            direction: colliders[i].spec_redirect(beam.direction),
                            strength: beam.strength + colliders[i].spec_gain(),
                            path,
                        },
                    );
                }
            },
        }
    }
}

/// A beam never loses strength, and gains no more than the colliders that it
/// had not visited hold.
pub proof fn lemma_trace_strength(colliders: Seq<Collider>, bound: int, beam: Beam)
    ensures
        beam.strength <= beam_trace(colliders, bound, beam).strength,
        beam_trace(colliders, bound, beam).strength <= beam.strength + unvisited_gain(
            colliders,
            beam.path,
            colliders.len() as int,
        ),
    decreases
        unvisited(colliders, beam.path, colliders.len() as int),
        room(bound, beam.position, beam.direction),
{
    let next = beam.position.neighbor(beam.direction);
    if !(beam.path.contains(next) || next.length() > bound) {
        match collider_at(colliders, next, colliders.len() as int) {
            None => {
                lemma_trace_strength(colliders, bound, Beam { position: next, ..beam });
            },
            Some(i) => {
                lemma_collider_at(colliders, next, colliders.len() as int);
                lemma_unvisited_shrinks(colliders, beam.path, next, colliders.len() as int);
                lemma_unvisited_gain_shrinks(colliders, beam.path, next, colliders.len() as int);
                if !colliders[i].spec_absorbs(beam.direction) {
                    lemma_trace_strength(
                        colliders,
                        bound,
                        Beam {
                            position: next,
                            direction: colliders[i].spec_redirect(beam.direction),
                            strength: beam.strength + colliders[i].spec_gain(),
                            path: beam.path.push(next),
                        },
                    );
                }
            },
        }
    }
}

/// The amplification held by the first collider in the cell.
pub open spec fn gain_at(colliders: Seq<Collider>, cell: HexCoordinate) -> nat {
    match collider_at(colliders, cell, colliders.len() as int) {
        Some(i) => colliders[i].spec_gain(),
        None => 0,
    }
}

/// The amplification met along the path from place `from` up to, but not
/// including, place `to`.
pub open spec fn gains_met(
    colliders: Seq<Collider>,
    path: Seq<HexCoordinate>,
    from: int,
    to: int,
) -> nat
    decreases to - from,
{
    if from >= to {
        0
    } else {
        gain_at(colliders, path[from]) + gains_met(colliders, path, from + 1, to)
    }
}

/// Amplification adds up: a beam ends with the strength it had, and on top
/// of it the amplification of every collider that it met and passed. The
/// collider that takes the beam in is the last cell of the path and adds
/// nothing.
pub proof fn lemma_trace_adds_gains(colliders: Seq<Collider>, bound: int, beam: Beam)
    ensures
        ({
            let end = beam_trace(colliders, bound, beam);
            let passed = if end.consumer is Some {
                end.path.len() - 1
            } else {
                end.path.len() as int
            };
            &&& beam.path.len() <= passed
            &&& end.strength == beam.strength + gains_met(
                colliders,
                end.path,
                beam.path.len() as int,
                passed,
            )
        }),
    decreases
        unvisited(colliders, beam.path, colliders.len() as int),
        room(bound, beam.position, beam.direction),
{
    let next = beam.position.neighbor(beam.direction);
    let end = beam_trace(colliders, bound, beam);
    let from = beam.path.len() as int;
    if beam.path.contains(next) || next.length() > bound {
        lemma_beam_fades(colliders, bound, beam);
        assert(gains_met(colliders, end.path, from, from) == 0);
    } else {
        match collider_at(colliders, next, colliders.len() as int) {
            None => {
                lemma_beam_crosses(colliders, bound, beam);
                lemma_trace_adds_gains(colliders, bound, Beam { position: next, ..beam });
            },
            Some(i) => {
                lemma_beam_meets(colliders, bound, beam, i);
                if colliders[i].spec_absorbs(beam.direction) {
                    assert(end.path.len() == from + 1);
                    assert(gains_met(colliders, end.path, from, from) == 0);
                } else {
                    let onward = Beam {
                        position: next,
                        direction: colliders[i].spec_redirect(beam.direction),
                        strength: beam.strength + colliders[i].spec_gain(),
                        path: beam.path.push(next),
                    };
                    assert(end == beam_trace(colliders, bound, onward));
                    lemma_trace_adds_gains(colliders, bound, onward);
                    lemma_trace_extends_path(colliders, bound, onward);
                    let passed = if end.consumer is Some {
                        end.path.len() - 1
                    } else {
                        end.path.len() as int
                    };
                    assert(end.path[from] == onward.path[from]);
                    assert(gain_at(colliders, end.path[from]) == colliders[i].spec_gain());
                    assert(from + 1 <= passed);
                    assert(gains_met(colliders, end.path, from, passed) == gain_at(
                        colliders,
                        end.path[from],
                    ) + gains_met(colliders, end.path, from + 1, passed));
                }
            },
        }
    }
}

/// Every cell that a beam adds to its path holds a collider and lies within
/// the bound of the map.
pub proof fn lemma_trace_stays_on_map(colliders: Seq<Collider>, bound: int, beam: Beam)
    ensures
        forall|k: int|
            beam.path.len() <= k < beam_trace(colliders, bound, beam).path.len() ==> {
                let cell = #[trigger] beam_trace(colliders, bound, beam).path[k];
                &&& cell.length() <= bound
                &&& collider_at(colliders, cell, colliders.len() as int) is Some
            },
    decreases
        unvisited(colliders, beam.path, colliders.len() as int),
        room(bound, beam.position, beam.direction),
{
    let next = beam.position.neighbor(beam.direction);
    if !(beam.path.contains(next) || next.length() > bound) {
        match collider_at(colliders, next, colliders.len() as int) {
            None => {
                lemma_trace_stays_on_map(colliders, bound, Beam { position: next, ..beam });
            },
            Some(i) => {
                lemma_collider_at(colliders, next, colliders.len() as int);
                lemma_unvisited_shrinks(colliders, beam.path, next, colliders.len() as int);
                let path = beam.path.push(next);
                let end = beam_trace(colliders, bound, beam);
                if !colliders[i].spec_absorbs(beam.direction) {
                    let onward = Beam {
                        position: next,
                        direction: colliders[i].spec_redirect(beam.direction),
                        strength: beam.strength + colliders[i].spec_gain(),
                        path,
                    };
                    lemma_trace_stays_on_map(colliders, bound, onward);
                    lemma_trace_extends_path(colliders, bound, onward);
                    assert(end == beam_trace(colliders, bound, onward));
                }
                assert(path.is_prefix_of(end.path));
                assert(end.path[beam.path.len() as int] == path[beam.path.len() as int]);
                assert forall|k: int| beam.path.len() <= k < end.path.len() implies {
                    let cell = #[trigger] end.path[k];
                    &&& cell.length() <= bound
                    &&& collider_at(colliders, cell, colliders.len() as int) is Some
                } by {
                    if k == beam.path.len() {
                        assert(end.path[k] == next);
                    }
                }
            },
        }
    }
}

/// The path of a beam starts at its emitter and holds no cell twice, so that
/// no two cells in a row are the same; after the emitter's cell it holds at
/// most one cell for each collider on the board.
pub proof fn lemma_emitted_path(
    colliders: Seq<Collider>,
    bound: int,
    position: HexCoordinate,
    direction: Direction,
    strength: nat,
)
    ensures
        ({
            let path = beam_trace(colliders, bound, Beam::emitted(position, direction, strength)).path;
            &&& path.len() >= 1 && path[0] == position
            &&& path.no_duplicates()
            &&& forall|k: int| 0 <= k < path.len() - 1 ==> #[trigger] path[k] != path[k + 1]
            &&& path.len() <= colliders.len() + 1
        }),
{
    let beam = Beam::emitted(position, direction, strength);
    lemma_trace_extends_path(colliders, bound, beam);
    lemma_trace_never_revisits(colliders, bound, beam);
    lemma_unvisited_shrinks(colliders, Seq::empty(), position, colliders.len() as int);
    assert(Seq::<HexCoordinate>::empty().push(position) == beam.path);
    let path = beam_trace(colliders, bound, beam).path;
    assert(path[0] == beam.path[0]);
}

/// On a board with no more colliders than the bound of the map counts steps,
/// the path of a beam holds at most one cell more than the bound. With more
/// colliders a beam that is turned from one to the next can visit more cells
/// than that without leaving the map.
pub proof fn lemma_path_within_bound(
    colliders: Seq<Collider>,
    bound: int,
    position: HexCoordinate,
    direction: Direction,
    strength: nat,
)
    requires
        colliders.len() <= bound,
    ensures
        beam_trace(colliders, bound, Beam::emitted(position, direction, strength)).path.len()
            <= bound + 1,
{
    lemma_emitted_path(colliders, bound, position, direction, strength);
}

/// The number of a cell within the bound of the map, counted column by
/// column across the square of cells whose coordinates lie within the bound.
pub open spec fn cell_number(cell: HexCoordinate, bound: int) -> int {
    (cell.x + bound) * (2 * bound + 1) + (cell.y + bound)
}

/// No more different cells lie within the bound of the map than the square
/// around it holds.
pub proof fn lemma_cells_within_bound(cells: Seq<HexCoordinate>, bound: int)
    requires
        bound >= 0,
        cells.no_duplicates(),
        forall|k: int| 0 <= k < cells.len() ==> (#[trigger] cells[k]).length() <= bound,
    ensures
        cells.len() <= (2 * bound + 1) * (2 * bound + 1),
{
    let width = 2 * bound + 1;
    let numbers = Seq::new(cells.len(), |k: int| cell_number(cells[k], bound));
    assert forall|k: int| 0 <= k < numbers.len() implies 0 <= #[trigger] numbers[k] < width
        * width by {
        let column = cells[k].x + bound;
        let row = cells[k].y + bound;
        assert(cells[k].length() <= bound);
        assert(0 <= column < width && 0 <= row < width);
        assert(0 <= column * width && column * width + width <= width * width)
            by (nonlinear_arith)
            requires
                0 <= column < width,
        ;
    }
    assert forall|a: int, b: int| 0 <= a < numbers.len() && 0 <= b < numbers.len() && a
        != b implies numbers[a] != numbers[b] by {
        let (first, second) = (cells[a], cells[b]);
        assert(first.length() <= bound && second.length() <= bound);
        assert(first != second);
        let (high, low) = if first.x > second.x {
            (first.x + bound, second.x + bound)
        } else {
            (second.x + bound, first.x + bound)
        };
        if first.x != second.x {
            assert(high * width >= low * width + width) by (nonlinear_arith)
                requires
                    high >= low + 1,
                    width > 0,
            ;
        }
    }
    numbers.unique_seq_to_set();
    vstd::set_lib::lemma_int_range(0, width * width);
    assert(numbers.to_set().subset_of(vstd::set_lib::set_int_range(0, width * width))) by {
        assert forall|number: int| numbers.to_set().contains(number) implies vstd::set_lib::set_int_range(
        0, width * width).contains(number) by {
            let k = choose|k: int| 0 <= k < numbers.len() && numbers[k] == number;
            assert(0 <= numbers[k] < width * width);
        }
    }
    vstd::set_lib::lemma_len_subset(
        numbers.to_set(),
        vstd::set_lib::set_int_range(0, width * width),
    );
}

/// However many colliders stand on the board, the path of a beam holds no
/// more cells than the emitter's and those within the bound of the map: no
/// beam is followed without end.
pub proof fn lemma_path_fits_the_map(
    colliders: Seq<Collider>,
    bound: int,
    position: HexCoordinate,
    direction: Direction,
    strength: nat,
)
    requires
        bound >= 0,
    ensures
        beam_trace(colliders, bound, Beam::emitted(position, direction, strength)).path.len() <= (2
            * bound + 1) * (2 * bound + 1) + 1,
{
    let beam = Beam::emitted(position, direction, strength);
    let path = beam_trace(colliders, bound, beam).path;
    lemma_emitted_path(colliders, bound, position, direction, strength);
    lemma_trace_stays_on_map(colliders, bound, beam);
    let met = path.subrange(1, path.len() as int);
    assert forall|k: int| 0 <= k < met.len() implies (#[trigger] met[k]).length() <= bound by {
        assert(met[k] == path[k + 1]);
    }
    assert forall|a: int, b: int| 0 <= a < met.len() && 0 <= b < met.len() && a != b implies met[a]
        != met[b] by {
        assert(met[a] == path[a + 1] && met[b] == path[b + 1]);
    }
    lemma_cells_within_bound(met, bound);
}

} // verus!
