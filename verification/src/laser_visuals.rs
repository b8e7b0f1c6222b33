//! Keeps account of the beams that are being drawn, and tells when the
//! drawing is done.

use crate::game_loop::{DrawingCompleteEvent, Game, GamePhase};
use crate::lasers::position::Position;
use crate::lasers::tracer::LaserPathEvent;
use crate::timer::Timer;
use vstd::prelude::*;

verus! {

/// The cells through which one beam is drawn.
#[derive(Clone, Debug)]
pub struct LaserPath(pub Vec<Position>);

impl LaserPath {
    pub fn new(points: Vec<Position>) -> (path: LaserPath)
        ensures
            path.0@ == points@,
    {
        LaserPath(points)
    }
}

/// The beams of one tick while they are drawn.
#[derive(Clone, Debug)]
pub struct LaserDrawSimulation {
    pub paths: Vec<LaserPath>,
    pub timer: Timer,
    /// How many of the paths have not been drawn to their end.
    pub remaining_paths: u32,
}

impl LaserDrawSimulation {
    /// How long a drawing may take: twenty seconds, in nanoseconds.
    pub const DURATION: u64 = 20_000_000_000;
}

/// The label under which the systems of the drawing run.
#[derive(Clone, Copy, Debug, PartialEq, Eq, Structural, Hash)]
pub struct LaserVisualSystems;

/// The systems of the drawing.
pub struct LaserVisualPlugin;

/// The places, among the first `n` drawings, of those that have no path left
/// to draw.
pub open spec fn spec_finished(simulations: Seq<LaserDrawSimulation>, n: int) -> Seq<usize>
    decreases n,
{
    if n <= 0 {
        Seq::empty()
    } else if simulations[n - 1].remaining_paths == 0 {
        spec_finished(simulations, n - 1).push((n - 1) as usize)
    } else {
        spec_finished(simulations, n - 1)
    }
}

impl LaserVisualPlugin {
    /// Starts the drawing of the paths of a tick: one drawing that holds
    /// them all, with every path still to draw. No paths, no drawing.
    pub fn spawn_laser_drawing(laser_path_events: &Vec<LaserPathEvent>) -> (simulation: Option<
        LaserDrawSimulation,
    >)
        requires
            laser_path_events@.len() <= u32::MAX,
        ensures
            laser_path_events@.len() == 0 ==> simulation is None,
            laser_path_events@.len() > 0 ==> {
                &&& simulation matches Some(simulation)
                &&& simulation.remaining_paths == laser_path_events@.len()
                &&& simulation.timer == (Timer { remaining: LaserDrawSimulation::DURATION })
                &&& simulation.paths@.len() == laser_path_events@.len()
                &&& forall|i: int|
                    0 <= i < laser_path_events@.len() ==> (#[trigger] simulation.paths@[i]).0@
                        == laser_path_events@[i].path@
            },
    {
        if laser_path_events.len() == 0 {
            return None;
        }
        let mut paths: Vec<LaserPath> = Vec::new();
        let mut i: usize = 0;
        while i < laser_path_events.len()
            invariant
                i <= laser_path_events.len(),
                paths@.len() == i,
                forall|j: int|
                    0 <= j < i ==> (#[trigger] paths@[j]).0@ == laser_path_events@[j].path@,
            decreases laser_path_events.len() - i,
        {
            let event = &laser_path_events[i];
            let mut points: Vec<Position> = Vec::new();
            let mut k: usize = 0;
            while k < event.path.len()
                invariant
                    k <= event.path.len(),
                    points@ == event.path@.take(k as int),
                decreases event.path.len() - k,
            {
                points.push(event.path[k]);
                assert(event.path@.take(k as int + 1) == event.path@.take(k as int).push(
                    event.path@[k as int],
                ));
                k += 1;
            }
            assert(event.path@.take(event.path@.len() as int) == event.path@);
            paths.push(LaserPath::new(points));
            i += 1;
        }
        Some(
            LaserDrawSimulation {
                paths,
                timer: Timer::from_nanos(LaserDrawSimulation::DURATION),
                remaining_paths: laser_path_events.len() as u32,
            },
        )
    }

    /// Tells that the drawing is complete when the game is in `Draw` and no
    /// drawing is under way, and names the drawings that are to be removed
    /// because they have no path left to draw.
    pub fn clean_laser_drawing(game: &Game, draw_simulations: &Vec<LaserDrawSimulation>) -> (cleaned:
        (Option<DrawingCompleteEvent>, Vec<usize>))
        ensures
            cleaned.0 == if draw_simulations@.len() == 0 && game.phase == GamePhase::Draw {
                Some(DrawingCompleteEvent { game: game.entity })
            } else {
                None
            },
            cleaned.1@ == spec_finished(draw_simulations@, draw_simulations@.len() as int),
    {
        let event = if draw_simulations.len() == 0 && game.phase == GamePhase::Draw {
            Some(DrawingCompleteEvent { game: game.entity })
        } else {
            None
        };
        let mut finished: Vec<usize> = Vec::new();
        let mut i: usize = 0;
        while i < draw_simulations.len()
            invariant
                i <= draw_simulations.len(),
                finished@ == spec_finished(draw_simulations@, i as int),
            decreases draw_simulations.len() - i,
        {
            if draw_simulations[i].remaining_paths == 0 {
                finished.push(i);
            }
            i += 1;
        }
        (event, finished)
    }

    /// Lets `delta` nanoseconds pass for a drawing.
    pub fn tick_simulation(simulation: &mut LaserDrawSimulation, delta: u64)
        ensures
            final(simulation).timer == old(simulation).timer.spec_ticked(delta),
            final(simulation).remaining_paths == old(simulation).remaining_paths,
            final(simulation).paths@ == old(simulation).paths@,
    {
        simulation.timer.tick(delta);
    }
}

} // verus!
