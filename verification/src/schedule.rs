//! The order of a tick. Its stages run one after the other: new tiles are
//! placed, the tiles of an acting game are activated, their commands change
//! the world as one batch, the beams are traced over the world as it then
//! is, the hits are applied, and the turn cycle moves on.

use crate::game_loop::{Game, GameLoopSystems, GamePhase};
use crate::health::HealthSystems;
use crate::laser_visuals::LaserVisualSystems;
use crate::lasers::beam::total_gain;
use crate::lasers::tracer::{amplification_fits, LaserPlugin, LaserReport, LaserSystems};
use crate::tiles::{acting, Command, TileSystems};
use crate::world::{World, WorldModel};
use vstd::prelude::*;

verus! {

/// The stages of a tick, in the order in which they run.
#[derive(Clone, Copy, Debug, PartialEq, Eq, Structural, Hash)]
pub enum Stage {
    TilePlacement,
    TileActivation,
    CommandApplication,
    LaserTracing,
    HitApplication,
    PhaseEvaluation,
}

impl Stage {
    /// The place of the stage in the tick, counted from zero.
    pub open spec fn spec_index(self) -> int {
        match self {
            Stage::TilePlacement => 0,
            Stage::TileActivation => 1,
            Stage::CommandApplication => 2,
            Stage::LaserTracing => 3,
            Stage::HitApplication => 4,
            Stage::PhaseEvaluation => 5,
        }
    }

    pub fn index(self) -> (index: u8)
        ensures
            index == self.spec_index(),
    {
        match self {
            Stage::TilePlacement => 0,
            Stage::TileActivation => 1,
            Stage::CommandApplication => 2,
            Stage::LaserTracing => 3,
            Stage::HitApplication => 4,
            Stage::PhaseEvaluation => 5,
        }
    }

    /// Whether this stage runs before the other in every tick.
    pub fn precedes(self, other: Stage) -> (before: bool)
        ensures
            before == (self.spec_index() < other.spec_index()),
    {
        self.index() < other.index()
    }
}

impl TileSystems {
    /// The stage at which the systems under this label run.
    pub open spec fn spec_stage(self) -> Stage {
        match self {
            TileSystems::Spawn => Stage::TilePlacement,
            TileSystems::Activate => Stage::TileActivation,
            TileSystems::OnHit => Stage::HitApplication,
        }
    }

    pub fn stage(self) -> (stage: Stage)
        ensures
            stage == self.spec_stage(),
    {
        match self {
            TileSystems::Spawn => Stage::TilePlacement,
            TileSystems::Activate => Stage::TileActivation,
            TileSystems::OnHit => Stage::HitApplication,
        }
    }
}

impl LaserSystems {
    pub fn stage(self) -> (stage: Stage)
        ensures
            stage == Stage::LaserTracing,
    {
        Stage::LaserTracing
    }
}

impl GameLoopSystems {
    pub fn stage(self) -> (stage: Stage)
        ensures
            stage == Stage::PhaseEvaluation,
    {
        Stage::PhaseEvaluation
    }
}

impl HealthSystems {
    /// Health is looked after once the hits have been applied.
    pub fn stage(self) -> (stage: Stage)
        ensures
            stage == Stage::PhaseEvaluation,
    {
        Stage::PhaseEvaluation
    }
}

impl LaserVisualSystems {
    /// The drawing is looked after when the turn cycle is.
    pub fn stage(self) -> (stage: Stage)
        ensures
            stage == Stage::PhaseEvaluation,
    {
        Stage::PhaseEvaluation
    }
}

/// The stages are ordered one after the other: of two different stages one
/// runs before the other, and none runs before itself.
pub proof fn lemma_stages_in_line(a: Stage, b: Stage, c: Stage)
    ensures
        a != b ==> (a.spec_index() < b.spec_index()) != (b.spec_index() < a.spec_index()),
        a == b <==> a.spec_index() == b.spec_index(),
        a.spec_index() < b.spec_index() && b.spec_index() < c.spec_index() ==> a.spec_index()
            < c.spec_index(),
        TileSystems::Spawn.spec_stage().spec_index()
            < TileSystems::Activate.spec_stage().spec_index(),
        TileSystems::Activate.spec_stage().spec_index() < Stage::CommandApplication.spec_index(),
        Stage::CommandApplication.spec_index() < Stage::LaserTracing.spec_index(),
        Stage::LaserTracing.spec_index() < TileSystems::OnHit.spec_stage().spec_index(),
        TileSystems::OnHit.spec_stage().spec_index() < Stage::PhaseEvaluation.spec_index(),
{
}

/// Whether the beams of every emitter in the world can be traced without
/// their strength leaving `usize`.
pub open spec fn beams_fit(world: WorldModel) -> bool {
    forall|i: int|
        0 <= i < world.lasers.len() ==> (#[trigger] world.lasers[i]).strength + total_gain(
            world.colliders,
        ) <= usize::MAX
}

/// What the acting stages of a tick gave.
#[derive(Debug)]
pub enum Acted {
    /// The game had not begun to act: nothing was done.
    Idle,
    /// The commands were carried out, but no beam was traced: the map is too
    /// large, or the amplifiers on the board hold more than a beam can carry.
    Untraceable,
    /// The commands were carried out and the beams were traced.
    Traced(LaserReport),
}

/// Runs the stages from command application to laser tracing for a game that
/// has begun to act: the commands of its tiles change the world as one
/// batch, and only then are the beams traced, over the world as the batch
/// has left it.
pub fn act(game: &Game, commands: &Vec<Command>, world: &mut World) -> (acted: Acted)
    requires
        old(world)@.countable(),
    ensures
        final(world)@.countable(),
        !acting(*game) ==> acted is Idle && final(world)@ == old(world)@,
        acting(*game) ==> {
            &&& !(acted is Idle)
            &&& final(world)@ == Command::spec_applied_all(
                commands@,
                old(world)@,
                commands@.len() as int,
            )
            &&& acted is Untraceable <==> !(game.size.spec_traceable() && beams_fit(final(world)@))
            &&& acted matches Acted::Traced(report) ==> {
                &&& report.complete == Some(
                    crate::game_loop::ActionCompleteEvent { game: game.entity },
                )
                &&& report.paths@.len() == final(world)@.lasers.len()
                &&& forall|i: int|
                    0 <= i < final(world)@.lasers.len() ==> crate::lasers::beam::path_cells(
                        (#[trigger] report.paths@[i]).path@,
                    ) == crate::lasers::beam::beam_trace(
                        final(world)@.colliders,
                        game.size.spec_beam_bound(),
                        final(world)@.lasers[i].spec_beam(),
                    ).path
                &&& report.hits@ == crate::lasers::tracer::spec_hits(
                    final(world)@.lasers,
                    final(world)@.colliders,
                    game.size.spec_beam_bound(),
                    final(world)@.lasers.len() as int,
                )
            }
        },
{
    if !(game.changed && game.phase == GamePhase::Act) {
        return Acted::Idle;
    }
    Command::apply_all(commands, world);
    if !game.size.traceable() {
        return Acted::Untraceable;
    }
    let mut i: usize = 0;
    while i < world.lasers.len()
        invariant
            i <= world.lasers.len(),
            acting(*game),
            game.size.spec_traceable(),
            world@.countable(),
            world@ == Command::spec_applied_all(commands@, old(world)@, commands@.len() as int),
            forall|j: int|
                0 <= j < i ==> (#[trigger] world.lasers@[j]).strength + total_gain(
                    world.colliders@,
                ) <= usize::MAX,
        decreases world.lasers.len() - i,
    {
        if !amplification_fits(&world.colliders, world.lasers[i].strength) {
            assert(!(world@.lasers[i as int].strength + total_gain(world@.colliders)
                <= usize::MAX));
            return Acted::Untraceable;
        }
        i += 1;
    }
    Acted::Traced(LaserPlugin::track_lasers(&world.lasers, &world.colliders, game))
}

} // verus!
