//! The turn cycle of a game: five phases, run through in a fixed order, and
//! the two timed pauses among them.

use crate::entity::EntityRef;
use crate::lasers::position::Position;
use crate::timer::Timer;
use vstd::prelude::*;

verus! {

/// The phase a game is in. A game starts in `Choose`.
#[derive(Clone, Copy, Debug, PartialEq, Eq, Structural, Hash)]
pub enum GamePhase {
    Choose,
    Act,
    PreActPause,
    Draw,
    PostDrawPause,
}

/// Which of the two pauses a timer is running.
#[derive(Clone, Copy, Debug, PartialEq, Eq, Structural, Hash)]
pub enum Pause {
    PreAct,
    PostDraw,
}

/// What can move a game on to its next phase.
#[derive(Clone, Copy, Debug, PartialEq, Eq, Structural, Hash)]
pub enum PhaseSignal {
    /// Every player of the game is ready.
    AllReady,
    /// The timer of the given pause has run out.
    PauseFinished(Pause),
    /// All beams of the game have been traced.
    ActionComplete,
    /// All beams of the game have been drawn.
    DrawingComplete,
}

impl Default for GamePhase {
    fn default() -> (phase: GamePhase)
        ensures
            phase == GamePhase::Choose,
    {
        GamePhase::Choose
    }
}

impl GamePhase {
    /// The phase that follows this one in the cycle.
    pub open spec fn spec_successor(self) -> GamePhase {
        match self {
            GamePhase::Choose => GamePhase::PreActPause,
            GamePhase::PreActPause => GamePhase::Act,
            GamePhase::Act => GamePhase::Draw,
            GamePhase::Draw => GamePhase::PostDrawPause,
            GamePhase::PostDrawPause => GamePhase::Choose,
        }
    }

    /// The one signal that ends this phase.
    pub open spec fn spec_awaits(self) -> PhaseSignal {
        match self {
            GamePhase::Choose => PhaseSignal::AllReady,
            GamePhase::PreActPause => PhaseSignal::PauseFinished(Pause::PreAct),
            GamePhase::Act => PhaseSignal::ActionComplete,
            GamePhase::Draw => PhaseSignal::DrawingComplete,
            GamePhase::PostDrawPause => PhaseSignal::PauseFinished(Pause::PostDraw),
        }
    }

    /// The phase after `signal` has been seen: the successor if this phase was
    /// waiting for that signal, the same phase if not.
    pub open spec fn spec_after(self, signal: PhaseSignal) -> GamePhase {
        if signal == self.spec_awaits() {
            self.spec_successor()
        } else {
            self
        }
    }

    /// The pause that starts when this phase is entered, if it is one of the
    /// two pauses.
    pub open spec fn spec_pause(self) -> Option<Pause> {
        match self {
            GamePhase::PreActPause => Some(Pause::PreAct),
            GamePhase::PostDrawPause => Some(Pause::PostDraw),
            _ => None,
        }
    }

    pub fn successor(self) -> (next: GamePhase)
        ensures
            next == self.spec_successor(),
    {
        match self {
            GamePhase::Choose => GamePhase::PreActPause,
            GamePhase::PreActPause => GamePhase::Act,
            GamePhase::Act => GamePhase::Draw,
            GamePhase::Draw => GamePhase::PostDrawPause,
            GamePhase::PostDrawPause => GamePhase::Choose,
        }
    }

    pub fn awaits(self) -> (signal: PhaseSignal)
        ensures
            signal == self.spec_awaits(),
    {
        match self {
            GamePhase::Choose => PhaseSignal::AllReady,
            GamePhase::PreActPause => PhaseSignal::PauseFinished(Pause::PreAct),
            GamePhase::Act => PhaseSignal::ActionComplete,
            GamePhase::Draw => PhaseSignal::DrawingComplete,
            GamePhase::PostDrawPause => PhaseSignal::PauseFinished(Pause::PostDraw),
        }
    }

    pub fn after(self, signal: PhaseSignal) -> (next: GamePhase)
        ensures
            next == self.spec_after(signal),
    {
        if signal == self.awaits() {
            self.successor()
        } else {
            self
        }
    }

    pub fn pause(self) -> (pause: Option<Pause>)
        ensures
            pause == self.spec_pause(),
    {
        match self {
            GamePhase::PreActPause => Some(Pause::PreAct),
            GamePhase::PostDrawPause => Some(Pause::PostDraw),
            _ => None,
        }
    }
}

/// No signal makes a game skip a phase: it stays where it is or moves to the
/// phase that follows.
pub proof fn lemma_no_phase_skipped(phase: GamePhase, signal: PhaseSignal)
    ensures
        phase.spec_after(signal) == phase || phase.spec_after(signal) == phase.spec_successor(),
        phase.spec_after(signal) != phase <==> signal == phase.spec_awaits(),
{
}

/// The five signals, each given in the phase that waits for it, lead a game
/// from any phase through the other four and back to where it started.
pub proof fn lemma_phase_cycle(phase: GamePhase)
    ensures
        ({
            let second = phase.spec_after(phase.spec_awaits());
            let third = second.spec_after(second.spec_awaits());
            let fourth = third.spec_after(third.spec_awaits());
            let fifth = fourth.spec_after(fourth.spec_awaits());
            &&& fifth.spec_after(fifth.spec_awaits()) == phase
            &&& phase != second && phase != third && phase != fourth && phase != fifth
            &&& second != third && second != fourth && second != fifth
            &&& third != fourth && third != fifth
            &&& fourth != fifth
        }),
{
}

/// From `Choose`: all players ready, the first pause over, the beams traced,
/// the beams drawn, the second pause over, and the game is in `Choose` again.
pub proof fn lemma_round_trip_from_choose()
    ensures
        GamePhase::Choose.spec_after(PhaseSignal::AllReady) == GamePhase::PreActPause,
        GamePhase::PreActPause.spec_after(PhaseSignal::PauseFinished(Pause::PreAct))
            == GamePhase::Act,
        GamePhase::Act.spec_after(PhaseSignal::ActionComplete) == GamePhase::Draw,
        GamePhase::Draw.spec_after(PhaseSignal::DrawingComplete) == GamePhase::PostDrawPause,
        GamePhase::PostDrawPause.spec_after(PhaseSignal::PauseFinished(Pause::PostDraw))
            == GamePhase::Choose,
{
}

/// How far the map reaches from its centre, in columns and in rows.
#[derive(Clone, Copy, Debug, PartialEq, Eq, Structural)]
pub struct MapSize {
    pub half_width: usize,
    pub half_height: usize,
}

impl Default for MapSize {
    fn default() -> (size: MapSize)
        ensures
            size.half_width == 5,
            size.half_height == 5,
    {
        MapSize { half_width: 5, half_height: 5 }
    }
}

impl MapSize {
    /// The largest bound within which beams are followed.
    pub const MAX_BEAM_BOUND: u32 = 0x1fff_ffff;

    /// The distance from the origin beyond which a beam has left the map:
    /// three times the larger half extent.
    pub open spec fn spec_beam_bound(self) -> int {
        if self.half_width >= self.half_height {
            3 * self.half_width
        } else {
            3 * self.half_height
        }
    }

    /// Whether beams can be followed to the bound without leaving the
    /// coordinates that a position can store.
    pub open spec fn spec_traceable(self) -> bool {
        self.spec_beam_bound() <= MapSize::MAX_BEAM_BOUND
    }

    pub fn traceable(&self) -> (traceable: bool)
        ensures
            traceable == self.spec_traceable(),
    {
        self.half_width <= 0x0aaa_aaaa && self.half_height <= 0x0aaa_aaaa
    }

    pub fn beam_bound(&self) -> (bound: u32)
        requires
            self.spec_traceable(),
        ensures
            bound == self.spec_beam_bound(),
    {
        if self.half_width >= self.half_height {
            (3 * self.half_width) as u32
        } else {
            (3 * self.half_height) as u32
        }
    }

    /// Whether the cell lies in the rectangle of the map: its column within
    /// the half width of the centre, and its row, counted from the top of
    /// that column, within the half height.
    pub open spec fn spec_contains(self, hex: Position) -> bool {
        &&& -self.half_width <= hex.x <= self.half_width
        &&& -self.half_height <= hex.y + hex.x / 2 <= self.half_height
    }

    pub fn contains(&self, hex: &Position) -> (inside: bool)
        ensures
            inside == self.spec_contains(*hex),
    {
        let x = hex.x as i128;
        let y = hex.y as i128;
        let column = if x >= 0 {
            x / 2
        } else {
            -((1 - x) / 2)
        };
        -(self.half_width as i128) <= x && x <= self.half_width as i128 && -(self.half_height as i128)
            <= y + column && y + column <= self.half_height as i128
    }

    /// Column and row of a cell of the map, counted from the left and from
    /// the top of the rectangle.
    pub fn rectangle_index(&self, hex: &Position) -> (index: (usize, usize))
        requires
            self.spec_traceable(),
            self.spec_contains(*hex),
        ensures
            index.0 == hex.x + self.half_width,
            index.1 == hex.y + hex.x / 2 + self.half_height,
    {
        let x = hex.x as i128;
        let y = hex.y as i128;
        let column = if x >= 0 {
            x / 2
        } else {
            -((1 - x) / 2)
        };
        ((x + self.half_width as i128) as usize, (y + column + self.half_height as i128) as usize)
    }
}

/// The players of a game, in the order in which they joined.
#[derive(Clone, Debug)]
pub struct GamePlayers(pub Vec<EntityRef>);

/// The game that a player or a tile belongs to.
#[derive(Clone, Copy, Debug, PartialEq, Eq, Structural, Hash)]
pub struct InGame(pub EntityRef);

impl InGame {
    pub fn new(entity: EntityRef) -> (in_game: InGame)
        ensures
            in_game.0 == entity,
    {
        InGame(entity)
    }

    pub fn inner(&self) -> (entity: EntityRef)
        ensures
            entity == self.0,
    {
        self.0
    }
}

/// A request to start a game on a map of the given radius.
#[derive(Clone, Copy, Debug, PartialEq, Eq, Structural)]
pub struct SpawnGame {
    pub instance: EntityRef,
    pub radius: u32,
}

/// Marks the games among the things of the world.
#[derive(Clone, Copy, Debug, PartialEq, Eq, Structural)]
pub struct GameInstance;

/// Marks the players.
#[derive(Clone, Copy, Debug, PartialEq, Eq, Structural)]
pub struct Player;

/// Marks a player who has finished choosing.
#[derive(Clone, Copy, Debug, PartialEq, Eq, Structural)]
pub struct Ready;

/// What a new game starts with.
#[derive(Clone, Copy, Debug, PartialEq, Eq, Structural)]
pub struct GameInstanceBundle {
    pub instance: GameInstance,
    pub phase: GamePhase,
    pub size: MapSize,
}

impl Default for GameInstanceBundle {
    fn default() -> (bundle: GameInstanceBundle)
        ensures
            bundle.phase == GamePhase::Choose,
            bundle.size == (MapSize { half_width: 5, half_height: 5 }),
    {
        GameInstanceBundle {
            instance: GameInstance,
            phase: GamePhase::Choose,
            size: MapSize { half_width: 5, half_height: 5 },
        }
    }
}

/// Tells that every beam of `game` has been traced in this tick.
#[derive(Clone, Copy, Debug, PartialEq, Eq, Structural)]
pub struct ActionCompleteEvent {
    pub game: EntityRef,
}

/// Tells that every beam of `game` has been drawn.
#[derive(Clone, Copy, Debug, PartialEq, Eq, Structural)]
pub struct DrawingCompleteEvent {
    pub game: EntityRef,
}

/// A pause under way: which one, and the timer that ends it.
#[derive(Clone, Copy, Debug, PartialEq, Eq, Structural)]
pub struct PauseTimer {
    pub pause: Pause,
    pub timer: Timer,
}

impl PauseTimer {
    /// How long either pause lasts: two seconds, in nanoseconds.
    pub const DURATION: u64 = 2_000_000_000;

    pub fn new(pause: Pause) -> (timer: PauseTimer)
        ensures
            timer == (PauseTimer { pause, timer: Timer { remaining: PauseTimer::DURATION } }),
    {
        PauseTimer { pause, timer: Timer::from_nanos(PauseTimer::DURATION) }
    }
}

/// One game: its phase, its map, its players and the pause it may be in.
#[derive(Clone, Debug)]
pub struct Game {
    pub entity: EntityRef,
    pub phase: GamePhase,
    /// Whether the phase was entered during the tick that is running.
    pub changed: bool,
    pub size: MapSize,
    pub players: GamePlayers,
    pub pause: Option<PauseTimer>,
}

/// Whether every one of the first `n` players is among those that are ready.
pub open spec fn all_ready(players: Seq<EntityRef>, ready: Seq<EntityRef>, n: int) -> bool {
    forall|i: int| 0 <= i < n ==> ready.contains(#[trigger] players[i])
}

impl Game {
    /// A game that has just been made, in `Choose`.
    pub fn new(entity: EntityRef, size: MapSize, players: GamePlayers) -> (game: Game)
        ensures
            game.entity == entity,
            game.phase == GamePhase::Choose,
            game.changed,
            game.size == size,
            game.players.0@ == players.0@,
            game.pause is None,
    {
        Game { entity, phase: GamePhase::Choose, changed: true, size, players, pause: None }
    }

    /// The game after `signal`: in the next phase and marked as changed if it
    /// was waiting for that signal, as it was if not.
    pub open spec fn spec_signalled(self, signal: PhaseSignal) -> Game {
        if signal == self.phase.spec_awaits() {
            Game { phase: self.phase.spec_successor(), changed: true, ..self }
        } else {
            self
        }
    }

    pub fn signal(&mut self, signal: PhaseSignal) -> (moved: bool)
        ensures
            *final(self) == old(self).spec_signalled(signal),
            moved == (signal == old(self).phase.spec_awaits()),
    {
        if signal == self.phase.awaits() {
            self.phase = self.phase.successor();
            self.changed = true;
            true
        } else {
            false
        }
    }
}

/// The labels under which the systems of the turn cycle run.
#[derive(Clone, Copy, Debug, PartialEq, Eq, Structural, Hash)]
pub struct GameLoopSystems;

/// The systems of the turn cycle. They run once per tick, in the order in
/// which they stand here.
pub struct GameLoopPlugin;

impl GameLoopPlugin {
    /// Starts a tick: nothing has changed yet.
    pub fn begin_tick(game: &mut Game)
        ensures
            *final(game) == (Game { changed: false, ..*old(game) }),
    {
        game.changed = false;
    }

    /// Ends the choosing once every player of the game is ready. Returns the
    /// players whose readiness is to be cleared: all of them if the phase
    /// ended, none if not.
    pub fn complete_choose_phase(game: &mut Game, ready: &Vec<EntityRef>) -> (cleared: Vec<
        EntityRef,
    >)
        ensures
            ({
                let ends = old(game).phase == GamePhase::Choose && all_ready(
                    old(game).players.0@,
                    ready@,
                    old(game).players.0@.len() as int,
                );
                &&& *final(game) == if ends {
                    old(game).spec_signalled(PhaseSignal::AllReady)
                } else {
                    *old(game)
                }
                &&& cleared@ == if ends {
                    old(game).players.0@
                } else {
                    Seq::empty()
                }
            }),
    {
        if game.phase != GamePhase::Choose {
            return Vec::new();
        }
        let mut i: usize = 0;
        while i < game.players.0.len()
            invariant
                i <= game.players.0.len(),
                all_ready(game.players.0@, ready@, i as int),
                *game == *old(game),
            decreases game.players.0.len() - i,
        {
            if !contains_entity(ready, game.players.0[i]) {
                return Vec::new();
            }
            i += 1;
        }
        game.signal(PhaseSignal::AllReady);
        copy_entities(&game.players.0)
    }

    /// Ends the acting once the tracer has told that the beams of this game
    /// are traced.
    pub fn complete_action_phase(game: &mut Game, events: &Vec<ActionCompleteEvent>)
        ensures
            *final(game) == if exists|i: int|
                0 <= i < events@.len() && (#[trigger] events@[i]).game == old(game).entity {
                old(game).spec_signalled(PhaseSignal::ActionComplete)
            } else {
                *old(game)
            },
    {
        let mut i: usize = 0;
        while i < events.len()
            invariant
                i <= events.len(),
                forall|j: int| 0 <= j < i ==> (#[trigger] events@[j]).game != game.entity,
                *game == *old(game),
            decreases events.len() - i,
        {
            if events[i].game == game.entity {
                game.signal(PhaseSignal::ActionComplete);
                return ;
            }
            i += 1;
        }
    }

    /// Ends the drawing once the beams of this game are drawn.
    pub fn complete_drawing_phase(game: &mut Game, events: &Vec<DrawingCompleteEvent>)
        ensures
            *final(game) == if exists|i: int|
                0 <= i < events@.len() && (#[trigger] events@[i]).game == old(game).entity {
                old(game).spec_signalled(PhaseSignal::DrawingComplete)
            } else {
                *old(game)
            },
    {
        let mut i: usize = 0;
        while i < events.len()
            invariant
                i <= events.len(),
                forall|j: int| 0 <= j < i ==> (#[trigger] events@[j]).game != game.entity,
                *game == *old(game),
            decreases events.len() - i,
        {
            if events[i].game == game.entity {
                game.signal(PhaseSignal::DrawingComplete);
                return ;
            }
            i += 1;
        }
    }

    /// Starts the timer of a pause that the game has entered in this tick.
    pub fn spawn_pauses(game: &mut Game)
        ensures
            *final(game) == if old(game).changed && old(game).phase.spec_pause() is Some {
                Game {
                    pause: Some(
                        PauseTimer {
                            pause: old(game).phase.spec_pause()->0,
                            timer: Timer { remaining: PauseTimer::DURATION },
                        },
                    ),
                    ..*old(game)
                }
            } else {
                *old(game)
            },
    {
        if game.changed {
            if let Some(pause) = game.phase.pause() {
                game.pause = Some(PauseTimer::new(pause));
            }
        }
    }

    /// Lets `delta` nanoseconds pass for the pause of the game.
    pub fn tick_pauses(game: &mut Game, delta: u64)
        ensures
            *final(game) == (Game {
                pause: match old(game).pause {
                    Some(pause) => Some(
                        PauseTimer { pause: pause.pause, timer: pause.timer.spec_ticked(delta) },
                    ),
                    None => None,
                },
                ..*old(game)
            }),
    {
        if let Some(pause) = game.pause {
            let mut timer = pause.timer;
            timer.tick(delta);
            game.pause = Some(PauseTimer { pause: pause.pause, timer });
        }
    }

    /// Ends a pause whose time has run out: the timer is removed, and the
    /// game moves on if it was in the phase of that pause.
    pub fn exit_pause(game: &mut Game)
        ensures
            *final(game) == match old(game).pause {
                Some(pause) if pause.timer.spec_finished() => (Game {
                    pause: None,
                    ..*old(game)
                }).spec_signalled(PhaseSignal::PauseFinished(pause.pause)),
                _ => *old(game),
            },
    {
        if let Some(pause) = game.pause {
            if pause.timer.finished() {
                game.pause = None;
                game.signal(PhaseSignal::PauseFinished(pause.pause));
            }
        }
    }
}

/// Whether the entity is in the list.
pub fn contains_entity(entities: &Vec<EntityRef>, entity: EntityRef) -> (found: bool)
    ensures
        found == entities@.contains(entity),
{
    let mut i: usize = 0;
    while i < entities.len()
        invariant
            i <= entities.len(),
            forall|j: int| 0 <= j < i ==> entities@[j] != entity,
        decreases entities.len() - i,
    {
        if entities[i] == entity {
            return true;
        }
        i += 1;
    }
    false
}

/// A copy of the list.
pub fn copy_entities(entities: &Vec<EntityRef>) -> (copy: Vec<EntityRef>)
    ensures
        copy@ == entities@,
{
    let mut copy: Vec<EntityRef> = Vec::new();
    let mut i: usize = 0;
    while i < entities.len()
        invariant
            i <= entities.len(),
            copy@ == entities@.take(i as int),
        decreases entities.len() - i,
    {
        copy.push(entities[i]);
        assert(entities@.take(i as int + 1) == entities@.take(i as int).push(entities@[i as int]));
        i += 1;
    }
    assert(entities@.take(entities@.len() as int) == entities@);
    copy
}

} // verus!
