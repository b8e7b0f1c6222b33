use pewpewboom::entity::EntityRef;
use pewpewboom::game_loop::{
    contains_entity, copy_entities, ActionCompleteEvent, DrawingCompleteEvent, Game,
    GameInstanceBundle, GameLoopPlugin, GamePhase, GamePlayers, InGame, MapSize, Pause,
    PauseTimer, PhaseSignal,
};
use pewpewboom::lasers::Position;
use pewpewboom::timer::Timer;

const PHASES: [GamePhase; 5] = [
    GamePhase::Choose,
    GamePhase::PreActPause,
    GamePhase::Act,
    GamePhase::Draw,
    GamePhase::PostDrawPause,
];

const SIGNALS: [PhaseSignal; 5] = [
    PhaseSignal::AllReady,
    PhaseSignal::PauseFinished(Pause::PreAct),
    PhaseSignal::ActionComplete,
    PhaseSignal::DrawingComplete,
    PhaseSignal::PauseFinished(Pause::PostDraw),
];

fn players() -> Vec<EntityRef> {
    vec![EntityRef::new(11), EntityRef::new(12)]
}

fn game() -> Game {
    Game::new(EntityRef::new(1), MapSize::default(), GamePlayers(players()))
}

#[test]
fn a_game_starts_in_choose() {
    assert_eq!(GamePhase::default(), GamePhase::Choose);
    let bundle = GameInstanceBundle::default();
    assert_eq!(bundle.phase, GamePhase::Choose);
    assert_eq!(bundle.size, MapSize { half_width: 5, half_height: 5 });
    let game = game();
    assert_eq!(game.phase, GamePhase::Choose);
    assert!(game.pause.is_none());
    assert_eq!(InGame::new(EntityRef::new(4)).inner(), EntityRef::new(4));
}

#[test]
fn each_phase_ends_on_its_own_signal_only() {
    for place in 0..5 {
        assert_eq!(PHASES[place].successor(), PHASES[(place + 1) % 5]);
        assert_eq!(PHASES[place].awaits(), SIGNALS[place]);
        for signal in SIGNALS {
            let expected = if signal == SIGNALS[place] {
                PHASES[(place + 1) % 5]
            } else {
                PHASES[place]
            };
            assert_eq!(PHASES[place].after(signal), expected);
        }
    }
    assert_eq!(GamePhase::PreActPause.pause(), Some(Pause::PreAct));
    assert_eq!(GamePhase::PostDrawPause.pause(), Some(Pause::PostDraw));
    assert_eq!(GamePhase::Act.pause(), None);
}

#[test]
fn full_round_trip_through_the_five_phases() {
    let mut game = game();
    let second = 1_000_000_000u64;

    // Choose: nothing happens until every player is ready.
    GameLoopPlugin::begin_tick(&mut game);
    let cleared = GameLoopPlugin::complete_choose_phase(&mut game, &vec![EntityRef::new(11)]);
    assert!(cleared.is_empty());
    assert_eq!(game.phase, GamePhase::Choose);
    assert!(!game.changed);
    let cleared = GameLoopPlugin::complete_choose_phase(&mut game, &players());
    assert_eq!(cleared, players());
    assert_eq!(game.phase, GamePhase::PreActPause);
    assert!(game.changed);

    // The pause starts, and lasts two seconds.
    GameLoopPlugin::spawn_pauses(&mut game);
    assert_eq!(
        game.pause,
        Some(PauseTimer { pause: Pause::PreAct, timer: Timer { remaining: 2 * second } })
    );
    GameLoopPlugin::tick_pauses(&mut game, second);
    GameLoopPlugin::exit_pause(&mut game);
    assert_eq!(game.phase, GamePhase::PreActPause);
    GameLoopPlugin::begin_tick(&mut game);
    GameLoopPlugin::spawn_pauses(&mut game);
    GameLoopPlugin::tick_pauses(&mut game, second);
    assert_eq!(game.pause.map(|pause| pause.timer.remaining), Some(0));
    GameLoopPlugin::exit_pause(&mut game);
    assert_eq!(game.phase, GamePhase::Act);
    assert!(game.changed);
    assert_eq!(game.pause, None);

    // Act: only the completion of this game's action ends it.
    GameLoopPlugin::begin_tick(&mut game);
    let drawn = vec![DrawingCompleteEvent { game: EntityRef::new(1) }];
    GameLoopPlugin::complete_drawing_phase(&mut game, &drawn);
    assert_eq!(game.phase, GamePhase::Act);
    let other = vec![ActionCompleteEvent { game: EntityRef::new(2) }];
    GameLoopPlugin::complete_action_phase(&mut game, &other);
    assert_eq!(game.phase, GamePhase::Act);
    let traced = vec![
        ActionCompleteEvent { game: EntityRef::new(2) },
        ActionCompleteEvent { game: EntityRef::new(1) },
    ];
    GameLoopPlugin::complete_action_phase(&mut game, &traced);
    assert_eq!(game.phase, GamePhase::Draw);
    GameLoopPlugin::spawn_pauses(&mut game);
    assert_eq!(game.pause, None);

    // Draw.
    GameLoopPlugin::begin_tick(&mut game);
    GameLoopPlugin::complete_action_phase(&mut game, &traced);
    assert_eq!(game.phase, GamePhase::Draw);
    GameLoopPlugin::complete_drawing_phase(&mut game, &drawn);
    assert_eq!(game.phase, GamePhase::PostDrawPause);

    // The second pause.
    GameLoopPlugin::spawn_pauses(&mut game);
    assert_eq!(game.pause.map(|pause| pause.pause), Some(Pause::PostDraw));
    GameLoopPlugin::tick_pauses(&mut game, 3 * second);
    GameLoopPlugin::exit_pause(&mut game);
    assert_eq!(game.phase, GamePhase::Choose);
    assert_eq!(game.pause, None);
}

#[test]
fn a_game_without_players_is_ready_at_once() {
    let mut game = Game::new(EntityRef::new(1), MapSize::default(), GamePlayers(vec![]));
    let cleared = GameLoopPlugin::complete_choose_phase(&mut game, &vec![]);
    assert!(cleared.is_empty());
    assert_eq!(game.phase, GamePhase::PreActPause);
}

#[test]
fn a_timer_of_the_wrong_pause_moves_nothing() {
    let mut game = game();
    game.phase = GamePhase::PostDrawPause;
    game.pause = Some(PauseTimer { pause: Pause::PreAct, timer: Timer { remaining: 0 } });
    GameLoopPlugin::exit_pause(&mut game);
    assert_eq!(game.phase, GamePhase::PostDrawPause);
    assert_eq!(game.pause, None);
    assert!(!game.signal(PhaseSignal::AllReady));
    assert!(game.signal(PhaseSignal::PauseFinished(Pause::PostDraw)));
    assert_eq!(game.phase, GamePhase::Choose);
}

#[test]
fn timers_count_down_to_zero_and_stay() {
    let mut timer = Timer::from_nanos(10);
    assert!(!timer.finished());
    timer.tick(4);
    assert_eq!(timer.remaining, 6);
    timer.tick(6);
    assert!(timer.finished());
    timer.tick(u64::MAX);
    assert_eq!(timer.remaining, 0);
    let mut late = Timer::from_nanos(5);
    late.tick(9);
    assert!(late.finished());
    assert_eq!(PauseTimer::new(Pause::PostDraw).timer.remaining, 2_000_000_000);
}

#[test]
fn rectangle_index_counts_from_the_corner() {
    let size = MapSize { half_width: 2, half_height: 3 };
    assert_eq!(size.rectangle_index(&Position::new(0, 0)), (2, 3));
    assert_eq!(size.rectangle_index(&Position::new(-2, -2)), (0, 0));
    assert_eq!(size.rectangle_index(&Position::new(2, 2)), (4, 6));
    assert_eq!(size.rectangle_index(&Position::new(-1, 1)), (1, 3));
    assert_eq!(size.rectangle_index(&Position::new(1, 3)), (3, 6));
    assert!(size.contains(&Position::new(-1, 4)));
    assert!(!size.contains(&Position::new(-1, 5)));
    assert!(!size.contains(&Position::new(3, 0)));
    assert!(size.contains(&Position::new(-2, -2)));
    assert!(!size.contains(&Position::new(-2, -3)));
}

#[test]
fn map_sizes_that_can_be_traced() {
    assert!(MapSize::default().traceable());
    assert!(MapSize { half_width: 0x0aaa_aaaa, half_height: 0 }.traceable());
    assert!(!MapSize { half_width: 0x0aaa_aaab, half_height: 0 }.traceable());
    assert!(!MapSize { half_width: 0, half_height: usize::MAX }.traceable());
    assert_eq!(MapSize::MAX_BEAM_BOUND, 0x1fff_ffff);
}

#[test]
fn entity_lists() {
    let list = players();
    assert!(contains_entity(&list, EntityRef::new(12)));
    assert!(!contains_entity(&list, EntityRef::new(13)));
    assert_eq!(copy_entities(&list), list);
}
