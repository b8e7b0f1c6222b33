use pewpewboom::entity::EntityRef;
use pewpewboom::game_loop::{DrawingCompleteEvent, Game, GamePhase, GamePlayers, MapSize};
use pewpewboom::hq::{HQActivate, HQTile};
use pewpewboom::laser_tower::LaserTowerActivate;
use pewpewboom::amplifier::AmplifierActivate;
use pewpewboom::laser_visuals::{LaserDrawSimulation, LaserPath, LaserVisualPlugin};
use pewpewboom::lasers::tracer::{LaserHitEvent, LaserPathEvent, LaserSystems};
use pewpewboom::lasers::{Direction, Position};
use pewpewboom::map_generator::{MapGeneratorPlugin, ObstacleMap};
use pewpewboom::mountain::MountainTile;
use pewpewboom::resource_deposit::ResourceDepositTile;
use pewpewboom::schedule::{act, Acted, Stage};
use pewpewboom::tilemap::{Tile as MapTile, TilemapEntities};
use pewpewboom::tiles::{Command, Tile, TileSpawnEvent, TileSystems};
use pewpewboom::timer::Timer;
use pewpewboom::world::World;

fn cells(path: &[(i32, i32)]) -> Vec<Position> {
    path.iter().map(|(x, y)| Position::new(*x, *y)).collect()
}

fn game(phase: GamePhase, changed: bool) -> Game {
    let mut game = Game::new(EntityRef::new(1), MapSize::default(), GamePlayers(vec![]));
    game.phase = phase;
    game.changed = changed;
    game
}

#[test]
fn the_smallest_distance_between_two_cells() {
    assert_eq!(MapGeneratorPlugin::minimum_distance(&vec![]), u32::MAX);
    assert_eq!(MapGeneratorPlugin::minimum_distance(&cells(&[(1, 1)])), u32::MAX);
    assert_eq!(MapGeneratorPlugin::minimum_distance(&cells(&[(0, 0), (3, 0)])), 3);
    assert_eq!(MapGeneratorPlugin::minimum_distance(&cells(&[(0, 0), (5, 0), (5, 2), (-4, 0)])), 2);
    assert_eq!(MapGeneratorPlugin::minimum_distance(&cells(&[(2, 2), (9, 9), (2, 2)])), 0);
}

#[test]
fn headquarters_must_stand_apart() {
    let size = MapSize { half_width: 5, half_height: 3 };
    assert!(MapGeneratorPlugin::spawns_accepted(&cells(&[(0, 0), (5, 0)]), &size));
    assert!(!MapGeneratorPlugin::spawns_accepted(&cells(&[(0, 0), (4, 0)]), &size));
    assert!(!MapGeneratorPlugin::spawns_accepted(&cells(&[(0, 0), (9, 0), (9, 1)]), &size));
    assert!(MapGeneratorPlugin::spawns_accepted(&cells(&[(0, 0)]), &size));
}

#[test]
fn headquarters_are_asked_for_player_by_player() {
    let tilemap = TilemapEntities {
        tiles: vec![(Position::new(0, 0), EntityRef::new(10)), (Position::new(4, 0), EntityRef::new(11))],
    };
    let players = vec![EntityRef::new(1), EntityRef::new(2)];
    let request = |on_tile: u64, owner: u64| TileSpawnEvent {
        tile_id: HQTile::id(),
        on_tile: EntityRef::new(on_tile),
        owner: EntityRef::new(owner),
        game: EntityRef::new(9),
    };
    let (spawns, complete) = MapGeneratorPlugin::spawn_hq(
        &players,
        &cells(&[(4, 0), (0, 0), (7, 7)]),
        &tilemap,
        EntityRef::new(9),
    );
    assert!(complete);
    assert_eq!(spawns, vec![request(11, 1), request(10, 2)]);
    let (spawns, complete) =
        MapGeneratorPlugin::spawn_hq(&players, &cells(&[(4, 0), (1, 1)]), &tilemap, EntityRef::new(9));
    assert!(!complete);
    assert_eq!(spawns, vec![request(11, 1)]);
    let (spawns, complete) =
        MapGeneratorPlugin::spawn_hq(&players, &cells(&[(1, 1), (4, 0)]), &tilemap, EntityRef::new(9));
    assert!(!complete && spawns.is_empty());
    let (spawns, complete) =
        MapGeneratorPlugin::spawn_hq(&players, &cells(&[(0, 0)]), &tilemap, EntityRef::new(9));
    assert!(complete);
    assert_eq!(spawns, vec![request(10, 1)]);
}

#[test]
fn obstacles_near_a_headquarters_give_way() {
    let mut obstacles = ObstacleMap(vec![
        MapTile::new(0, 5),
        MapTile::new(0, 6),
        MapTile::new(10, 0),
        MapTile::new(0, 0),
        MapTile::new(14, 1),
        MapTile::new(16, 0),
    ]);
    MapGeneratorPlugin::clear_obstacles(&mut obstacles, &cells(&[(0, 0), (10, 0)]));
    assert_eq!(obstacles.0, vec![MapTile::new(0, 6), MapTile::new(16, 0)]);
    MapGeneratorPlugin::clear_obstacles(&mut obstacles, &vec![]);
    assert_eq!(obstacles.0.len(), 2);
    assert_eq!(MapGeneratorPlugin::HQ_CLEARANCE, 6);
    assert_eq!(MapGeneratorPlugin::terrain_kind(true), MountainTile::id());
    assert_eq!(MapGeneratorPlugin::terrain_kind(false), ResourceDepositTile::id());
}

#[test]
fn drawings_hold_the_paths_until_all_are_drawn() {
    assert!(LaserVisualPlugin::spawn_laser_drawing(&vec![]).is_none());
    let events = vec![
        LaserPathEvent { path: cells(&[(0, 0), (0, 2)]) },
        LaserPathEvent { path: cells(&[(1, 1)]) },
    ];
    let mut simulation = LaserVisualPlugin::spawn_laser_drawing(&events).unwrap();
    assert_eq!(simulation.remaining_paths, 2);
    assert_eq!(simulation.timer, Timer::from_nanos(20_000_000_000));
    assert_eq!(simulation.paths.len(), 2);
    assert_eq!(simulation.paths[0].0, cells(&[(0, 0), (0, 2)]));
    assert_eq!(LaserPath::new(cells(&[(1, 1)])).0, simulation.paths[1].0);
    LaserVisualPlugin::tick_simulation(&mut simulation, 5);
    assert_eq!(simulation.timer.remaining, 19_999_999_995);
    assert_eq!(simulation.remaining_paths, 2);

    let done = LaserDrawSimulation { paths: vec![], timer: Timer::from_nanos(0), remaining_paths: 0 };
    let drawing = game(GamePhase::Draw, false);
    let (event, finished) = LaserVisualPlugin::clean_laser_drawing(
        &drawing,
        &vec![done.clone(), simulation.clone(), done.clone()],
    );
    assert_eq!(event, None);
    assert_eq!(finished, vec![0, 2]);
    let (event, finished) = LaserVisualPlugin::clean_laser_drawing(&drawing, &vec![]);
    assert_eq!(event, Some(DrawingCompleteEvent { game: EntityRef::new(1) }));
    assert!(finished.is_empty());
    let (event, _) = LaserVisualPlugin::clean_laser_drawing(&game(GamePhase::Act, true), &vec![]);
    assert_eq!(event, None);
}

#[test]
fn the_stages_of_a_tick_run_in_their_order() {
    let stages = [
        Stage::TilePlacement,
        Stage::TileActivation,
        Stage::CommandApplication,
        Stage::LaserTracing,
        Stage::HitApplication,
        Stage::PhaseEvaluation,
    ];
    for a in 0..6 {
        assert_eq!(stages[a].index() as usize, a);
        for b in 0..6 {
            assert_eq!(stages[a].precedes(stages[b]), a < b);
        }
    }
    assert_eq!(TileSystems::Spawn.stage(), Stage::TilePlacement);
    assert_eq!(TileSystems::Activate.stage(), Stage::TileActivation);
    assert_eq!(TileSystems::OnHit.stage(), Stage::HitApplication);
    assert!(TileSystems::Activate.stage().precedes(LaserSystems.stage()));
    assert!(LaserSystems.stage().precedes(TileSystems::OnHit.stage()));
}

#[test]
fn commands_change_the_world_before_any_beam_is_traced() {
    // A tower at the origin facing North, an amplifier one step on, and a
    // headquarters behind it: the beam of the tower is traced over all three
    // although the tower was activated first.
    let commands = vec![
        Command::LaserTowerActivate(LaserTowerActivate {
            tile: EntityRef::new(1),
            position: Position::new(0, 0),
            direction: Direction::North,
            shooter: EntityRef::new(50),
        }),
        Command::AmplifierActivate(AmplifierActivate { position: Position::new(0, 1) }),
        Command::HQActivate(HQActivate { tile: EntityRef::new(3), position: Position::new(0, 2) }),
    ];
    let mut world = World::new();
    let Acted::Traced(report) = act(&game(GamePhase::Act, true), &commands, &mut world) else {
        panic!("the beams of an acting game are traced");
    };
    assert_eq!(
        report.hits,
        vec![LaserHitEvent {
            strength: 2,
            consumer: EntityRef::new(3),
            shooter: EntityRef::new(50)
        }]
    );
    assert_eq!(report.paths.len(), 1);
    assert_eq!(report.paths[0].path, cells(&[(0, 0), (0, 1), (0, 2)]));
    assert_eq!(world.colliders.len(), 3);

    let mut untouched = World::new();
    assert!(matches!(act(&game(GamePhase::Act, false), &commands, &mut untouched), Acted::Idle));
    assert!(matches!(act(&game(GamePhase::Draw, true), &commands, &mut untouched), Acted::Idle));
    assert!(untouched.colliders.is_empty() && untouched.lasers.is_empty());

    let mut vast = game(GamePhase::Act, true);
    vast.size = MapSize { half_width: usize::MAX, half_height: 1 };
    assert!(matches!(act(&vast, &commands, &mut untouched), Acted::Untraceable));
    assert_eq!(untouched.colliders.len(), 3);
}
