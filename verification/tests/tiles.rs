use pewpewboom::amplifier::{AmplifierActivate, AmplifierSpawn, AmplifierTile};
use pewpewboom::entity::EntityRef;
use pewpewboom::game_loop::{Game, GamePhase, GamePlayers, InGame, MapSize};
use pewpewboom::health::Health;
use pewpewboom::hq::{HQActivate, HQOnHit, HQSpawn, HQTile};
use pewpewboom::laser_tower::{LaserTower, LaserTowerActivate, LaserTowerOnHit, LaserTowerSpawn};
use pewpewboom::lasers::tracer::{LaserEmitter, LaserHitEvent, Shooter};
use pewpewboom::lasers::{
    Amplification, Collider, Consumption, Direction, Position, Reflection, Refraction, Rotation,
};
use pewpewboom::merchandise::Money;
use pewpewboom::mountain::{MountainActivate, MountainOnHit, MountainSpawn, MountainTile};
use pewpewboom::reflector::{ReflectorActivate, ReflectorSpawn, ReflectorTile};
use pewpewboom::refractor::{RefractorActivate, RefractorOnHit, RefractorSpawn, RefractorTile};
use pewpewboom::resource_deposit::{
    ResourceDepositActivate, ResourceDepositOnHit, ResourceDepositSpawn, ResourceDepositTile,
};
use pewpewboom::rotater::{RotaterActivate, RotaterSpawn, RotaterTile};
use pewpewboom::tilemap::{TargetedTile, Tile as MapTile, TilemapEntities, TilemapPlugin};
use pewpewboom::tiles::{
    ActivationError, Command, Missing, Owner, PlacedTile, Placement, SpawnCommand, Tile, TileId,
    TileParameters, TilePlugin, TileSpawnEvent, TilesPlugin,
};
use pewpewboom::world::{Account, World};

fn entity(id: u64) -> EntityRef {
    EntityRef::new(id)
}

fn game(id: u64, phase: GamePhase, changed: bool) -> Game {
    let mut game = Game::new(entity(id), MapSize::default(), GamePlayers(vec![]));
    game.phase = phase;
    game.changed = changed;
    game
}

fn placed<T>(id: u64, tile: T, x: i32, y: i32, in_game: u64) -> PlacedTile<T> {
    PlacedTile {
        entity: entity(id),
        position: Position::new(x, y),
        direction: None,
        rotation: None,
        amplification: None,
        owner: None,
        tile,
        in_game: InGame::new(entity(in_game)),
    }
}

fn parameters(direction: Option<Direction>, rotation: Option<Rotation>) -> TileParameters {
    TileParameters { position: Position::new(1, 2), direction, rotation, amplification: None }
}

#[test]
fn the_kinds_of_tile_have_different_numbers() {
    let ids = [
        HQTile::id(),
        MountainTile::id(),
        ResourceDepositTile::id(),
        LaserTower::id(),
        ReflectorTile::id(),
        RefractorTile::id(),
        RotaterTile::id(),
        AmplifierTile::id(),
    ];
    for a in 0..ids.len() {
        for b in 0..ids.len() {
            assert_eq!(ids[a] == ids[b], a == b);
        }
    }
}

#[test]
fn tile_parameters_copy_what_they_are_given() {
    let position = Position::new(3, 4);
    let rotation = Rotation::new(2);
    let amplification = Amplification::new(1);
    assert_eq!(
        TileParameters::new(&position, Some(&Direction::South), None, Some(&amplification)),
        TileParameters {
            position,
            direction: Some(Direction::South),
            rotation: None,
            amplification: Some(amplification),
        }
    );
    assert_eq!(
        TileParameters::new(&position, None, Some(&rotation), None).rotation,
        Some(rotation)
    );
    assert_eq!(
        TileParameters::from_position(&position),
        TileParameters { position, direction: None, rotation: None, amplification: None }
    );
    assert_eq!(Owner::new(entity(3)).0, entity(3));
}

#[test]
fn tiles_that_need_nothing_always_activate() {
    let none = parameters(None, None);
    assert_eq!(
        HQTile.activate(entity(1), none, None),
        Ok(Command::HQActivate(HQActivate { tile: entity(1), position: none.position }))
    );
    assert_eq!(
        MountainTile.activate(entity(1), none, None),
        Ok(Command::MountainActivate(MountainActivate {
            tile: entity(1),
            position: none.position
        }))
    );
    assert_eq!(
        ResourceDepositTile.activate(entity(1), none, None),
        Ok(Command::ResourceDepositActivate(ResourceDepositActivate {
            tile: entity(1),
            position: none.position
        }))
    );
    assert_eq!(
        AmplifierTile.activate(entity(1), none, None),
        Ok(Command::AmplifierActivate(AmplifierActivate { position: none.position }))
    );
}

#[test]
fn a_tile_without_what_it_needs_is_not_activated() {
    let none = parameters(None, None);
    let north = parameters(Some(Direction::North), None);
    let turned = parameters(None, Some(Rotation::new(3)));
    let lacks = |kind: TileId, missing: Missing| ActivationError { tile: entity(1), kind, missing };

    assert_eq!(
        LaserTower.activate(entity(1), none, Some(entity(2))),
        Err(lacks(LaserTower::id(), Missing::Direction))
    );
    assert_eq!(
        LaserTower.activate(entity(1), none, None),
        Err(lacks(LaserTower::id(), Missing::Direction))
    );
    assert_eq!(
        LaserTower.activate(entity(1), north, None),
        Err(lacks(LaserTower::id(), Missing::Owner))
    );
    assert_eq!(
        LaserTower.activate(entity(1), north, Some(entity(2))),
        Ok(Command::LaserTowerActivate(LaserTowerActivate {
            tile: entity(1),
            position: north.position,
            direction: Direction::North,
            shooter: entity(2),
        }))
    );
    assert_eq!(
        ReflectorTile.activate(entity(1), turned, None),
        Err(lacks(ReflectorTile::id(), Missing::Direction))
    );
    assert_eq!(
        ReflectorTile.activate(entity(1), north, None),
        Ok(Command::ReflectorActivate(ReflectorActivate {
            position: north.position,
            direction: Direction::North
        }))
    );
    assert_eq!(
        RefractorTile.activate(entity(1), none, None),
        Err(lacks(RefractorTile::id(), Missing::Direction))
    );
    assert_eq!(
        RefractorTile.activate(entity(1), north, None),
        Ok(Command::RefractorActivate(RefractorActivate {
            tile: entity(1),
            position: north.position,
            direction: Direction::North
        }))
    );
    assert_eq!(
        RotaterTile.activate(entity(1), north, None),
        Err(lacks(RotaterTile::id(), Missing::Rotation))
    );
    assert_eq!(
        RotaterTile.activate(entity(1), turned, None),
        Ok(Command::RotaterActivate(RotaterActivate {
            position: turned.position,
            rotation: Rotation::new(3)
        }))
    );
}

#[test]
fn which_tiles_answer_a_hit() {
    assert_eq!(
        HQTile.on_hit(entity(1), 3, entity(2)),
        Some(Command::HQOnHit(HQOnHit { tile: entity(1), strength: 3, shooter: entity(2) }))
    );
    assert_eq!(
        MountainTile.on_hit(entity(1), 3, entity(2)),
        Some(Command::MountainOnHit(MountainOnHit {
            tile: entity(1),
            strength: 3,
            shooter: entity(2)
        }))
    );
    assert_eq!(
        ResourceDepositTile.on_hit(entity(1), 3, entity(2)),
        Some(Command::ResourceDepositOnHit(ResourceDepositOnHit {
            tile: entity(1),
            strength: 3,
            shooter: entity(2)
        }))
    );
    assert_eq!(
        RefractorTile.on_hit(entity(1), 3, entity(2)),
        Some(Command::RefractorOnHit(RefractorOnHit {
            tile: entity(1),
            strength: 3,
            shooter: entity(2)
        }))
    );
    assert_eq!(LaserTower.on_hit(entity(1), 3, entity(2)), None);
    assert_eq!(ReflectorTile.on_hit(entity(1), 3, entity(2)), None);
    assert_eq!(RotaterTile.on_hit(entity(1), 3, entity(2)), None);
    assert_eq!(AmplifierTile.on_hit(entity(1), 3, entity(2)), None);
}

#[test]
fn tiles_are_activated_game_by_game_in_the_order_of_the_games_numbers() {
    let games = vec![
        game(9, GamePhase::Act, true),
        game(4, GamePhase::Act, true),
        game(6, GamePhase::Act, false),
        game(7, GamePhase::Draw, true),
        game(4, GamePhase::Act, true),
    ];
    let tiles = vec![
        placed(100, HQTile, 0, 0, 9),
        placed(101, HQTile, 1, 0, 4),
        placed(102, HQTile, 2, 0, 6),
        placed(103, HQTile, 3, 0, 9),
        placed(104, HQTile, 4, 0, 7),
        placed(105, HQTile, 5, 0, 4),
        placed(106, HQTile, 6, 0, 5),
    ];
    let outcomes = TilePlugin::<HQTile>::activate_tiles(&games, &tiles);
    let activated: Vec<u64> = outcomes
        .iter()
        .map(|outcome| match outcome {
            Ok(Command::HQActivate(command)) => command.tile.id(),
            _ => panic!("a headquarters always activates"),
        })
        .collect();
    assert_eq!(activated, vec![101, 105, 100, 103]);
    assert!(TilePlugin::<HQTile>::game_acts(&games, 4));
    assert!(TilePlugin::<HQTile>::game_acts(&games, 9));
    assert!(!TilePlugin::<HQTile>::game_acts(&games, 6));
    assert!(!TilePlugin::<HQTile>::game_acts(&games, 7));
    assert!(!TilePlugin::<HQTile>::game_acts(&games, 5));
    let key = |game: u128, tile: u128| (game << 64) + tile;
    assert_eq!(TilePlugin::<HQTile>::key(&tiles[5]), key(4, 105));
    assert_eq!(TilePlugin::<HQTile>::next_tile(&games, &tiles, 0), Some(key(4, 101)));
    assert_eq!(TilePlugin::<HQTile>::next_tile(&games, &tiles, key(4, 102)), Some(key(4, 105)));
    assert_eq!(TilePlugin::<HQTile>::next_tile(&games, &tiles, key(4, 106)), Some(key(9, 100)));
    assert_eq!(TilePlugin::<HQTile>::next_tile(&games, &tiles, key(9, 104)), None);
    assert!(TilePlugin::<HQTile>::activate_tiles(&vec![], &tiles).is_empty());
}

#[test]
fn the_order_of_activation_does_not_depend_on_the_order_of_the_lists() {
    let games = vec![game(3, GamePhase::Act, true), game(2, GamePhase::Act, true)];
    let tiles = vec![
        placed(9, MountainTile, 0, 0, 3),
        placed(u64::MAX, MountainTile, 1, 0, 2),
        placed(4, MountainTile, 2, 0, 3),
        placed(0, MountainTile, 3, 0, 2),
        placed(7, MountainTile, 4, 0, 2),
    ];
    let activated = |games: &Vec<Game>, tiles: &Vec<PlacedTile<MountainTile>>| -> Vec<u64> {
        TilePlugin::<MountainTile>::activate_tiles(games, tiles)
            .iter()
            .map(|outcome| match outcome {
                Ok(Command::MountainActivate(command)) => command.tile.id(),
                _ => panic!("a mountain always activates"),
            })
            .collect()
    };
    let expected = vec![0, 7, u64::MAX, 4, 9];
    assert_eq!(activated(&games, &tiles), expected);
    let mut turned_games = games.clone();
    turned_games.reverse();
    let mut turned_tiles = tiles.clone();
    turned_tiles.reverse();
    assert_eq!(activated(&turned_games, &turned_tiles), expected);
    turned_tiles.swap(1, 3);
    assert_eq!(activated(&games, &turned_tiles), expected);

    let last = vec![game(u64::MAX, GamePhase::Act, true)];
    let edge = vec![placed(u64::MAX, MountainTile, 0, 0, u64::MAX), placed(1, MountainTile, 0, 0, u64::MAX)];
    assert_eq!(activated(&last, &edge), vec![1, u64::MAX]);
}

#[test]
fn a_tile_that_fails_does_not_stop_the_others() {
    let games = vec![game(u64::MAX, GamePhase::Act, true)];
    let mut first = placed(1, LaserTower, 0, 0, u64::MAX);
    first.owner = Some(Owner::new(entity(50)));
    let mut second = placed(2, LaserTower, 1, 0, u64::MAX);
    second.direction = Some(Direction::South);
    second.owner = Some(Owner::new(entity(50)));
    let outcomes = TilePlugin::<LaserTower>::activate_tiles(&games, &vec![first, second]);
    assert_eq!(
        outcomes,
        vec![
            Err(ActivationError {
                tile: entity(1),
                kind: LaserTower::id(),
                missing: Missing::Direction
            }),
            Ok(Command::LaserTowerActivate(LaserTowerActivate {
                tile: entity(2),
                position: Position::new(1, 0),
                direction: Direction::South,
                shooter: entity(50),
            })),
        ]
    );
    assert_eq!(second.outcome(), outcomes[1]);
}

#[test]
fn activation_commands_put_colliders_and_emitters_into_the_world() {
    let position = Position::new(2, -1);
    let mut world = World::new();
    let commands = vec![
        Command::HQActivate(HQActivate { tile: entity(1), position }),
        Command::ReflectorActivate(ReflectorActivate { position, direction: Direction::South }),
        Command::RefractorActivate(RefractorActivate {
            tile: entity(3),
            position,
            direction: Direction::South,
        }),
        Command::RotaterActivate(RotaterActivate { position, rotation: Rotation::new(2) }),
        Command::AmplifierActivate(AmplifierActivate { position }),
        Command::LaserTowerActivate(LaserTowerActivate {
            tile: entity(6),
            position,
            direction: Direction::Northwest,
            shooter: entity(60),
        }),
        Command::MountainActivate(MountainActivate { tile: entity(7), position }),
        Command::ResourceDepositActivate(ResourceDepositActivate { tile: entity(8), position }),
    ];
    Command::apply_all(&commands, &mut world);

    let bare = Collider::at(position);
    let sink = |tile: u64| Consumption::bundle(entity(tile), Direction::all(), position);
    let mut mirror = bare;
    mirror.reflection = Some(Reflection::new(Direction::South));
    let mut refractor = Consumption::bundle(
        entity(3),
        vec![Direction::Southwest, Direction::South, Direction::Southeast],
        position,
    );
    refractor.refraction = Some(Refraction::new(Direction::South));
    let mut rotater = bare;
    rotater.rotation = Some(Rotation::new(2));
    let mut amplifier = bare;
    amplifier.amplification = Some(Amplification::new(1));
    assert_eq!(
        world.colliders,
        vec![sink(1), mirror, refractor, rotater, amplifier, sink(6), sink(7), sink(8)]
    );
    assert_eq!(
        world.lasers,
        vec![LaserEmitter {
            position,
            direction: Direction::Northwest,
            shooter: Shooter::new(entity(60)),
            strength: 1,
        }]
    );
    assert!(world.accounts.is_empty() && world.popups.is_empty());
}

#[test]
fn hit_commands_strike_the_tile_they_name() {
    let account = |id: u64, health: usize, money: Option<usize>| Account {
        entity: entity(id),
        health: Some(Health::new(health)),
        money: money.map(Money::new),
    };
    let mut world = World::new();
    world.accounts = vec![
        account(1, 10, None),
        account(2, 5, None),
        account(3, 5, Some(3)),
        account(4, 2, None),
        account(5, 9, None),
        account(60, 1, Some(0)),
    ];
    let commands = vec![
        Command::HQOnHit(HQOnHit { tile: entity(1), strength: 4, shooter: entity(60) }),
        Command::MountainOnHit(MountainOnHit { tile: entity(2), strength: 7, shooter: entity(60) }),
        Command::ResourceDepositOnHit(ResourceDepositOnHit {
            tile: entity(3),
            strength: 5,
            shooter: entity(60),
        }),
        Command::RefractorOnHit(RefractorOnHit {
            tile: entity(4),
            strength: 1,
            shooter: entity(60),
        }),
        Command::LaserTowerOnHit(LaserTowerOnHit {
            tile: entity(5),
            strength: 2,
            shooter: entity(60),
        }),
    ];
    Command::apply_all(&commands, &mut world);
    assert_eq!(
        world.accounts,
        vec![
            account(1, 6, None),
            account(2, 0, None),
            account(3, 3, Some(0)),
            account(4, 1, None),
            account(5, 7, None),
            account(60, 1, Some(3)),
        ]
    );
    let texts: Vec<&str> = world.popups.iter().map(|popup| popup.event.text.as_str()).collect();
    assert_eq!(texts, vec!["-4", "-7", "-5", "-1", "-2"]);
}

#[test]
fn hits_are_answered_by_the_tiles_that_were_hit() {
    let tiles = vec![placed(1, MountainTile, 0, 0, 9), placed(2, MountainTile, 1, 0, 9)];
    let hit = |consumer: u64, strength: usize| LaserHitEvent {
        strength,
        consumer: entity(consumer),
        shooter: entity(60),
    };
    let commands =
        TilePlugin::<MountainTile>::handle_hit_tiles(&vec![hit(2, 3), hit(5, 1), hit(1, 4)], &tiles);
    assert_eq!(
        commands,
        vec![
            Command::MountainOnHit(MountainOnHit {
                tile: entity(2),
                strength: 3,
                shooter: entity(60)
            }),
            Command::MountainOnHit(MountainOnHit {
                tile: entity(1),
                strength: 4,
                shooter: entity(60)
            }),
        ]
    );
    let towers = vec![placed(2, LaserTower, 1, 0, 9)];
    assert!(TilePlugin::<LaserTower>::handle_hit_tiles(&vec![hit(2, 3)], &towers).is_empty());
}

#[test]
fn requests_become_placements_on_the_cell_of_the_tile_they_name() {
    let tilemap = TilemapEntities {
        tiles: vec![(Position::new(0, 0), entity(10)), (Position::new(1, 0), entity(11))],
    };
    let request = |tile_id: TileId, on_tile: u64| TileSpawnEvent {
        tile_id,
        on_tile: entity(on_tile),
        owner: entity(50),
        game: entity(9),
    };
    let requests = vec![
        request(ReflectorTile::id(), 11),
        request(HQTile::id(), 11),
        request(ReflectorTile::id(), 12),
        request(ReflectorTile::id(), 10),
    ];
    let placements = TilePlugin::<ReflectorTile>::spawn_tiles(&requests, &vec![tilemap]);
    assert_eq!(
        placements,
        vec![
            Placement {
                command: SpawnCommand::Reflector(ReflectorSpawn {
                    position: Position::new(1, 0),
                    player: entity(50)
                }),
                on_tile: entity(11),
            },
            Placement {
                command: SpawnCommand::Reflector(ReflectorSpawn {
                    position: Position::new(0, 0),
                    player: entity(50)
                }),
                on_tile: entity(10),
            },
        ]
    );
    assert!(TilePlugin::<ReflectorTile>::spawn_tiles(&requests, &vec![]).is_empty());
    assert_eq!(
        MountainTile::spawn(Position::new(1, 1), entity(50), entity(9)),
        SpawnCommand::Mountain(MountainSpawn { position: Position::new(1, 1), game: entity(9) })
    );
    assert_eq!(
        ResourceDepositTile::spawn(Position::new(1, 1), entity(50), entity(9)),
        SpawnCommand::ResourceDeposit(ResourceDepositSpawn {
            position: Position::new(1, 1),
            game: entity(9)
        })
    );
    assert_eq!(
        HQTile::spawn(Position::new(1, 1), entity(50), entity(9)),
        SpawnCommand::HQ(HQSpawn { position: Position::new(1, 1), player: entity(50) })
    );
}

#[test]
fn new_tiles_start_with_what_their_kind_gives_them() {
    let position = Position::new(4, 4);
    let in_game = Some(InGame::new(entity(9)));
    let tower = LaserTowerSpawn { position, player: entity(50) }.apply(entity(1), in_game).unwrap();
    assert_eq!(tower.direction, Some(Direction::North));
    assert_eq!(tower.owner, Some(Owner::new(entity(50))));
    assert_eq!(tower.in_game, InGame::new(entity(9)));
    assert_eq!((tower.entity, tower.position), (entity(1), position));
    assert!(LaserTowerSpawn { position, player: entity(50) }.apply(entity(1), None).is_none());
    let rotater = RotaterSpawn { position, player: entity(50) }.apply(entity(2), in_game).unwrap();
    assert_eq!(rotater.rotation, Some(Rotation::new(1)));
    assert_eq!(rotater.direction, None);
    let reflector =
        ReflectorSpawn { position, player: entity(50) }.apply(entity(3), in_game).unwrap();
    assert_eq!(reflector.direction, Some(Direction::North));
    let refractor =
        RefractorSpawn { position, player: entity(50) }.apply(entity(4), in_game).unwrap();
    assert_eq!(refractor.direction, Some(Direction::North));
    let amplifier =
        AmplifierSpawn { position, player: entity(50) }.apply(entity(5), in_game).unwrap();
    assert_eq!((amplifier.direction, amplifier.rotation), (None, None));
    let hq = HQSpawn { position, player: entity(50) }.apply(entity(6), in_game).unwrap();
    assert_eq!(hq.owner, Some(Owner::new(entity(50))));
    assert!(HQSpawn { position, player: entity(50) }.apply(entity(6), None).is_none());
    let (mountain, health) = MountainSpawn { position, game: entity(9) }.apply(entity(7));
    assert_eq!(health, Health::new(5));
    assert_eq!((mountain.owner, mountain.in_game), (None, InGame::new(entity(9))));
    let deposit = ResourceDepositSpawn { position, game: entity(9) }.apply(entity(8));
    assert_eq!((deposit.owner, deposit.in_game), (None, InGame::new(entity(9))));
}

#[test]
fn the_map_knows_the_tile_in_each_cell() {
    let mut tilemap = TilemapEntities::new();
    assert!(tilemap.insert(Position::new(0, 0), entity(10)));
    assert!(tilemap.insert(Position::new(0, 1), entity(11)));
    assert!(!tilemap.insert(Position::new(0, 0), entity(12)));
    assert_eq!(tilemap.get(&Position::new(0, 1)), Some(entity(11)));
    assert_eq!(tilemap.get(&Position::new(0, 0)), Some(entity(10)));
    assert_eq!(tilemap.get(&Position::new(1, 1)), None);
    assert_eq!(
        TilemapPlugin::handle_cursor_position(entity(1), &tilemap, Position::new(0, 1)),
        Some(TargetedTile { tile: entity(11), tilemap: entity(1) })
    );
    assert_eq!(TilemapPlugin::handle_cursor_position(entity(1), &tilemap, Position::new(5, 5)), None);
    assert_eq!(MapTile::new(2, 3).position(), Position::new(2, 3));
}

#[test]
fn a_territory_reaches_four_steps_from_each_tile_of_its_owner() {
    let mut tilemap = TilemapEntities::new();
    let mut id = 1000;
    for x in -10..=10 {
        tilemap.insert(Position::new(x, 0), entity(id));
        id += 1;
    }
    let cell = |x: i32| entity((1000 + x + 10) as u64);
    let tiles = vec![
        (Position::new(-6, 0), Owner::new(entity(1))),
        (Position::new(5, 0), Owner::new(entity(2))),
        (Position::new(-4, 0), Owner::new(entity(1))),
    ];
    let territories =
        TilesPlugin::update_territories(&tilemap, &tiles, &vec![entity(2), entity(3), entity(1)]);
    assert_eq!(territories.len(), 2);
    assert_eq!(territories[0].0, entity(2));
    assert_eq!(territories[1].0, entity(1));
    let mut second: Vec<EntityRef> = territories[0].1 .0.clone();
    second.sort_by_key(|tile| tile.id());
    assert_eq!(second, (1..=9).map(cell).collect::<Vec<_>>());
    let mut first: Vec<EntityRef> = territories[1].1 .0.clone();
    first.sort_by_key(|tile| tile.id());
    assert_eq!(first, (-10..=0).map(cell).collect::<Vec<_>>());
    assert!(TilesPlugin::territory_of(&tilemap, &tiles, entity(3)).0.is_empty());
}
