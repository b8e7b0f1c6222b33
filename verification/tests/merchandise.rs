use pewpewboom::amplifier::AmplifierTile;
use pewpewboom::entity::EntityRef;
use pewpewboom::health::Health;
use pewpewboom::laser_tower::LaserTower;
use pewpewboom::merchandise::{
    Merch, MerchId, MerchPlugin, MerchRegistry, Merchandise, Money, Purchase, PurchaseError,
};
use pewpewboom::reflector::ReflectorTile;
use pewpewboom::refractor::RefractorTile;
use pewpewboom::rotater::RotaterTile;
use pewpewboom::tiles::{Tile, TileSpawnEvent};
use pewpewboom::world::{Account, World};

fn shop() -> MerchRegistry {
    let mut registry = MerchRegistry::default();
    registry.register::<LaserTower>().unwrap();
    registry.register::<ReflectorTile>().unwrap();
    registry.register::<AmplifierTile>().unwrap();
    registry
}

fn shopper(entity: u64, money: usize) -> Account {
    Account { entity: EntityRef::new(entity), health: None, money: Some(Money::new(money)) }
}

#[test]
fn prices_and_names() {
    assert_eq!((LaserTower::price(), LaserTower::name()), (Money::new(10), "Laser Tower"));
    assert_eq!((ReflectorTile::price(), ReflectorTile::name()), (Money::new(5), "Reflector Tower"));
    assert_eq!((RefractorTile::price(), RefractorTile::name()), (Money::new(5), "Refractor Tower"));
    assert_eq!((RotaterTile::price(), RotaterTile::name()), (Money::new(5), "Rotater Tower"));
    assert_eq!((AmplifierTile::price(), AmplifierTile::name()), (Money::new(3), "Amplifier Tower"));
    let merch = Merch::new(MerchId(4), "Thing", Money::new(9));
    assert_eq!((merch.id(), merch.name(), merch.price()), (MerchId(4), "Thing", Money::new(9)));
}

#[test]
fn registrations_are_numbered_from_zero() {
    let mut registry = MerchRegistry::default();
    assert_eq!(registry.len(), 0);
    assert_eq!(registry.get::<LaserTower>(), None);
    let tower = registry.register::<LaserTower>().unwrap();
    assert_eq!(tower, Merch::new(MerchId(0), "Laser Tower", Money::new(10)));
    let reflector = registry.register::<ReflectorTile>().unwrap();
    assert_eq!(reflector, Merch::new(MerchId(1), "Reflector Tower", Money::new(5)));
    assert_eq!(registry.get::<LaserTower>(), Some(tower));
    assert_eq!(registry.get::<ReflectorTile>(), Some(reflector));
    assert_eq!(registry.get::<RotaterTile>(), None);
    assert_eq!(registry.get_type(&MerchId(0)), Some(LaserTower::id()));
    assert_eq!(registry.get_type(&MerchId(1)), Some(ReflectorTile::id()));
    assert_eq!(registry.get_type(&MerchId(2)), None);
    assert_eq!(registry.len(), 2);
}

#[test]
fn registering_a_kind_again_replaces_it() {
    let mut registry = shop();
    let first = registry.get::<LaserTower>().unwrap();
    assert_eq!(registry.register::<LaserTower>(), Err(first));
    let latest = registry.get::<LaserTower>().unwrap();
    assert_eq!(latest, Merch::new(MerchId(3), "Laser Tower", Money::new(10)));
    assert_eq!(registry.get_type(&MerchId(0)), Some(LaserTower::id()));
    assert_eq!(registry.get_type(&MerchId(3)), Some(LaserTower::id()));
    let on_sale: Vec<usize> = registry.sorted().iter().map(|(_, merch)| merch.id().0).collect();
    assert_eq!(on_sale, vec![1, 2, 3]);
    assert_eq!(registry.iter(), registry.sorted());
    assert_eq!(
        registry.sorted()[0],
        (ReflectorTile::id(), Merch::new(MerchId(1), "Reflector Tower", Money::new(5)))
    );
}

#[test]
fn a_new_player_starts_with_fifty() {
    assert_eq!(MerchPlugin::spawn_shopper(EntityRef::new(3)), shopper(3, 50));
}

#[test]
fn purchases_are_paid_for_or_turned_down_one_by_one() {
    let registry = shop();
    let tower = registry.get::<LaserTower>().unwrap();
    let reflector = registry.get::<ReflectorTile>().unwrap();
    let unknown = Merch::new(MerchId(40), "Nothing", Money::new(1));
    let mut world = World::new();
    world.accounts = vec![
        shopper(1, 12),
        shopper(2, 4),
        Account { entity: EntityRef::new(3), health: Some(Health::new(1)), money: None },
    ];
    let purchases = vec![
        Purchase::new(EntityRef::new(1), tower, EntityRef::new(100)),
        Purchase::new(EntityRef::new(1), reflector, EntityRef::new(101)),
        Purchase::new(EntityRef::new(2), unknown, EntityRef::new(102)),
        Purchase::new(EntityRef::new(3), tower, EntityRef::new(103)),
        Purchase::new(EntityRef::new(9), tower, EntityRef::new(104)),
        Purchase::new(EntityRef::new(2), reflector, EntityRef::new(105)),
    ];
    let report = MerchPlugin::handle_purchases(&purchases, &registry, &mut world, EntityRef::new(7));
    assert_eq!(
        report.tile_spawns,
        vec![TileSpawnEvent {
            tile_id: LaserTower::id(),
            on_tile: EntityRef::new(100),
            owner: EntityRef::new(1),
            game: EntityRef::new(7),
        }]
    );
    assert_eq!(
        report.outcome,
        Err(vec![
            PurchaseError::NotEnoughMoney {
                shopper: EntityRef::new(1),
                cost: Money::new(5),
                money: Money::new(2),
            },
            PurchaseError::UnknownMerch { merch_id: MerchId(40) },
            PurchaseError::NotEnoughMoney {
                shopper: EntityRef::new(2),
                cost: Money::new(5),
                money: Money::new(4),
            },
        ])
    );
    assert_eq!(world.accounts[0], shopper(1, 2));
    assert_eq!(world.accounts[1], shopper(2, 4));
}

#[test]
fn purchases_that_all_go_through_give_ok() {
    let registry = shop();
    let amplifier = registry.get::<AmplifierTile>().unwrap();
    let mut world = World::new();
    world.accounts = vec![shopper(1, 6)];
    let purchases = vec![
        Purchase::new(EntityRef::new(1), amplifier, EntityRef::new(100)),
        Purchase::new(EntityRef::new(1), amplifier, EntityRef::new(101)),
    ];
    let report = MerchPlugin::handle_purchases(&purchases, &registry, &mut world, EntityRef::new(7));
    assert_eq!(report.outcome, Ok(()));
    assert_eq!(report.tile_spawns.len(), 2);
    assert_eq!(report.tile_spawns[1].on_tile, EntityRef::new(101));
    assert_eq!(world.accounts, vec![shopper(1, 0)]);
    let report = MerchPlugin::handle_purchases(&vec![], &registry, &mut world, EntityRef::new(7));
    assert_eq!(report.outcome, Ok(()));
    assert!(report.tile_spawns.is_empty());
}
