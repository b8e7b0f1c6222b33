use pewpewboom::entity::EntityRef;
use pewpewboom::health::{Health, HealthPlugin};
use pewpewboom::lasers::tracer::LaserHitEvent;
use pewpewboom::merchandise::Money;
use pewpewboom::popups::{Popup, PopupBundle, PopupEvent, PopupPlugin};
use pewpewboom::text::{dollar_text, minus_text, number_text};
use pewpewboom::timer::Timer;
use pewpewboom::world::{Account, World};

fn account(entity: u64, health: Option<usize>, money: Option<usize>) -> Account {
    Account {
        entity: EntityRef::new(entity),
        health: health.map(Health::new),
        money: money.map(Money::new),
    }
}

fn hit(consumer: u64, strength: usize, shooter: u64) -> LaserHitEvent {
    LaserHitEvent {
        strength,
        consumer: EntityRef::new(consumer),
        shooter: EntityRef::new(shooter),
    }
}

fn world(accounts: Vec<Account>) -> World {
    let mut world = World::new();
    world.accounts = accounts;
    world
}

fn popups(world: &World) -> Vec<(u64, String)> {
    world.popups.iter().map(|popup| (popup.target.id(), popup.event.text.clone())).collect()
}

#[test]
fn money_is_drained_before_health_is_struck() {
    let mut world = world(vec![account(1, Some(5), Some(3)), account(2, None, Some(10))]);
    world.resolve_hit(&hit(1, 5, 2));
    assert_eq!(world.accounts, vec![account(1, Some(3), Some(0)), account(2, None, Some(13))]);
    assert_eq!(popups(&world), vec![(1, "-5".to_string())]);
}

#[test]
fn a_weak_beam_only_drains_money() {
    let mut world = world(vec![account(1, Some(5), Some(3)), account(2, None, Some(10))]);
    world.resolve_hit(&hit(1, 2, 2));
    assert_eq!(world.accounts, vec![account(1, Some(5), Some(1)), account(2, None, Some(12))]);
    assert!(world.popups.is_empty());
    world.resolve_hit(&hit(1, 1, 2));
    assert_eq!(world.accounts, vec![account(1, Some(5), Some(0)), account(2, None, Some(13))]);
    assert!(world.popups.is_empty());
}

#[test]
fn without_money_health_takes_the_whole_strength() {
    let mut world = world(vec![account(1, Some(5), None), account(3, Some(2), Some(0))]);
    world.resolve_hit(&hit(1, 4, 2));
    assert_eq!(world.accounts[0], account(1, Some(1), None));
    world.resolve_hit(&hit(1, 4, 2));
    assert_eq!(world.accounts[0], account(1, Some(0), None));
    world.resolve_hit(&hit(3, 1, 2));
    assert_eq!(world.accounts[1], account(3, Some(1), Some(0)));
    assert_eq!(
        popups(&world),
        vec![(1, "-4".to_string()), (1, "-4".to_string()), (3, "-1".to_string())]
    );
}

#[test]
fn a_consumer_that_is_gone_is_passed_over() {
    let mut world = world(vec![account(2, None, Some(10))]);
    world.resolve_hit(&hit(1, 5, 2));
    assert_eq!(world.accounts, vec![account(2, None, Some(10))]);
    assert!(world.popups.is_empty());
    assert_eq!(world.find_account(EntityRef::new(2)), Some(0));
    assert_eq!(world.find_account(EntityRef::new(1)), None);
}

#[test]
fn money_drained_for_a_shooter_without_money_is_gone() {
    let mut world = world(vec![account(1, Some(5), Some(3)), account(2, Some(1), None)]);
    world.resolve_hit(&hit(1, 2, 2));
    assert_eq!(world.accounts, vec![account(1, Some(5), Some(1)), account(2, Some(1), None)]);
    world.resolve_hit(&hit(1, 2, 9));
    assert_eq!(world.accounts[0], account(1, Some(4), Some(0)));
}

#[test]
fn a_shooter_who_hits_itself_keeps_its_money() {
    let mut world = world(vec![account(1, Some(5), Some(3))]);
    world.resolve_hit(&hit(1, 2, 1));
    assert_eq!(world.accounts, vec![account(1, Some(5), Some(3))]);
    world.resolve_hit(&hit(1, 4, 1));
    assert_eq!(world.accounts, vec![account(1, Some(4), Some(3))]);
}

#[test]
fn hits_apply_in_the_order_in_which_they_are_given() {
    let mut world = world(vec![account(1, Some(5), Some(3)), account(2, None, Some(0))]);
    world.resolve_hits(&vec![hit(1, 2, 2), hit(1, 2, 2), hit(1, 9, 2)]);
    assert_eq!(world.accounts, vec![account(1, Some(0), Some(0)), account(2, None, Some(3))]);
    assert_eq!(popups(&world), vec![(1, "-2".to_string()), (1, "-9".to_string())]);
}

#[test]
fn all_the_money_in_the_world_must_be_countable() {
    assert!(World::new().countable());
    assert!(world(vec![account(1, None, Some(usize::MAX)), account(2, None, None)]).countable());
    assert!(!world(vec![account(1, None, Some(usize::MAX)), account(2, None, Some(1))]).countable());
}

#[test]
fn damage_texts() {
    assert_eq!(PopupEvent::damage(0).text, "-0");
    assert_eq!(PopupEvent::damage(7).text, "-7");
    assert_eq!(PopupEvent::damage(10).text, "-10");
    assert_eq!(PopupEvent::damage(1234567890).text, "-1234567890");
    assert_eq!(Money::new(50).to_text(), "$50");
    assert_eq!(Money::new(0).to_text(), "$0");
    assert_eq!(Money::new(105).get(), 105);
}

#[test]
fn popups_show_for_a_second_and_a_half() {
    assert_eq!(Popup::spawn_popup(false), None);
    let popup = Popup::spawn_popup(true).unwrap();
    assert_eq!(popup.timer.remaining, 1_500_000_000);
    let short = PopupBundle { popup: Popup, timer: Timer::from_nanos(10) };
    let mut popups = vec![popup, short, popup];
    PopupPlugin::tick_popups(&mut popups, 10);
    assert_eq!(popups[0].timer.remaining, 1_499_999_990);
    assert_eq!(popups[1].timer.remaining, 0);
    PopupPlugin::despawn_popups(&mut popups);
    assert_eq!(popups.len(), 2);
    assert_eq!(popups[1].timer.remaining, 1_499_999_990);
    PopupPlugin::tick_popups(&mut popups, 1_499_999_990);
    PopupPlugin::despawn_popups(&mut popups);
    assert!(popups.is_empty());
}

#[test]
fn the_dead_are_picked_out() {
    let changed = vec![
        (EntityRef::new(1), Health::new(3)),
        (EntityRef::new(2), Health::new(0)),
        (EntityRef::new(3), Health::new(1)),
        (EntityRef::new(4), Health::new(0)),
    ];
    assert_eq!(
        HealthPlugin::despawn_dead_entities(&changed),
        vec![EntityRef::new(2), EntityRef::new(4)]
    );
    assert!(HealthPlugin::despawn_dead_entities(&vec![]).is_empty());
    assert_eq!(Health::new(5).get(), 5);
}

#[test]
fn numbers_are_written_in_decimal_digits() {
    assert_eq!(number_text(0), "0");
    assert_eq!(number_text(9), "9");
    assert_eq!(number_text(10), "10");
    assert_eq!(number_text(907), "907");
    assert_eq!(number_text(usize::MAX), usize::MAX.to_string());
    assert_eq!(minus_text(42), "-42");
    assert_eq!(dollar_text(42), "$42");
}
