use pewpewboom::actions::{
    Ability, Action, ActionError, ActionList, ActionSet, ActionsPlugin, AttackDamage,
    BlockDamage, Fighter, Poison,
};
use pewpewboom::cauldron::{Cauldron, CauldronOption};
use pewpewboom::encounter::{Encounter, EncounterMonsters, EncounterPlugin};
use pewpewboom::entity::EntityRef;
use pewpewboom::game_instance::{BonusHealth, Floor, GameInstancePlugin, Player};
use pewpewboom::health::Health;
use pewpewboom::monsters::Monster;

fn fighter(entity: u64, health: usize) -> Fighter {
    Fighter {
        entity: EntityRef::new(entity),
        health: Health::new(health),
        bonus_health: None,
        poison: None,
        taunt: false,
        attack_damage: None,
        block_damage: None,
    }
}

fn hero() -> Fighter {
    Fighter {
        attack_damage: Some(AttackDamage(5)),
        block_damage: Some(BlockDamage(5)),
        ..fighter(1, 100)
    }
}

fn action(ability: Ability, caster: u64, target: u64) -> Action {
    Action::new(ability, EntityRef::new(caster), EntityRef::new(target))
}

#[test]
fn an_attack_strikes_bonus_health_first() {
    let mut fighters = vec![hero(), fighter(2, 7)];
    assert_eq!(ActionsPlugin::run_action(&action(Ability::Attack, 1, 2), &mut fighters), Ok(()));
    assert_eq!(fighters[1], fighter(2, 2));
    assert_eq!(ActionsPlugin::run_action(&action(Ability::Attack, 1, 2), &mut fighters), Ok(()));
    assert_eq!(fighters[1], fighter(2, 0));

    let shielded = |bonus: usize, health: usize| Fighter {
        bonus_health: Some(BonusHealth(bonus)),
        ..fighter(2, health)
    };
    let mut fighters = vec![hero(), shielded(8, 7)];
    ActionsPlugin::run_action(&action(Ability::Attack, 1, 2), &mut fighters).unwrap();
    assert_eq!(fighters[1], shielded(3, 7));
    ActionsPlugin::run_action(&action(Ability::Attack, 1, 2), &mut fighters).unwrap();
    assert_eq!(fighters[1], fighter(2, 5));
    let mut fighters = vec![hero(), shielded(5, 7)];
    ActionsPlugin::run_action(&action(Ability::Attack, 1, 2), &mut fighters).unwrap();
    assert_eq!(fighters[1], fighter(2, 7));
}

#[test]
fn blocks_and_shields_add_bonus_health() {
    let mut fighters = vec![hero(), fighter(2, 7)];
    ActionsPlugin::run_action(&action(Ability::Block, 1, 2), &mut fighters).unwrap();
    assert_eq!(fighters[1].bonus_health, Some(BonusHealth(5)));
    ActionsPlugin::run_action(&action(Ability::Shield, 1, 2), &mut fighters).unwrap();
    assert_eq!(fighters[1].bonus_health, Some(BonusHealth(10)));
    ActionsPlugin::run_action(&action(Ability::Block, 1, 1), &mut fighters).unwrap();
    assert_eq!(fighters[0].bonus_health, Some(BonusHealth(5)));
}

#[test]
fn taunt_and_poison() {
    let mut fighters = vec![hero(), fighter(2, 7)];
    ActionsPlugin::run_action(&action(Ability::Taunt, 9, 2), &mut fighters).unwrap();
    assert!(fighters[1].taunt);
    ActionsPlugin::run_action(&action(Ability::Poison, 9, 2), &mut fighters).unwrap();
    assert_eq!(fighters[1].poison, Some(Poison(1)));
    ActionsPlugin::run_action(&action(Ability::Poison, 9, 2), &mut fighters).unwrap();
    assert_eq!(fighters[1].poison, Some(Poison(2)));
    ActionsPlugin::reset_actions(&mut fighters);
    assert!(!fighters[1].taunt);
    assert_eq!(fighters[1].poison, Some(Poison(2)));
}

#[test]
fn actions_that_cannot_be_carried_out() {
    let mut fighters = vec![hero(), fighter(2, 7)];
    let before = fighters.clone();
    assert_eq!(
        ActionsPlugin::run_action(&action(Ability::Attack, 1, 3), &mut fighters),
        Err(ActionError::NoTarget { target: EntityRef::new(3) })
    );
    assert_eq!(
        ActionsPlugin::run_action(&action(Ability::Attack, 2, 1), &mut fighters),
        Err(ActionError::NoAttack { caster: EntityRef::new(2) })
    );
    assert_eq!(
        ActionsPlugin::run_action(&action(Ability::Attack, 9, 1), &mut fighters),
        Err(ActionError::NoAttack { caster: EntityRef::new(9) })
    );
    assert_eq!(
        ActionsPlugin::run_action(&action(Ability::Shield, 2, 1), &mut fighters),
        Err(ActionError::NoBlock { caster: EntityRef::new(2) })
    );
    assert_eq!(fighters, before);
    assert_eq!(ActionsPlugin::find(&fighters, EntityRef::new(2)), Some(1));
    assert_eq!(ActionsPlugin::find(&fighters, EntityRef::new(3)), None);
}

#[test]
fn the_actions_of_a_turn_run_in_their_order() {
    let mut fighters = vec![hero(), fighter(2, 7)];
    let actions = ActionList(vec![
        action(Ability::Block, 1, 2),
        action(Ability::Attack, 2, 1),
        action(Ability::Attack, 1, 2),
        action(Ability::Attack, 1, 5),
        action(Ability::Attack, 1, 2),
    ]);
    assert_eq!(
        ActionsPlugin::run_actions(&actions, &mut fighters),
        Err(vec![
            ActionError::NoAttack { caster: EntityRef::new(2) },
            ActionError::NoTarget { target: EntityRef::new(5) },
        ])
    );
    assert_eq!(fighters, vec![hero(), fighter(2, 2)]);
    assert_eq!(ActionsPlugin::run_actions(&ActionList(vec![]), &mut fighters), Ok(()));
}

#[test]
fn numbers_that_would_not_fit_are_noticed() {
    let full = Fighter {
        bonus_health: Some(BonusHealth(usize::MAX - 4)),
        poison: Some(Poison(usize::MAX)),
        ..fighter(2, 7)
    };
    let fighters = vec![hero(), full];
    assert!(!ActionsPlugin::action_fits(&action(Ability::Block, 1, 2), &fighters));
    assert!(!ActionsPlugin::action_fits(&action(Ability::Poison, 1, 2), &fighters));
    assert!(ActionsPlugin::action_fits(&action(Ability::Attack, 1, 2), &fighters));
    assert!(ActionsPlugin::action_fits(&action(Ability::Block, 2, 2), &fighters));
    assert!(ActionsPlugin::action_fits(&action(Ability::Block, 1, 1), &fighters));
    assert!(ActionsPlugin::action_fits(&action(Ability::Poison, 1, 7), &fighters));
}

#[test]
fn a_hero_starts_with_an_attack_and_a_block() {
    let (actions, attack, block) = ActionsPlugin::setup_actions();
    assert!(actions.contains(Ability::Attack) && actions.contains(Ability::Block));
    assert!(!actions.contains(Ability::Taunt));
    assert!(!actions.contains(Ability::Shield) && !actions.contains(Ability::Poison));
    assert_eq!((attack, block), (AttackDamage(5), BlockDamage(5)));
    assert!(!ActionSet::default().contains(Ability::Attack));
    let (hero, villain) = GameInstancePlugin::start_game();
    assert_eq!((hero.player, hero.health, hero.has_turn), (Player::One, Some(Health::new(100)), true));
    assert_eq!((villain.player, villain.health, villain.has_turn), (Player::Two, None, false));
    assert_eq!(Floor::default(), Floor(0));
}

#[test]
fn the_monsters() {
    let table = [
        (Monster::Slime, 4, Some(2), None, vec![Ability::Attack, Ability::Taunt]),
        (Monster::Goblin, 7, Some(5), None, vec![Ability::Attack]),
        (Monster::Skeleton, 8, Some(3), Some(2), vec![Ability::Attack, Ability::Block]),
        (Monster::ZombiePriest, 6, None, Some(3), vec![Ability::Shield]),
        (Monster::Witch, 5, None, None, vec![Ability::Poison]),
        (Monster::Minotaur, 15, Some(10), Some(4), vec![Ability::Attack, Ability::Block]),
    ];
    let abilities =
        [Ability::Attack, Ability::Block, Ability::Taunt, Ability::Shield, Ability::Poison];
    for (monster, health, attack, block, can) in table {
        assert_eq!(monster.health(), Health::new(health));
        assert_eq!(monster.attack_damage(), attack.map(AttackDamage));
        assert_eq!(monster.block_damage(), block.map(BlockDamage));
        for ability in abilities {
            assert_eq!(monster.action_set().contains(ability), can.contains(&ability));
        }
    }
}

#[test]
fn the_cauldron_on_the_first_floor() {
    assert_eq!(
        Cauldron::options(0),
        vec![
            CauldronOption::new(Monster::Slime, 4),
            CauldronOption::new(Monster::Slime, 5),
            CauldronOption::new(Monster::Goblin, 6),
            CauldronOption::new(Monster::Skeleton, 7),
        ]
    );
}

#[test]
fn an_encounter_ends_with_its_last_monster() {
    let encounter = Encounter { monsters: vec![Monster::Witch, Monster::Skeleton] };
    let spawned = EncounterPlugin::spawn_monsters(&encounter);
    assert_eq!(spawned.len(), 2);
    assert_eq!(spawned[0].monster, Monster::Witch);
    assert_eq!(spawned[0].health, Health::new(5));
    assert_eq!((spawned[0].attack, spawned[0].block), (None, None));
    assert!(spawned[0].actions.contains(Ability::Poison));
    assert_eq!(spawned[1].attack, Some(AttackDamage(3)));
    assert_eq!(spawned[1].block, Some(BlockDamage(2)));

    let mut living = EncounterMonsters(vec![EntityRef::new(1), EntityRef::new(2), EntityRef::new(3)]);
    let monsters = vec![
        (EntityRef::new(1), Health::new(0)),
        (EntityRef::new(2), Health::new(3)),
        (EntityRef::new(3), Health::new(0)),
    ];
    let dead = EncounterPlugin::despawn_dead_monsters(&mut living, &monsters);
    assert_eq!(dead, vec![EntityRef::new(1), EntityRef::new(3)]);
    assert_eq!(living.0, vec![EntityRef::new(2)]);
    assert!(!EncounterPlugin::despawn_completed_encounters(&living));
    let last = vec![(EntityRef::new(2), Health::new(0))];
    EncounterPlugin::despawn_dead_monsters(&mut living, &last);
    assert!(EncounterPlugin::despawn_completed_encounters(&living));
}
