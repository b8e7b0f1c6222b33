//! An encounter: the monsters that stand in the hero's way until the last of
//! them is dead.

use crate::actions::{ActionSet, AttackDamage, BlockDamage};
use crate::entity::EntityRef;
use crate::health::Health;
use crate::monsters::Monster;
use vstd::prelude::*;

verus! {

/// The label under which the systems of the encounters run.
#[derive(Clone, Copy, Debug, PartialEq, Eq, Structural, Hash)]
pub struct EncounterSystems;

/// The systems of the encounters.
pub struct EncounterPlugin;

/// The kinds of monster that an encounter is made of.
#[derive(Clone, Debug)]
pub struct Encounter {
    pub monsters: Vec<Monster>,
}

/// The monsters of an encounter that are alive.
#[derive(Clone, Debug)]
pub struct EncounterMonsters(pub Vec<EntityRef>);

/// The encounter that a monster belongs to.
#[derive(Clone, Copy, Debug, PartialEq, Eq, Structural)]
pub struct InEncounter(pub EntityRef);

/// A monster as it enters an encounter.
#[derive(Clone, Copy, Debug, PartialEq, Eq, Structural)]
pub struct MonsterBundle {
    pub monster: Monster,
    pub health: Health,
    pub actions: ActionSet,
    pub attack: Option<AttackDamage>,
    pub block: Option<BlockDamage>,
}

/// The monster as it enters an encounter.
pub open spec fn spec_bundle(monster: Monster) -> MonsterBundle {
    MonsterBundle {
        monster,
        health: Health(monster.spec_health()),
        actions: spec_abilities(monster),
        attack: monster.spec_attack_damage(),
        block: monster.spec_block_damage(),
    }
}

/// What a monster of the kind can do, ability by ability.
pub open spec fn spec_abilities(monster: Monster) -> ActionSet {
    match monster {
        Monster::Slime => ActionSet {
            attack: true,
            block: false,
            taunt: true,
            shield: false,
            poison: false,
        },
        Monster::Goblin => ActionSet {
            attack: true,
            block: false,
            taunt: false,
            shield: false,
            poison: false,
        },
        Monster::Skeleton | Monster::Minotaur => ActionSet {
            attack: true,
            block: true,
            taunt: false,
            shield: false,
            poison: false,
        },
        Monster::ZombiePriest => ActionSet {
            attack: false,
            block: false,
            taunt: false,
            shield: true,
            poison: false,
        },
        Monster::Witch => ActionSet {
            attack: false,
            block: false,
            taunt: false,
            shield: false,
            poison: true,
        },
    }
}

/// The monsters among the first `n` that are dead, in their order.
pub open spec fn spec_fallen(monsters: Seq<(EntityRef, Health)>, n: int) -> Seq<EntityRef>
    decreases n,
{
    if n <= 0 {
        Seq::empty()
    } else if monsters[n - 1].1.0 == 0 {
        spec_fallen(monsters, n - 1).push(monsters[n - 1].0)
    } else {
        spec_fallen(monsters, n - 1)
    }
}

/// The first `n` of the living without those that have fallen, in their
/// order.
pub open spec fn spec_survivors(living: Seq<EntityRef>, fallen: Seq<EntityRef>, n: int) -> Seq<
    EntityRef,
>
    decreases n,
{
    if n <= 0 {
        Seq::empty()
    } else if fallen.contains(living[n - 1]) {
        spec_survivors(living, fallen, n - 1)
    } else {
        spec_survivors(living, fallen, n - 1).push(living[n - 1])
    }
}

impl EncounterPlugin {
    /// The monsters of a new encounter, each as its kind sets out.
    pub fn spawn_monsters(encounter: &Encounter) -> (spawned: Vec<MonsterBundle>)
        ensures
            spawned@.len() == encounter.monsters@.len(),
            forall|i: int|
                0 <= i < spawned@.len() ==> #[trigger] spawned@[i] == spec_bundle(
                    encounter.monsters@[i],
                ),
    {
        let mut spawned: Vec<MonsterBundle> = Vec::new();
        let mut i: usize = 0;
        while i < encounter.monsters.len()
            invariant
                i <= encounter.monsters.len(),
                spawned@.len() == i,
                forall|j: int|
                    0 <= j < i ==> #[trigger] spawned@[j] == spec_bundle(encounter.monsters@[j]),
            decreases encounter.monsters.len() - i,
        {
            let monster = encounter.monsters[i];
            let actions = monster.action_set();
            proof {
                let expected = spec_abilities(monster);
                assert(expected@ =~= monster.spec_action_set());
                assert(actions.attack == expected.attack) by {
                    assert(actions@.contains(crate::actions::Ability::Attack) == actions.attack);
                    assert(expected@.contains(crate::actions::Ability::Attack) == expected.attack);
                }
                assert(actions.block == expected.block) by {
                    assert(actions@.contains(crate::actions::Ability::Block) == actions.block);
                    assert(expected@.contains(crate::actions::Ability::Block) == expected.block);
                }
                assert(actions.taunt == expected.taunt) by {
                    assert(actions@.contains(crate::actions::Ability::Taunt) == actions.taunt);
                    assert(expected@.contains(crate::actions::Ability::Taunt) == expected.taunt);
                }
                assert(actions.shield == expected.shield) by {
                    assert(actions@.contains(crate::actions::Ability::Shield) == actions.shield);
                    assert(expected@.contains(crate::actions::Ability::Shield) == expected.shield);
                }
                assert(actions.poison == expected.poison) by {
                    assert(actions@.contains(crate::actions::Ability::Poison) == actions.poison);
                    assert(expected@.contains(crate::actions::Ability::Poison) == expected.poison);
                }
            }
            spawned.push(
                MonsterBundle {
                    monster,
                    health: monster.health(),
                    actions,
                    attack: monster.attack_damage(),
                    block: monster.block_damage(),
                },
            );
            i += 1;
        }
        spawned
    }

    /// Takes the dead out of an encounter. Returns the monsters that are
    /// dead and are to be removed from the world.
    pub fn despawn_dead_monsters(
        encounter_monsters: &mut EncounterMonsters,
        monsters: &Vec<(EntityRef, Health)>,
    ) -> (dead: Vec<EntityRef>)
        ensures
            dead@ == spec_fallen(monsters@, monsters@.len() as int),
            final(encounter_monsters).0@ == spec_survivors(
                old(encounter_monsters).0@,
                dead@,
                old(encounter_monsters).0@.len() as int,
            ),
    {
        let mut dead: Vec<EntityRef> = Vec::new();
        let mut i: usize = 0;
        while i < monsters.len()
            invariant
                i <= monsters.len(),
                dead@ == spec_fallen(monsters@, i as int),
            decreases monsters.len() - i,
        {
            if monsters[i].1.get() == 0 {
                dead.push(monsters[i].0);
            }
            i += 1;
        }
        let mut survivors: Vec<EntityRef> = Vec::new();
        let mut k: usize = 0;
        while k < encounter_monsters.0.len()
            invariant
                k <= encounter_monsters.0.len(),
                encounter_monsters.0@ == old(encounter_monsters).0@,
                survivors@ == spec_survivors(encounter_monsters.0@, dead@, k as int),
            decreases encounter_monsters.0.len() - k,
        {
            if !crate::game_loop::contains_entity(&dead, encounter_monsters.0[k]) {
                survivors.push(encounter_monsters.0[k]);
            }
            k += 1;
        }
        encounter_monsters.0 = survivors;
        dead
    }

    /// Whether an encounter is over: it is when none of its monsters is
    /// left.
    pub fn despawn_completed_encounters(encounter_monsters: &EncounterMonsters) -> (over: bool)
        ensures
            over == (encounter_monsters.0@.len() == 0),
    {
        encounter_monsters.0.len() == 0
    }
}

} // verus!
