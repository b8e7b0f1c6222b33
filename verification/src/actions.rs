//! What the fighters of a dungeon game do to each other.

use crate::entity::EntityRef;
use crate::game_instance::BonusHealth;
use crate::health::Health;
use vstd::prelude::*;

verus! {

/// The label under which the actions are carried out.
#[derive(Clone, Copy, Debug, PartialEq, Eq, Structural, Hash)]
pub struct ActionsSystems;

/// Carries out the actions.
pub struct ActionsPlugin;

/// The damage that someone's attack does.
#[derive(Clone, Copy, Debug, PartialEq, Eq, Structural, Hash)]
pub struct AttackDamage(pub usize);

/// The damage that someone's block wards off.
#[derive(Clone, Copy, Debug, PartialEq, Eq, Structural, Hash)]
pub struct BlockDamage(pub usize);

/// How much poison someone carries.
#[derive(Clone, Copy, Debug, PartialEq, Eq, Structural)]
pub struct Poison(pub usize);

/// Marks someone who draws the attacks.
#[derive(Clone, Copy, Debug, PartialEq, Eq, Structural)]
pub struct Taunt;

/// What a fighter can do.
#[derive(Clone, Copy, Debug, PartialEq, Eq, Structural, Hash)]
pub enum Ability {
    Attack,
    Block,
    Taunt,
    Shield,
    Poison,
}

/// The use of an ability by `caster` on `target`.
#[derive(Clone, Copy, Debug, PartialEq, Eq, Structural, Hash)]
pub struct Action {
    pub ability: Ability,
    pub caster: EntityRef,
    pub target: EntityRef,
}

impl Action {
    pub fn new(ability: Ability, caster: EntityRef, target: EntityRef) -> (action: Action)
        ensures
            action == (Action { ability, caster, target }),
    {
        Action { ability, caster, target }
    }
}

/// The actions of a turn, in their order.
#[derive(Clone, Debug)]
pub struct ActionList(pub Vec<Action>);

/// The abilities that a fighter has.
#[derive(Clone, Copy, Debug, PartialEq, Eq, Structural)]
pub struct ActionSet {
    pub attack: bool,
    pub block: bool,
    pub taunt: bool,
    pub shield: bool,
    pub poison: bool,
}

impl View for ActionSet {
    type V = Set<Ability>;

    open spec fn view(&self) -> Set<Ability> {
        Set::new(|ability: Ability| self.spec_contains(ability))
    }
}

impl Default for ActionSet {
    fn default() -> (set: ActionSet)
        ensures
            set@ == Set::<Ability>::empty(),
    {
        let set = ActionSet {
            attack: false,
            block: false,
            taunt: false,
            shield: false,
            poison: false,
        };
        assert(set@ =~= Set::<Ability>::empty());
        set
    }
}

impl ActionSet {
    pub open spec fn spec_contains(self, ability: Ability) -> bool {
        match ability {
            Ability::Attack => self.attack,
            Ability::Block => self.block,
            Ability::Taunt => self.taunt,
            Ability::Shield => self.shield,
            Ability::Poison => self.poison,
        }
    }

    pub fn contains(&self, ability: Ability) -> (found: bool)
        ensures
            found == self@.contains(ability),
    {
        match ability {
            Ability::Attack => self.attack,
            Ability::Block => self.block,
            Ability::Taunt => self.taunt,
            Ability::Shield => self.shield,
            Ability::Poison => self.poison,
        }
    }

    pub fn insert(&mut self, ability: Ability)
        ensures
            final(self)@ == old(self)@.insert(ability),
    {
        match ability {
            Ability::Attack => {
                self.attack = true;
            },
            Ability::Block => {
                self.block = true;
            },
            Ability::Taunt => {
                self.taunt = true;
            },
            Ability::Shield => {
                self.shield = true;
            },
            Ability::Poison => {
                self.poison = true;
            },
        }
        assert(self@ =~= old(self)@.insert(ability));
    }
}

/// A fighter, with everything that an action reads or changes.
#[derive(Clone, Copy, Debug, PartialEq, Eq, Structural)]
pub struct Fighter {
    pub entity: EntityRef,
    pub health: Health,
    pub bonus_health: Option<BonusHealth>,
    pub poison: Option<Poison>,
    pub taunt: bool,
    pub attack_damage: Option<AttackDamage>,
    pub block_damage: Option<BlockDamage>,
}

/// Why an action could not be carried out.
#[derive(Clone, Copy, Debug, PartialEq, Eq, Structural)]
pub enum ActionError {
    /// The target is not among the fighters.
    NoTarget { target: EntityRef },
    /// The caster is not among the fighters or has no attack.
    NoAttack { caster: EntityRef },
    /// The caster is not among the fighters or has no block.
    NoBlock { caster: EntityRef },
}

/// The index of the first among the first `n` fighters that is the entity.
pub open spec fn fighter_at(fighters: Seq<Fighter>, entity: EntityRef, n: int) -> Option<int>
    decreases n,
{
    if n <= 0 {
        None
    } else {
        match fighter_at(fighters, entity, n - 1) {
            Some(i) => Some(i),
            None => if fighters[n - 1].entity == entity {
                Some(n - 1)
            } else {
                None
            },
        }
    }
}

/// The attack of the caster, if the caster is a fighter and has one.
pub open spec fn spec_attack_of(fighters: Seq<Fighter>, caster: EntityRef) -> Option<usize> {
    match fighter_at(fighters, caster, fighters.len() as int) {
        Some(i) => match fighters[i].attack_damage {
            Some(damage) => Some(damage.0),
            None => None,
        },
        None => None,
    }
}

/// The block of the caster, if the caster is a fighter and has one.
pub open spec fn spec_block_of(fighters: Seq<Fighter>, caster: EntityRef) -> Option<usize> {
    match fighter_at(fighters, caster, fighters.len() as int) {
        Some(i) => match fighters[i].block_damage {
            Some(damage) => Some(damage.0),
            None => None,
        },
        None => None,
    }
}

/// The target after an attack that does `damage`: bonus health takes the
/// damage as far as it lasts and is gone when it is used up; what is left of
/// the damage strikes the health, which does not fall below zero.
pub open spec fn spec_attacked(target: Fighter, damage: usize) -> Fighter {
    match target.bonus_health {
        Some(bonus) => if damage >= bonus.0 {
            Fighter {
                bonus_health: None,
                health: Health(
                    if target.health.0 >= damage - bonus.0 {
                        (target.health.0 - (damage - bonus.0)) as usize
                    } else {
                        0
                    },
                ),
                ..target
            }
        } else {
            Fighter { bonus_health: Some(BonusHealth((bonus.0 - damage) as usize)), ..target }
        },
        None => Fighter {
            health: Health(
                if target.health.0 >= damage {
                    (target.health.0 - damage) as usize
                } else {
                    0
                },
            ),
            ..target
        },
    }
}

/// The target after a block or a shield worth `damage`: that much bonus
/// health on top of what it had.
pub open spec fn spec_shielded(target: Fighter, damage: usize) -> Fighter {
    Fighter {
        bonus_health: Some(
            BonusHealth(
                match target.bonus_health {
                    Some(bonus) => (bonus.0 + damage) as usize,
                    None => damage,
                },
            ),
        ),
        ..target
    }
}

/// The target with one more dose of poison.
pub open spec fn spec_poisoned(target: Fighter) -> Fighter {
    Fighter {
        poison: Some(
            Poison(
                match target.poison {
                    Some(poison) => (poison.0 + 1) as usize,
                    None => 1,
                },
            ),
        ),
        ..target
    }
}

/// What the action makes of its target, or why it cannot be carried out.
pub open spec fn spec_action(fighters: Seq<Fighter>, action: Action) -> Result<
    (int, Fighter),
    ActionError,
> {
    match fighter_at(fighters, action.target, fighters.len() as int) {
        None => Err(ActionError::NoTarget { target: action.target }),
        Some(t) => match action.ability {
            Ability::Attack => match spec_attack_of(fighters, action.caster) {
                Some(damage) => Ok((t, spec_attacked(fighters[t], damage))),
                None => Err(ActionError::NoAttack { caster: action.caster }),
            },
            Ability::Block | Ability::Shield => match spec_block_of(fighters, action.caster) {
                Some(damage) => Ok((t, spec_shielded(fighters[t], damage))),
                None => Err(ActionError::NoBlock { caster: action.caster }),
            },
            Ability::Taunt => Ok((t, Fighter { taunt: true, ..fighters[t] })),
            Ability::Poison => Ok((t, spec_poisoned(fighters[t]))),
        },
    }
}

/// Whether the action can be carried out without a number leaving `usize`.
pub open spec fn spec_action_fits(fighters: Seq<Fighter>, action: Action) -> bool {
    match fighter_at(fighters, action.target, fighters.len() as int) {
        None => true,
        Some(t) => match action.ability {
            Ability::Block | Ability::Shield => match (
                spec_block_of(fighters, action.caster),
                fighters[t].bonus_health,
            ) {
                (Some(damage), Some(bonus)) => bonus.0 + damage <= usize::MAX,
                _ => true,
            },
            Ability::Poison => match fighters[t].poison {
                Some(poison) => poison.0 < usize::MAX,
                None => true,
            },
            _ => true,
        },
    }
}

/// The fighters after the action, and the error if it could not be carried
/// out, in which case nothing has changed.
pub open spec fn spec_run_action(fighters: Seq<Fighter>, action: Action) -> Seq<Fighter> {
    match spec_action(fighters, action) {
        Ok((t, target)) => fighters.update(t, target),
        Err(_) => fighters,
    }
}

/// The fighters after the first `n` actions.
pub open spec fn spec_run_actions(fighters: Seq<Fighter>, actions: Seq<Action>, n: int) -> Seq<
    Fighter,
>
    decreases n,
{
    if n <= 0 {
        fighters
    } else {
        spec_run_action(spec_run_actions(fighters, actions, n - 1), actions[n - 1])
    }
}

/// The errors of the first `n` actions, in their order.
pub open spec fn spec_action_errors(fighters: Seq<Fighter>, actions: Seq<Action>, n: int) -> Seq<
    ActionError,
>
    decreases n,
{
    if n <= 0 {
        Seq::empty()
    } else {
        let before = spec_action_errors(fighters, actions, n - 1);
        match spec_action(spec_run_actions(fighters, actions, n - 1), actions[n - 1]) {
            Ok(_) => before,
            Err(error) => before.push(error),
        }
    }
}

/// Whether each of the first `n` actions can be carried out, after those
/// before it, without a number leaving `usize`.
pub open spec fn spec_actions_fit(fighters: Seq<Fighter>, actions: Seq<Action>, n: int) -> bool {
    forall|k: int|
        0 <= k < n ==> spec_action_fits(
            #[trigger] spec_run_actions(fighters, actions, k),
            actions[k],
        )
}

proof fn lemma_fighter_found_stays(fighters: Seq<Fighter>, entity: EntityRef, i: int, n: int)
    requires
        0 <= i < n <= fighters.len(),
        fighter_at(fighters, entity, i + 1) == Some(i),
    ensures
        fighter_at(fighters, entity, n) == Some(i),
    decreases n,
{
    if n > i + 1 {
        lemma_fighter_found_stays(fighters, entity, i, n - 1);
    }
}

impl ActionsPlugin {
    /// The place of the fighter.
    pub fn find(fighters: &Vec<Fighter>, entity: EntityRef) -> (found: Option<usize>)
        ensures
            match found {
                Some(i) => fighter_at(fighters@, entity, fighters@.len() as int) == Some(i as int)
                    && i < fighters@.len(),
                None => fighter_at(fighters@, entity, fighters@.len() as int) is None,
            },
    {
        let mut i: usize = 0;
        while i < fighters.len()
            invariant
                i <= fighters.len(),
                fighter_at(fighters@, entity, i as int) is None,
            decreases fighters.len() - i,
        {
            if fighters[i].entity == entity {
                proof {
                    lemma_fighter_found_stays(fighters@, entity, i as int, fighters@.len() as int);
                }
                return Some(i);
            }
            i += 1;
        }
        None
    }

    /// Whether the action can be carried out without a number leaving
    /// `usize`.
    pub fn action_fits(action: &Action, fighters: &Vec<Fighter>) -> (fits: bool)
        ensures
            fits == spec_action_fits(fighters@, *action),
    {
        let Some(t) = ActionsPlugin::find(fighters, action.target) else {
            return true;
        };
        match action.ability {
            Ability::Block | Ability::Shield => {
                let block = match ActionsPlugin::find(fighters, action.caster) {
                    Some(c) => fighters[c].block_damage,
                    None => None,
                };
                match (block, fighters[t].bonus_health) {
                    (Some(damage), Some(bonus)) => damage.0 <= usize::MAX - bonus.0,
                    _ => true,
                }
            },
            Ability::Poison => match fighters[t].poison {
                Some(poison) => poison.0 < usize::MAX,
                None => true,
            },
            _ => true,
        }
    }

    /// Carries out one action on its target.
    pub fn run_action(action: &Action, fighters: &mut Vec<Fighter>) -> (outcome: Result<
        (),
        ActionError,
    >)
        requires
            spec_action_fits(old(fighters)@, *action),
        ensures
            final(fighters)@ == spec_run_action(old(fighters)@, *action),
            outcome == match spec_action(old(fighters)@, *action) {
                Ok(_) => Ok::<(), ActionError>(()),
                Err(error) => Err(error),
            },
    {
        let Some(t) = ActionsPlugin::find(fighters, action.target) else {
            return Err(ActionError::NoTarget { target: action.target });
        };
        let target = fighters[t];
        let caster = match ActionsPlugin::find(fighters, action.caster) {
            Some(c) => Some(fighters[c]),
            None => None,
        };
        let changed = match action.ability {
            Ability::Attack => {
                let damage = match caster {
                    Some(caster) => caster.attack_damage,
                    None => None,
                };
                let Some(damage) = damage else {
                    return Err(ActionError::NoAttack { caster: action.caster });
                };
                match target.bonus_health {
                    Some(bonus) => if damage.0 >= bonus.0 {
                        Fighter {
                            bonus_health: None,
                            health: Health::new(
                                if target.health.0 >= damage.0 - bonus.0 {
                                    target.health.0 - (damage.0 - bonus.0)
                                } else {
                                    0
                                },
                            ),
                            ..target
                        }
                    } else {
                        Fighter { bonus_health: Some(BonusHealth(bonus.0 - damage.0)), ..target }
                    },
                    None => Fighter {
                        health: Health::new(
                            if target.health.0 >= damage.0 {
                                target.health.0 - damage.0
                            } else {
                                0
                            },
                        ),
                        ..target
                    },
                }
            },
            Ability::Block | Ability::Shield => {
                let damage = match caster {
                    Some(caster) => caster.block_damage,
                    None => None,
                };
                let Some(damage) = damage else {
                    return Err(ActionError::NoBlock { caster: action.caster });
                };
                let bonus = match target.bonus_health {
                    Some(bonus) => bonus.0 + damage.0,
                    None => damage.0,
                };
                Fighter { bonus_health: Some(BonusHealth(bonus)), ..target }
            },
            Ability::Taunt => Fighter { taunt: true, ..target },
            Ability::Poison => {
                let poison = match target.poison {
                    Some(poison) => poison.0 + 1,
                    None => 1,
                };
                Fighter { poison: Some(Poison(poison)), ..target }
            },
        };
        fighters.set(t, changed);
        Ok(())
    }

    /// Carries out the actions of a turn in their order. An action that
    /// cannot be carried out changes nothing and does not stop the others;
    /// the errors are handed back together.
    pub fn run_actions(actions: &ActionList, fighters: &mut Vec<Fighter>) -> (outcome: Result<
        (),
        Vec<ActionError>,
    >)
        requires
            spec_actions_fit(old(fighters)@, actions.0@, actions.0@.len() as int),
        ensures
            final(fighters)@ == spec_run_actions(
                old(fighters)@,
                actions.0@,
                actions.0@.len() as int,
            ),
            match outcome {
                Ok(_) => spec_action_errors(
                    old(fighters)@,
                    actions.0@,
                    actions.0@.len() as int,
                ).len() == 0,
                Err(errors) => errors@.len() > 0 && errors@ == spec_action_errors(
                    old(fighters)@,
                    actions.0@,
                    actions.0@.len() as int,
                ),
            },
    {
        let mut errors: Vec<ActionError> = Vec::new();
        let mut n: usize = 0;
        while n < actions.0.len()
            invariant
                n <= actions.0.len(),
                spec_actions_fit(old(fighters)@, actions.0@, actions.0@.len() as int),
                fighters@ == spec_run_actions(old(fighters)@, actions.0@, n as int),
                errors@ == spec_action_errors(old(fighters)@, actions.0@, n as int),
            decreases actions.0.len() - n,
        {
            assert(spec_action_fits(
                spec_run_actions(old(fighters)@, actions.0@, n as int),
                actions.0@[n as int],
            ));
            if let Err(error) = ActionsPlugin::run_action(&actions.0[n], fighters) {
                errors.push(error);
            }
            n += 1;
        }
        if errors.len() == 0 {
            Ok(())
        } else {
            Err(errors)
        }
    }

    /// What a hero can do, and how well, before anything else is learnt: an
    /// attack and a block, each worth five.
    pub fn setup_actions() -> (start: (ActionSet, AttackDamage, BlockDamage))
        ensures
            start.0@ == Set::<Ability>::empty().insert(Ability::Attack).insert(Ability::Block),
            start.1 == AttackDamage(5),
            start.2 == BlockDamage(5),
    {
        let mut actions = ActionSet::default();
        actions.insert(Ability::Attack);
        actions.insert(Ability::Block);
        (actions, AttackDamage(5), BlockDamage(5))
    }

    /// Nobody draws the attacks any longer.
    pub fn reset_actions(fighters: &mut Vec<Fighter>)
        ensures
            final(fighters)@.len() == old(fighters)@.len(),
            forall|i: int|
                0 <= i < old(fighters)@.len() ==> #[trigger] final(fighters)@[i] == (Fighter {
                    taunt: false,
                    ..old(fighters)@[i]
                }),
    {
        let mut i: usize = 0;
        while i < fighters.len()
            invariant
                i <= fighters.len(),
                fighters@.len() == old(fighters)@.len(),
                forall|j: int|
                    0 <= j < i ==> #[trigger] fighters@[j] == (Fighter {
                        taunt: false,
                        ..old(fighters)@[j]
                    }),
                forall|j: int| i <= j < fighters@.len() ==> #[trigger] fighters@[j] == old(fighters)@[j],
            decreases fighters.len() - i,
        {
            let fighter = fighters[i];
            fighters.set(i, Fighter { taunt: false, ..fighter });
            i += 1;
        }
    }
}

} // verus!
