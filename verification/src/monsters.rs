//! The monsters that the villain of a dungeon game sends.

use crate::actions::{Ability, ActionSet, AttackDamage, BlockDamage};
use crate::health::Health;
use vstd::prelude::*;

verus! {

/// A kind of monster.
#[derive(Clone, Copy, Debug, PartialEq, Eq, Structural)]
pub enum Monster {
    Slime,
    Goblin,
    Skeleton,
    ZombiePriest,
    Witch,
    Minotaur,
}

impl Monster {
    pub open spec fn spec_health(self) -> usize {
        match self {
            Monster::Slime => 4,
            Monster::Goblin => 7,
            Monster::Skeleton => 8,
            Monster::ZombiePriest => 6,
            Monster::Witch => 5,
            Monster::Minotaur => 15,
        }
    }

    pub open spec fn spec_action_set(self) -> Set<Ability> {
        match self {
            Monster::Slime => set![Ability::Attack, Ability::Taunt],
            Monster::Goblin => set![Ability::Attack],
            Monster::Skeleton => set![Ability::Attack, Ability::Block],
            Monster::ZombiePriest => set![Ability::Shield],
            Monster::Witch => set![Ability::Poison],
            Monster::Minotaur => set![Ability::Attack, Ability::Block],
        }
    }

    pub open spec fn spec_attack_damage(self) -> Option<AttackDamage> {
        match self {
            Monster::Slime => Some(AttackDamage(2)),
            Monster::Goblin => Some(AttackDamage(5)),
            Monster::Skeleton => Some(AttackDamage(3)),
            Monster::ZombiePriest => None,
            Monster::Witch => None,
            Monster::Minotaur => Some(AttackDamage(10)),
        }
    }

    pub open spec fn spec_block_damage(self) -> Option<BlockDamage> {
        match self {
            Monster::Slime => None,
            Monster::Goblin => None,
            Monster::Skeleton => Some(BlockDamage(2)),
            Monster::ZombiePriest => Some(BlockDamage(3)),
            Monster::Witch => None,
            Monster::Minotaur => Some(BlockDamage(4)),
        }
    }

    /// The health with which a monster of this kind sets out.
    pub fn health(&self) -> (health: Health)
        ensures
            health.0 == self.spec_health(),
    {
        Health::new(
            match self {
                Monster::Slime => 4,
                Monster::Goblin => 7,
                Monster::Skeleton => 8,
                Monster::ZombiePriest => 6,
                Monster::Witch => 5,
                Monster::Minotaur => 15,
            },
        )
    }

    /// What a monster of this kind can do.
    pub fn action_set(&self) -> (actions: ActionSet)
        ensures
            actions@ == self.spec_action_set(),
    {
        let mut actions = ActionSet::default();
        match self {
            Monster::Slime => {
                actions.insert(Ability::Attack);
                actions.insert(Ability::Taunt);
            },
            Monster::Goblin => {
                actions.insert(Ability::Attack);
            },
            Monster::Skeleton => {
                actions.insert(Ability::Attack);
                actions.insert(Ability::Block);
            },
            Monster::ZombiePriest => {
                actions.insert(Ability::Shield);
            },
            Monster::Witch => {
                actions.insert(Ability::Poison);
            },
            Monster::Minotaur => {
                actions.insert(Ability::Attack);
                actions.insert(Ability::Block);
            },
        }
        assert(actions@ =~= self.spec_action_set());
        actions
    }

    /// The damage of its attack, if it has one.
    pub fn attack_damage(&self) -> (damage: Option<AttackDamage>)
        ensures
            damage == self.spec_attack_damage(),
    {
        match self {
            Monster::Slime => Some(AttackDamage(2)),
            Monster::Goblin => Some(AttackDamage(5)),
            Monster::Skeleton => Some(AttackDamage(3)),
            Monster::ZombiePriest => None,
            Monster::Witch => None,
            Monster::Minotaur => Some(AttackDamage(10)),
        }
    }

    /// The damage that its block wards off, if it has one.
    pub fn block_damage(&self) -> (damage: Option<BlockDamage>)
        ensures
            damage == self.spec_block_damage(),
    {
        match self {
            Monster::Slime => None,
            Monster::Goblin => None,
            Monster::Skeleton => Some(BlockDamage(2)),
            Monster::ZombiePriest => Some(BlockDamage(3)),
            Monster::Witch => None,
            Monster::Minotaur => Some(BlockDamage(4)),
        }
    }
}

} // verus!
