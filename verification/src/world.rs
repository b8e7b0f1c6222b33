//! The state that the stages of a tick share: the board that the tracer
//! reads, the health and money of the things on it, and the popups asked for.

use crate::entity::EntityRef;
use crate::health::Health;
use crate::lasers::capability::Collider;
use crate::lasers::tracer::{LaserEmitter, LaserHitEvent};
use crate::merchandise::components::Money;
use crate::popups::PopupEvent;
use vstd::prelude::*;

verus! {

/// The health and the money of one entity, as far as it has either.
#[derive(Clone, Copy, Debug, PartialEq, Eq, Structural)]
pub struct Account {
    pub entity: EntityRef,
    pub health: Option<Health>,
    pub money: Option<Money>,
}

/// A popup asked for over `target`.
#[derive(Clone, Debug)]
pub struct TargetedPopup {
    pub target: EntityRef,
    pub event: PopupEvent,
}

/// The world of the game. Where an entity has more than one account, the
/// first one counts.
#[derive(Clone, Debug)]
pub struct World {
    pub colliders: Vec<Collider>,
    pub lasers: Vec<LaserEmitter>,
    pub accounts: Vec<Account>,
    pub popups: Vec<TargetedPopup>,
}

/// The world as plain mathematics.
pub ghost struct WorldModel {
    pub colliders: Seq<Collider>,
    pub lasers: Seq<LaserEmitter>,
    pub accounts: Seq<Account>,
    /// Each popup asked for: over whom, and with what text.
    pub popups: Seq<(EntityRef, Seq<char>)>,
}

impl View for World {
    type V = WorldModel;

    open spec fn view(&self) -> WorldModel {
        WorldModel {
            colliders: self.colliders@,
            lasers: self.lasers@,
            accounts: self.accounts@,
            popups: self.popups@.map_values(|popup: TargetedPopup| (popup.target, popup.event.text@)),
        }
    }
}

/// The index of the first among the first `n` accounts that belongs to the
/// entity.
pub open spec fn account_at(accounts: Seq<Account>, entity: EntityRef, n: int) -> Option<int>
    decreases n,
{
    if n <= 0 {
        None
    } else {
        match account_at(accounts, entity, n - 1) {
            Some(i) => Some(i),
            None => if accounts[n - 1].entity == entity {
                Some(n - 1)
            } else {
                None
            },
        }
    }
}

/// The money in the account; none where it holds none.
pub open spec fn money_of(account: Account) -> nat {
    match account.money {
        Some(money) => money.0 as nat,
        None => 0,
    }
}

/// The money in the first `n` accounts.
pub open spec fn total_money(accounts: Seq<Account>, n: int) -> nat
    decreases n,
{
    if n <= 0 {
        0
    } else {
        total_money(accounts, n - 1) + money_of(accounts[n - 1])
    }
}

/// The money that a beam of the given strength takes out of the account: as
/// much as the strength, as far as there is that much.
pub open spec fn spec_drained(account: Account, strength: usize) -> nat {
    match account.money {
        Some(money) => if money.0 <= strength {
            money.0 as nat
        } else {
            strength as nat
        },
        None => 0,
    }
}

/// The health that the beam takes with the strength that the money has not
/// used up.
pub open spec fn spec_damage(account: Account, strength: usize) -> nat {
    let left = strength - spec_drained(account, strength);
    match account.health {
        Some(health) => if health.0 <= left {
            health.0 as nat
        } else {
            left as nat
        },
        None => 0,
    }
}

/// The account after a beam of the given strength has struck its owner.
pub open spec fn spec_struck(account: Account, strength: usize) -> Account {
    Account {
        entity: account.entity,
        health: match account.health {
            Some(health) => Some(Health((health.0 - spec_damage(account, strength)) as usize)),
            None => None,
        },
        money: match account.money {
            Some(money) => Some(Money((money.0 - spec_drained(account, strength)) as usize)),
            None => None,
        },
    }
}

/// The account after `amount` has been paid into it. An account that holds
/// no money takes none.
pub open spec fn spec_credited(account: Account, amount: nat) -> Account {
    Account {
        money: match account.money {
            Some(money) => Some(Money((money.0 + amount) as usize)),
            None => None,
        },
        ..account
    }
}

impl WorldModel {
    /// The world with one more collider on the board.
    pub open spec fn with_collider(self, collider: Collider) -> WorldModel {
        WorldModel { colliders: self.colliders.push(collider), ..self }
    }

    /// The world with one more emitter on the board.
    pub open spec fn with_laser(self, emitter: LaserEmitter) -> WorldModel {
        WorldModel { lasers: self.lasers.push(emitter), ..self }
    }

    /// Whether all the money in the world can be counted in a `usize`.
    pub open spec fn countable(self) -> bool {
        total_money(self.accounts, self.accounts.len() as int) <= usize::MAX
    }

    /// The world after a beam of `shooter` has struck `consumer`.
    ///
    /// A consumer without an account is passed over. Money that the beam
    /// drains goes to the shooter, if the shooter holds money. Where strength
    /// is left for the consumer's health, a popup over the consumer shows the
    /// strength of the beam.
    pub open spec fn struck(self, consumer: EntityRef, strength: usize, shooter: EntityRef) -> WorldModel {
        match account_at(self.accounts, consumer, self.accounts.len() as int) {
            None => self,
            Some(c) => {
                let target = self.accounts[c];
                let drained = spec_drained(target, strength);
                let debited = self.accounts.update(c, spec_struck(target, strength));
                let accounts = match account_at(debited, shooter, debited.len() as int) {
                    Some(s) => debited.update(s, spec_credited(debited[s], drained)),
                    None => debited,
                };
                let popups = if drained < strength && target.health is Some {
                    self.popups.push((consumer, PopupEvent::spec_damage_text(strength)))
                } else {
                    self.popups
                };
                WorldModel { accounts, popups, ..self }
            },
        }
    }

    /// The world after the first `n` of the hits, one after the other.
    pub open spec fn struck_by(self, hits: Seq<LaserHitEvent>, n: int) -> WorldModel
        decreases n,
    {
        if n <= 0 {
            self
        } else {
            let hit = hits[n - 1];
            self.struck_by(hits, n - 1).struck(hit.consumer, hit.strength, hit.shooter)
        }
    }
}

/// What `account_at` finds is the first account of the entity.
pub proof fn lemma_account_at(accounts: Seq<Account>, entity: EntityRef, n: int)
    requires
        0 <= n <= accounts.len(),
    ensures
        match account_at(accounts, entity, n) {
            Some(i) => {
                &&& 0 <= i < n
                &&& accounts[i].entity == entity
                &&& forall|j: int| 0 <= j < i ==> (#[trigger] accounts[j]).entity != entity
            },
            None => forall|j: int| 0 <= j < n ==> (#[trigger] accounts[j]).entity != entity,
        },
    decreases n,
{
    if n > 0 {
        lemma_account_at(accounts, entity, n - 1);
    }
}

/// Whose account is whose does not depend on what the accounts hold.
pub proof fn lemma_account_at_same_owners(
    before: Seq<Account>,
    after: Seq<Account>,
    entity: EntityRef,
    n: int,
)
    requires
        0 <= n <= before.len(),
        before.len() == after.len(),
        forall|j: int| 0 <= j < before.len() ==> (#[trigger] before[j]).entity == after[j].entity,
    ensures
        account_at(before, entity, n) == account_at(after, entity, n),
    decreases n,
{
    if n > 0 {
        lemma_account_at_same_owners(before, after, entity, n - 1);
        assert(before[n - 1].entity == after[n - 1].entity);
    }
}

/// Changing one account changes the total by what that account gains.
pub proof fn lemma_total_money_update(accounts: Seq<Account>, i: int, account: Account, n: int)
    requires
        0 <= i < accounts.len(),
        0 <= n <= accounts.len(),
    ensures
        total_money(accounts.update(i, account), n) == if i < n {
            total_money(accounts, n) - money_of(accounts[i]) + money_of(account)
        } else {
            total_money(accounts, n) as int
        },
        i < n ==> money_of(accounts[i]) <= total_money(accounts, n),
    decreases n,
{
    if n > 0 {
        lemma_total_money_update(accounts, i, account, n - 1);
    }
}

/// A hit makes no money: what the consumer loses, the shooter gains, unless
/// the shooter holds no money, in which case it is gone.
pub proof fn lemma_struck_conserves_money(
    world: WorldModel,
    consumer: EntityRef,
    strength: usize,
    shooter: EntityRef,
)
    requires
        world.countable(),
    ensures
        ({
            let after = world.struck(consumer, strength, shooter);
            let n = world.accounts.len() as int;
            let credited = account_at(world.accounts, consumer, n) is Some && (account_at(
                world.accounts,
                shooter,
                n,
            ) matches Some(s) && world.accounts[s].money is Some);
            &&& after.accounts.len() == world.accounts.len()
            &&& forall|j: int|
                0 <= j < n ==> (#[trigger] after.accounts[j]).entity == world.accounts[j].entity
            &&& total_money(after.accounts, n) <= total_money(world.accounts, n)
            &&& credited ==> total_money(after.accounts, n) == total_money(world.accounts, n)
            &&& after.countable()
            &&& after.colliders == world.colliders
            &&& after.lasers == world.lasers
        }),
{
    let n = world.accounts.len() as int;
    lemma_account_at(world.accounts, consumer, n);
    match account_at(world.accounts, consumer, n) {
        None => {},
        Some(c) => {
            let target = world.accounts[c];
            let drained = spec_drained(target, strength);
            let debited = world.accounts.update(c, spec_struck(target, strength));
            lemma_total_money_update(world.accounts, c, spec_struck(target, strength), n);
            lemma_account_at_same_owners(world.accounts, debited, shooter, n);
            lemma_account_at(debited, shooter, n);
            match account_at(debited, shooter, n) {
                Some(s) => {
                    lemma_total_money_update(debited, s, spec_credited(debited[s], drained), n);
                },
                None => {},
            }
        },
    }
}

impl World {
    /// A world with nothing in it.
    pub fn new() -> (world: World)
        ensures
            world@.colliders.len() == 0,
            world@.lasers.len() == 0,
            world@.accounts.len() == 0,
            world@.popups.len() == 0,
            world@.countable(),
    {
        World {
            colliders: Vec::new(),
            lasers: Vec::new(),
            accounts: Vec::new(),
            popups: Vec::new(),
        }
    }

    pub fn spawn_collider(&mut self, collider: Collider)
        ensures
            final(self)@ == old(self)@.with_collider(collider),
    {
        self.colliders.push(collider);
    }

    pub fn spawn_laser(&mut self, emitter: LaserEmitter)
        ensures
            final(self)@ == old(self)@.with_laser(emitter),
    {
        self.lasers.push(emitter);
    }

    /// The place of the first account of the entity.
    pub fn find_account(&self, entity: EntityRef) -> (found: Option<usize>)
        ensures
            match found {
                Some(i) => account_at(self@.accounts, entity, self@.accounts.len() as int) == Some(
                    i as int,
                ) && i < self.accounts.len(),
                None => account_at(self@.accounts, entity, self@.accounts.len() as int) is None,
            },
    {
        let mut i: usize = 0;
        while i < self.accounts.len()
            invariant
                i <= self.accounts.len(),
                account_at(self.accounts@, entity, i as int) is None,
            decreases self.accounts.len() - i,
        {
            if self.accounts[i].entity == entity {
                proof {
                    lemma_account_found_stays(
                        self.accounts@,
                        entity,
                        i as int,
                        self.accounts.len() as int,
                    );
                }
                return Some(i);
            }
            i += 1;
        }
        None
    }

    /// Whether all the money in the world can be counted in a `usize`.
    pub fn countable(&self) -> (countable: bool)
        ensures
            countable == self@.countable(),
    {
        let mut sum: usize = 0;
        let mut i: usize = 0;
        while i < self.accounts.len()
            invariant
                i <= self.accounts.len(),
                sum == total_money(self.accounts@, i as int),
            decreases self.accounts.len() - i,
        {
            let money = match self.accounts[i].money {
                Some(money) => money.get(),
                None => 0,
            };
            if money > usize::MAX - sum {
                proof {
                    lemma_total_money_grows(
                        self.accounts@,
                        i as int + 1,
                        self.accounts.len() as int,
                    );
                }
                return false;
            }
            sum += money;
            i += 1;
        }
        true
    }

    /// Applies one hit to the one it struck.
    pub fn resolve_hit(&mut self, hit: &LaserHitEvent)
        requires
            old(self)@.countable(),
        ensures
            final(self)@ == old(self)@.struck(hit.consumer, hit.strength, hit.shooter),
            final(self)@.countable(),
    {
        proof {
            lemma_struck_conserves_money(self@, hit.consumer, hit.strength, hit.shooter);
        }
        let ghost before = self@;
        let ghost n = self.accounts.len() as int;
        let Some(c) = self.find_account(hit.consumer) else {
            return ;
        };
        let target = self.accounts[c];
        let drained = match target.money {
            Some(money) => if money.get() <= hit.strength {
                money.get()
            } else {
                hit.strength
            },
            None => 0,
        };
        let left = hit.strength - drained;
        let struck = Account {
            entity: target.entity,
            health: match target.health {
                Some(health) => Some(
                    Health::new(
                        if health.get() <= left {
                            0
                        } else {
                            health.get() - left
                        },
                    ),
                ),
                None => None,
            },
            money: match target.money {
                Some(money) => Some(Money::new(money.get() - drained)),
                None => None,
            },
        };
        assert(struck == spec_struck(target, hit.strength));
        self.accounts.set(c, struck);
        let ghost debited = self.accounts@;
        proof {
            lemma_total_money_update(before.accounts, c as int, struck, n);
        }
        if let Some(s) = self.find_account(hit.shooter) {
            let account = self.accounts[s];
            if let Some(money) = account.money {
                proof {
                    lemma_total_money_update(debited, s as int, account, n);
                }
                let credited = Account {
                    money: Some(Money::new(money.get() + drained)),
                    ..account
                };
                self.accounts.set(s, credited);
            } else {
                assert(debited.update(s as int, spec_credited(debited[s as int], drained as nat))
                    =~= debited);
            }
        }
        if drained < hit.strength && target.health.is_some() {
            let popup = TargetedPopup {
                target: hit.consumer,
                event: PopupEvent::damage(hit.strength),
            };
            self.popups.push(popup);
            assert(self@.popups =~= before.popups.push(
                (hit.consumer, PopupEvent::spec_damage_text(hit.strength)),
            ));
        }
    }

    /// Applies the hits of a tick, in the order in which their beams were
    /// traced.
    pub fn resolve_hits(&mut self, hits: &Vec<LaserHitEvent>)
        requires
            old(self)@.countable(),
        ensures
            final(self)@ == old(self)@.struck_by(hits@, hits@.len() as int),
            final(self)@.countable(),
    {
        let mut i: usize = 0;
        while i < hits.len()
            invariant
                i <= hits.len(),
                self@ == old(self)@.struck_by(hits@, i as int),
                self@.countable(),
            decreases hits.len() - i,
        {
            self.resolve_hit(&hits[i]);
            i += 1;
        }
    }
}

proof fn lemma_account_found_stays(accounts: Seq<Account>, entity: EntityRef, i: int, n: int)
    requires
        0 <= i < n <= accounts.len(),
        account_at(accounts, entity, i + 1) == Some(i),
    ensures
        account_at(accounts, entity, n) == Some(i),
    decreases n,
{
    if n > i + 1 {
        lemma_account_found_stays(accounts, entity, i, n - 1);
    }
}

proof fn lemma_total_money_grows(accounts: Seq<Account>, i: int, n: int)
    requires
        0 <= i <= n <= accounts.len(),
    ensures
        total_money(accounts, i) <= total_money(accounts, n),
    decreases n,
{
    if n > i {
        lemma_total_money_grows(accounts, i, n - 1);
    }
}

} // verus!
