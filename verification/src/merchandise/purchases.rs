//! Buying: a player pays the price of the goods, and a tile of their kind is
//! asked for.

use crate::entity::EntityRef;
use crate::merchandise::components::{Merch, MerchId, Money};
use crate::merchandise::registry::{spec_type_of, MerchRegistry};
use crate::tiles::{TileId, TileSpawnEvent};
use crate::world::{account_at, lemma_total_money_update, Account, World, WorldModel};
use vstd::prelude::*;

verus! {

/// A player wants to buy the goods and have them put on a tile of the map.
#[derive(Clone, Copy, Debug)]
pub struct Purchase {
    pub buyer: EntityRef,
    pub merch: Merch,
    pub on_tile: EntityRef,
}

impl Purchase {
    pub fn new(buyer: EntityRef, merch: Merch, on_tile: EntityRef) -> (purchase: Purchase)
        ensures
            purchase.buyer == buyer,
            purchase.merch == merch,
            purchase.on_tile == on_tile,
    {
        Purchase { buyer, merch, on_tile }
    }
}

/// Why a purchase was turned down.
#[derive(Clone, Copy, Debug, PartialEq, Eq, Structural)]
pub enum PurchaseError {
    /// The buyer has less money than the goods cost.
    NotEnoughMoney { shopper: EntityRef, cost: Money, money: Money },
    /// No goods are registered under the number.
    UnknownMerch { merch_id: MerchId },
}

/// The label under which the systems of the shop run.
#[derive(Clone, Copy, Debug, PartialEq, Eq, Structural, Hash)]
pub struct MerchSystems;

/// The systems of the shop.
pub struct MerchPlugin;

/// How far a row of purchases has been dealt with.
pub ghost struct Checkout {
    pub accounts: Seq<Account>,
    pub tile_spawns: Seq<TileSpawnEvent>,
    pub errors: Seq<PurchaseError>,
}

/// The checkout after one more purchase.
///
/// A buyer who holds no money is passed over. A buyer who can pay for goods
/// that are registered pays, and a tile is asked for. Where the buyer cannot
/// pay, or the goods are not registered, nobody pays and the error is noted.
pub open spec fn spec_purchase(
    checkout: Checkout,
    purchase: Purchase,
    registry: Seq<(TileId, Merch)>,
    game: EntityRef,
) -> Checkout {
    match account_at(checkout.accounts, purchase.buyer, checkout.accounts.len() as int) {
        Some(i) => match checkout.accounts[i].money {
            Some(money) => {
                let cost = purchase.merch.price;
                if money.0 < cost.0 {
                    Checkout {
                        errors: checkout.errors.push(
                            PurchaseError::NotEnoughMoney { shopper: purchase.buyer, cost, money },
                        ),
                        ..checkout
                    }
                } else {
                    match spec_type_of(registry, purchase.merch.id) {
                        Some(tile_id) => Checkout {
                            accounts: checkout.accounts.update(
                                i,
                                Account {
                                    money: Some(Money((money.0 - cost.0) as usize)),
                                    ..checkout.accounts[i]
                                },
                            ),
                            tile_spawns: checkout.tile_spawns.push(
                                TileSpawnEvent {
                                    tile_id,
                                    on_tile: purchase.on_tile,
                                    owner: purchase.buyer,
                                    game,
                                },
                            ),
                            ..checkout
                        },
                        None => Checkout {
                            errors: checkout.errors.push(
                                PurchaseError::UnknownMerch { merch_id: purchase.merch.id },
                            ),
                            ..checkout
                        },
                    }
                }
            },
            None => checkout,
        },
        None => checkout,
    }
}

/// The checkout after the first `n` purchases, dealt with in their order.
pub open spec fn spec_checkout(
    purchases: Seq<Purchase>,
    registry: Seq<(TileId, Merch)>,
    accounts: Seq<Account>,
    game: EntityRef,
    n: int,
) -> Checkout
    decreases n,
{
    if n <= 0 {
        Checkout { accounts, tile_spawns: Seq::empty(), errors: Seq::empty() }
    } else {
        spec_purchase(
            spec_checkout(purchases, registry, accounts, game, n - 1),
            purchases[n - 1],
            registry,
            game,
        )
    }
}

/// What the purchases of a tick led to.
#[derive(Debug)]
pub struct PurchaseReport {
    /// The tiles asked for, one for each purchase that went through.
    pub tile_spawns: Vec<TileSpawnEvent>,
    /// `Ok` if every purchase went through or was passed over; if not, the
    /// errors, one for each purchase that was turned down.
    pub outcome: Result<(), Vec<PurchaseError>>,
}

impl MerchPlugin {
    /// The money that a new player starts with.
    pub const STARTING_MONEY: usize = 50;

    /// The account of a new player.
    pub fn spawn_shopper(player: EntityRef) -> (account: Account)
        ensures
            account == (Account {
                entity: player,
                health: None,
                money: Some(Money(MerchPlugin::STARTING_MONEY)),
            }),
    {
        Account { entity: player, health: None, money: Some(Money::new(MerchPlugin::STARTING_MONEY)) }
    }

    /// Deals with the purchases of a tick in their order. One purchase that
    /// is turned down does not stop the others.
    pub fn handle_purchases(
        purchases: &Vec<Purchase>,
        registry: &MerchRegistry,
        world: &mut World,
        game: EntityRef,
    ) -> (report: PurchaseReport)
        ensures
            ({
                let end = spec_checkout(
                    purchases@,
                    registry@,
                    old(world)@.accounts,
                    game,
                    purchases@.len() as int,
                );
                &&& final(world)@ == (WorldModel { accounts: end.accounts, ..old(world)@ })
                &&& report.tile_spawns@ == end.tile_spawns
                &&& match report.outcome {
                    Ok(_) => end.errors.len() == 0,
                    Err(errors) => errors@ == end.errors && end.errors.len() > 0,
                }
            }),
            old(world)@.countable() ==> final(world)@.countable(),
    {
        let mut tile_spawns: Vec<TileSpawnEvent> = Vec::new();
        let mut errors: Vec<PurchaseError> = Vec::new();
        let ghost n = world.accounts.len() as int;
        let mut k: usize = 0;
        while k < purchases.len()
            invariant
                k <= purchases.len(),
                world.accounts@.len() == n,
                world@ == (WorldModel { accounts: world.accounts@, ..old(world)@ }),
                spec_checkout(purchases@, registry@, old(world)@.accounts, game, k as int) == (
                Checkout { accounts: world.accounts@, tile_spawns: tile_spawns@, errors: errors@ }),
                crate::world::total_money(world.accounts@, n) <= crate::world::total_money(
                    old(world)@.accounts,
                    n,
                ),
            decreases purchases.len() - k,
        {
            let purchase = &purchases[k];
            if let Some(i) = world.find_account(purchase.buyer) {
                let account = world.accounts[i];
                if let Some(money) = account.money {
                    let cost = purchase.merch.price();
                    if money.get() < cost.get() {
                        errors.push(
                            PurchaseError::NotEnoughMoney { shopper: purchase.buyer, cost, money },
                        );
                    } else if let Some(tile_id) = registry.get_type(&purchase.merch.id()) {
                        let paid = Account {
                            money: Some(Money::new(money.get() - cost.get())),
                            ..account
                        };
                        proof {
                            lemma_total_money_update(world.accounts@, i as int, paid, n);
                        }
                        world.accounts.set(i, paid);
                        tile_spawns.push(
                            TileSpawnEvent {
                                tile_id,
                                on_tile: purchase.on_tile,
                                owner: purchase.buyer,
                                game,
                            },
                        );
                    } else {
                        errors.push(PurchaseError::UnknownMerch { merch_id: purchase.merch.id() });
                    }
                }
            }
            k += 1;
        }
        let outcome = if errors.len() == 0 {
            Ok(())
        } else {
            Err(errors)
        };
        PurchaseReport { tile_spawns, outcome }
    }
}

} // verus!
