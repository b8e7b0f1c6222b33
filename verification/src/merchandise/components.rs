//! Money, and the goods it buys.

use crate::text::{decimal, dollar_text};
use vstd::prelude::*;

verus! {

/// Marks a player as one who can buy.
#[derive(Clone, Copy, Debug, PartialEq, Eq, Structural)]
pub struct Shopper;

/// An amount of money.
#[derive(Clone, Copy, Debug, PartialEq, Eq, Structural)]
pub struct Money(pub usize);

impl Money {
    pub fn new(value: usize) -> (money: Money)
        ensures
            money.0 == value,
    {
        Money(value)
    }

    pub fn get(&self) -> (value: usize)
        ensures
            value == self.0,
    {
        self.0
    }

    /// The amount as it is shown to players: a dollar sign and the number.
    pub fn to_text(&self) -> (text: String)
        ensures
            text@ == seq!['$'] + decimal(self.0 as nat),
    {
        dollar_text(self.0)
    }
}

/// The number under which a kind of goods is registered.
#[derive(Clone, Copy, Debug, PartialEq, Eq, Structural, Hash)]
pub struct MerchId(pub usize);

/// A kind of goods: its number, its price and its name.
#[derive(Clone, Copy, Debug, PartialEq, Eq)]
pub struct Merch {
    pub id: MerchId,
    pub price: Money,
    pub name: &'static str,
}

impl Merch {
    pub fn new(id: MerchId, name: &'static str, price: Money) -> (merch: Merch)
        ensures
            merch.id == id,
            merch.name == name,
            merch.price == price,
    {
        Merch { id, name, price }
    }

    pub fn id(&self) -> (id: MerchId)
        ensures
            id == self.id,
    {
        self.id
    }

    pub fn name(&self) -> (name: &'static str)
        ensures
            name == self.name,
    {
        self.name
    }

    pub fn price(&self) -> (price: Money)
        ensures
            price == self.price,
    {
        self.price
    }
}

} // verus!
