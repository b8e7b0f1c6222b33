//! The list of what is on sale.

use crate::merchandise::components::{Merch, MerchId, Money};
use crate::tiles::{Tile, TileId};
use vstd::prelude::*;

verus! {

/// A kind of tile that players can buy.
pub trait Merchandise: Tile {
    spec fn spec_price() -> Money;

    spec fn spec_name() -> Seq<char>;

    fn price() -> (price: Money)
        ensures
            price == Self::spec_price(),
    ;

    fn name() -> (name: &'static str)
        ensures
            name@ == Self::spec_name(),
    ;
}

/// The goods under their numbers. Every registration gets the next number,
/// starting at zero; a kind of tile that is registered again is on sale under
/// its latest registration only.
pub struct MerchRegistry {
    entries: Vec<(TileId, Merch)>,
}

/// The place of the registration made last for the kind of tile, among the
/// first `n` registrations.
pub open spec fn spec_latest_at(entries: Seq<(TileId, Merch)>, tile: TileId, n: int) -> Option<int>
    decreases n,
{
    if n <= 0 {
        None
    } else if entries[n - 1].0 == tile {
        Some(n - 1)
    } else {
        spec_latest_at(entries, tile, n - 1)
    }
}

/// The goods under which the kind of tile is on sale.
pub open spec fn spec_latest(entries: Seq<(TileId, Merch)>, tile: TileId) -> Option<Merch> {
    match spec_latest_at(entries, tile, entries.len() as int) {
        Some(place) => Some(entries[place].1),
        None => None,
    }
}

/// The kind of tile registered under the number.
pub open spec fn spec_type_of(entries: Seq<(TileId, Merch)>, id: MerchId) -> Option<TileId> {
    if id.0 < entries.len() {
        Some(entries[id.0 as int].0)
    } else {
        None
    }
}

/// What is on sale among the first `n` registrations, in the order of the
/// numbers: each registration that no later one has replaced.
pub open spec fn spec_on_sale(entries: Seq<(TileId, Merch)>, n: int) -> Seq<(TileId, Merch)>
    decreases n,
{
    if n <= 0 {
        Seq::empty()
    } else if spec_latest_at(entries, entries[n - 1].0, entries.len() as int) == Some(n - 1) {
        spec_on_sale(entries, n - 1).push(entries[n - 1])
    } else {
        spec_on_sale(entries, n - 1)
    }
}

/// Whether the registration at each place carries the number of the place.
pub open spec fn numbered(entries: Seq<(TileId, Merch)>) -> bool {
    forall|k: int| 0 <= k < entries.len() ==> (#[trigger] entries[k]).1.id.0 == k
}

impl View for MerchRegistry {
    type V = Seq<(TileId, Merch)>;

    closed spec fn view(&self) -> Seq<(TileId, Merch)> {
        self.entries@
    }
}

impl Default for MerchRegistry {
    fn default() -> (registry: MerchRegistry)
        ensures
            registry@.len() == 0,
            registry.wf(),
    {
        MerchRegistry { entries: Vec::new() }
    }
}

impl MerchRegistry {
    /// Whether the registrations are numbered in their order, as every
    /// registry is that was made empty and filled by `register`.
    pub open spec fn wf(&self) -> bool {
        numbered(self@)
    }

    /// How many registrations have been made.
    pub fn len(&self) -> (len: usize)
        ensures
            len == self@.len(),
    {
        self.entries.len()
    }

    /// Puts the kind of tile `T` on sale under the next number. Returns the
    /// new goods as `Ok` if the kind was not on sale, and as `Err` the goods
    /// that they replace if it was.
    pub fn register<T: Merchandise>(&mut self) -> (outcome: Result<Merch, Merch>)
        requires
            old(self).wf(),
        ensures
            final(self).wf(),
            ({
                let merch = Merch {
                    id: MerchId(old(self)@.len() as usize),
                    price: T::spec_price(),
                    name: final(self)@.last().1.name,
                };
                &&& final(self)@ == old(self)@.push((T::spec_id(), merch))
                &&& merch.name@ == T::spec_name()
                &&& outcome == match spec_latest(old(self)@, T::spec_id()) {
                    Some(replaced) => Err::<Merch, Merch>(replaced),
                    None => Ok(merch),
                }
            }),
    {
        let merch = Merch::new(MerchId(self.entries.len()), T::name(), T::price());
        let replaced = self.latest(T::id());
        self.entries.push((T::id(), merch));
        match replaced {
            Some(place) => Err(self.entries[place].1),
            None => Ok(merch),
        }
    }

    fn latest(&self, tile: TileId) -> (place: Option<usize>)
        ensures
            match place {
                Some(place) => spec_latest_at(self@, tile, self@.len() as int) == Some(
                    place as int,
                ) && place < self@.len(),
                None => spec_latest_at(self@, tile, self@.len() as int) is None,
            },
    {
        let mut i: usize = self.entries.len();
        while i > 0
            invariant
                i <= self.entries.len(),
                spec_latest_at(self.entries@, tile, self.entries@.len() as int) == spec_latest_at(
                    self.entries@,
                    tile,
                    i as int,
                ),
            decreases i,
        {
            if self.entries[i - 1].0 == tile {
                return Some(i - 1);
            }
            i -= 1;
        }
        None
    }

    /// The goods under which the kind of tile `T` is on sale.
    pub fn get<T: Merchandise>(&self) -> (merch: Option<Merch>)
        ensures
            merch == spec_latest(self@, T::spec_id()),
    {
        match self.latest(T::id()) {
            Some(place) => Some(self.entries[place].1),
            None => None,
        }
    }

    /// The kind of tile registered under the number.
    pub fn get_type(&self, merch: &MerchId) -> (tile: Option<TileId>)
        ensures
            tile == spec_type_of(self@, *merch),
    {
        if merch.0 < self.entries.len() {
            Some(self.entries[merch.0].0)
        } else {
            None
        }
    }

    /// What is on sale, in the order of the numbers.
    pub fn sorted(&self) -> (sorted: Vec<(TileId, Merch)>)
        ensures
            sorted@ == spec_on_sale(self@, self@.len() as int),
    {
        let mut sorted: Vec<(TileId, Merch)> = Vec::new();
        let mut i: usize = 0;
        while i < self.entries.len()
            invariant
                i <= self.entries.len(),
                sorted@ == spec_on_sale(self.entries@, i as int),
            decreases self.entries.len() - i,
        {
            let entry = self.entries[i];
            if let Some(place) = self.latest(entry.0) {
                if place == i {
                    sorted.push(entry);
                }
            }
            i += 1;
        }
        sorted
    }

    /// What is on sale, in the order of the numbers.
    pub fn iter(&self) -> (goods: Vec<(TileId, Merch)>)
        ensures
            goods@ == spec_on_sale(self@, self@.len() as int),
    {
        self.sorted()
    }
}

} // verus!
