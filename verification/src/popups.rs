//! Short texts that appear over a tile and vanish again.

use crate::text::{decimal, minus_text};
use crate::timer::Timer;
use vstd::prelude::*;

verus! {

/// Asks for a popup with the given text.
#[derive(Clone, Debug)]
pub struct PopupEvent {
    pub text: String,
}

impl PopupEvent {
    /// The text shown over a tile that a beam has damaged.
    pub open spec fn spec_damage_text(strength: usize) -> Seq<char> {
        seq!['-'] + decimal(strength as nat)
    }

    /// The popup for a tile that a beam of the given strength has damaged: a
    /// minus sign and the strength.
    pub fn damage(strength: usize) -> (event: PopupEvent)
        ensures
            event.text@ == PopupEvent::spec_damage_text(strength),
    {
        PopupEvent { text: minus_text(strength) }
    }
}

/// Marks a popup.
#[derive(Clone, Copy, Debug, PartialEq, Eq, Structural)]
pub struct Popup;

/// A popup that is showing, and the timer that takes it away.
#[derive(Clone, Copy, Debug, PartialEq, Eq, Structural)]
pub struct PopupBundle {
    pub popup: Popup,
    pub timer: Timer,
}

impl Popup {
    /// How long a popup shows: one and a half seconds, in nanoseconds.
    pub const DURATION: u64 = 1_500_000_000;

    /// Answers a request for a popup over some entity: a popup with a fresh
    /// timer if the entity is a tile of the map, nothing if it is not.
    pub fn spawn_popup(on_tile: bool) -> (popup: Option<PopupBundle>)
        ensures
            popup == if on_tile {
                Some(PopupBundle { popup: Popup, timer: Timer { remaining: Popup::DURATION } })
            } else {
                None
            },
    {
        if on_tile {
            Some(PopupBundle { popup: Popup, timer: Timer::from_nanos(Popup::DURATION) })
        } else {
            None
        }
    }
}

/// The label under which the systems of the popups run.
#[derive(Clone, Copy, Debug, PartialEq, Eq, Structural, Hash)]
pub struct PopupSystems;

/// The systems of the popups.
#[derive(Clone, Copy, Debug)]
pub struct PopupPlugin;

/// The popups among the first `n` whose timers have not finished, in their
/// order.
pub open spec fn spec_showing(popups: Seq<PopupBundle>, n: int) -> Seq<PopupBundle>
    decreases n,
{
    if n <= 0 {
        Seq::empty()
    } else if popups[n - 1].timer.spec_finished() {
        spec_showing(popups, n - 1)
    } else {
        spec_showing(popups, n - 1).push(popups[n - 1])
    }
}

impl PopupPlugin {
    /// Lets `delta` nanoseconds pass for every popup.
    pub fn tick_popups(popups: &mut Vec<PopupBundle>, delta: u64)
        ensures
            final(popups)@.len() == old(popups)@.len(),
            forall|i: int|
                0 <= i < old(popups)@.len() ==> #[trigger] final(popups)@[i] == (PopupBundle {
                    popup: old(popups)@[i].popup,
                    timer: old(popups)@[i].timer.spec_ticked(delta),
                }),
    {
        let mut i: usize = 0;
        while i < popups.len()
            invariant
                i <= popups.len(),
                popups@.len() == old(popups)@.len(),
                forall|j: int|
                    0 <= j < i ==> #[trigger] popups@[j] == (PopupBundle {
                        popup: old(popups)@[j].popup,
                        timer: old(popups)@[j].timer.spec_ticked(delta),
                    }),
                forall|j: int| i <= j < popups@.len() ==> #[trigger] popups@[j] == old(popups)@[j],
            decreases popups.len() - i,
        {
            let mut popup = popups[i];
            popup.timer.tick(delta);
            popups.set(i, popup);
            i += 1;
        }
    }

    /// Takes away the popups whose timers have finished.
    pub fn despawn_popups(popups: &mut Vec<PopupBundle>)
        ensures
            final(popups)@ == spec_showing(old(popups)@, old(popups)@.len() as int),
    {
        let mut showing: Vec<PopupBundle> = Vec::new();
        let mut i: usize = 0;
        while i < popups.len()
            invariant
                i <= popups.len(),
                popups@ == old(popups)@,
                showing@ == spec_showing(popups@, i as int),
            decreases popups.len() - i,
        {
            if !popups[i].timer.finished() {
                showing.push(popups[i]);
            }
            i += 1;
        }
        *popups = showing;
    }
}

} // verus!
