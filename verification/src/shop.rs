//! What the shop decides between a player's clicks and a purchase.

use crate::entity::EntityRef;
use crate::game_loop::{Game, GamePhase, GamePlayers};
use crate::merchandise::components::Merch;
use crate::merchandise::purchases::Purchase;
use crate::tilemap::TargetedTile;
use crate::tiles::TileId;
use vstd::prelude::*;

verus! {

/// The label under which the systems of the shop window run.
#[derive(Clone, Copy, Debug, PartialEq, Eq, Structural, Hash)]
pub struct ShopSystems;

/// The systems of the shop window.
pub struct ShopPlugin;

/// The goods that are picked in the shop.
#[derive(Clone, Copy, Debug)]
pub struct SelectedMerch(pub Merch);

/// The player on whose behalf the shop is used.
#[derive(Clone, Copy, Debug, PartialEq, Eq, Structural)]
pub struct ControllingPlayer(pub EntityRef);

/// The tile of the map on which the last purchase was made.
#[derive(Clone, Copy, Debug, PartialEq, Eq, Structural)]
pub struct PurchaseOnTile(pub EntityRef);

/// Whether the pointer is busy with the shop window or with a drag, so that
/// a click is no purchase.
#[derive(Clone, Copy, Debug, PartialEq, Eq, Structural)]
pub struct CursorCapture(pub bool);

impl Default for CursorCapture {
    fn default() -> (capture: CursorCapture)
        ensures
            capture == CursorCapture(false),
    {
        CursorCapture(false)
    }
}

/// Marks a tile that was bought in the choosing that is under way.
#[derive(Clone, Copy, Debug, PartialEq, Eq, Structural)]
pub struct JustPurchased;

impl ShopPlugin {
    /// Whether the shop is open: it is while the game is choosing.
    pub fn open(game: &Game) -> (open: bool)
        ensures
            open == (game.phase == GamePhase::Choose),
    {
        game.phase == GamePhase::Choose
    }

    /// Whether the tiles bought in the last choosing stop being new: they do
    /// as soon as the game has entered any other phase.
    pub fn update_old_purchases(game: &Game) -> (settle: bool)
        ensures
            settle == (game.changed && game.phase != GamePhase::Choose),
    {
        game.changed && game.phase != GamePhase::Choose
    }

    /// The goods picked by the line that is selected in the list of what is
    /// on sale: those in that line, and none where no line is selected or
    /// the list has no such line.
    pub fn handle_shop_selection(selection: Option<usize>, shop_inventory: &Vec<(TileId, Merch)>) -> (selected:
        Option<SelectedMerch>)
        ensures
            selected == match selection {
                Some(line) if line < shop_inventory@.len() => Some(
                    SelectedMerch(shop_inventory@[line as int].1),
                ),
                _ => None,
            },
    {
        match selection {
            Some(line) => if line < shop_inventory.len() {
                Some(SelectedMerch(shop_inventory[line].1))
            } else {
                None
            },
            None => None,
        }
    }

    /// The player picked by the line that is selected in the list of
    /// players. With no line selected the player in control stays.
    pub fn handle_player_control(
        selected: Option<usize>,
        game_players: &GamePlayers,
        controlling_player: Option<ControllingPlayer>,
    ) -> (controlling: Option<ControllingPlayer>)
        requires
            selected matches Some(line) ==> line < game_players.0@.len(),
        ensures
            controlling == match selected {
                Some(line) => Some(ControllingPlayer(game_players.0@[line as int])),
                None => controlling_player,
            },
    {
        match selected {
            Some(line) => Some(ControllingPlayer(game_players.0[line])),
            None => controlling_player,
        }
    }

    /// The purchase that a click makes: when the left button has just been
    /// released over a tile of the map, with goods picked and the pointer
    /// not busy, the player in control buys the goods for that tile.
    pub fn make_purchase(
        just_released: bool,
        selected_merch: Option<SelectedMerch>,
        targeted_tile: Option<TargetedTile>,
        controlling_player: ControllingPlayer,
        capture: Option<CursorCapture>,
    ) -> (purchase: Option<(Purchase, PurchaseOnTile)>)
        ensures
            ({
                let busy = capture matches Some(capture) && capture.0;
                match (targeted_tile, selected_merch) {
                    (Some(target), Some(merch)) if just_released && !busy => {
                        &&& purchase matches Some((bought, on_tile))
                        &&& bought.buyer == controlling_player.0
                        &&& bought.merch == merch.0
                        &&& bought.on_tile == target.tile
                        &&& on_tile == PurchaseOnTile(target.tile)
                    },
                    _ => purchase is None,
                }
            }),
    {
        if let Some(capture) = capture {
            if capture.0 {
                return None;
            }
        }
        match (targeted_tile, selected_merch) {
            (Some(target), Some(merch)) => if just_released {
                Some(
                    (
                        Purchase::new(controlling_player.0, merch.0, target.tile),
                        PurchaseOnTile(target.tile),
                    ),
                )
            } else {
                None
            },
            _ => None,
        }
    }
}

} // verus!
