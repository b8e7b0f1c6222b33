//! What players can buy, and what they pay with.

pub mod components;
pub mod purchases;
pub mod registry;

pub use components::{Merch, MerchId, Money, Shopper};
pub use purchases::{MerchPlugin, MerchSystems, Purchase, PurchaseError, PurchaseReport};
pub use registry::{MerchRegistry, Merchandise};
