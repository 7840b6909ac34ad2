//! A marketplace ledger: catalog items, carts, checkout, the order lifecycle,
//! referral payouts and ratings, with every operation verified.
//!
//! The host supplies the calling account, the current time and the amount
//! tendered with a call; operations that move funds return the transfers that
//! the host must perform.

mod ids;
pub mod table;
pub mod lists;
pub mod copy;
pub mod digest;
pub mod money;
pub mod lifecycle;
pub mod types;
pub mod events;
pub mod market;
pub mod orders;
pub mod checkout;
pub mod catalog;
pub mod cart;
pub mod rating;
pub mod profile;
pub mod records;
pub mod views;
pub mod search;

pub use ids::{AccountId, Digest};
