use vstd::prelude::*;

use crate::ids::{AccountId, Digest};
use crate::money::Balance;

verus! {

/// Why an operation was refused.
#[derive(Clone, Copy, Debug, PartialEq, Eq, Structural)]
pub enum Error {
    /// A transfer of funds failed.
    PayoutFailed,
    /// The named account has no record.
    NonexistentAccount,
    /// The named item is not in the catalog.
    ItemDoesNotExist,
    /// An entry is already there.
    Duplicate,
    /// The tendered amount does not cover the cart.
    InsufficientPayment,
    /// The caller has no purchase to rate, or has rated it already.
    NotEligibleToReview,
    /// A rating outside 1 to 5.
    RatingOutOfBounds,
    /// The order belongs to another account.
    NotYourOrder,
    /// The order cannot take a problem report now.
    NotEligibleToReport,
    /// The list belongs to another account.
    NotYourList,
    /// Only an awaiting order can be refused.
    CannotRefuse,
    /// The order is not a physical product.
    NotAPhysicalProduct,
    /// The order has no open problem.
    CannotResolve,
    /// The item belongs to another account.
    NotYourProduct,
    /// An input is longer than its field allows.
    DataTooLarge,
    /// A bounded list is full.
    StorageFull,
}

/// An order was created at checkout.
#[derive(Clone, Copy, Debug)]
pub struct OrderPlaced {
    pub order_id: Digest,
    pub order_timestamp: u64,
    pub buyer: AccountId,
    pub seller: AccountId,
    pub total_order_price: Balance,
}

/// A buyer came to own a digital product.
#[derive(Clone, Copy, Debug)]
pub struct DigitalDownload {
    pub buyer: AccountId,
    pub product_id: Digest,
    pub order_timestamp: u64,
}

/// A buyer reported a problem with an order.
#[derive(Clone, Copy, Debug)]
pub struct ProblemReported {
    pub order_id: Digest,
    pub buyer: AccountId,
    pub seller: AccountId,
    pub problem: u8,
}

/// A seller marked an order delivered.
#[derive(Clone, Copy, Debug)]
pub struct OrderDelivered {
    pub seller: AccountId,
    pub buyer: AccountId,
    pub order_id: Digest,
    pub order_status: u8,
    pub time_delivered: u64,
}

/// A seller marked an order shipped.
#[derive(Clone, Copy, Debug)]
pub struct OrderShipped {
    pub seller: AccountId,
    pub buyer: AccountId,
    pub order_id: Digest,
    pub order_status: u8,
}

/// A seller refused an order.
#[derive(Clone, Copy, Debug)]
pub struct OrderRefused {
    pub seller: AccountId,
    pub buyer: AccountId,
    pub order_id: Digest,
    pub order_status: u8,
}

/// A seller resolved a problem with a refund.
#[derive(Clone, Copy, Debug)]
pub struct OrderRefunded {
    pub seller: AccountId,
    pub buyer: AccountId,
    pub order_id: Digest,
    pub order_status: u8,
    pub problem: u8,
    pub resolution: u8,
}

/// A seller resolved a problem with a replacement.
#[derive(Clone, Copy, Debug)]
pub struct OrderReplaced {
    pub seller: AccountId,
    pub buyer: AccountId,
    pub order_id: Digest,
    pub order_status: u8,
    pub problem: u8,
    pub resolution: u8,
}

/// A seller denied a resolution request.
#[derive(Clone, Copy, Debug)]
pub struct OrderResolutionDenied {
    pub seller: AccountId,
    pub buyer: AccountId,
    pub order_id: Digest,
    pub order_status: u8,
    pub problem: u8,
    pub resolution: u8,
}

/// A buyer rated an item.
#[derive(Clone, Debug)]
pub struct NewProductRating {
    pub review_id: Digest,
    pub item_id: Digest,
    pub reviewer: AccountId,
    pub rating: u64,
    pub review: Vec<u8>,
    pub timestamp: u64,
}

/// A buyer updated their settings.
#[derive(Clone, Debug)]
pub struct BuyerSettingsUpdated {
    pub buyer_account: AccountId,
    pub name: Vec<u8>,
    pub location: Vec<u8>,
}

/// A seller updated their store details.
#[derive(Clone, Debug)]
pub struct SellerSettingsUpdated {
    pub seller_account: AccountId,
    pub seller_name: Vec<u8>,
    pub store_description: Vec<u8>,
    pub seller_location: Vec<u8>,
    pub banner_url: Vec<u8>,
    pub youtube_url: Vec<u8>,
    pub external_link: Vec<u8>,
}

/// A seller rated a buyer.
#[derive(Clone, Debug)]
pub struct NewBuyerRating {
    pub review_id: Digest,
    pub buyer: AccountId,
    pub reviewer: AccountId,
    pub rating: u64,
    pub review: Vec<u8>,
    pub timestamp: u64,
}

/// A product was listed.
#[derive(Clone, Debug)]
pub struct NewProduct {
    pub product_id: Digest,
    pub digital: bool,
    pub title: Vec<u8>,
    pub price: Balance,
    pub brand: Vec<u8>,
    pub category: Vec<u8>,
    pub seller_account: AccountId,
    pub seller_name: Vec<u8>,
    pub description: Vec<u8>,
    pub inventory: u128,
    pub photo_or_youtube_link1: Vec<u8>,
    pub photo_or_youtube_link2: Vec<u8>,
    pub photo_or_youtube_link3: Vec<u8>,
    pub more_info_link: Vec<u8>,
    pub delivery_info: Vec<u8>,
    pub product_location: Vec<u8>,
    pub zeno_percent: u128,
}

/// A product's terms were updated.
#[derive(Clone, Debug)]
pub struct UpdatedProduct {
    pub product_id: Digest,
    pub digital: bool,
    pub title: Vec<u8>,
    pub price: Balance,
    pub brand: Vec<u8>,
    pub category: Vec<u8>,
    pub seller_account: AccountId,
    pub seller_name: Vec<u8>,
    pub description: Vec<u8>,
    pub inventory: u128,
    pub photo_or_youtube_link1: Vec<u8>,
    pub photo_or_youtube_link2: Vec<u8>,
    pub photo_or_youtube_link3: Vec<u8>,
    pub more_info_link: Vec<u8>,
    pub delivery_info: Vec<u8>,
    pub product_location: Vec<u8>,
}

/// A service was listed.
#[derive(Clone, Debug)]
pub struct NewService {
    pub service_id: Digest,
    pub online: bool,
    pub title: Vec<u8>,
    pub price: Balance,
    pub category: Vec<u8>,
    pub seller_account: AccountId,
    pub seller_name: Vec<u8>,
    pub description: Vec<u8>,
    pub inventory: u128,
    pub photo_or_youtube_link1: Vec<u8>,
    pub photo_or_youtube_link2: Vec<u8>,
    pub photo_or_youtube_link3: Vec<u8>,
    pub booking_link: Vec<u8>,
    pub service_location: Vec<u8>,
    pub zeno_percent: u128,
}

/// A service's terms were updated.
#[derive(Clone, Debug)]
pub struct UpdatedService {
    pub service_id: Digest,
    pub online: bool,
    pub title: Vec<u8>,
    pub price: Balance,
    pub category: Vec<u8>,
    pub seller_account: AccountId,
    pub seller_name: Vec<u8>,
    pub description: Vec<u8>,
    pub inventory: u128,
    pub photo_or_youtube_link1: Vec<u8>,
    pub photo_or_youtube_link2: Vec<u8>,
    pub photo_or_youtube_link3: Vec<u8>,
    pub booking_link: Vec<u8>,
    pub service_location: Vec<u8>,
}

/// What the ledger records for observers, in the order it happened.
#[derive(Clone, Debug)]
pub enum Event {
    OrderPlaced(OrderPlaced),
    DigitalDownload(DigitalDownload),
    ProblemReported(ProblemReported),
    OrderDelivered(OrderDelivered),
    OrderShipped(OrderShipped),
    OrderRefused(OrderRefused),
    OrderRefunded(OrderRefunded),
    OrderReplaced(OrderReplaced),
    OrderResolutionDenied(OrderResolutionDenied),
    NewProductRating(NewProductRating),
    BuyerSettingsUpdated(BuyerSettingsUpdated),
    SellerSettingsUpdated(SellerSettingsUpdated),
    NewBuyerRating(NewBuyerRating),
    NewProduct(NewProduct),
    UpdatedProduct(UpdatedProduct),
    NewService(NewService),
    UpdatedService(UpdatedService),
}

} // verus!
