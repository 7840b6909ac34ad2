use vstd::prelude::*;

use crate::ids::{AccountId, Digest};
use crate::money::Balance;

verus! {

/// A list of accounts.
#[derive(Clone, Debug)]
pub struct AccountVector {
    pub accountvector: Vec<AccountId>,
}

impl Default for AccountVector {
    fn default() -> (r: AccountVector)
        ensures
            r.accountvector@.len() == 0,
    {
        AccountVector {
            accountvector: Vec::new(),
        }
    }
}

/// A list of identifiers.
#[derive(Clone, Debug)]
pub struct HashVector {
    pub hashvector: Vec<Digest>,
}

impl Default for HashVector {
    fn default() -> (r: HashVector)
        ensures
            r.hashvector@.len() == 0,
    {
        HashVector {
            hashvector: Vec::new(),
        }
    }
}

/// A product listing: physical or digital goods.
#[derive(Clone, Debug)]
pub struct Product {
    pub product_id: Digest,
    pub digital: bool,
    pub title: Vec<u8>,
    pub price: Balance,
    pub brand: Vec<u8>,
    pub category: Vec<u8>,
    pub seller_account: AccountId,
    pub seller_name: Vec<u8>,
    pub description: Vec<u8>,
    pub review_average: u64,
    pub review_count: u64,
    pub inventory: u128,
    pub photo_or_youtube_link1: Vec<u8>,
    pub photo_or_youtube_link2: Vec<u8>,
    pub photo_or_youtube_link3: Vec<u8>,
    pub more_info_link: Vec<u8>,
    pub delivery_info: Vec<u8>,
    pub product_location: Vec<u8>,
    pub digital_file_url: Vec<u8>,
    pub zeno_percent: u128,
    pub zeno_buyers: Vec<AccountId>,
}

impl Default for Product {
    fn default() -> (r: Product)
        ensures
            r.product_id@ == Seq::new(32, |i: int| 0u8),
            r.digital == false,
            r.title@.len() == 0,
            r.price == 0,
            r.brand@.len() == 0,
            r.category@.len() == 0,
            r.seller_account@ == Seq::new(32, |i: int| 0u8),
            r.seller_name@.len() == 0,
            r.description@.len() == 0,
            r.review_average == 0,
            r.review_count == 0,
            r.inventory == 0,
            r.photo_or_youtube_link1@.len() == 0,
            r.photo_or_youtube_link2@.len() == 0,
            r.photo_or_youtube_link3@.len() == 0,
            r.more_info_link@.len() == 0,
            r.delivery_info@.len() == 0,
            r.product_location@.len() == 0,
            r.digital_file_url@.len() == 0,
            r.zeno_percent == 0,
            r.zeno_buyers@.len() == 0,
    {
        Product {
            product_id: Digest::zero(),
            digital: false,
            title: Vec::new(),
            price: 0,
            brand: Vec::new(),
            category: Vec::new(),
            seller_account: AccountId::zero(),
            seller_name: Vec::new(),
            description: Vec::new(),
            review_average: 0,
            review_count: 0,
            inventory: 0,
            photo_or_youtube_link1: Vec::new(),
            photo_or_youtube_link2: Vec::new(),
            photo_or_youtube_link3: Vec::new(),
            more_info_link: Vec::new(),
            delivery_info: Vec::new(),
            product_location: Vec::new(),
            digital_file_url: Vec::new(),
            zeno_percent: 0,
            zeno_buyers: Vec::new(),
        }
    }
}

/// A product as shown to buyers (without the download link).
#[derive(Clone, Debug)]
pub struct PublicProduct {
    pub product_id: Digest,
    pub digital: bool,
    pub title: Vec<u8>,
    pub price: Balance,
    pub brand: Vec<u8>,
    pub category: Vec<u8>,
    pub seller_account: AccountId,
    pub seller_name: Vec<u8>,
    pub description: Vec<u8>,
    pub review_average: u64,
    pub review_count: u64,
    pub inventory: u128,
    pub photo_or_youtube_link1: Vec<u8>,
    pub photo_or_youtube_link2: Vec<u8>,
    pub photo_or_youtube_link3: Vec<u8>,
    pub more_info_link: Vec<u8>,
    pub delivery_info: Vec<u8>,
    pub product_location: Vec<u8>,
    pub zeno_percent: u128,
    pub zeno_buyers: Vec<AccountId>,
}

impl Default for PublicProduct {
    fn default() -> (r: PublicProduct)
        ensures
            r.product_id@ == Seq::new(32, |i: int| 0u8),
            r.digital == false,
            r.title@.len() == 0,
            r.price == 0,
            r.brand@.len() == 0,
            r.category@.len() == 0,
            r.seller_account@ == Seq::new(32, |i: int| 0u8),
            r.seller_name@.len() == 0,
            r.description@.len() == 0,
            r.review_average == 0,
            r.review_count == 0,
            r.inventory == 0,
            r.photo_or_youtube_link1@.len() == 0,
            r.photo_or_youtube_link2@.len() == 0,
            r.photo_or_youtube_link3@.len() == 0,
            r.more_info_link@.len() == 0,
            r.delivery_info@.len() == 0,
            r.product_location@.len() == 0,
            r.zeno_percent == 0,
            r.zeno_buyers@.len() == 0,
    {
        PublicProduct {
            product_id: Digest::zero(),
            digital: false,
            title: Vec::new(),
            price: 0,
            brand: Vec::new(),
            category: Vec::new(),
            seller_account: AccountId::zero(),
            seller_name: Vec::new(),
            description: Vec::new(),
            review_average: 0,
            review_count: 0,
            inventory: 0,
            photo_or_youtube_link1: Vec::new(),
            photo_or_youtube_link2: Vec::new(),
            photo_or_youtube_link3: Vec::new(),
            more_info_link: Vec::new(),
            delivery_info: Vec::new(),
            product_location: Vec::new(),
            zeno_percent: 0,
            zeno_buyers: Vec::new(),
        }
    }
}

/// A service listing: online or in person.
#[derive(Clone, Debug)]
pub struct Service {
    pub service_id: Digest,
    pub online: bool,
    pub title: Vec<u8>,
    pub price: Balance,
    pub category: Vec<u8>,
    pub seller_account: AccountId,
    pub seller_name: Vec<u8>,
    pub description: Vec<u8>,
    pub review_average: u64,
    pub review_count: u64,
    pub inventory: u128,
    pub photo_or_youtube_link1: Vec<u8>,
    pub photo_or_youtube_link2: Vec<u8>,
    pub photo_or_youtube_link3: Vec<u8>,
    pub booking_link: Vec<u8>,
    pub service_location: Vec<u8>,
    pub zeno_percent: u128,
    pub zeno_buyers: Vec<AccountId>,
}

impl Default for Service {
    fn default() -> (r: Service)
        ensures
            r.service_id@ == Seq::new(32, |i: int| 0u8),
            r.online == false,
            r.title@.len() == 0,
            r.price == 0,
            r.category@.len() == 0,
            r.seller_account@ == Seq::new(32, |i: int| 0u8),
            r.seller_name@.len() == 0,
            r.description@.len() == 0,
            r.review_average == 0,
            r.review_count == 0,
            r.inventory == 0,
            r.photo_or_youtube_link1@.len() == 0,
            r.photo_or_youtube_link2@.len() == 0,
            r.photo_or_youtube_link3@.len() == 0,
            r.booking_link@.len() == 0,
            r.service_location@.len() == 0,
            r.zeno_percent == 0,
            r.zeno_buyers@.len() == 0,
    {
        Service {
            service_id: Digest::zero(),
            online: false,
            title: Vec::new(),
            price: 0,
            category: Vec::new(),
            seller_account: AccountId::zero(),
            seller_name: Vec::new(),
            description: Vec::new(),
            review_average: 0,
            review_count: 0,
            inventory: 0,
            photo_or_youtube_link1: Vec::new(),
            photo_or_youtube_link2: Vec::new(),
            photo_or_youtube_link3: Vec::new(),
            booking_link: Vec::new(),
            service_location: Vec::new(),
            zeno_percent: 0,
            zeno_buyers: Vec::new(),
        }
    }
}

/// A product line of a cart, with the live catalog details.
#[derive(Clone, Debug)]
pub struct UnpaidCartProduct {
    pub product_id: Digest,
    pub quantity: u128,
    pub digital: bool,
    pub title: Vec<u8>,
    pub price: Balance,
    pub brand: Vec<u8>,
    pub seller_account: AccountId,
    pub seller_name: Vec<u8>,
    pub photo_or_youtube_link1: Vec<u8>,
    pub inventory: u128,
    pub delivery_info: Vec<u8>,
    pub product_location: Vec<u8>,
    pub zeno_percent: u128,
    pub zeno_buyers: u128,
}

impl Default for UnpaidCartProduct {
    fn default() -> (r: UnpaidCartProduct)
        ensures
            r.product_id@ == Seq::new(32, |i: int| 0u8),
            r.quantity == 0,
            r.digital == false,
            r.title@.len() == 0,
            r.price == 0,
            r.brand@.len() == 0,
            r.seller_account@ == Seq::new(32, |i: int| 0u8),
            r.seller_name@.len() == 0,
            r.photo_or_youtube_link1@.len() == 0,
            r.inventory == 0,
            r.delivery_info@.len() == 0,
            r.product_location@.len() == 0,
            r.zeno_percent == 0,
            r.zeno_buyers == 0,
    {
        UnpaidCartProduct {
            product_id: Digest::zero(),
            quantity: 0,
            digital: false,
            title: Vec::new(),
            price: 0,
            brand: Vec::new(),
            seller_account: AccountId::zero(),
            seller_name: Vec::new(),
            photo_or_youtube_link1: Vec::new(),
            inventory: 0,
            delivery_info: Vec::new(),
            product_location: Vec::new(),
            zeno_percent: 0,
            zeno_buyers: 0,
        }
    }
}

/// A service line of a cart, with the live catalog details.
#[derive(Clone, Debug)]
pub struct UnpaidCartService {
    pub service_id: Digest,
    pub quantity: u128,
    pub online: bool,
    pub title: Vec<u8>,
    pub price: Balance,
    pub seller_account: AccountId,
    pub seller_name: Vec<u8>,
    pub photo_or_youtube_link1: Vec<u8>,
    pub inventory: u128,
    pub booking_link: Vec<u8>,
    pub service_location: Vec<u8>,
    pub zeno_percent: u128,
    pub zeno_buyers: u128,
}

impl Default for UnpaidCartService {
    fn default() -> (r: UnpaidCartService)
        ensures
            r.service_id@ == Seq::new(32, |i: int| 0u8),
            r.quantity == 0,
            r.online == false,
            r.title@.len() == 0,
            r.price == 0,
            r.seller_account@ == Seq::new(32, |i: int| 0u8),
            r.seller_name@.len() == 0,
            r.photo_or_youtube_link1@.len() == 0,
            r.inventory == 0,
            r.booking_link@.len() == 0,
            r.service_location@.len() == 0,
            r.zeno_percent == 0,
            r.zeno_buyers == 0,
    {
        UnpaidCartService {
            service_id: Digest::zero(),
            quantity: 0,
            online: false,
            title: Vec::new(),
            price: 0,
            seller_account: AccountId::zero(),
            seller_name: Vec::new(),
            photo_or_youtube_link1: Vec::new(),
            inventory: 0,
            booking_link: Vec::new(),
            service_location: Vec::new(),
            zeno_percent: 0,
            zeno_buyers: 0,
        }
    }
}

/// A buyer's pending cart: item identifiers with quantities.
#[derive(Clone, Debug)]
pub struct UnpaidCart {
    pub buyer: AccountId,
    pub cart_total: Balance,
    pub total_items: u128,
    pub cart_items: Vec<(Digest, u128)>,
}

impl Default for UnpaidCart {
    fn default() -> (r: UnpaidCart)
        ensures
            r.buyer@ == Seq::new(32, |i: int| 0u8),
            r.cart_total == 0,
            r.total_items == 0,
            r.cart_items@.len() == 0,
    {
        UnpaidCart {
            buyer: AccountId::zero(),
            cart_total: 0,
            total_items: 0,
            cart_items: Vec::new(),
        }
    }
}

/// One line of a checked-out cart, driven through the lifecycle.
#[derive(Clone, Debug)]
pub struct Order {
    pub order_id: Digest,
    pub cart_id: Digest,
    pub order_timestamp: u64,
    pub buyer: AccountId,
    pub buyer_rating: u64,
    pub buyer_rating_count: u64,
    pub seller: AccountId,
    pub seller_name: Vec<u8>,
    pub image: Vec<u8>,
    pub item_id: Digest,
    pub item_name: Vec<u8>,
    pub quantity: u128,
    pub price_each: Balance,
    pub total_order_price: Balance,
    pub deliver_to_address: Vec<u8>,
    pub deliver_to_account: AccountId,
    pub tracking_info: Vec<u8>,
    pub order_status: u8,
    pub time_delivered: u64,
    pub discussion: Vec<MessageDetails>,
    pub problem: u8,
    pub resolution: u8,
    pub zeno_total: Balance,
    pub zeno_referrers: Vec<AccountId>,
}

impl Default for Order {
    fn default() -> (r: Order)
        ensures
            r.order_id@ == Seq::new(32, |i: int| 0u8),
            r.cart_id@ == Seq::new(32, |i: int| 0u8),
            r.order_timestamp == 0,
            r.buyer@ == Seq::new(32, |i: int| 0u8),
            r.buyer_rating == 0,
            r.buyer_rating_count == 0,
            r.seller@ == Seq::new(32, |i: int| 0u8),
            r.seller_name@.len() == 0,
            r.image@.len() == 0,
            r.item_id@ == Seq::new(32, |i: int| 0u8),
            r.item_name@.len() == 0,
            r.quantity == 0,
            r.price_each == 0,
            r.total_order_price == 0,
            r.deliver_to_address@.len() == 0,
            r.deliver_to_account@ == Seq::new(32, |i: int| 0u8),
            r.tracking_info@.len() == 0,
            r.order_status == 0,
            r.time_delivered == 0,
            r.discussion@.len() == 0,
            r.problem == 0,
            r.resolution == 0,
            r.zeno_total == 0,
            r.zeno_referrers@.len() == 0,
    {
        Order {
            order_id: Digest::zero(),
            cart_id: Digest::zero(),
            order_timestamp: 0,
            buyer: AccountId::zero(),
            buyer_rating: 0,
            buyer_rating_count: 0,
            seller: AccountId::zero(),
            seller_name: Vec::new(),
            image: Vec::new(),
            item_id: Digest::zero(),
            item_name: Vec::new(),
            quantity: 0,
            price_each: 0,
            total_order_price: 0,
            deliver_to_address: Vec::new(),
            deliver_to_account: AccountId::zero(),
            tracking_info: Vec::new(),
            order_status: 0,
            time_delivered: 0,
            discussion: Vec::new(),
            problem: 0,
            resolution: 0,
            zeno_total: 0,
            zeno_referrers: Vec::new(),
        }
    }
}

/// An entry of an order's discussion.
#[derive(Clone, Debug)]
pub struct MessageDetails {
    pub message_id: Digest,
    pub from_acct: AccountId,
    pub to_acct: AccountId,
    pub order_id: Digest,
    pub message: Vec<u8>,
    pub media_url: Vec<u8>,
    pub timestamp: u64,
}

impl Default for MessageDetails {
    fn default() -> (r: MessageDetails)
        ensures
            r.message_id@ == Seq::new(32, |i: int| 0u8),
            r.from_acct@ == Seq::new(32, |i: int| 0u8),
            r.to_acct@ == Seq::new(32, |i: int| 0u8),
            r.order_id@ == Seq::new(32, |i: int| 0u8),
            r.message@.len() == 0,
            r.media_url@.len() == 0,
            r.timestamp == 0,
    {
        MessageDetails {
            message_id: Digest::zero(),
            from_acct: AccountId::zero(),
            to_acct: AccountId::zero(),
            order_id: Digest::zero(),
            message: Vec::new(),
            media_url: Vec::new(),
            timestamp: 0,
        }
    }
}

/// Counters and rating of a buying account.
#[derive(Clone, Debug)]
pub struct BuyerProfile {
    pub buyer_account: AccountId,
    pub buyer_name: Vec<u8>,
    pub buyer_location: Vec<u8>,
    pub member_since: u64,
    pub review_average: u64,
    pub review_count: u64,
    pub total_carts: u128,
    pub total_orders: u128,
    pub total_delivered: u128,
    pub total_damaged: u128,
    pub total_wrong: u128,
    pub total_not_received: u128,
    pub total_resolved: u128,
    pub total_refused: u128,
}

impl Default for BuyerProfile {
    fn default() -> (r: BuyerProfile)
        ensures
            r.buyer_account@ == Seq::new(32, |i: int| 0u8),
            r.buyer_name@.len() == 0,
            r.buyer_location@.len() == 0,
            r.member_since == 0,
            r.review_average == 0,
            r.review_count == 0,
            r.total_carts == 0,
            r.total_orders == 0,
            r.total_delivered == 0,
            r.total_damaged == 0,
            r.total_wrong == 0,
            r.total_not_received == 0,
            r.total_resolved == 0,
            r.total_refused == 0,
    {
        BuyerProfile {
            buyer_account: AccountId::zero(),
            buyer_name: Vec::new(),
            buyer_location: Vec::new(),
            member_since: 0,
            review_average: 0,
            review_count: 0,
            total_carts: 0,
            total_orders: 0,
            total_delivered: 0,
            total_damaged: 0,
            total_wrong: 0,
            total_not_received: 0,
            total_resolved: 0,
            total_refused: 0,
        }
    }
}

/// Store details, counters and rating of a selling account.
#[derive(Clone, Debug)]
pub struct SellerProfile {
    pub seller_account: AccountId,
    pub seller_name: Vec<u8>,
    pub store_description: Vec<u8>,
    pub seller_location: Vec<u8>,
    pub member_since: u64,
    pub banner_url: Vec<u8>,
    pub youtube_url: Vec<u8>,
    pub external_link: Vec<u8>,
    pub review_average: u64,
    pub review_count: u64,
    pub total_orders: u128,
    pub awaiting: u128,
    pub total_delivered: u128,
    pub total_damaged: u128,
    pub total_wrong: u128,
    pub total_not_received: u128,
    pub total_resolved: u128,
    pub total_refused: u128,
}

impl Default for SellerProfile {
    fn default() -> (r: SellerProfile)
        ensures
            r.seller_account@ == Seq::new(32, |i: int| 0u8),
            r.seller_name@.len() == 0,
            r.store_description@.len() == 0,
            r.seller_location@.len() == 0,
            r.member_since == 0,
            r.banner_url@.len() == 0,
            r.youtube_url@.len() == 0,
            r.external_link@.len() == 0,
            r.review_average == 0,
            r.review_count == 0,
            r.total_orders == 0,
            r.awaiting == 0,
            r.total_delivered == 0,
            r.total_damaged == 0,
            r.total_wrong == 0,
            r.total_not_received == 0,
            r.total_resolved == 0,
            r.total_refused == 0,
    {
        SellerProfile {
            seller_account: AccountId::zero(),
            seller_name: Vec::new(),
            store_description: Vec::new(),
            seller_location: Vec::new(),
            member_since: 0,
            banner_url: Vec::new(),
            youtube_url: Vec::new(),
            external_link: Vec::new(),
            review_average: 0,
            review_count: 0,
            total_orders: 0,
            awaiting: 0,
            total_delivered: 0,
            total_damaged: 0,
            total_wrong: 0,
            total_not_received: 0,
            total_resolved: 0,
            total_refused: 0,
        }
    }
}

/// A rating of an item.
#[derive(Clone, Debug)]
pub struct ProductServiceReview {
    pub review_id: Digest,
    pub item_id: Digest,
    pub reviewer: AccountId,
    pub rating: u64,
    pub review: Vec<u8>,
    pub timestamp: u64,
}

impl Default for ProductServiceReview {
    fn default() -> (r: ProductServiceReview)
        ensures
            r.review_id@ == Seq::new(32, |i: int| 0u8),
            r.item_id@ == Seq::new(32, |i: int| 0u8),
            r.reviewer@ == Seq::new(32, |i: int| 0u8),
            r.rating == 0,
            r.review@.len() == 0,
            r.timestamp == 0,
    {
        ProductServiceReview {
            review_id: Digest::zero(),
            item_id: Digest::zero(),
            reviewer: AccountId::zero(),
            rating: 0,
            review: Vec::new(),
            timestamp: 0,
        }
    }
}

/// A rating of an account.
#[derive(Clone, Debug)]
pub struct BuyerSellerReview {
    pub review_id: Digest,
    pub account_id: AccountId,
    pub reviewer: AccountId,
    pub rating: u64,
    pub review: Vec<u8>,
    pub timestamp: u64,
}

impl Default for BuyerSellerReview {
    fn default() -> (r: BuyerSellerReview)
        ensures
            r.review_id@ == Seq::new(32, |i: int| 0u8),
            r.account_id@ == Seq::new(32, |i: int| 0u8),
            r.reviewer@ == Seq::new(32, |i: int| 0u8),
            r.rating == 0,
            r.review@.len() == 0,
            r.timestamp == 0,
    {
        BuyerSellerReview {
            review_id: Digest::zero(),
            account_id: AccountId::zero(),
            reviewer: AccountId::zero(),
            rating: 0,
            review: Vec::new(),
            timestamp: 0,
        }
    }
}

/// Products that match a keyword search.
#[derive(Clone, Debug)]
pub struct ProductSearchResults {
    pub search: Vec<Vec<u8>>,
    pub products: Vec<PublicProduct>,
}

/// Services that match a keyword search.
#[derive(Clone, Debug)]
pub struct ServiceSearchResults {
    pub search: Vec<Vec<u8>>,
    pub services: Vec<Service>,
}

/// Stores that match a keyword search.
#[derive(Clone, Debug)]
pub struct StoreSearchResults {
    pub search: Vec<Vec<u8>>,
    pub stores: Vec<SellerProfile>,
}

/// A buyer's recent orders.
#[derive(Clone, Debug)]
pub struct ViewBuyerOrders {
    pub buyer: AccountId,
    pub carts: Vec<Order>,
}

impl Default for ViewBuyerOrders {
    fn default() -> (r: ViewBuyerOrders)
        ensures
            r.buyer@ == Seq::new(32, |i: int| 0u8),
            r.carts@.len() == 0,
    {
        ViewBuyerOrders {
            buyer: AccountId::zero(),
            carts: Vec::new(),
        }
    }
}

/// A digital product that a buyer owns.
#[derive(Clone, Debug)]
pub struct Download {
    pub product_id: Digest,
    pub title: Vec<u8>,
    pub brand: Vec<u8>,
    pub seller_account: AccountId,
    pub seller_name: Vec<u8>,
    pub description: Vec<u8>,
    pub photo: Vec<u8>,
    pub more_info: Vec<u8>,
    pub file_url: Vec<u8>,
}

impl Default for Download {
    fn default() -> (r: Download)
        ensures
            r.product_id@ == Seq::new(32, |i: int| 0u8),
            r.title@.len() == 0,
            r.brand@.len() == 0,
            r.seller_account@ == Seq::new(32, |i: int| 0u8),
            r.seller_name@.len() == 0,
            r.description@.len() == 0,
            r.photo@.len() == 0,
            r.more_info@.len() == 0,
            r.file_url@.len() == 0,
    {
        Download {
            product_id: Digest::zero(),
            title: Vec::new(),
            brand: Vec::new(),
            seller_account: AccountId::zero(),
            seller_name: Vec::new(),
            description: Vec::new(),
            photo: Vec::new(),
            more_info: Vec::new(),
            file_url: Vec::new(),
        }
    }
}

/// Everything a buyer sees of their account.
#[derive(Clone, Debug)]
pub struct ViewBuyerAccount {
    pub buyer: BuyerProfile,
    pub bookmarked_stores: Vec<SellerProfile>,
    pub digital_downloads: Vec<Download>,
    pub orders: Vec<Order>,
}

/// A cart with live prices and the total that checkout would charge now.
#[derive(Clone, Debug)]
pub struct ViewUnpaidCart {
    pub buyer: AccountId,
    pub cart_total: Balance,
    pub total_items: u128,
    pub cart_products: Vec<UnpaidCartProduct>,
    pub cart_services: Vec<UnpaidCartService>,
}

impl Default for ViewUnpaidCart {
    fn default() -> (r: ViewUnpaidCart)
        ensures
            r.buyer@ == Seq::new(32, |i: int| 0u8),
            r.cart_total == 0,
            r.total_items == 0,
            r.cart_products@.len() == 0,
            r.cart_services@.len() == 0,
    {
        ViewUnpaidCart {
            buyer: AccountId::zero(),
            cart_total: 0,
            total_items: 0,
            cart_products: Vec::new(),
            cart_services: Vec::new(),
        }
    }
}

/// A store as buyers see it.
#[derive(Clone, Debug)]
pub struct ViewStore {
    pub owner: SellerProfile,
    pub products: Vec<PublicProduct>,
    pub services: Vec<Service>,
}

/// A store as its owner sees it.
#[derive(Clone, Debug)]
pub struct ViewSellerAccount {
    pub owner: SellerProfile,
    pub products: Vec<Product>,
    pub services: Vec<Service>,
}

/// The summary of one order in the market statistics.
#[derive(Clone, Debug)]
pub struct OrderData {
    pub timestamp: u64,
    pub total: Balance,
    pub status: u8,
    pub problem: u8,
    pub resolution: u8,
}

/// Aggregate counts of the market.
#[derive(Clone, Debug)]
pub struct MarketStatistics {
    pub called_by: AccountId,
    pub timestamp: u64,
    pub number_of_sellers: u128,
    pub number_of_buyers: u128,
    pub number_of_products: u128,
    pub number_of_services: u128,
    pub number_of_orders: u128,
    pub orders: Vec<OrderData>,
}

impl Default for MarketStatistics {
    fn default() -> (r: MarketStatistics)
        ensures
            r.called_by@ == Seq::new(32, |i: int| 0u8),
            r.timestamp == 0,
            r.number_of_sellers == 0,
            r.number_of_buyers == 0,
            r.number_of_products == 0,
            r.number_of_services == 0,
            r.number_of_orders == 0,
            r.orders@.len() == 0,
    {
        MarketStatistics {
            called_by: AccountId::zero(),
            timestamp: 0,
            number_of_sellers: 0,
            number_of_buyers: 0,
            number_of_products: 0,
            number_of_services: 0,
            number_of_orders: 0,
            orders: Vec::new(),
        }
    }
}

} // verus!
