use vstd::prelude::*;

use crate::copy::{copy_bytes, copy_keys};
use crate::types::{BuyerProfile, MessageDetails, Order, Product, SellerProfile, Service};

verus! {

/// `a` holds what `b` holds, field by field.
pub open spec fn same_message(a: MessageDetails, b: MessageDetails) -> bool {
    a.message_id == b.message_id
        && a.from_acct == b.from_acct
        && a.to_acct == b.to_acct
        && a.order_id == b.order_id
        && a.message@ == b.message@
        && a.media_url@ == b.media_url@
        && a.timestamp == b.timestamp
}

/// A copy of a message.
pub fn copy_message(x: &MessageDetails) -> (r: MessageDetails)
    ensures
        same_message(r, *x),
{
    MessageDetails {
        message_id: x.message_id,
        from_acct: x.from_acct,
        to_acct: x.to_acct,
        order_id: x.order_id,
        message: copy_bytes(&x.message),
        media_url: copy_bytes(&x.media_url),
        timestamp: x.timestamp,
    }
}

/// `a` holds what `b` holds, field by field.
pub open spec fn same_order(a: Order, b: Order) -> bool {
    a.order_id == b.order_id
        && a.cart_id == b.cart_id
        && a.order_timestamp == b.order_timestamp
        && a.buyer == b.buyer
        && a.buyer_rating == b.buyer_rating
        && a.buyer_rating_count == b.buyer_rating_count
        && a.seller == b.seller
        && a.seller_name@ == b.seller_name@
        && a.image@ == b.image@
        && a.item_id == b.item_id
        && a.item_name@ == b.item_name@
        && a.quantity == b.quantity
        && a.price_each == b.price_each
        && a.total_order_price == b.total_order_price
        && a.deliver_to_address@ == b.deliver_to_address@
        && a.deliver_to_account == b.deliver_to_account
        && a.tracking_info@ == b.tracking_info@
        && a.order_status == b.order_status
        && a.time_delivered == b.time_delivered
        && a.discussion@.len() == b.discussion@.len()
        && forall|i: int| 0 <= i < a.discussion@.len() ==> same_message(#[trigger] a.discussion@[i], b.discussion@[i])
        && a.problem == b.problem
        && a.resolution == b.resolution
        && a.zeno_total == b.zeno_total
        && a.zeno_referrers@ == b.zeno_referrers@
}

/// A copy of a order.
pub fn copy_order(x: &Order) -> (r: Order)
    ensures
        same_order(r, *x),
{
    Order {
        order_id: x.order_id,
        cart_id: x.cart_id,
        order_timestamp: x.order_timestamp,
        buyer: x.buyer,
        buyer_rating: x.buyer_rating,
        buyer_rating_count: x.buyer_rating_count,
        seller: x.seller,
        seller_name: copy_bytes(&x.seller_name),
        image: copy_bytes(&x.image),
        item_id: x.item_id,
        item_name: copy_bytes(&x.item_name),
        quantity: x.quantity,
        price_each: x.price_each,
        total_order_price: x.total_order_price,
        deliver_to_address: copy_bytes(&x.deliver_to_address),
        deliver_to_account: x.deliver_to_account,
        tracking_info: copy_bytes(&x.tracking_info),
        order_status: x.order_status,
        time_delivered: x.time_delivered,
        discussion: copy_messages(&x.discussion),
        problem: x.problem,
        resolution: x.resolution,
        zeno_total: x.zeno_total,
        zeno_referrers: copy_keys(&x.zeno_referrers),
    }
}

/// `a` holds what `b` holds, field by field.
pub open spec fn same_product(a: Product, b: Product) -> bool {
    a.product_id == b.product_id
        && a.digital == b.digital
        && a.title@ == b.title@
        && a.price == b.price
        && a.brand@ == b.brand@
        && a.category@ == b.category@
        && a.seller_account == b.seller_account
        && a.seller_name@ == b.seller_name@
        && a.description@ == b.description@
        && a.review_average == b.review_average
        && a.review_count == b.review_count
        && a.inventory == b.inventory
        && a.photo_or_youtube_link1@ == b.photo_or_youtube_link1@
        && a.photo_or_youtube_link2@ == b.photo_or_youtube_link2@
        && a.photo_or_youtube_link3@ == b.photo_or_youtube_link3@
        && a.more_info_link@ == b.more_info_link@
        && a.delivery_info@ == b.delivery_info@
        && a.product_location@ == b.product_location@
        && a.digital_file_url@ == b.digital_file_url@
        && a.zeno_percent == b.zeno_percent
        && a.zeno_buyers@ == b.zeno_buyers@
}

/// A copy of a product.
pub fn copy_product(x: &Product) -> (r: Product)
    ensures
        same_product(r, *x),
{
    Product {
        product_id: x.product_id,
        digital: x.digital,
        title: copy_bytes(&x.title),
        price: x.price,
        brand: copy_bytes(&x.brand),
        category: copy_bytes(&x.category),
        seller_account: x.seller_account,
        seller_name: copy_bytes(&x.seller_name),
        description: copy_bytes(&x.description),
        review_average: x.review_average,
        review_count: x.review_count,
        inventory: x.inventory,
        photo_or_youtube_link1: copy_bytes(&x.photo_or_youtube_link1),
        photo_or_youtube_link2: copy_bytes(&x.photo_or_youtube_link2),
        photo_or_youtube_link3: copy_bytes(&x.photo_or_youtube_link3),
        more_info_link: copy_bytes(&x.more_info_link),
        delivery_info: copy_bytes(&x.delivery_info),
        product_location: copy_bytes(&x.product_location),
        digital_file_url: copy_bytes(&x.digital_file_url),
        zeno_percent: x.zeno_percent,
        zeno_buyers: copy_keys(&x.zeno_buyers),
    }
}

/// `a` holds what `b` holds, field by field.
pub open spec fn same_service(a: Service, b: Service) -> bool {
    a.service_id == b.service_id
        && a.online == b.online
        && a.title@ == b.title@
        && a.price == b.price
        && a.category@ == b.category@
        && a.seller_account == b.seller_account
        && a.seller_name@ == b.seller_name@
        && a.description@ == b.description@
        && a.review_average == b.review_average
        && a.review_count == b.review_count
        && a.inventory == b.inventory
        && a.photo_or_youtube_link1@ == b.photo_or_youtube_link1@
        && a.photo_or_youtube_link2@ == b.photo_or_youtube_link2@
        && a.photo_or_youtube_link3@ == b.photo_or_youtube_link3@
        && a.booking_link@ == b.booking_link@
        && a.service_location@ == b.service_location@
        && a.zeno_percent == b.zeno_percent
        && a.zeno_buyers@ == b.zeno_buyers@
}

/// A copy of a service.
pub fn copy_service(x: &Service) -> (r: Service)
    ensures
        same_service(r, *x),
{
    Service {
        service_id: x.service_id,
        online: x.online,
        title: copy_bytes(&x.title),
        price: x.price,
        category: copy_bytes(&x.category),
        seller_account: x.seller_account,
        seller_name: copy_bytes(&x.seller_name),
        description: copy_bytes(&x.description),
        review_average: x.review_average,
        review_count: x.review_count,
        inventory: x.inventory,
        photo_or_youtube_link1: copy_bytes(&x.photo_or_youtube_link1),
        photo_or_youtube_link2: copy_bytes(&x.photo_or_youtube_link2),
        photo_or_youtube_link3: copy_bytes(&x.photo_or_youtube_link3),
        booking_link: copy_bytes(&x.booking_link),
        service_location: copy_bytes(&x.service_location),
        zeno_percent: x.zeno_percent,
        zeno_buyers: copy_keys(&x.zeno_buyers),
    }
}

/// `a` holds what `b` holds, field by field.
pub open spec fn same_buyer_profile(a: BuyerProfile, b: BuyerProfile) -> bool {
    a.buyer_account == b.buyer_account
        && a.buyer_name@ == b.buyer_name@
        && a.buyer_location@ == b.buyer_location@
        && a.member_since == b.member_since
        && a.review_average == b.review_average
        && a.review_count == b.review_count
        && a.total_carts == b.total_carts
        && a.total_orders == b.total_orders
        && a.total_delivered == b.total_delivered
        && a.total_damaged == b.total_damaged
        && a.total_wrong == b.total_wrong
        && a.total_not_received == b.total_not_received
        && a.total_resolved == b.total_resolved
        && a.total_refused == b.total_refused
}

/// A copy of a buyer profile.
pub fn copy_buyer_profile(x: &BuyerProfile) -> (r: BuyerProfile)
    ensures
        same_buyer_profile(r, *x),
{
    BuyerProfile {
        buyer_account: x.buyer_account,
        buyer_name: copy_bytes(&x.buyer_name),
        buyer_location: copy_bytes(&x.buyer_location),
        member_since: x.member_since,
        review_average: x.review_average,
        review_count: x.review_count,
        total_carts: x.total_carts,
        total_orders: x.total_orders,
        total_delivered: x.total_delivered,
        total_damaged: x.total_damaged,
        total_wrong: x.total_wrong,
        total_not_received: x.total_not_received,
        total_resolved: x.total_resolved,
        total_refused: x.total_refused,
    }
}

/// `a` holds what `b` holds, field by field.
pub open spec fn same_seller_profile(a: SellerProfile, b: SellerProfile) -> bool {
    a.seller_account == b.seller_account
        && a.seller_name@ == b.seller_name@
        && a.store_description@ == b.store_description@
        && a.seller_location@ == b.seller_location@
        && a.member_since == b.member_since
        && a.banner_url@ == b.banner_url@
        && a.youtube_url@ == b.youtube_url@
        && a.external_link@ == b.external_link@
        && a.review_average == b.review_average
        && a.review_count == b.review_count
        && a.total_orders == b.total_orders
        && a.awaiting == b.awaiting
        && a.total_delivered == b.total_delivered
        && a.total_damaged == b.total_damaged
        && a.total_wrong == b.total_wrong
        && a.total_not_received == b.total_not_received
        && a.total_resolved == b.total_resolved
        && a.total_refused == b.total_refused
}

/// A copy of a seller profile.
pub fn copy_seller_profile(x: &SellerProfile) -> (r: SellerProfile)
    ensures
        same_seller_profile(r, *x),
{
    SellerProfile {
        seller_account: x.seller_account,
        seller_name: copy_bytes(&x.seller_name),
        store_description: copy_bytes(&x.store_description),
        seller_location: copy_bytes(&x.seller_location),
        member_since: x.member_since,
        banner_url: copy_bytes(&x.banner_url),
        youtube_url: copy_bytes(&x.youtube_url),
        external_link: copy_bytes(&x.external_link),
        review_average: x.review_average,
        review_count: x.review_count,
        total_orders: x.total_orders,
        awaiting: x.awaiting,
        total_delivered: x.total_delivered,
        total_damaged: x.total_damaged,
        total_wrong: x.total_wrong,
        total_not_received: x.total_not_received,
        total_resolved: x.total_resolved,
        total_refused: x.total_refused,
    }
}

fn copy_messages(v: &Vec<MessageDetails>) -> (r: Vec<MessageDetails>)
    ensures
        r@.len() == v@.len(),
        forall|i: int| 0 <= i < v@.len() ==> same_message(#[trigger] r@[i], v@[i]),
{
    let mut out: Vec<MessageDetails> = Vec::new();
    let mut i: usize = 0;
    while i < v.len()
        invariant
            0 <= i <= v@.len(),
            out@.len() == i,
            forall|j: int| 0 <= j < i ==> same_message(#[trigger] out@[j], v@[j]),
        decreases v@.len() - i,
    {
        out.push(copy_message(&v[i]));
        i = i + 1;
    }
    out
}

} // verus!
