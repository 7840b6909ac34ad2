use geode_marketplace::events::{Error, Event};
use geode_marketplace::lifecycle::{
    AWAITING, DAMAGED, DELIVERED, DENIED, PROBLEM, REFUNDED, REFUSED, REPLACED, RESOLVED, SHIPPED,
};
use geode_marketplace::market::ContractStorage;
use geode_marketplace::money::{fold_rating, release_payouts, Payout};
use geode_marketplace::{AccountId, Digest};

const HOUR: u64 = 3_600_000;

fn acct(b: u8) -> AccountId {
    AccountId::from_bytes([b; 32])
}

fn text(s: &str) -> Vec<u8> {
    s.as_bytes().to_vec()
}

fn list_product(
    m: &mut ContractStorage,
    seller: AccountId,
    now: u64,
    digital: bool,
    title: &str,
    price: u128,
    inventory: u128,
    percent: u128,
) -> Digest {
    m.add_a_product(
        seller,
        now,
        digital,
        text(title),
        price,
        text("brand"),
        text("category"),
        text("description"),
        inventory,
        vec![],
        vec![],
        vec![],
        vec![],
        vec![],
        vec![],
        text("https://files.example/item"),
        percent,
    )
    .unwrap();
    let store = m.go_to_store(seller);
    store.products.last().unwrap().product_id
}

fn list_service(m: &mut ContractStorage, seller: AccountId, now: u64, title: &str, price: u128, inventory: u128) -> Digest {
    m.add_a_service(
        seller,
        now,
        true,
        text(title),
        price,
        text("category"),
        text("description"),
        inventory,
        vec![],
        vec![],
        vec![],
        vec![],
        vec![],
        0,
    )
    .unwrap();
    m.go_to_store(seller).services.last().unwrap().service_id
}

fn buy(m: &mut ContractStorage, buyer: AccountId, now: u64, item: Digest, qty: u128, tender: u128) -> Vec<Payout> {
    m.add_item_to_cart(buyer, item, qty).unwrap();
    m.checkout_cart(buyer, now, text("1 Main St"), tender).unwrap()
}

fn amounts(p: &[Payout]) -> Vec<(u8, u128)> {
    p.iter().map(|x| (x.to.bytes[0], x.amount)).collect()
}

fn only_order(m: &ContractStorage, buyer: AccountId) -> geode_marketplace::types::Order {
    let v = m.view_my_orders(buyer);
    v.carts.last().unwrap().clone()
}

#[test]
fn digital_checkout_pays_seller_at_once() {
    let mut m = ContractStorage::new();
    let seller = acct(1);
    let buyer = acct(2);
    let item = list_product(&mut m, seller, 10, true, "ebook", 100, 5, 10);
    let payouts = buy(&mut m, buyer, 20, item, 1, 100);
    assert_eq!(amounts(&payouts), vec![(1, 100)]);
    let order = only_order(&m, buyer);
    assert_eq!(order.order_status, DELIVERED);
    assert_eq!(order.time_delivered, 20);
    assert_eq!(order.zeno_total, 10);
    let account = m.view_my_buyer_account(buyer);
    assert_eq!(account.digital_downloads.len(), 1);
    assert_eq!(account.digital_downloads[0].product_id, item);
    assert_eq!(account.digital_downloads[0].file_url, text("https://files.example/item"));
    let store = m.go_to_store(seller);
    assert_eq!(store.products[0].zeno_buyers, vec![buyer]);
    assert_eq!(store.products[0].inventory, 4);
}

#[test]
fn shipping_fans_out_referral_by_halves() {
    let mut m = ContractStorage::new();
    let seller = acct(1);
    let (r1, r2, buyer) = (acct(2), acct(3), acct(4));
    let item = list_product(&mut m, seller, 10, false, "lamp", 200, 3, 20);
    buy(&mut m, r1, 20, item, 1, 200);
    buy(&mut m, r2, 30, item, 1, 200);
    m.update_product_details(
        seller, item, 200, text("brand"), text("category"), text("description"), 1,
        vec![], vec![], vec![], vec![], vec![], vec![], vec![],
    )
    .unwrap();
    let at_checkout = buy(&mut m, buyer, 40, item, 1, 200);
    assert!(at_checkout.is_empty());
    let order = only_order(&m, buyer);
    assert_eq!(order.order_status, AWAITING);
    assert_eq!(order.zeno_referrers, vec![r1, r2]);
    let paid = m
        .update_order_tracking_information(seller, 50, order.order_id, text("TRACK1"), true, false)
        .unwrap();
    assert_eq!(amounts(&paid), vec![(1, 160), (2, 20), (3, 10), (1, 10)]);
    let order = only_order(&m, buyer);
    assert_eq!(order.order_status, SHIPPED);
    assert_eq!(order.tracking_info, text("TRACK1"));
    assert_eq!(m.view_my_seller_orders_shipped(seller).len(), 1);
    assert_eq!(m.view_my_seller_orders_awaiting(seller).len(), 2);
}

fn delivered_order(m: &mut ContractStorage, at: u64) -> (AccountId, AccountId, Digest) {
    let seller = acct(1);
    let buyer = acct(2);
    let item = list_product(m, seller, 1, false, "vase", 50, 10, 0);
    buy(m, buyer, 2, item, 1, 50);
    let id = only_order(m, buyer).order_id;
    m.update_order_tracking_information(seller, 3, id, text("T"), true, false).unwrap();
    m.update_order_tracking_information(seller, at, id, text("T"), false, true).unwrap();
    (seller, buyer, id)
}

#[test]
fn report_after_window_is_refused() {
    let mut m = ContractStorage::new();
    let t = 1000 * HOUR;
    let (seller, buyer, id) = delivered_order(&mut m, t);
    let before = m.view_my_seller_orders_delivered(seller).len();
    let r = m.report_problem_damaged(buyer, t + 25 * HOUR, id, text("photo"), text("broken"));
    assert_eq!(r, Err(Error::NotEligibleToReport));
    assert_eq!(m.view_my_seller_orders_delivered(seller).len(), before);
    assert_eq!(only_order(&m, buyer).order_status, DELIVERED);
}

#[test]
fn report_within_window_moves_to_problem() {
    let mut m = ContractStorage::new();
    let t = 1000 * HOUR;
    let (seller, buyer, id) = delivered_order(&mut m, t);
    let delivered = m.view_my_seller_orders_delivered(seller).len();
    let problems = m.view_my_seller_orders_problem(seller).len();
    m.report_problem_damaged(buyer, t + 23 * HOUR, id, text("photo"), text("broken")).unwrap();
    let o = only_order(&m, buyer);
    assert_eq!(o.order_status, PROBLEM);
    assert_eq!(o.problem, DAMAGED);
    assert_eq!(o.discussion.len(), 1);
    assert_eq!(o.discussion[0].message, text("broken"));
    assert_eq!(m.view_my_seller_orders_delivered(seller).len(), delivered - 1);
    assert_eq!(m.view_my_seller_orders_problem(seller).len(), problems + 1);
    let b = m.view_my_buyer_account(buyer).buyer;
    assert_eq!(b.total_damaged, 1);
    assert_eq!(b.total_delivered, 0);
}

#[test]
fn rating_twice_is_refused() {
    let mut m = ContractStorage::new();
    let seller = acct(1);
    let buyer = acct(2);
    let item = list_service(&mut m, seller, 1, "lesson", 30, 10);
    buy(&mut m, buyer, 2, item, 1, 30);
    m.rate_a_product_or_service(buyer, 9, item, 4, text("good")).unwrap();
    let after_first = m.go_to_store(seller).services[0].clone();
    assert_eq!((after_first.review_average, after_first.review_count), (4, 1));
    let r = m.rate_a_product_or_service(buyer, 9, item, 1, text("again"));
    assert_eq!(r, Err(Error::NotEligibleToReview));
    let after_second = m.go_to_store(seller).services[0].clone();
    assert_eq!((after_second.review_average, after_second.review_count), (4, 1));
    let owner = m.go_to_store(seller).owner;
    assert_eq!((owner.review_average, owner.review_count), (4, 1));
}

#[test]
fn cart_total_counts_only_lines_in_stock() {
    let mut m = ContractStorage::new();
    let seller = acct(1);
    let buyer = acct(2);
    let a = list_product(&mut m, seller, 1, false, "chair", 40, 5, 0);
    let b = list_product(&mut m, seller, 2, false, "table", 300, 1, 0);
    m.add_item_to_cart(buyer, a, 2).unwrap();
    m.add_item_to_cart(buyer, b, 3).unwrap();
    let view = m.view_my_cart(buyer);
    assert_eq!(view.cart_total, 80);
    assert_eq!(view.cart_products.len(), 2);
    assert_eq!(view.total_items, 2);
    assert_eq!(m.checkout_cart(buyer, 5, text("addr"), 79), Err(Error::InsufficientPayment));
    m.checkout_cart(buyer, 5, text("addr"), 80).unwrap();
    let orders = m.view_my_orders(buyer).carts;
    assert_eq!(orders.len(), 1);
    assert_eq!(orders[0].item_id, a);
    assert_eq!(orders[0].total_order_price, 80);
    let store = m.go_to_store(seller);
    assert_eq!(store.products[0].inventory, 3);
    assert_eq!(store.products[1].inventory, 1);
    assert_eq!(m.view_my_cart(buyer).cart_products.len(), 0);
}

#[test]
fn checkout_takes_quantities_off_inventory() {
    let mut m = ContractStorage::new();
    let seller = acct(1);
    let buyer = acct(2);
    let a = list_product(&mut m, seller, 1, false, "pen", 3, 10, 0);
    let s = list_service(&mut m, seller, 2, "repair", 7, 4);
    m.add_item_to_cart(buyer, a, 10).unwrap();
    m.add_item_to_cart(buyer, s, 4).unwrap();
    let paid = m.checkout_cart(buyer, 3, text("addr"), 58).unwrap();
    assert_eq!(amounts(&paid), vec![(1, 28)]);
    let store = m.go_to_store(seller);
    assert_eq!(store.products[0].inventory, 0);
    assert_eq!(store.services[0].inventory, 0);
}

#[test]
fn release_shares_and_remainder_add_up() {
    let seller = acct(9);
    let refs = vec![acct(1), acct(2), acct(3)];
    let p = release_payouts(seller, 1000, 100, &refs);
    assert_eq!(amounts(&p), vec![(9, 900), (1, 50), (2, 25), (3, 12), (9, 13)]);
    let total: u128 = p.iter().map(|x| x.amount).sum();
    assert_eq!(total, 1000);
    let none = release_payouts(seller, 500, 0, &refs);
    assert_eq!(amounts(&none), vec![(9, 500)]);
}

#[test]
fn lifecycle_rejects_illegal_moves() {
    let mut m = ContractStorage::new();
    let t = 10 * HOUR;
    let (seller, buyer, id) = delivered_order(&mut m, t);
    assert_eq!(m.refuse_an_order(seller, id), Err(Error::CannotRefuse));
    assert_eq!(m.deny_resolution_request(seller, id), Err(Error::CannotResolve));
    m.report_problem_wrong_item(buyer, t + HOUR, id, vec![], text("wrong")).unwrap();
    m.deny_resolution_request(seller, id).unwrap();
    let o = only_order(&m, buyer);
    assert_eq!((o.order_status, o.resolution), (RESOLVED, DENIED));
    assert_eq!(m.deny_resolution_request(seller, id), Err(Error::CannotResolve));
    assert_eq!(m.issue_refund(seller, id, 5), Err(Error::CannotResolve));
    assert_eq!(m.issue_replacement(seller, id, text("T2")), Err(Error::CannotResolve));
    assert_eq!(m.view_my_seller_orders_resolved(seller).len(), 1);
}

#[test]
fn refund_and_replacement_resolve_once() {
    let mut m = ContractStorage::new();
    let t = 10 * HOUR;
    let (seller, buyer, id) = delivered_order(&mut m, t);
    m.report_problem_not_received(buyer, t + HOUR, id, vec![], text("where")).unwrap();
    assert_eq!(m.issue_refund(acct(7), id, 50), Err(Error::NotYourOrder));
    let paid = m.issue_refund(seller, id, 50).unwrap();
    assert_eq!(amounts(&paid), vec![(2, 50)]);
    let o = only_order(&m, buyer);
    assert_eq!((o.order_status, o.resolution), (RESOLVED, REFUNDED));
    assert_eq!(m.view_my_buyer_account(buyer).buyer.total_resolved, 1);

    let mut m = ContractStorage::new();
    let (seller, buyer, id) = delivered_order(&mut m, t);
    m.report_problem_damaged(buyer, t + HOUR, id, vec![], text("cracked")).unwrap();
    m.issue_replacement(seller, id, text("NEWTRACK")).unwrap();
    let o = only_order(&m, buyer);
    assert_eq!((o.order_status, o.resolution), (RESOLVED, REPLACED));
    assert_eq!(o.tracking_info, text("NEWTRACK"));
}

#[test]
fn refusing_an_awaiting_order_refunds_the_buyer() {
    let mut m = ContractStorage::new();
    let seller = acct(1);
    let buyer = acct(2);
    let item = list_product(&mut m, seller, 1, false, "desk", 120, 2, 0);
    buy(&mut m, buyer, 2, item, 2, 240);
    let id = only_order(&m, buyer).order_id;
    assert_eq!(m.refuse_an_order(buyer, id), Err(Error::NotYourOrder));
    let paid = m.refuse_an_order(seller, id).unwrap();
    assert_eq!(amounts(&paid), vec![(2, 240)]);
    assert_eq!(only_order(&m, buyer).order_status, REFUSED);
    assert_eq!(m.view_my_seller_orders_refused(seller).len(), 1);
    assert_eq!(m.view_my_seller_orders_awaiting(seller).len(), 0);
    assert_eq!(m.refuse_an_order(seller, id), Err(Error::CannotRefuse));
}

#[test]
fn mean_rating_is_floor_of_running_mean() {
    assert_eq!(fold_rating(0, 0, 4), (4, 1));
    assert_eq!(fold_rating(4, 1, 2), (3, 2));
    assert_eq!(fold_rating(3, 2, 5), (3, 3));
    // a truncated mean carries its rounding forward
    assert_eq!(fold_rating(1, 2, 3), (1, 3));
}

#[test]
fn rating_a_buyer_needs_a_sale() {
    let mut m = ContractStorage::new();
    let seller = acct(1);
    let buyer = acct(2);
    let item = list_product(&mut m, seller, 1, true, "song", 5, 10, 0);
    buy(&mut m, buyer, 2, item, 1, 5);
    let id = only_order(&m, buyer).order_id;
    assert_eq!(m.rate_a_buyer(seller, 9, buyer, 0, vec![], id), Err(Error::RatingOutOfBounds));
    assert_eq!(m.rate_a_buyer(acct(3), 9, buyer, 5, vec![], id), Err(Error::NotEligibleToReview));
    m.rate_a_buyer(seller, 9, buyer, 5, text("prompt"), id).unwrap();
    assert_eq!(m.rate_a_buyer(seller, 9, buyer, 5, vec![], id), Err(Error::NotEligibleToReview));
    let b = m.view_my_buyer_account(buyer).buyer;
    assert_eq!((b.review_average, b.review_count), (5, 1));
}

#[test]
fn errors_for_bad_input() {
    let mut m = ContractStorage::new();
    let seller = acct(1);
    let buyer = acct(2);
    let item = list_product(&mut m, seller, 1, true, "font", 9, 10, 0);
    m.add_item_to_cart(buyer, item, 1).unwrap();
    assert_eq!(m.checkout_cart(buyer, 2, vec![b'x'; 301], 9), Err(Error::DataTooLarge));
    assert_eq!(m.rate_a_product_or_service(buyer, 9, item, 6, vec![]), Err(Error::RatingOutOfBounds));
    assert_eq!(m.rate_a_product_or_service(buyer, 9, item, 3, vec![]), Err(Error::NotEligibleToReview));
    assert_eq!(
        m.update_order_tracking_information(seller, 3, item, vec![], true, false),
        Err(Error::NotYourOrder)
    );
    buy(&mut m, buyer, 4, item, 0, 9);
    let id = only_order(&m, buyer).order_id;
    assert_eq!(
        m.update_order_tracking_information(seller, 5, id, vec![], true, false),
        Err(Error::NotAPhysicalProduct)
    );
    assert_eq!(m.delete_a_product(buyer, item), Err(Error::NotYourProduct));
    m.delete_a_product(seller, item).unwrap();
    assert_eq!(m.rate_a_product_or_service(buyer, 9, item, 3, vec![]), Err(Error::ItemDoesNotExist));
    assert_eq!(m.bookmark_a_store(buyer, seller), Ok(()));
    assert_eq!(m.bookmark_a_store(buyer, seller), Err(Error::Duplicate));
    assert_eq!(m.message_the_seller(acct(5), 6, id, vec![], text("hi")), Err(Error::NotYourOrder));
    let r = m.add_a_product(
        seller, 7, false, text("t"), 1, vec![], vec![], vec![], 1, vec![], vec![], vec![],
        vec![], vec![], vec![], vec![], 101,
    );
    assert_eq!(r, Err(Error::DataTooLarge));
}

#[test]
fn cart_is_bounded_and_merges_lines() {
    let mut m = ContractStorage::new();
    let seller = acct(1);
    let buyer = acct(2);
    let item = list_product(&mut m, seller, 1, false, "nail", 1, 1000, 0);
    m.add_item_to_cart(buyer, item, 2).unwrap();
    m.add_item_to_cart(buyer, item, 3).unwrap();
    let v = m.view_my_cart(buyer);
    assert_eq!(v.cart_products.len(), 1);
    assert_eq!(v.cart_products[0].quantity, 5);
    m.add_item_to_cart(buyer, item, u128::MAX).unwrap();
    assert_eq!(m.view_my_cart(buyer).cart_products[0].quantity, u128::MAX);
    m.update_cart_item_quantity(buyer, item, 7).unwrap();
    assert_eq!(m.view_my_cart(buyer).cart_total, 7);
    m.remove_item_from_cart(buyer, item).unwrap();
    assert_eq!(m.view_my_cart(buyer).total_items, 0);
    for k in 0..50u8 {
        m.add_item_to_cart(buyer, Digest::from_bytes([k; 32]), 1).unwrap();
    }
    assert_eq!(m.add_item_to_cart(buyer, item, 1), Err(Error::StorageFull));
}

#[test]
fn identifiers_are_digests_of_their_inputs() {
    let mut m = ContractStorage::new();
    let seller = acct(1);
    let buyer = acct(2);
    let a = list_product(&mut m, seller, 1, true, "same", 1, 10, 0);
    let b = list_product(&mut m, seller, 2, true, "same", 1, 10, 0);
    assert_ne!(a, b);
    assert_ne!(a.bytes, [0u8; 32]);
    buy(&mut m, buyer, 3, a, 1, 1);
    let o = only_order(&m, buyer);
    assert_ne!(o.order_id, a);
    assert_ne!(o.order_id, o.cart_id);
    let r = m.add_a_product(
        seller, 1, true, text("same"), 1, vec![], vec![], vec![], 1, vec![], vec![], vec![],
        vec![], vec![], vec![], vec![], 0,
    );
    assert_eq!(r, Err(Error::Duplicate));
}

#[test]
fn statistics_and_account_checks() {
    let mut m = ContractStorage::new();
    let seller = acct(1);
    let buyer = acct(2);
    assert_eq!(m.verify_account(buyer), (0, 0));
    let item = list_product(&mut m, seller, 1, false, "cup", 4, 10, 0);
    buy(&mut m, buyer, 2, item, 2, 8);
    m.update_buyer_account_settings(buyer, text("Ann"), text("Oslo")).unwrap();
    m.update_seller_account_settings(seller, text("Shop"), text("Rome"), vec![], vec![], vec![], vec![]).unwrap();
    assert_eq!(m.verify_account(buyer), (1, 0));
    assert_eq!(m.verify_account(seller), (0, 1));
    let s = m.get_market_statistics(buyer, 9);
    assert_eq!(s.number_of_sellers, 1);
    assert_eq!(s.number_of_buyers, 1);
    assert_eq!(s.number_of_products, 1);
    assert_eq!(s.number_of_orders, 1);
    assert_eq!(s.orders.len(), 1);
    assert_eq!((s.orders[0].total, s.orders[0].status), (8, AWAITING));
    assert_eq!(m.view_my_seller_profile(seller).owner.seller_name, text("Shop"));
    assert_eq!(m.view_my_buyer_account(buyer).buyer.buyer_location, text("Oslo"));
    m.message_the_buyer(seller, 3, only_order(&m, buyer).order_id, vec![], text("soon")).unwrap();
    assert_eq!(only_order(&m, buyer).discussion[0].to_acct, buyer);
}

#[test]
fn keyword_search_needs_every_keyword() {
    let mut m = ContractStorage::new();
    let seller = acct(1);
    list_product(&mut m, seller, 1, false, "red wool hat", 10, 3, 0);
    list_product(&mut m, seller, 2, false, "blue cotton hat", 12, 3, 0);
    list_service(&mut m, seller, 3, "hat repair", 5, 9);
    m.update_seller_account_settings(seller, text("Hats Inc"), text("Lima"), text("we make hats"), vec![], vec![], vec![])
        .unwrap();
    let r = m.search_products_by_keyword(text("hat"), text("wool"), vec![]);
    assert_eq!(r.products.len(), 1);
    assert_eq!(r.products[0].title, text("red wool hat"));
    assert_eq!(r.search, vec![text("hat"), text("wool"), vec![]]);
    let all = m.search_products_by_keyword(text("hat"), vec![], vec![]);
    assert_eq!(all.products.len(), 2);
    assert_eq!(m.search_products_by_keyword(text("hat"), text("silk"), vec![]).products.len(), 0);
    let s = m.search_services_by_keyword(text("repair"), vec![], vec![]);
    assert_eq!(s.services.len(), 1);
    let st = m.search_stores_by_keyword(text("Lima"), text("hats"), vec![]);
    assert_eq!(st.stores.len(), 1);
    assert_eq!(st.stores[0].seller_name, text("Hats Inc"));
    assert_eq!(m.search_stores_by_keyword(text("Oslo"), vec![], vec![]).stores.len(), 0);
}

#[test]
fn keyword_that_is_not_utf8_counts_as_empty() {
    let mut m = ContractStorage::new();
    let seller = acct(1);
    list_product(&mut m, seller, 1, false, "mug", 10, 3, 0);
    let r = m.search_products_by_keyword(vec![0xff, 0xfe], vec![], vec![]);
    assert_eq!(r.products.len(), 1);
    let none = m.search_products_by_keyword(text("\u{fffd}"), vec![], vec![]);
    assert_eq!(none.products.len(), 0);
}

#[test]
fn instant_line_pays_seller_whole_total_even_with_referrers() {
    let mut m = ContractStorage::new();
    let seller = acct(1);
    let (r, buyer) = (acct(2), acct(3));
    let item = list_product(&mut m, seller, 1, true, "album", 100, 5, 10);
    buy(&mut m, r, 2, item, 1, 100);
    let paid = buy(&mut m, buyer, 3, item, 1, 100);
    assert_eq!(amounts(&paid), vec![(1, 100)]);
    assert_eq!(only_order(&m, buyer).zeno_referrers, vec![r]);
}

#[test]
fn zero_quantities_add_nothing_and_remove_lines() {
    let mut m = ContractStorage::new();
    let seller = acct(1);
    let buyer = acct(2);
    let item = list_product(&mut m, seller, 1, false, "bolt", 2, 100, 0);
    m.add_item_to_cart(buyer, item, 0).unwrap();
    assert_eq!(m.view_my_cart(buyer).cart_products.len(), 0);
    m.add_item_to_cart(buyer, item, 4).unwrap();
    m.update_cart_item_quantity(buyer, item, 0).unwrap();
    let v = m.view_my_cart(buyer);
    assert_eq!(v.cart_products.len(), 0);
    assert_eq!(v.total_items, 0);
}

#[test]
fn listing_and_rating_are_recorded_as_events() {
    let mut m = ContractStorage::new();
    let seller = acct(1);
    let buyer = acct(2);
    let item = list_service(&mut m, seller, 1, "tutoring", 8, 3);
    assert!(matches!(m.events.last(), Some(Event::NewService(e)) if e.service_id == item && e.title == text("tutoring")));
    buy(&mut m, buyer, 2, item, 1, 8);
    m.rate_a_product_or_service(buyer, 7, item, 5, text("great")).unwrap();
    match m.events.last() {
        Some(Event::NewProductRating(e)) => {
            assert_eq!((e.item_id, e.reviewer, e.rating, e.timestamp), (item, buyer, 5, 7));
            assert_ne!(e.review_id, item);
        }
        other => panic!("unexpected event {:?}", other),
    }
}
