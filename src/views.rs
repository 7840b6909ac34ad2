use vstd::prelude::*;

use crate::copy::{copy_bytes, copy_keys};
use crate::ids::{AccountId, Digest};
use crate::market::{accounts, ids, ContractStorage};
use crate::records::{
    copy_buyer_profile, copy_order, copy_product, copy_seller_profile, copy_service,
    same_buyer_profile, same_order, same_product, same_seller_profile, same_service,
};
use crate::table::Table;
use crate::types::{
    AccountVector, BuyerProfile, Download, HashVector, MarketStatistics, Order, OrderData, Product,
    PublicProduct, SellerProfile, Service, ViewBuyerAccount, ViewBuyerOrders, ViewSellerAccount,
    ViewStore, UnpaidCartProduct, UnpaidCartService, ViewUnpaidCart,
};

verus! {

/// The 32 zero bytes that an empty record carries for an identifier.
pub open spec fn zeros() -> Seq<u8> {
    Seq::new(32, |i: int| 0u8)
}

/// `p` shows product `q` to buyers: every field but the download link.
pub open spec fn shows_product(p: PublicProduct, q: Product) -> bool {
    &&& p.product_id == q.product_id
    &&& p.digital == q.digital
    &&& p.title@ == q.title@
    &&& p.price == q.price
    &&& p.brand@ == q.brand@
    &&& p.category@ == q.category@
    &&& p.seller_account == q.seller_account
    &&& p.seller_name@ == q.seller_name@
    &&& p.description@ == q.description@
    &&& p.review_average == q.review_average
    &&& p.review_count == q.review_count
    &&& p.inventory == q.inventory
    &&& p.photo_or_youtube_link1@ == q.photo_or_youtube_link1@
    &&& p.photo_or_youtube_link2@ == q.photo_or_youtube_link2@
    &&& p.photo_or_youtube_link3@ == q.photo_or_youtube_link3@
    &&& p.more_info_link@ == q.more_info_link@
    &&& p.delivery_info@ == q.delivery_info@
    &&& p.product_location@ == q.product_location@
    &&& p.zeno_percent == q.zeno_percent
    &&& p.zeno_buyers@ == q.zeno_buyers@
}

pub fn public_product(q: &Product) -> (p: PublicProduct)
    ensures
        shows_product(p, *q),
{
    PublicProduct {
        product_id: q.product_id,
        digital: q.digital,
        title: copy_bytes(&q.title),
        price: q.price,
        brand: copy_bytes(&q.brand),
        category: copy_bytes(&q.category),
        seller_account: q.seller_account,
        seller_name: copy_bytes(&q.seller_name),
        description: copy_bytes(&q.description),
        review_average: q.review_average,
        review_count: q.review_count,
        inventory: q.inventory,
        photo_or_youtube_link1: copy_bytes(&q.photo_or_youtube_link1),
        photo_or_youtube_link2: copy_bytes(&q.photo_or_youtube_link2),
        photo_or_youtube_link3: copy_bytes(&q.photo_or_youtube_link3),
        more_info_link: copy_bytes(&q.more_info_link),
        delivery_info: copy_bytes(&q.delivery_info),
        product_location: copy_bytes(&q.product_location),
        zeno_percent: q.zeno_percent,
        zeno_buyers: copy_keys(&q.zeno_buyers),
    }
}

impl ContractStorage {
    /// `o` shows the order stored under `id`, or is an empty order where
    /// there is none.
    pub open spec fn shows_order(&self, o: Order, id: Seq<u8>) -> bool {
        if self.order_details@.contains_key(id) {
            same_order(o, self.order_details@[id])
        } else {
            o.order_id@ == zeros() && o.quantity == 0 && o.total_order_price == 0
                && o.order_status == 0
        }
    }

    pub open spec fn shows_orders(&self, os: Seq<Order>, list: Seq<Digest>) -> bool {
        os.len() == list.len() && forall|j: int|
            0 <= j < list.len() ==> self.shows_order(#[trigger] os[j], list[j]@)
    }

    pub open spec fn shows_seller(&self, p: SellerProfile, k: Seq<u8>) -> bool {
        if self.account_profile_seller@.contains_key(k) {
            same_seller_profile(p, self.account_profile_seller@[k])
        } else {
            p.seller_account@ == zeros() && p.total_orders == 0 && p.review_count == 0
        }
    }

    pub open spec fn shows_buyer(&self, p: BuyerProfile, k: Seq<u8>) -> bool {
        if self.account_profile_buyer@.contains_key(k) {
            same_buyer_profile(p, self.account_profile_buyer@[k])
        } else {
            p.buyer_account@ == zeros() && p.total_orders == 0 && p.review_count == 0
        }
    }

    pub open spec fn shows_public(&self, p: PublicProduct, id: Seq<u8>) -> bool {
        if self.product_details@.contains_key(id) {
            shows_product(p, self.product_details@[id])
        } else {
            p.product_id@ == zeros() && p.price == 0 && p.inventory == 0
        }
    }

    pub open spec fn shows_product_record(&self, p: Product, id: Seq<u8>) -> bool {
        if self.product_details@.contains_key(id) {
            same_product(p, self.product_details@[id])
        } else {
            p.product_id@ == zeros() && p.price == 0 && p.inventory == 0
        }
    }

    pub open spec fn shows_service(&self, s: Service, id: Seq<u8>) -> bool {
        if self.service_details@.contains_key(id) {
            same_service(s, self.service_details@[id])
        } else {
            s.service_id@ == zeros() && s.price == 0 && s.inventory == 0
        }
    }

    pub open spec fn shows_download(&self, d: Download, id: Seq<u8>) -> bool {
        if self.product_details@.contains_key(id) {
            let p = self.product_details@[id];
            &&& d.product_id == p.product_id
            &&& d.title@ == p.title@
            &&& d.brand@ == p.brand@
            &&& d.seller_account == p.seller_account
            &&& d.seller_name@ == p.seller_name@
            &&& d.description@ == p.description@
            &&& d.photo@ == p.photo_or_youtube_link1@
            &&& d.more_info@ == p.more_info_link@
            &&& d.file_url@ == p.digital_file_url@
        } else {
            d.product_id@ == zeros() && d.file_url@.len() == 0
        }
    }

    fn order_or_default(&self, id: &Digest) -> (r: Order)
        requires
            self.wf(),
        ensures
            self.shows_order(r, id@),
    {
        match self.order_details.find(id) {
            Some(i) => {
                proof {
                    self.order_details.lemma_index(i as int);
                }
                copy_order(&self.order_details.entries[i].1)
            },
            None => Order::default(),
        }
    }

    fn seller_or_default(&self, k: &AccountId) -> (r: SellerProfile)
        requires
            self.wf(),
        ensures
            self.shows_seller(r, k@),
    {
        match self.account_profile_seller.find(k) {
            Some(i) => {
                proof {
                    self.account_profile_seller.lemma_index(i as int);
                }
                copy_seller_profile(&self.account_profile_seller.entries[i].1)
            },
            None => SellerProfile::default(),
        }
    }

    fn public_or_default(&self, id: &Digest) -> (r: PublicProduct)
        requires
            self.wf(),
        ensures
            self.shows_public(r, id@),
    {
        match self.product_details.find(id) {
            Some(i) => {
                proof {
                    self.product_details.lemma_index(i as int);
                }
                public_product(&self.product_details.entries[i].1)
            },
            None => PublicProduct::default(),
        }
    }

    fn product_or_default(&self, id: &Digest) -> (r: Product)
        requires
            self.wf(),
        ensures
            self.shows_product_record(r, id@),
    {
        match self.product_details.find(id) {
            Some(i) => {
                proof {
                    self.product_details.lemma_index(i as int);
                }
                copy_product(&self.product_details.entries[i].1)
            },
            None => Product::default(),
        }
    }

    fn service_or_default(&self, id: &Digest) -> (r: Service)
        requires
            self.wf(),
        ensures
            self.shows_service(r, id@),
    {
        match self.service_details.find(id) {
            Some(i) => {
                proof {
                    self.service_details.lemma_index(i as int);
                }
                copy_service(&self.service_details.entries[i].1)
            },
            None => Service::default(),
        }
    }

    fn download_or_default(&self, id: &Digest) -> (r: Download)
        requires
            self.wf(),
        ensures
            self.shows_download(r, id@),
    {
        match self.product_details.find(id) {
            Some(i) => {
                proof {
                    self.product_details.lemma_index(i as int);
                }
                let p = &self.product_details.entries[i].1;
                Download {
                    product_id: p.product_id,
                    title: copy_bytes(&p.title),
                    brand: copy_bytes(&p.brand),
                    seller_account: p.seller_account,
                    seller_name: copy_bytes(&p.seller_name),
                    description: copy_bytes(&p.description),
                    photo: copy_bytes(&p.photo_or_youtube_link1),
                    more_info: copy_bytes(&p.more_info_link),
                    file_url: copy_bytes(&p.digital_file_url),
                }
            },
            None => Download::default(),
        }
    }

    /// The orders listed in `list`.
    fn orders_in(&self, list: &Vec<Digest>) -> (r: Vec<Order>)
        requires
            self.wf(),
        ensures
            self.shows_orders(r@, list@),
    {
        let mut out: Vec<Order> = Vec::new();
        let mut i: usize = 0;
        while i < list.len()
            invariant
                self.wf(),
                0 <= i <= list@.len(),
                out@.len() == i,
                forall|j: int| 0 <= j < i ==> self.shows_order(#[trigger] out@[j], list@[j]@),
            decreases list@.len() - i,
        {
            out.push(self.order_or_default(&list[i]));
            i = i + 1;
        }
        out
    }

    /// The orders listed under `k` in `t`.
    fn orders_listed(&self, t: &Table<AccountId, HashVector>, k: &AccountId) -> (r: Vec<Order>)
        requires
            self.wf(),
            t.wf(),
        ensures
            self.shows_orders(r@, ids(*t, k@)),
    {
        match t.find(k) {
            Some(i) => {
                proof {
                    t.lemma_index(i as int);
                }
                self.orders_in(&t.entries[i].1.hashvector)
            },
            None => Vec::new(),
        }
    }

    /// `caller`'s recent orders.
    pub fn view_my_orders(&self, caller: AccountId) -> (r: ViewBuyerOrders)
        requires
            self.wf(),
        ensures
            r.buyer == caller,
            self.shows_orders(r.carts@, ids(self.account_buyer_orders, caller@)),
    {
        ViewBuyerOrders { buyer: caller, carts: self.orders_listed(&self.account_buyer_orders, &caller) }
    }

    /// The orders in `caller`'s awaiting bucket.
    pub fn view_my_seller_orders_awaiting(&self, caller: AccountId) -> (r: Vec<Order>)
        requires
            self.wf(),
        ensures
            self.shows_orders(r@, ids(self.account_seller_orders_0awaiting, caller@)),
    {
        self.orders_listed(&self.account_seller_orders_0awaiting, &caller)
    }

    /// The orders in `caller`'s shipped bucket.
    pub fn view_my_seller_orders_shipped(&self, caller: AccountId) -> (r: Vec<Order>)
        requires
            self.wf(),
        ensures
            self.shows_orders(r@, ids(self.account_seller_orders_1shipped, caller@)),
    {
        self.orders_listed(&self.account_seller_orders_1shipped, &caller)
    }

    /// The orders in `caller`'s delivered bucket.
    pub fn view_my_seller_orders_delivered(&self, caller: AccountId) -> (r: Vec<Order>)
        requires
            self.wf(),
        ensures
            self.shows_orders(r@, ids(self.account_seller_orders_2delivered, caller@)),
    {
        self.orders_listed(&self.account_seller_orders_2delivered, &caller)
    }

    /// The orders in `caller`'s resolved bucket.
    pub fn view_my_seller_orders_resolved(&self, caller: AccountId) -> (r: Vec<Order>)
        requires
            self.wf(),
        ensures
            self.shows_orders(r@, ids(self.account_seller_orders_3resolved, caller@)),
    {
        self.orders_listed(&self.account_seller_orders_3resolved, &caller)
    }

    /// The orders in `caller`'s problem bucket.
    pub fn view_my_seller_orders_problem(&self, caller: AccountId) -> (r: Vec<Order>)
        requires
            self.wf(),
        ensures
            self.shows_orders(r@, ids(self.account_seller_orders_4problem, caller@)),
    {
        self.orders_listed(&self.account_seller_orders_4problem, &caller)
    }

    /// The orders in `caller`'s refused bucket.
    pub fn view_my_seller_orders_refused(&self, caller: AccountId) -> (r: Vec<Order>)
        requires
            self.wf(),
        ensures
            self.shows_orders(r@, ids(self.account_seller_orders_5refused, caller@)),
    {
        self.orders_listed(&self.account_seller_orders_5refused, &caller)
    }

    fn sellers_listed(&self, t: &Table<AccountId, AccountVector>, k: &AccountId) -> (r: Vec<SellerProfile>)
        requires
            self.wf(),
            t.wf(),
        ensures
            r@.len() == accounts(*t, k@).len(),
            forall|j: int| 0 <= j < r@.len() ==> self.shows_seller(#[trigger] r@[j], accounts(*t, k@)[j]@),
    {
        let mut out: Vec<SellerProfile> = Vec::new();
        match t.find(k) {
            Some(e) => {
                proof {
                    t.lemma_index(e as int);
                }
                let list = &t.entries[e].1.accountvector;
                let mut i: usize = 0;
                while i < list.len()
                    invariant
                        self.wf(),
                        0 <= i <= list@.len(),
                        out@.len() == i,
                        forall|j: int| 0 <= j < i ==> self.shows_seller(#[trigger] out@[j], list@[j]@),
                    decreases list@.len() - i,
                {
                    out.push(self.seller_or_default(&list[i]));
                    i = i + 1;
                }
            },
            None => {},
        }
        out
    }

    fn downloads_listed(&self, t: &Table<AccountId, HashVector>, k: &AccountId) -> (r: Vec<Download>)
        requires
            self.wf(),
            t.wf(),
        ensures
            r@.len() == ids(*t, k@).len(),
            forall|j: int| 0 <= j < r@.len() ==> self.shows_download(#[trigger] r@[j], ids(*t, k@)[j]@),
    {
        let mut out: Vec<Download> = Vec::new();
        match t.find(k) {
            Some(e) => {
                proof {
                    t.lemma_index(e as int);
                }
                let list = &t.entries[e].1.hashvector;
                let mut i: usize = 0;
                while i < list.len()
                    invariant
                        self.wf(),
                        0 <= i <= list@.len(),
                        out@.len() == i,
                        forall|j: int| 0 <= j < i ==> self.shows_download(#[trigger] out@[j], list@[j]@),
                    decreases list@.len() - i,
                {
                    out.push(self.download_or_default(&list[i]));
                    i = i + 1;
                }
            },
            None => {},
        }
        out
    }

    fn publics_listed(&self, t: &Table<AccountId, HashVector>, k: &AccountId) -> (r: Vec<PublicProduct>)
        requires
            self.wf(),
            t.wf(),
        ensures
            r@.len() == ids(*t, k@).len(),
            forall|j: int| 0 <= j < r@.len() ==> self.shows_public(#[trigger] r@[j], ids(*t, k@)[j]@),
    {
        let mut out: Vec<PublicProduct> = Vec::new();
        match t.find(k) {
            Some(e) => {
                proof {
                    t.lemma_index(e as int);
                }
                let list = &t.entries[e].1.hashvector;
                let mut i: usize = 0;
                while i < list.len()
                    invariant
                        self.wf(),
                        0 <= i <= list@.len(),
                        out@.len() == i,
                        forall|j: int| 0 <= j < i ==> self.shows_public(#[trigger] out@[j], list@[j]@),
                    decreases list@.len() - i,
                {
                    out.push(self.public_or_default(&list[i]));
                    i = i + 1;
                }
            },
            None => {},
        }
        out
    }

    fn products_listed(&self, t: &Table<AccountId, HashVector>, k: &AccountId) -> (r: Vec<Product>)
        requires
            self.wf(),
            t.wf(),
        ensures
            r@.len() == ids(*t, k@).len(),
            forall|j: int| 0 <= j < r@.len() ==> self.shows_product_record(#[trigger] r@[j], ids(*t, k@)[j]@),
    {
        let mut out: Vec<Product> = Vec::new();
        match t.find(k) {
            Some(e) => {
                proof {
                    t.lemma_index(e as int);
                }
                let list = &t.entries[e].1.hashvector;
                let mut i: usize = 0;
                while i < list.len()
                    invariant
                        self.wf(),
                        0 <= i <= list@.len(),
                        out@.len() == i,
                        forall|j: int| 0 <= j < i ==> self.shows_product_record(#[trigger] out@[j], list@[j]@),
                    decreases list@.len() - i,
                {
                    out.push(self.product_or_default(&list[i]));
                    i = i + 1;
                }
            },
            None => {},
        }
        out
    }

    fn services_listed(&self, t: &Table<AccountId, HashVector>, k: &AccountId) -> (r: Vec<Service>)
        requires
            self.wf(),
            t.wf(),
        ensures
            r@.len() == ids(*t, k@).len(),
            forall|j: int| 0 <= j < r@.len() ==> self.shows_service(#[trigger] r@[j], ids(*t, k@)[j]@),
    {
        let mut out: Vec<Service> = Vec::new();
        match t.find(k) {
            Some(e) => {
                proof {
                    t.lemma_index(e as int);
                }
                let list = &t.entries[e].1.hashvector;
                let mut i: usize = 0;
                while i < list.len()
                    invariant
                        self.wf(),
                        0 <= i <= list@.len(),
                        out@.len() == i,
                        forall|j: int| 0 <= j < i ==> self.shows_service(#[trigger] out@[j], list@[j]@),
                    decreases list@.len() - i,
                {
                    out.push(self.service_or_default(&list[i]));
                    i = i + 1;
                }
            },
            None => {},
        }
        out
    }

    fn buyer_or_default(&self, k: &AccountId) -> (r: BuyerProfile)
        requires
            self.wf(),
        ensures
            self.shows_buyer(r, k@),
    {
        match self.account_profile_buyer.find(k) {
            Some(i) => {
                proof {
                    self.account_profile_buyer.lemma_index(i as int);
                }
                copy_buyer_profile(&self.account_profile_buyer.entries[i].1)
            },
            None => BuyerProfile::default(),
        }
    }

    /// `caller`'s profile, bookmarked stores, digital downloads and recent
    /// orders.
    pub fn view_my_buyer_account(&self, caller: AccountId) -> (r: ViewBuyerAccount)
        requires
            self.wf(),
        ensures
            self.shows_buyer(r.buyer, caller@),
            r.bookmarked_stores@.len() == accounts(self.account_store_bookmarks, caller@).len(),
            forall|j: int| 0 <= j < r.bookmarked_stores@.len() ==> self.shows_seller(
                #[trigger] r.bookmarked_stores@[j],
                accounts(self.account_store_bookmarks, caller@)[j]@,
            ),
            r.digital_downloads@.len() == ids(self.account_owned_digital_items, caller@).len(),
            forall|j: int| 0 <= j < r.digital_downloads@.len() ==> self.shows_download(
                #[trigger] r.digital_downloads@[j],
                ids(self.account_owned_digital_items, caller@)[j]@,
            ),
            self.shows_orders(r.orders@, ids(self.account_buyer_orders, caller@)),
    {
        ViewBuyerAccount {
            buyer: self.buyer_or_default(&caller),
            bookmarked_stores: self.sellers_listed(&self.account_store_bookmarks, &caller),
            digital_downloads: self.downloads_listed(&self.account_owned_digital_items, &caller),
            orders: self.orders_listed(&self.account_buyer_orders, &caller),
        }
    }

    /// A store as buyers see it: its owner's profile, products and services.
    pub fn go_to_store(&self, seller: AccountId) -> (r: ViewStore)
        requires
            self.wf(),
        ensures
            self.shows_seller(r.owner, seller@),
            r.products@.len() == ids(self.account_seller_products, seller@).len(),
            forall|j: int| 0 <= j < r.products@.len() ==> self.shows_public(
                #[trigger] r.products@[j],
                ids(self.account_seller_products, seller@)[j]@,
            ),
            r.services@.len() == ids(self.account_seller_services, seller@).len(),
            forall|j: int| 0 <= j < r.services@.len() ==> self.shows_service(
                #[trigger] r.services@[j],
                ids(self.account_seller_services, seller@)[j]@,
            ),
    {
        ViewStore {
            owner: self.seller_or_default(&seller),
            products: self.publics_listed(&self.account_seller_products, &seller),
            services: self.services_listed(&self.account_seller_services, &seller),
        }
    }

    /// `caller`'s store as its owner sees it, download links included.
    pub fn view_my_seller_profile(&self, caller: AccountId) -> (r: ViewSellerAccount)
        requires
            self.wf(),
        ensures
            self.shows_seller(r.owner, caller@),
            r.products@.len() == ids(self.account_seller_products, caller@).len(),
            forall|j: int| 0 <= j < r.products@.len() ==> self.shows_product_record(
                #[trigger] r.products@[j],
                ids(self.account_seller_products, caller@)[j]@,
            ),
            r.services@.len() == ids(self.account_seller_services, caller@).len(),
            forall|j: int| 0 <= j < r.services@.len() ==> self.shows_service(
                #[trigger] r.services@[j],
                ids(self.account_seller_services, caller@)[j]@,
            ),
    {
        ViewSellerAccount {
            owner: self.seller_or_default(&caller),
            products: self.products_listed(&self.account_seller_products, &caller),
            services: self.services_listed(&self.account_seller_services, &caller),
        }
    }

    /// `d` summarises the order stored under `id` (zeros where there is none).
    pub open spec fn summarises(&self, d: OrderData, id: Seq<u8>) -> bool {
        if self.order_details@.contains_key(id) {
            let o = self.order_details@[id];
            d == OrderData {
                timestamp: o.order_timestamp,
                total: o.total_order_price,
                status: o.order_status,
                problem: o.problem,
                resolution: o.resolution,
            }
        } else {
            d == OrderData { timestamp: 0, total: 0, status: 0, problem: 0, resolution: 0 }
        }
    }

    /// Counts of sellers, buyers, listings and orders, with a summary of
    /// each of the most recent orders.
    pub fn get_market_statistics(&self, caller: AccountId, now: u64) -> (r: MarketStatistics)
        requires
            self.wf(),
        ensures
            r.called_by == caller,
            r.timestamp == now,
            r.number_of_sellers == self.all_sellers@.len(),
            r.number_of_buyers == self.total_count_buyers,
            r.number_of_products == self.total_count_products,
            r.number_of_services == self.total_count_services,
            r.number_of_orders == self.total_count_orders,
            r.orders@.len() == self.all_orders@.len(),
            forall|j: int| 0 <= j < r.orders@.len() ==> self.summarises(#[trigger] r.orders@[j], self.all_orders@[j]@),
    {
        let mut out: Vec<OrderData> = Vec::new();
        let mut i: usize = 0;
        while i < self.all_orders.len()
            invariant
                self.wf(),
                0 <= i <= self.all_orders@.len(),
                out@.len() == i,
                forall|j: int| 0 <= j < i ==> self.summarises(#[trigger] out@[j], self.all_orders@[j]@),
            decreases self.all_orders@.len() - i,
        {
            let d = match self.order_details.find(&self.all_orders[i]) {
                Some(e) => {
                    proof {
                        self.order_details.lemma_index(e as int);
                    }
                    let o = &self.order_details.entries[e].1;
                    OrderData {
                        timestamp: o.order_timestamp,
                        total: o.total_order_price,
                        status: o.order_status,
                        problem: o.problem,
                        resolution: o.resolution,
                    }
                },
                None => OrderData { timestamp: 0, total: 0, status: 0, problem: 0, resolution: 0 },
            };
            out.push(d);
            i = i + 1;
        }
        MarketStatistics {
            called_by: caller,
            timestamp: now,
            number_of_sellers: self.all_sellers.len() as u128,
            number_of_buyers: self.total_count_buyers,
            number_of_products: self.total_count_products,
            number_of_services: self.total_count_services,
            number_of_orders: self.total_count_orders,
            orders: out,
        }
    }

    /// The lines of `lines` for listed products, in order.
    pub open spec fn product_lines(&self, lines: Seq<(Digest, u128)>) -> Seq<(Digest, u128)>
        decreases lines.len(),
    {
        if lines.len() == 0 {
            lines
        } else if self.is_product(lines.last().0@) {
            self.product_lines(lines.drop_last()).push(lines.last())
        } else {
            self.product_lines(lines.drop_last())
        }
    }

    /// The lines of `lines` for listed services, in order.
    pub open spec fn service_lines(&self, lines: Seq<(Digest, u128)>) -> Seq<(Digest, u128)>
        decreases lines.len(),
    {
        if lines.len() == 0 {
            lines
        } else if self.is_service(lines.last().0@) {
            self.service_lines(lines.drop_last()).push(lines.last())
        } else {
            self.service_lines(lines.drop_last())
        }
    }

    /// `u` shows a product line of a cart with the live catalog details.
    pub open spec fn shows_cart_product(&self, u: UnpaidCartProduct, line: (Digest, u128)) -> bool {
        let p = self.product_details@[line.0@];
        &&& u.product_id == line.0
        &&& u.quantity == line.1
        &&& u.digital == p.digital
        &&& u.title@ == p.title@
        &&& u.price == p.price
        &&& u.brand@ == p.brand@
        &&& u.seller_account == p.seller_account
        &&& u.seller_name@ == p.seller_name@
        &&& u.photo_or_youtube_link1@ == p.photo_or_youtube_link1@
        &&& u.inventory == p.inventory
        &&& u.delivery_info@ == p.delivery_info@
        &&& u.product_location@ == p.product_location@
        &&& u.zeno_percent == p.zeno_percent
        &&& u.zeno_buyers == p.zeno_buyers@.len()
    }

    /// `u` shows a service line of a cart with the live catalog details.
    pub open spec fn shows_cart_service(&self, u: UnpaidCartService, line: (Digest, u128)) -> bool {
        let v = self.service_details@[line.0@];
        &&& u.service_id == line.0
        &&& u.quantity == line.1
        &&& u.online == v.online
        &&& u.title@ == v.title@
        &&& u.price == v.price
        &&& u.seller_account == v.seller_account
        &&& u.seller_name@ == v.seller_name@
        &&& u.photo_or_youtube_link1@ == v.photo_or_youtube_link1@
        &&& u.inventory == v.inventory
        &&& u.booking_link@ == v.booking_link@
        &&& u.service_location@ == v.service_location@
        &&& u.zeno_percent == v.zeno_percent
        &&& u.zeno_buyers == v.zeno_buyers@.len()
    }

    /// `caller`'s cart with live prices, and what checking it out now would
    /// cost: the lines lacking inventory are left out of the total.
    pub fn view_my_cart(&self, caller: AccountId) -> (r: ViewUnpaidCart)
        requires
            self.wf(),
        ensures
            r.buyer == caller,
            r.cart_total == self.cart_total(self.cart_lines(caller@)),
            r.total_items == if self.account_current_cart@.contains_key(caller@) {
                self.account_current_cart@[caller@].total_items
            } else {
                0
            },
            r.cart_products@.len() == self.product_lines(self.cart_lines(caller@)).len(),
            forall|j: int| 0 <= j < r.cart_products@.len() ==> self.shows_cart_product(
                #[trigger] r.cart_products@[j],
                self.product_lines(self.cart_lines(caller@))[j],
            ),
            r.cart_services@.len() == self.service_lines(self.cart_lines(caller@)).len(),
            forall|j: int| 0 <= j < r.cart_services@.len() ==> self.shows_cart_service(
                #[trigger] r.cart_services@[j],
                self.service_lines(self.cart_lines(caller@))[j],
            ),
    {
        let mut products: Vec<UnpaidCartProduct> = Vec::new();
        let mut services: Vec<UnpaidCartService> = Vec::new();
        let e = match self.account_current_cart.find(&caller) {
            Some(e) => e,
            None => {
                let empty: Vec<(Digest, u128)> = Vec::new();
                let (_, total) = self.buyable_total(&empty);
                return ViewUnpaidCart {
                    buyer: caller,
                    cart_total: total,
                    total_items: 0,
                    cart_products: products,
                    cart_services: services,
                };
            },
        };
        proof {
            self.account_current_cart.lemma_index(e as int);
        }
        let cart = &self.account_current_cart.entries[e].1;
        let lines = &cart.cart_items;
        let mut i: usize = 0;
        while i < lines.len()
            invariant
                self.wf(),
                0 <= i <= lines@.len(),
                products@.len() == self.product_lines(lines@.take(i as int)).len(),
                forall|j: int| 0 <= j < products@.len() ==> self.shows_cart_product(
                    #[trigger] products@[j],
                    self.product_lines(lines@.take(i as int))[j],
                ),
                services@.len() == self.service_lines(lines@.take(i as int)).len(),
                forall|j: int| 0 <= j < services@.len() ==> self.shows_cart_service(
                    #[trigger] services@[j],
                    self.service_lines(lines@.take(i as int))[j],
                ),
            decreases lines@.len() - i,
        {
            let (id, qty) = lines[i];
            proof {
                assert(lines@.take(i + 1).drop_last() =~= lines@.take(i as int));
            }
            match self.product_details.find(&id) {
                Some(k) => {
                    proof {
                        self.product_details.lemma_index(k as int);
                    }
                    let p = &self.product_details.entries[k].1;
                    products.push(UnpaidCartProduct {
                        product_id: id,
                        quantity: qty,
                        digital: p.digital,
                        title: copy_bytes(&p.title),
                        price: p.price,
                        brand: copy_bytes(&p.brand),
                        seller_account: p.seller_account,
                        seller_name: copy_bytes(&p.seller_name),
                        photo_or_youtube_link1: copy_bytes(&p.photo_or_youtube_link1),
                        inventory: p.inventory,
                        delivery_info: copy_bytes(&p.delivery_info),
                        product_location: copy_bytes(&p.product_location),
                        zeno_percent: p.zeno_percent,
                        zeno_buyers: p.zeno_buyers.len() as u128,
                    });
                },
                None => match self.service_details.find(&id) {
                    Some(k) => {
                        proof {
                            self.service_details.lemma_index(k as int);
                        }
                        let v = &self.service_details.entries[k].1;
                        services.push(UnpaidCartService {
                            service_id: id,
                            quantity: qty,
                            online: v.online,
                            title: copy_bytes(&v.title),
                            price: v.price,
                            seller_account: v.seller_account,
                            seller_name: copy_bytes(&v.seller_name),
                            photo_or_youtube_link1: copy_bytes(&v.photo_or_youtube_link1),
                            inventory: v.inventory,
                            booking_link: copy_bytes(&v.booking_link),
                            service_location: copy_bytes(&v.service_location),
                            zeno_percent: v.zeno_percent,
                            zeno_buyers: v.zeno_buyers.len() as u128,
                        });
                    },
                    None => {},
                },
            }
            i = i + 1;
        }
        assert(lines@.take(lines@.len() as int) =~= lines@);
        let (_, total) = self.buyable_total(lines);
        ViewUnpaidCart {
            buyer: caller,
            cart_total: total,
            total_items: cart.total_items,
            cart_products: products,
            cart_services: services,
        }
    }
}

} // verus!
