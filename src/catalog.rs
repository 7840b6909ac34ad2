use vstd::prelude::*;

use crate::copy::copy_bytes;
use crate::digest::{listing_id, listing_id_of};
use crate::events::{Error, Event, NewProduct, NewService, UpdatedProduct, UpdatedService};
use crate::ids::{AccountId, Digest};
use crate::lists::{lemma_without, seq_has, without, remove_all};
use crate::market::{ids, ids_has, put_ids, take_ids, ContractStorage, product_ok, service_ok};
use crate::money::{sat, saturating_add};
use crate::orders::take_seller;
use crate::types::{Product, SellerProfile, Service};

verus! {

/// Listings a seller may hold of each kind.
pub const LISTING_CAPACITY: usize = 50;

/// Longest title, in bytes.
pub const TITLE_LIMIT: usize = 200;

/// Longest brand, category, name or location label, in bytes.
pub const LABEL_LIMIT: usize = 100;

/// Longest description or download link, in bytes.
pub const DESCRIPTION_LIMIT: usize = 600;

/// Longest link or other short text, in bytes.
pub const LINK_LIMIT: usize = 200;

/// Highest referral percentage.
pub const MAX_PERCENT: u128 = 100;

/// When `k` became a seller; 0 where it has no profile or has not yet.
pub open spec fn seller_since(m: Map<Seq<u8>, SellerProfile>, k: Seq<u8>) -> u64 {
    if m.contains_key(k) {
        m[k].member_since
    } else {
        0
    }
}

/// The store name of `k`; empty where it has no profile.
pub open spec fn seller_name_of(m: Map<Seq<u8>, SellerProfile>, k: Seq<u8>) -> Seq<u8> {
    if m.contains_key(k) {
        m[k].seller_name@
    } else {
        Seq::empty()
    }
}

/// Listing an item records when `caller` became a seller, the first time,
/// and adds it to the list of sellers then.
pub open spec fn seller_joined(s0: ContractStorage, s1: ContractStorage, caller: AccountId, now: u64) -> bool {
    let since = seller_since(s0.account_profile_seller@, caller@);
    let p = s1.account_profile_seller@[caller@];
    &&& s1.account_profile_seller@ == s0.account_profile_seller@.insert(caller@, p)
    &&& p.member_since == if since == 0 {
        now
    } else {
        since
    }
    &&& s0.account_profile_seller@.contains_key(caller@) ==> p == SellerProfile {
        member_since: p.member_since,
        ..s0.account_profile_seller@[caller@]
    }
    &&& s1.all_sellers@ == if since == 0 {
        s0.all_sellers@.push(caller)
    } else {
        s0.all_sellers@
    }
}

impl ContractStorage {
    /// Adds a product listing owned by `caller`, identified by a digest of
    /// (caller, title, now).
    pub fn add_a_product(
        &mut self,
        caller: AccountId,
        now: u64,
        digital: bool,
        title: Vec<u8>,
        price: u128,
        brand: Vec<u8>,
        category: Vec<u8>,
        description: Vec<u8>,
        inventory: u128,
        photo_or_youtube_link1: Vec<u8>,
        photo_or_youtube_link2: Vec<u8>,
        photo_or_youtube_link3: Vec<u8>,
        more_info_link: Vec<u8>,
        delivery_info: Vec<u8>,
        product_location: Vec<u8>,
        digital_file_url: Vec<u8>,
        zeno_percent: u128,
    ) -> (r: Result<(), Error>)
        requires
            old(self).wf(),
        ensures
            final(self).wf(),
            ({
                let too_large = title@.len() > TITLE_LIMIT || brand@.len() > LABEL_LIMIT
                    || category@.len() > LABEL_LIMIT || description@.len() > DESCRIPTION_LIMIT
                    || photo_or_youtube_link1@.len() > LINK_LIMIT || photo_or_youtube_link2@.len()
                    > LINK_LIMIT || photo_or_youtube_link3@.len() > LINK_LIMIT
                    || more_info_link@.len() > LINK_LIMIT || delivery_info@.len() > LINK_LIMIT
                    || product_location@.len() > LINK_LIMIT || digital_file_url@.len()
                    > DESCRIPTION_LIMIT || zeno_percent > MAX_PERCENT;
                let full = ids(old(self).account_seller_products, caller@).len() >= LISTING_CAPACITY;
                let id = listing_id_of(caller@, title@, now);
                let taken = old(self).product_details@.contains_key(id)
                    || old(self).service_details@.contains_key(id);
                &&& too_large ==> r == Err::<(), Error>(Error::DataTooLarge)
                &&& !too_large && full ==> r == Err::<(), Error>(Error::StorageFull)
                &&& !too_large && !full && taken ==> r == Err::<(), Error>(Error::Duplicate)
                &&& !too_large && !full && !taken ==> r.is_ok()
                &&& r.is_err() ==> *final(self) == *old(self)
                &&& r.is_ok() ==> {
                    let p = final(self).product_details@[id];
                    &&& !too_large && !full && !taken
                    &&& final(self).product_details@ == old(self).product_details@.insert(id, p)
                    &&& p.product_id@ == id
                    &&& p.digital == digital
                    &&& p.title == title
                    &&& p.price == price
                    &&& p.brand == brand
                    &&& p.category == category
                    &&& p.seller_account == caller
                    &&& p.seller_name@ == seller_name_of(old(self).account_profile_seller@, caller@)
                    &&& seller_joined(*old(self), *final(self), caller, now)
                    &&& p.description == description
                    &&& p.review_average == 0
                    &&& p.review_count == 0
                    &&& p.inventory == inventory
                    &&& p.photo_or_youtube_link1 == photo_or_youtube_link1
                    &&& p.photo_or_youtube_link2 == photo_or_youtube_link2
                    &&& p.photo_or_youtube_link3 == photo_or_youtube_link3
                    &&& p.more_info_link == more_info_link
                    &&& p.delivery_info == delivery_info
                    &&& p.product_location == product_location
                    &&& p.digital_file_url == digital_file_url
                    &&& p.zeno_percent == zeno_percent
                    &&& p.zeno_buyers@.len() == 0
                    &&& ids(final(self).account_seller_products, caller@) == ids(
                        old(self).account_seller_products,
                        caller@,
                    ).push(p.product_id)
                    &&& final(self).total_count_products == sat(old(self).total_count_products + 1)
                    &&& final(self).service_details == old(self).service_details
                    &&& final(self).order_details == old(self).order_details
                }
            }),
    {
        if title.len() > TITLE_LIMIT || brand.len() > LABEL_LIMIT || category.len() > LABEL_LIMIT
            || description.len() > DESCRIPTION_LIMIT || photo_or_youtube_link1.len() > LINK_LIMIT
            || photo_or_youtube_link2.len() > LINK_LIMIT || photo_or_youtube_link3.len()
            > LINK_LIMIT || more_info_link.len() > LINK_LIMIT || delivery_info.len() > LINK_LIMIT
            || product_location.len() > LINK_LIMIT || digital_file_url.len() > DESCRIPTION_LIMIT
            || zeno_percent > MAX_PERCENT {
            return Err(Error::DataTooLarge);
        }
        if crate::market::ids_len(&self.account_seller_products, &caller) >= LISTING_CAPACITY {
            return Err(Error::StorageFull);
        }
        let id = listing_id(caller, &title, now);
        if self.product_details.contains(&id) || self.service_details.contains(&id) {
            return Err(Error::Duplicate);
        }
        let mut sp = take_seller(&mut self.account_profile_seller, &caller);
        let event = Event::NewProduct(NewProduct {
            product_id: id,
            digital,
            title: copy_bytes(&title),
            price,
            brand: copy_bytes(&brand),
            category: copy_bytes(&category),
            seller_account: caller,
            seller_name: copy_bytes(&sp.seller_name),
            description: copy_bytes(&description),
            inventory,
            photo_or_youtube_link1: copy_bytes(&photo_or_youtube_link1),
            photo_or_youtube_link2: copy_bytes(&photo_or_youtube_link2),
            photo_or_youtube_link3: copy_bytes(&photo_or_youtube_link3),
            more_info_link: copy_bytes(&more_info_link),
            delivery_info: copy_bytes(&delivery_info),
            product_location: copy_bytes(&product_location),
            zeno_percent,
        });
        let product = Product {
            product_id: id,
            digital,
            title,
            price,
            brand,
            category,
            seller_account: caller,
            seller_name: copy_bytes(&sp.seller_name),
            description,
            review_average: 0,
            review_count: 0,
            inventory,
            photo_or_youtube_link1,
            photo_or_youtube_link2,
            photo_or_youtube_link3,
            more_info_link,
            delivery_info,
            product_location,
            digital_file_url,
            zeno_percent,
            zeno_buyers: Vec::new(),
        };
        self.total_count_products = saturating_add(self.total_count_products, 1);
        let mut mine = take_ids(&mut self.account_seller_products, &caller);
        mine.push(id);
        put_ids(&mut self.account_seller_products, caller, mine);
        self.product_details.put(id, product);
        proof {
            assert forall|s2: Seq<u8>, x: Seq<u8>| #[trigger] seq_has(ids(self.account_seller_products, s2), x) implies self.product_details@.contains_key(x)
                && self.product_details@[x].seller_account@ == s2 by {
                if s2 == caller@ {
                    lemma_push_has(ids(old(self).account_seller_products, caller@), id, x);
                    if x != id@ {
                        assert(seq_has(ids(old(self).account_seller_products, caller@), x));
                        assert(old(self).product_details@.contains_key(x));
                    }
                } else {
                    assert(seq_has(ids(old(self).account_seller_products, s2), x));
                    assert(old(self).product_details@.contains_key(x));
                }
            }
        }
        if sp.member_since == 0 {
            sp.member_since = now;
            self.all_sellers.push(caller);
        }
        let ghost sp1 = sp;
        self.account_profile_seller.put(caller, sp);
        assert(self.account_profile_seller@ =~= old(self).account_profile_seller@.insert(caller@, sp1));
        self.events.push(event);
        Ok(())
    }

    /// Adds a service listing owned by `caller`, identified by a digest of
    /// (caller, title, now).
    pub fn add_a_service(
        &mut self,
        caller: AccountId,
        now: u64,
        online: bool,
        title: Vec<u8>,
        price: u128,
        category: Vec<u8>,
        description: Vec<u8>,
        inventory: u128,
        photo_or_youtube_link1: Vec<u8>,
        photo_or_youtube_link2: Vec<u8>,
        photo_or_youtube_link3: Vec<u8>,
        booking_link: Vec<u8>,
        service_location: Vec<u8>,
        zeno_percent: u128,
    ) -> (r: Result<(), Error>)
        requires
            old(self).wf(),
        ensures
            final(self).wf(),
            ({
                let too_large = title@.len() > TITLE_LIMIT || category@.len() > LABEL_LIMIT
                    || description@.len() > DESCRIPTION_LIMIT || photo_or_youtube_link1@.len()
                    > LINK_LIMIT || photo_or_youtube_link2@.len() > LINK_LIMIT
                    || photo_or_youtube_link3@.len() > LINK_LIMIT || booking_link@.len()
                    > LINK_LIMIT || service_location@.len() > LINK_LIMIT || zeno_percent
                    > MAX_PERCENT;
                let full = ids(old(self).account_seller_services, caller@).len() >= LISTING_CAPACITY;
                let id = listing_id_of(caller@, title@, now);
                let taken = old(self).product_details@.contains_key(id)
                    || old(self).service_details@.contains_key(id);
                &&& too_large ==> r == Err::<(), Error>(Error::DataTooLarge)
                &&& !too_large && full ==> r == Err::<(), Error>(Error::StorageFull)
                &&& !too_large && !full && taken ==> r == Err::<(), Error>(Error::Duplicate)
                &&& !too_large && !full && !taken ==> r.is_ok()
                &&& r.is_err() ==> *final(self) == *old(self)
                &&& r.is_ok() ==> {
                    let s = final(self).service_details@[id];
                    &&& !too_large && !full && !taken
                    &&& final(self).service_details@ == old(self).service_details@.insert(id, s)
                    &&& s.service_id@ == id
                    &&& s.online == online
                    &&& s.title == title
                    &&& s.price == price
                    &&& s.category == category
                    &&& s.seller_account == caller
                    &&& s.seller_name@ == seller_name_of(old(self).account_profile_seller@, caller@)
                    &&& seller_joined(*old(self), *final(self), caller, now)
                    &&& s.description == description
                    &&& s.review_average == 0
                    &&& s.review_count == 0
                    &&& s.inventory == inventory
                    &&& s.photo_or_youtube_link1 == photo_or_youtube_link1
                    &&& s.photo_or_youtube_link2 == photo_or_youtube_link2
                    &&& s.photo_or_youtube_link3 == photo_or_youtube_link3
                    &&& s.booking_link == booking_link
                    &&& s.service_location == service_location
                    &&& s.zeno_percent == zeno_percent
                    &&& s.zeno_buyers@.len() == 0
                    &&& ids(final(self).account_seller_services, caller@) == ids(
                        old(self).account_seller_services,
                        caller@,
                    ).push(s.service_id)
                    &&& final(self).total_count_services == sat(old(self).total_count_services + 1)
                    &&& final(self).product_details == old(self).product_details
                    &&& final(self).order_details == old(self).order_details
                }
            }),
    {
        if title.len() > TITLE_LIMIT || category.len() > LABEL_LIMIT || description.len()
            > DESCRIPTION_LIMIT || photo_or_youtube_link1.len() > LINK_LIMIT
            || photo_or_youtube_link2.len() > LINK_LIMIT || photo_or_youtube_link3.len()
            > LINK_LIMIT || booking_link.len() > LINK_LIMIT || service_location.len() > LINK_LIMIT
            || zeno_percent > MAX_PERCENT {
            return Err(Error::DataTooLarge);
        }
        if crate::market::ids_len(&self.account_seller_services, &caller) >= LISTING_CAPACITY {
            return Err(Error::StorageFull);
        }
        let id = listing_id(caller, &title, now);
        if self.product_details.contains(&id) || self.service_details.contains(&id) {
            return Err(Error::Duplicate);
        }
        let mut sp = take_seller(&mut self.account_profile_seller, &caller);
        let event = Event::NewService(NewService {
            service_id: id,
            online,
            title: copy_bytes(&title),
            price,
            category: copy_bytes(&category),
            seller_account: caller,
            seller_name: copy_bytes(&sp.seller_name),
            description: copy_bytes(&description),
            inventory,
            photo_or_youtube_link1: copy_bytes(&photo_or_youtube_link1),
            photo_or_youtube_link2: copy_bytes(&photo_or_youtube_link2),
            photo_or_youtube_link3: copy_bytes(&photo_or_youtube_link3),
            booking_link: copy_bytes(&booking_link),
            service_location: copy_bytes(&service_location),
            zeno_percent,
        });
        let service = Service {
            service_id: id,
            online,
            title,
            price,
            category,
            seller_account: caller,
            seller_name: copy_bytes(&sp.seller_name),
            description,
            review_average: 0,
            review_count: 0,
            inventory,
            photo_or_youtube_link1,
            photo_or_youtube_link2,
            photo_or_youtube_link3,
            booking_link,
            service_location,
            zeno_percent,
            zeno_buyers: Vec::new(),
        };
        self.total_count_services = saturating_add(self.total_count_services, 1);
        let mut mine = take_ids(&mut self.account_seller_services, &caller);
        mine.push(id);
        put_ids(&mut self.account_seller_services, caller, mine);
        self.service_details.put(id, service);
        proof {
            assert forall|s2: Seq<u8>, x: Seq<u8>| #[trigger] seq_has(ids(self.account_seller_services, s2), x) implies self.service_details@.contains_key(x)
                && self.service_details@[x].seller_account@ == s2 by {
                if s2 == caller@ {
                    lemma_push_has(ids(old(self).account_seller_services, caller@), id, x);
                    if x != id@ {
                        assert(seq_has(ids(old(self).account_seller_services, caller@), x));
                        assert(old(self).service_details@.contains_key(x));
                    }
                } else {
                    assert(seq_has(ids(old(self).account_seller_services, s2), x));
                    assert(old(self).service_details@.contains_key(x));
                }
            }
        }
        if sp.member_since == 0 {
            sp.member_since = now;
            self.all_sellers.push(caller);
        }
        let ghost sp1 = sp;
        self.account_profile_seller.put(caller, sp);
        assert(self.account_profile_seller@ =~= old(self).account_profile_seller@.insert(caller@, sp1));
        self.events.push(event);
        Ok(())
    }

    /// `caller` lists `id` among their products (which puts it in the
    /// catalog, as the ledger's invariant says).
    pub open spec fn owns_product(&self, caller: Seq<u8>, id: Seq<u8>) -> bool {
        seq_has(ids(self.account_seller_products, caller), id)
    }

    pub open spec fn owns_service(&self, caller: Seq<u8>, id: Seq<u8>) -> bool {
        seq_has(ids(self.account_seller_services, caller), id)
    }

    /// Updates the terms of one of `caller`'s products; its title, kind,
    /// ratings and referral terms stay.
    pub fn update_product_details(
        &mut self,
        caller: AccountId,
        product_id: Digest,
        price: u128,
        brand: Vec<u8>,
        category: Vec<u8>,
        description: Vec<u8>,
        inventory: u128,
        photo_or_youtube_link1: Vec<u8>,
        photo_or_youtube_link2: Vec<u8>,
        photo_or_youtube_link3: Vec<u8>,
        more_info_link: Vec<u8>,
        delivery_info: Vec<u8>,
        product_location: Vec<u8>,
        digital_file_url: Vec<u8>,
    ) -> (r: Result<(), Error>)
        requires
            old(self).wf(),
        ensures
            final(self).wf(),
            ({
                let too_large = brand@.len() > LABEL_LIMIT || category@.len() > LABEL_LIMIT
                    || description@.len() > DESCRIPTION_LIMIT || photo_or_youtube_link1@.len()
                    > LINK_LIMIT || photo_or_youtube_link2@.len() > LINK_LIMIT
                    || photo_or_youtube_link3@.len() > LINK_LIMIT || more_info_link@.len()
                    > LINK_LIMIT || delivery_info@.len() > LINK_LIMIT || product_location@.len()
                    > LINK_LIMIT || digital_file_url@.len() > DESCRIPTION_LIMIT;
                let mine = old(self).owns_product(caller@, product_id@);
                &&& too_large ==> r == Err::<(), Error>(Error::DataTooLarge)
                &&& !too_large && !mine ==> r == Err::<(), Error>(Error::NotYourProduct)
                &&& !too_large && mine ==> r.is_ok()
                &&& r.is_err() ==> *final(self) == *old(self)
                &&& r.is_ok() ==> !too_large && mine && final(self).product_details@
                    == old(self).product_details@.insert(
                    product_id@,
                    Product {
                        price,
                        brand,
                        category,
                        seller_account: caller,
                        description,
                        inventory,
                        photo_or_youtube_link1,
                        photo_or_youtube_link2,
                        photo_or_youtube_link3,
                        more_info_link,
                        delivery_info,
                        product_location,
                        digital_file_url,
                        ..old(self).product_details@[product_id@]
                    },
                ) && final(self).service_details == old(self).service_details
                    && final(self).order_details == old(self).order_details
            }),
    {
        if brand.len() > LABEL_LIMIT || category.len() > LABEL_LIMIT || description.len()
            > DESCRIPTION_LIMIT || photo_or_youtube_link1.len() > LINK_LIMIT
            || photo_or_youtube_link2.len() > LINK_LIMIT || photo_or_youtube_link3.len()
            > LINK_LIMIT || more_info_link.len() > LINK_LIMIT || delivery_info.len() > LINK_LIMIT
            || product_location.len() > LINK_LIMIT || digital_file_url.len() > DESCRIPTION_LIMIT {
            return Err(Error::DataTooLarge);
        }
        if !ids_has(&self.account_seller_products, &caller, &product_id) {
            return Err(Error::NotYourProduct);
        }
        let mut p = self.product_details.take(&product_id).unwrap();
        p.price = price;
        p.brand = brand;
        p.category = category;
        p.seller_account = caller;
        p.description = description;
        p.inventory = inventory;
        p.photo_or_youtube_link1 = photo_or_youtube_link1;
        p.photo_or_youtube_link2 = photo_or_youtube_link2;
        p.photo_or_youtube_link3 = photo_or_youtube_link3;
        p.more_info_link = more_info_link;
        p.delivery_info = delivery_info;
        p.product_location = product_location;
        p.digital_file_url = digital_file_url;
        let event = Event::UpdatedProduct(UpdatedProduct {
            product_id,
            digital: p.digital,
            title: copy_bytes(&p.title),
            price,
            brand: copy_bytes(&p.brand),
            category: copy_bytes(&p.category),
            seller_account: caller,
            seller_name: copy_bytes(&p.seller_name),
            description: copy_bytes(&p.description),
            inventory,
            photo_or_youtube_link1: copy_bytes(&p.photo_or_youtube_link1),
            photo_or_youtube_link2: copy_bytes(&p.photo_or_youtube_link2),
            photo_or_youtube_link3: copy_bytes(&p.photo_or_youtube_link3),
            more_info_link: copy_bytes(&p.more_info_link),
            delivery_info: copy_bytes(&p.delivery_info),
            product_location: copy_bytes(&p.product_location),
        });
        self.events.push(event);
        let ghost p1 = p;
        self.product_details.put(product_id, p);
        assert(self.product_details@ =~= old(self).product_details@.insert(product_id@, p1));
        Ok(())
    }

    /// Updates the terms of one of `caller`'s services; its title, kind,
    /// ratings and referral terms stay.
    pub fn update_service_details(
        &mut self,
        caller: AccountId,
        service_id: Digest,
        price: u128,
        category: Vec<u8>,
        description: Vec<u8>,
        inventory: u128,
        photo_or_youtube_link1: Vec<u8>,
        photo_or_youtube_link2: Vec<u8>,
        photo_or_youtube_link3: Vec<u8>,
        booking_link: Vec<u8>,
        service_location: Vec<u8>,
    ) -> (r: Result<(), Error>)
        requires
            old(self).wf(),
        ensures
            final(self).wf(),
            ({
                let too_large = category@.len() > LABEL_LIMIT || description@.len()
                    > DESCRIPTION_LIMIT || photo_or_youtube_link1@.len() > LINK_LIMIT
                    || photo_or_youtube_link2@.len() > LINK_LIMIT || photo_or_youtube_link3@.len()
                    > LINK_LIMIT || booking_link@.len() > LINK_LIMIT || service_location@.len()
                    > LINK_LIMIT;
                let mine = old(self).owns_service(caller@, service_id@);
                &&& too_large ==> r == Err::<(), Error>(Error::DataTooLarge)
                &&& !too_large && !mine ==> r == Err::<(), Error>(Error::NotYourProduct)
                &&& !too_large && mine ==> r.is_ok()
                &&& r.is_err() ==> *final(self) == *old(self)
                &&& r.is_ok() ==> !too_large && mine && final(self).service_details@
                    == old(self).service_details@.insert(
                    service_id@,
                    Service {
                        price,
                        category,
                        seller_account: caller,
                        description,
                        inventory,
                        photo_or_youtube_link1,
                        photo_or_youtube_link2,
                        photo_or_youtube_link3,
                        booking_link,
                        service_location,
                        ..old(self).service_details@[service_id@]
                    },
                ) && final(self).product_details == old(self).product_details
                    && final(self).order_details == old(self).order_details
            }),
    {
        if category.len() > LABEL_LIMIT || description.len() > DESCRIPTION_LIMIT
            || photo_or_youtube_link1.len() > LINK_LIMIT || photo_or_youtube_link2.len()
            > LINK_LIMIT || photo_or_youtube_link3.len() > LINK_LIMIT || booking_link.len()
            > LINK_LIMIT || service_location.len() > LINK_LIMIT {
            return Err(Error::DataTooLarge);
        }
        if !ids_has(&self.account_seller_services, &caller, &service_id) {
            return Err(Error::NotYourProduct);
        }
        let mut s = self.service_details.take(&service_id).unwrap();
        s.price = price;
        s.category = category;
        s.seller_account = caller;
        s.description = description;
        s.inventory = inventory;
        s.photo_or_youtube_link1 = photo_or_youtube_link1;
        s.photo_or_youtube_link2 = photo_or_youtube_link2;
        s.photo_or_youtube_link3 = photo_or_youtube_link3;
        s.booking_link = booking_link;
        s.service_location = service_location;
        let event = Event::UpdatedService(UpdatedService {
            service_id,
            online: s.online,
            title: copy_bytes(&s.title),
            price,
            category: copy_bytes(&s.category),
            seller_account: caller,
            seller_name: copy_bytes(&s.seller_name),
            description: copy_bytes(&s.description),
            inventory,
            photo_or_youtube_link1: copy_bytes(&s.photo_or_youtube_link1),
            photo_or_youtube_link2: copy_bytes(&s.photo_or_youtube_link2),
            photo_or_youtube_link3: copy_bytes(&s.photo_or_youtube_link3),
            booking_link: copy_bytes(&s.booking_link),
            service_location: copy_bytes(&s.service_location),
        });
        self.events.push(event);
        let ghost s1 = s;
        self.service_details.put(service_id, s);
        assert(self.service_details@ =~= old(self).service_details@.insert(service_id@, s1));
        Ok(())
    }

    /// Removes one of `caller`'s products from the catalog and their list.
    pub fn delete_a_product(&mut self, caller: AccountId, product_id_to_delete: Digest) -> (r: Result<(), Error>)
        requires
            old(self).wf(),
        ensures
            final(self).wf(),
            !seq_has(ids(old(self).account_seller_products, caller@), product_id_to_delete@) ==> r
                == Err::<(), Error>(Error::NotYourProduct) && *final(self) == *old(self),
            seq_has(ids(old(self).account_seller_products, caller@), product_id_to_delete@) ==> r.is_ok(),
            r.is_ok() ==> seq_has(ids(old(self).account_seller_products, caller@), product_id_to_delete@)
                && final(self).product_details@ == old(self).product_details@.remove(product_id_to_delete@)
                && ids(final(self).account_seller_products, caller@) == without(
                ids(old(self).account_seller_products, caller@), product_id_to_delete@)
                && final(self).total_count_products == (if old(self).total_count_products > 0 {
                    old(self).total_count_products - 1
                } else {
                    0
                }),
            r.is_err() ==> r == Err::<(), Error>(Error::NotYourProduct),
            r.is_err() ==> *final(self) == *old(self),
    {
        if !ids_has(&self.account_seller_products, &caller, &product_id_to_delete) {
            return Err(Error::NotYourProduct);
        }
        let mut mine = take_ids(&mut self.account_seller_products, &caller);
        remove_all(&mut mine, &product_id_to_delete);
        put_ids(&mut self.account_seller_products, caller, mine);
        let _ = self.product_details.take(&product_id_to_delete);
        proof {
            lemma_without(ids(old(self).account_seller_products, caller@), product_id_to_delete@);
            assert forall|s2: Seq<u8>, x: Seq<u8>| #[trigger] seq_has(ids(self.account_seller_products, s2), x) implies self.product_details@.contains_key(x)
                && self.product_details@[x].seller_account@ == s2 by {
                assert(seq_has(ids(old(self).account_seller_products, s2), x));
                if x == product_id_to_delete@ {
                    assert(seq_has(ids(old(self).account_seller_products, caller@), product_id_to_delete@));
                }
            }
        }
        self.total_count_products = self.total_count_products.saturating_sub(1);
        Ok(())
    }

    /// Removes one of `caller`'s services from the catalog and their list.
    pub fn delete_a_service(&mut self, caller: AccountId, service_id_to_delete: Digest) -> (r: Result<(), Error>)
        requires
            old(self).wf(),
        ensures
            final(self).wf(),
            !seq_has(ids(old(self).account_seller_services, caller@), service_id_to_delete@) ==> r
                == Err::<(), Error>(Error::NotYourProduct) && *final(self) == *old(self),
            seq_has(ids(old(self).account_seller_services, caller@), service_id_to_delete@) ==> r.is_ok(),
            r.is_ok() ==> seq_has(ids(old(self).account_seller_services, caller@), service_id_to_delete@)
                && final(self).service_details@ == old(self).service_details@.remove(service_id_to_delete@)
                && ids(final(self).account_seller_services, caller@) == without(
                ids(old(self).account_seller_services, caller@), service_id_to_delete@)
                && final(self).total_count_services == (if old(self).total_count_services > 0 {
                    old(self).total_count_services - 1
                } else {
                    0
                }),
            r.is_err() ==> r == Err::<(), Error>(Error::NotYourProduct),
            r.is_err() ==> *final(self) == *old(self),
    {
        if !ids_has(&self.account_seller_services, &caller, &service_id_to_delete) {
            return Err(Error::NotYourProduct);
        }
        let mut mine = take_ids(&mut self.account_seller_services, &caller);
        remove_all(&mut mine, &service_id_to_delete);
        put_ids(&mut self.account_seller_services, caller, mine);
        let _ = self.service_details.take(&service_id_to_delete);
        proof {
            lemma_without(ids(old(self).account_seller_services, caller@), service_id_to_delete@);
            assert forall|s2: Seq<u8>, x: Seq<u8>| #[trigger] seq_has(ids(self.account_seller_services, s2), x) implies self.service_details@.contains_key(x)
                && self.service_details@[x].seller_account@ == s2 by {
                assert(seq_has(ids(old(self).account_seller_services, s2), x));
                if x == service_id_to_delete@ {
                    assert(seq_has(ids(old(self).account_seller_services, caller@), service_id_to_delete@));
                }
            }
        }
        self.total_count_services = self.total_count_services.saturating_sub(1);
        Ok(())
    }
}

/// An element of a list with one more appended is that one or was there.
proof fn lemma_push_has(s: Seq<Digest>, d: Digest, x: Seq<u8>)
    ensures
        seq_has(s.push(d), x) ==> x == d@ || seq_has(s, x),
{
    if seq_has(s.push(d), x) && x != d@ {
        let i = choose|i: int| 0 <= i < s.push(d).len() && (#[trigger] s.push(d)[i])@ == x;
        assert(s[i] == s.push(d)[i]);
    }
}

} // verus!
