use vstd::prelude::*;

use crate::copy::{copy_bytes, copy_keys};
use crate::digest::{cart_id, cart_id_of, order_id, order_id_of};
use crate::events::{DigitalDownload, Error, Event, OrderPlaced};
use crate::ids::{AccountId, Digest};
use crate::lifecycle::{AWAITING, DELIVERED};
use crate::lists::{push_bounded, push_evicting, seq_has, vec_has};
use crate::market::{
    ids, ids_len, put_ids, take_ids, ContractStorage, BUCKET_CAPACITY, product_ok,
    service_ok,
};
use crate::money::{
    line_total, line_total_of, referral_total, referral_total_of,
    saturating_add, sat, Payout, MAX_REFERRERS,
};
use crate::orders::{buyer_count, put_order, take_buyer, take_seller};
use crate::types::{BuyerProfile, Order, Product, Service};

verus! {

/// Longest delivery address, in bytes.
pub const ADDRESS_LIMIT: usize = 300;

/// Orders a buyer's order list keeps.
pub const BUYER_ORDERS_CAPACITY: usize = 25;

/// Items a buyer's owned and bought lists keep.
pub const BUYER_ITEMS_CAPACITY: usize = 400;

/// Orders the market-wide list keeps.
pub const ALL_ORDERS_CAPACITY: usize = 490;

/// The identifier whose bytes are `v`.
pub open spec fn digest_of(v: Seq<u8>) -> Digest {
    choose|d: Digest| d@ == v
}

/// Identifiers are their bytes.
pub proof fn lemma_digest_of(d: Digest)
    ensures
        digest_of(d@) == d,
{
    let e = digest_of(d@);
    assert(e@ == d@);
    assert(e.bytes =~= d.bytes);
}

/// `s` with `x` added where it is not there yet (dropping the oldest entry
/// once `s` holds `cap`).
pub open spec fn add_absent(s: Seq<Digest>, x: Digest, cap: nat) -> Seq<Digest> {
    if seq_has(s, x@) {
        s
    } else {
        push_bounded(s, x, cap)
    }
}

/// An added identifier is there afterwards.
pub proof fn lemma_add_absent_has(s: Seq<Digest>, x: Digest, cap: nat)
    ensures
        seq_has(add_absent(s, x, cap), x@),
{
    if !seq_has(s, x@) {
        let t = push_bounded(s, x, cap);
        assert(t[t.len() - 1] == x);
    }
}

/// The identifier of the order for `line` bought by `buyer` at `now`.
pub open spec fn new_order_id(buyer: AccountId, now: u64, line: (Digest, u128)) -> Digest {
    digest_of(order_id_of(buyer@, now, line.0@))
}

/// `buyer`'s order list after orders for `lines` were appended.
pub open spec fn orders_after(base: Seq<Digest>, buyer: AccountId, now: u64, lines: Seq<(Digest, u128)>) -> Seq<Digest>
    decreases lines.len(),
{
    if lines.len() == 0 {
        base
    } else {
        push_bounded(orders_after(base, buyer, now, lines.drop_last()), new_order_id(buyer, now, lines.last()),
            BUYER_ORDERS_CAPACITY as nat)
    }
}

/// The items a buyer has bought, after buying `lines`.
pub open spec fn bought_after(base: Seq<Digest>, lines: Seq<(Digest, u128)>) -> Seq<Digest>
    decreases lines.len(),
{
    if lines.len() == 0 {
        base
    } else {
        add_absent(bought_after(base, lines.drop_last()), lines.last().0, BUYER_ITEMS_CAPACITY as nat)
    }
}

/// When `k` first bought; 0 where it has no profile or has not yet.
pub open spec fn buyer_since(m: Map<Seq<u8>, BuyerProfile>, k: Seq<u8>) -> u64 {
    if m.contains_key(k) {
        m[k].member_since
    } else {
        0
    }
}

impl ContractStorage {
    pub open spec fn is_product(&self, id: Seq<u8>) -> bool {
        self.product_details@.contains_key(id)
    }

    pub open spec fn is_service(&self, id: Seq<u8>) -> bool {
        !self.product_details@.contains_key(id) && self.service_details@.contains_key(id)
    }

    pub open spec fn item_seller(&self, id: Seq<u8>) -> AccountId {
        if self.is_product(id) {
            self.product_details@[id].seller_account
        } else {
            self.service_details@[id].seller_account
        }
    }

    pub open spec fn item_percent(&self, id: Seq<u8>) -> u128 {
        if self.is_product(id) {
            self.product_details@[id].zeno_percent
        } else {
            self.service_details@[id].zeno_percent
        }
    }

    /// The item's early buyers, who share in its referral portion.
    pub open spec fn item_referrers(&self, id: Seq<u8>) -> Seq<AccountId> {
        if self.is_product(id) {
            self.product_details@[id].zeno_buyers@
        } else {
            self.service_details@[id].zeno_buyers@
        }
    }

    /// Fulfilled at once: a digital product or a service.
    pub open spec fn item_instant(&self, id: Seq<u8>) -> bool {
        (self.is_product(id) && self.product_details@[id].digital) || self.is_service(id)
    }

    pub open spec fn item_physical(&self, id: Seq<u8>) -> bool {
        self.is_product(id) && !self.product_details@[id].digital
    }

    /// Both ledgers hold the same record for item `id`.
    pub open spec fn same_item(&self, other: ContractStorage, id: Seq<u8>) -> bool {
        &&& self.product_details@.contains_key(id) == other.product_details@.contains_key(id)
        &&& self.service_details@.contains_key(id) == other.service_details@.contains_key(id)
        &&& self.product_details@.contains_key(id) ==> self.product_details@[id]
            == other.product_details@[id]
        &&& self.service_details@.contains_key(id) ==> self.service_details@[id]
            == other.service_details@[id]
    }

    /// Transfers that buying `line` makes at once: a line fulfilled at once
    /// pays its whole total to the seller; a physical line pays out, with
    /// its referral fan-out, when shipped.
    pub open spec fn line_payouts(&self, line: (Digest, u128)) -> Seq<Payout> {
        let id = line.0@;
        if self.item_instant(id) {
            seq![Payout { to: self.item_seller(id), amount: line_total_of(line.1, self.price_of(id)) }]
        } else {
            Seq::empty()
        }
    }

    /// The digital products a buyer owns, after buying `lines`.
    pub open spec fn owned_after(&self, base: Seq<Digest>, lines: Seq<(Digest, u128)>) -> Seq<Digest>
        decreases lines.len(),
    {
        if lines.len() == 0 {
            base
        } else {
            let prev = self.owned_after(base, lines.drop_last());
            let id = lines.last().0@;
            if self.is_product(id) && self.product_details@[id].digital {
                add_absent(prev, lines.last().0, BUYER_ITEMS_CAPACITY as nat)
            } else {
                prev
            }
        }
    }

    /// `seller`'s awaiting bucket after the orders for `lines`: each physical
    /// line of that seller appended, none dropped.
    pub open spec fn awaiting_after(&self, base: Seq<Digest>, buyer: AccountId, now: u64, lines: Seq<(Digest, u128)>, seller: Seq<u8>) -> Seq<Digest>
        decreases lines.len(),
    {
        if lines.len() == 0 {
            base
        } else {
            let prev = self.awaiting_after(base, buyer, now, lines.drop_last(), seller);
            let id = lines.last().0@;
            if self.item_physical(id) && self.item_seller(id)@ == seller {
                prev.push(new_order_id(buyer, now, lines.last()))
            } else {
                prev
            }
        }
    }

    /// `seller`'s delivered bucket after the orders for `lines`: each line
    /// of that seller fulfilled at once appended, the oldest dropped past
    /// `BUCKET_CAPACITY`.
    pub open spec fn delivered_after(&self, base: Seq<Digest>, buyer: AccountId, now: u64, lines: Seq<(Digest, u128)>, seller: Seq<u8>) -> Seq<Digest>
        decreases lines.len(),
    {
        if lines.len() == 0 {
            base
        } else {
            let prev = self.delivered_after(base, buyer, now, lines.drop_last(), seller);
            let id = lines.last().0@;
            if self.item_instant(id) && self.item_seller(id)@ == seller {
                push_bounded(prev, new_order_id(buyer, now, lines.last()), BUCKET_CAPACITY as nat)
            } else {
                prev
            }
        }
    }

    /// Transfers of checking out `lines`, in order.
    pub open spec fn checkout_payouts(&self, lines: Seq<(Digest, u128)>) -> Seq<Payout>
        decreases lines.len(),
    {
        if lines.len() == 0 {
            Seq::empty()
        } else {
            self.checkout_payouts(lines.drop_last()) + self.line_payouts(lines.last())
        }
    }

    /// `o` is the order that buying `line` from this ledger creates.
    pub open spec fn placed_order(
        &self,
        o: Order,
        buyer: AccountId,
        now: u64,
        address: Seq<u8>,
        line: (Digest, u128),
    ) -> bool {
        let id = line.0@;
        let total = line_total_of(line.1, self.price_of(id));
        &&& o.order_id@ == order_id_of(buyer@, now, id)
        &&& o.cart_id@ == cart_id_of(buyer@, now)
        &&& o.order_timestamp == now
        &&& o.buyer == buyer
        &&& o.deliver_to_account == buyer
        &&& o.seller == self.item_seller(id)
        &&& o.item_id == line.0
        &&& o.quantity == line.1
        &&& o.price_each == self.price_of(id)
        &&& o.total_order_price == total
        &&& o.zeno_total == referral_total_of(total, self.item_percent(id))
        &&& o.zeno_referrers@ == self.item_referrers(id)
        &&& o.deliver_to_address@ == address
        &&& o.tracking_info@.len() == 0
        &&& o.discussion@.len() == 0
        &&& o.problem == 0
        &&& o.resolution == 0
        &&& o.order_status == if self.item_instant(id) {
            DELIVERED
        } else {
            AWAITING
        }
        &&& o.time_delivered == if self.item_instant(id) {
            now
        } else {
            0
        }
    }

    /// `b`'s early-buyer list after `b` bought from `a`.
    pub open spec fn referrers_after(a: Seq<AccountId>, b: AccountId) -> Seq<AccountId> {
        if a.len() < MAX_REFERRERS {
            a.push(b)
        } else {
            a
        }
    }

    /// `p1` is `p0` after a sale of `qty` to `buyer`: inventory down by
    /// `qty`, and `buyer` among the early buyers while there is room.
    pub open spec fn product_sold(p0: Product, p1: Product, qty: u128, buyer: AccountId) -> bool {
        &&& p1 == Product { inventory: p1.inventory, zeno_buyers: p1.zeno_buyers, ..p0 }
        &&& p1.inventory == p0.inventory - qty
        &&& p1.zeno_buyers@ == Self::referrers_after(p0.zeno_buyers@, buyer)
    }

    pub open spec fn service_sold(s0: Service, s1: Service, qty: u128, buyer: AccountId) -> bool {
        &&& s1 == Service { inventory: s1.inventory, zeno_buyers: s1.zeno_buyers, ..s0 }
        &&& s1.inventory == s0.inventory - qty
        &&& s1.zeno_buyers@ == Self::referrers_after(s0.zeno_buyers@, buyer)
    }

    /// Buys one line: updates the item, creates its order, pays out what is
    /// fulfilled at once, and updates the indices and profiles.
    fn purchase_line(
        &mut self,
        buyer: AccountId,
        now: u64,
        cart: Digest,
        address: &Vec<u8>,
        line: (Digest, u128),
        oid: Digest,
    ) -> (r: Vec<Payout>)
        requires
            old(self).wf(),
            old(self).buyable(line),
            !old(self).order_details@.contains_key(oid@),
            oid@ == order_id_of(buyer@, now, line.0@),
            cart@ == cart_id_of(buyer@, now),
        ensures
            final(self).wf(),
            r@ == old(self).line_payouts(line),
            final(self).order_details@.contains_key(oid@),
            old(self).placed_order(final(self).order_details@[oid@], buyer, now, address@, line),
            final(self).order_details@ == old(self).order_details@.insert(
                oid@,
                final(self).order_details@[oid@],
            ),
            old(self).is_product(line.0@) ==> final(self).product_details@.contains_key(line.0@)
                && Self::product_sold(
                old(self).product_details@[line.0@],
                final(self).product_details@[line.0@],
                line.1,
                buyer,
            ) && final(self).product_details@ == old(self).product_details@.insert(
                line.0@,
                final(self).product_details@[line.0@],
            ) && final(self).service_details == old(self).service_details,
            old(self).is_service(line.0@) ==> final(self).service_details@.contains_key(line.0@)
                && Self::service_sold(
                old(self).service_details@[line.0@],
                final(self).service_details@[line.0@],
                line.1,
                buyer,
            ) && final(self).service_details@ == old(self).service_details@.insert(
                line.0@,
                final(self).service_details@[line.0@],
            ) && final(self).product_details == old(self).product_details,
            final(self).account_current_cart == old(self).account_current_cart,
            ids(final(self).account_buyer_orders, buyer@) == push_bounded(
                ids(old(self).account_buyer_orders, buyer@),
                oid,
                BUYER_ORDERS_CAPACITY as nat,
            ),
            seq_has(ids(final(self).account_buyer_items_bought, buyer@), line.0@),
            old(self).item_physical(line.0@) ==> ids(
                final(self).account_seller_orders_0awaiting,
                old(self).item_seller(line.0@)@,
            ) == ids(old(self).account_seller_orders_0awaiting, old(self).item_seller(line.0@)@).push(
                oid,
            ),
            final(self).total_count_orders == sat(old(self).total_count_orders + 1),
            ids(final(self).account_owned_digital_items, buyer@) == if old(self).is_product(line.0@)
                && old(self).product_details@[line.0@].digital {
                add_absent(ids(old(self).account_owned_digital_items, buyer@), line.0, BUYER_ITEMS_CAPACITY as nat)
            } else {
                ids(old(self).account_owned_digital_items, buyer@)
            },
            ids(final(self).account_buyer_items_bought, buyer@) == add_absent(
                ids(old(self).account_buyer_items_bought, buyer@), line.0, BUYER_ITEMS_CAPACITY as nat),
            forall|s: Seq<u8>| #[trigger] ids(final(self).account_seller_orders_0awaiting, s) == if old(self).item_physical(line.0@)
                && old(self).item_seller(line.0@)@ == s {
                ids(old(self).account_seller_orders_0awaiting, s).push(oid)
            } else {
                ids(old(self).account_seller_orders_0awaiting, s)
            },
            forall|s: Seq<u8>| #[trigger] ids(final(self).account_seller_orders_2delivered, s) == if old(self).item_instant(line.0@)
                && old(self).item_seller(line.0@)@ == s {
                push_bounded(ids(old(self).account_seller_orders_2delivered, s), oid, BUCKET_CAPACITY as nat)
            } else {
                ids(old(self).account_seller_orders_2delivered, s)
            },
            final(self).account_profile_buyer@.contains_key(buyer@),
            buyer_count(final(self).account_profile_buyer@, buyer@, |p: BuyerProfile| p.total_orders)
                == sat(buyer_count(old(self).account_profile_buyer@, buyer@, |p: BuyerProfile| p.total_orders) + 1),
            buyer_count(final(self).account_profile_buyer@, buyer@, |p: BuyerProfile| p.total_carts)
                == buyer_count(old(self).account_profile_buyer@, buyer@, |p: BuyerProfile| p.total_carts),
            buyer_since(final(self).account_profile_buyer@, buyer@) == if buyer_since(old(self).account_profile_buyer@, buyer@) == 0 {
                now
            } else {
                buyer_since(old(self).account_profile_buyer@, buyer@)
            },
    {
        let item = line.0;
        let qty = line.1;
        // the item: its terms, and the sale recorded on it
        let seller: AccountId;
        let seller_name: Vec<u8>;
        let image: Vec<u8>;
        let name: Vec<u8>;
        let price: u128;
        let percent: u128;
        let digital: bool;
        let instant: bool;
        let referrers: Vec<AccountId>;
        if self.product_details.contains(&item) {
            let mut p = self.product_details.take(&item).unwrap();
            seller = p.seller_account;
            seller_name = copy_bytes(&p.seller_name);
            image = copy_bytes(&p.photo_or_youtube_link1);
            name = copy_bytes(&p.title);
            price = p.price;
            percent = p.zeno_percent;
            digital = p.digital;
            instant = p.digital;
            referrers = copy_keys(&p.zeno_buyers);
            if p.zeno_buyers.len() < MAX_REFERRERS {
                p.zeno_buyers.push(buyer);
            }
            p.inventory = p.inventory - qty;
            self.product_details.put(item, p);
        } else {
            let mut s = self.service_details.take(&item).unwrap();
            seller = s.seller_account;
            seller_name = copy_bytes(&s.seller_name);
            image = copy_bytes(&s.photo_or_youtube_link1);
            name = copy_bytes(&s.title);
            price = s.price;
            percent = s.zeno_percent;
            digital = false;
            instant = true;
            referrers = copy_keys(&s.zeno_buyers);
            if s.zeno_buyers.len() < MAX_REFERRERS {
                s.zeno_buyers.push(buyer);
            }
            s.inventory = s.inventory - qty;
            self.service_details.put(item, s);
        }
        let total = line_total(qty, price);
        let zeno = referral_total(total, percent);
        let (rating, rating_count) = match self.account_profile_buyer.find(&buyer) {
            Some(i) => {
                let p = &self.account_profile_buyer.entries[i].1;
                (p.review_average, p.review_count)
            },
            None => (0, 0),
        };
        let mut payouts: Vec<Payout> = Vec::new();
        if instant {
            payouts.push(Payout { to: seller, amount: total });
        }
        let order = Order {
            order_id: oid,
            cart_id: cart,
            order_timestamp: now,
            buyer,
            buyer_rating: rating,
            buyer_rating_count: rating_count,
            seller,
            seller_name,
            image,
            item_id: item,
            item_name: name,
            quantity: qty,
            price_each: price,
            total_order_price: total,
            deliver_to_address: copy_bytes(address),
            deliver_to_account: buyer,
            tracking_info: Vec::new(),
            order_status: if instant {
                DELIVERED
            } else {
                AWAITING
            },
            time_delivered: if instant {
                now
            } else {
                0
            },
            discussion: Vec::new(),
            problem: 0,
            resolution: 0,
            zeno_total: zeno,
            zeno_referrers: referrers,
        };
        put_order(&mut self.order_details, oid, order);
        push_evicting(&mut self.all_orders, oid, ALL_ORDERS_CAPACITY);
        self.total_count_orders = saturating_add(self.total_count_orders, 1);
        let mut mine = take_ids(&mut self.account_buyer_orders, &buyer);
        push_evicting(&mut mine, oid, BUYER_ORDERS_CAPACITY);
        put_ids(&mut self.account_buyer_orders, buyer, mine);
        let mut bought = take_ids(&mut self.account_buyer_items_bought, &buyer);
        if !vec_has(&bought, &item) {
            push_evicting(&mut bought, item, BUYER_ITEMS_CAPACITY);
            assert(bought@.last() == item);
        }
        put_ids(&mut self.account_buyer_items_bought, buyer, bought);
        if digital {
            let mut owned = take_ids(&mut self.account_owned_digital_items, &buyer);
            if !vec_has(&owned, &item) {
                push_evicting(&mut owned, item, BUYER_ITEMS_CAPACITY);
            }
            put_ids(&mut self.account_owned_digital_items, buyer, owned);
        }
        if instant {
            let mut done = take_ids(&mut self.account_seller_orders_2delivered, &seller);
            push_evicting(&mut done, oid, BUCKET_CAPACITY);
            put_ids(&mut self.account_seller_orders_2delivered, seller, done);
        } else {
            let mut waiting = take_ids(&mut self.account_seller_orders_0awaiting, &seller);
            waiting.push(oid);
            put_ids(&mut self.account_seller_orders_0awaiting, seller, waiting);
        }
        let awaiting_now = ids_len(&self.account_seller_orders_0awaiting, &seller);
        let mut sp = take_seller(&mut self.account_profile_seller, &seller);
        sp.total_orders = saturating_add(sp.total_orders, 1);
        if instant {
            sp.total_delivered = saturating_add(sp.total_delivered, 1);
        }
        sp.awaiting = awaiting_now as u128;
        self.account_profile_seller.put(seller, sp);
        let mut bp = take_buyer(&mut self.account_profile_buyer, &buyer);
        bp.total_orders = saturating_add(bp.total_orders, 1);
        if instant {
            bp.total_delivered = saturating_add(bp.total_delivered, 1);
        }
        if bp.member_since == 0 {
            bp.member_since = now;
            self.total_count_buyers = saturating_add(self.total_count_buyers, 1);
        }
        self.account_profile_buyer.put(buyer, bp);
        self.events.push(
            Event::OrderPlaced(
                OrderPlaced {
                    order_id: oid,
                    order_timestamp: now,
                    buyer,
                    seller,
                    total_order_price: total,
                },
            ),
        );
        if digital {
            self.events.push(
                Event::DigitalDownload(
                    DigitalDownload { buyer, product_id: item, order_timestamp: now },
                ),
            );
        }
        payouts
    }

    /// The lines of `buyer`'s cart; none where there is no cart.
    pub open spec fn cart_lines(&self, buyer: Seq<u8>) -> Seq<(Digest, u128)> {
        if self.account_current_cart@.contains_key(buyer) {
            self.account_current_cart@[buyer].cart_items@
        } else {
            Seq::empty()
        }
    }

    /// Some line of `lines` is for item `id`.
    pub open spec fn items_in(lines: Seq<(Digest, u128)>, id: Seq<u8>) -> bool {
        exists|j: int| 0 <= j < lines.len() && (#[trigger] lines[j]).0@ == id
    }

    /// The orders that checking out `lines` creates get identifiers that are
    /// new and pairwise distinct.
    pub open spec fn order_ids_fresh(&self, buyer: Seq<u8>, now: u64, lines: Seq<(Digest, u128)>) -> bool {
        &&& forall|k: int| 0 <= k < lines.len() ==> !self.order_details@.contains_key(
            order_id_of(buyer, now, (#[trigger] lines[k]).0@))
        &&& forall|j: int, k: int| 0 <= j < k < lines.len() ==> order_id_of(buyer, now, (#[trigger] lines[j]).0@)
            != order_id_of(buyer, now, (#[trigger] lines[k]).0@)
    }

    /// Number of physical lines of `lines` sold by `seller`.
    pub open spec fn physical_count(&self, lines: Seq<(Digest, u128)>, seller: Seq<u8>) -> nat
        decreases lines.len(),
    {
        if lines.len() == 0 {
            0
        } else {
            let id = lines.last().0@;
            self.physical_count(lines.drop_last(), seller) + if self.item_physical(id) && self.item_seller(id)@ == seller {
                1nat
            } else {
                0nat
            }
        }
    }

    /// Each seller's awaiting bucket has room for the physical lines of
    /// `lines` that the seller sells.
    pub open spec fn awaiting_fits(&self, lines: Seq<(Digest, u128)>) -> bool {
        forall|k: int| 0 <= k < lines.len() && self.item_physical((#[trigger] lines[k]).0@) ==>
            ids(self.account_seller_orders_0awaiting, self.item_seller(lines[k].0@)@).len()
                + self.physical_count(lines, self.item_seller(lines[k].0@)@) <= BUCKET_CAPACITY
    }

    proof fn lemma_buyable_lines(&self, c: Seq<(Digest, u128)>)
        ensures
            forall|j: int| 0 <= j < self.buyable_lines(c).len() ==> self.buyable(#[trigger] self.buyable_lines(c)[j]),
        decreases c.len(),
    {
        if c.len() > 0 {
            self.lemma_buyable_lines(c.drop_last());
            let b = self.buyable_lines(c.drop_last());
            if self.buyable(c.last()) {
                assert forall|j: int| 0 <= j < b.push(c.last()).len() implies self.buyable(#[trigger] b.push(c.last())[j]) by {
                    if j < b.len() {
                        assert(b.push(c.last())[j] == b[j]);
                    }
                }
            }
        }
    }

    /// The seller of `id` where it is a physical product.
    fn physical_seller(&self, id: &Digest) -> (r: Option<AccountId>)
        requires
            self.wf(),
        ensures
            r.is_some() == self.item_physical(id@),
            r.is_some() ==> r.unwrap() == self.item_seller(id@),
    {
        match self.product_details.find(id) {
            Some(i) => {
                proof {
                    self.product_details.lemma_index(i as int);
                }
                let p = &self.product_details.entries[i].1;
                if p.digital {
                    None
                } else {
                    Some(p.seller_account)
                }
            },
            None => None,
        }
    }

    fn count_physical(&self, lines: &Vec<(Digest, u128)>, seller: &AccountId) -> (r: usize)
        requires
            self.wf(),
        ensures
            r == self.physical_count(lines@, seller@),
    {
        let mut n: usize = 0;
        let mut i: usize = 0;
        while i < lines.len()
            invariant
                self.wf(),
                0 <= i <= lines@.len(),
                n == self.physical_count(lines@.take(i as int), seller@),
                n <= i,
            decreases lines@.len() - i,
        {
            proof {
                assert(lines@.take(i + 1).drop_last() =~= lines@.take(i as int));
            }
            match self.physical_seller(&lines[i].0) {
                Some(s) => {
                    if s == *seller {
                        n = n + 1;
                    }
                },
                None => {},
            }
            i = i + 1;
        }
        assert(lines@.take(lines@.len() as int) =~= lines@);
        n
    }

    /// Checks out `caller`'s cart: buys every line whose item is listed with
    /// enough inventory (the others are dropped), provided `tendered` covers
    /// their total. Creates one order per line bought, takes the quantities
    /// off inventory, pays out the lines fulfilled at once, and removes the
    /// cart. Returns the transfers to perform.
    pub fn checkout_cart(&mut self, caller: AccountId, now: u64, deliver_to_address: Vec<u8>, tendered: u128) -> (r: Result<Vec<Payout>, Error>)
        requires
            old(self).wf(),
        ensures
            final(self).wf(),
            ({
                let s0 = *old(self);
                let lines = s0.buyable_lines(s0.cart_lines(caller@));
                let big = deliver_to_address@.len() > ADDRESS_LIMIT;
                let short = tendered < s0.cart_total(s0.cart_lines(caller@));
                let fresh = s0.order_ids_fresh(caller@, now, lines);
                &&& big ==> r == Err::<Vec<Payout>, Error>(Error::DataTooLarge)
                &&& !big && short ==> r == Err::<Vec<Payout>, Error>(Error::InsufficientPayment)
                &&& !big && !short && !fresh ==> r == Err::<Vec<Payout>, Error>(Error::Duplicate)
                &&& !big && !short && fresh && !s0.awaiting_fits(lines) ==> r == Err::<Vec<Payout>, Error>(Error::StorageFull)
                &&& !big && !short && fresh && s0.awaiting_fits(lines) ==> r.is_ok()
                &&& r.is_err() ==> *final(self) == s0
                &&& r.is_ok() ==> {
                    let s1 = *final(self);
                    &&& !big && !short && fresh && s0.awaiting_fits(lines)
                    &&& r.unwrap()@ == s0.checkout_payouts(lines)
                    &&& !s1.account_current_cart@.contains_key(caller@)
                    &&& ids(s1.account_owned_digital_items, caller@) == s0.owned_after(ids(s0.account_owned_digital_items, caller@), lines)
                    &&& ids(s1.account_buyer_items_bought, caller@) == bought_after(ids(s0.account_buyer_items_bought, caller@), lines)
                    &&& ids(s1.account_buyer_orders, caller@) == orders_after(ids(s0.account_buyer_orders, caller@), caller, now, lines)
                    &&& forall|sl: Seq<u8>| #[trigger] ids(s1.account_seller_orders_0awaiting, sl) == s0.awaiting_after(
                        ids(s0.account_seller_orders_0awaiting, sl), caller, now, lines, sl)
                    &&& forall|sl: Seq<u8>| #[trigger] ids(s1.account_seller_orders_2delivered, sl) == s0.delivered_after(
                        ids(s0.account_seller_orders_2delivered, sl), caller, now, lines, sl)
                    &&& s1.account_profile_buyer@.contains_key(caller@)
                    &&& buyer_count(s1.account_profile_buyer@, caller@, |p: BuyerProfile| p.total_orders)
                        == sat(buyer_count(s0.account_profile_buyer@, caller@, |p: BuyerProfile| p.total_orders) + lines.len())
                    &&& buyer_count(s1.account_profile_buyer@, caller@, |p: BuyerProfile| p.total_carts)
                        == sat(buyer_count(s0.account_profile_buyer@, caller@, |p: BuyerProfile| p.total_carts) + 1)
                    &&& buyer_since(s1.account_profile_buyer@, caller@) == if lines.len() > 0 && buyer_since(s0.account_profile_buyer@, caller@) == 0 {
                        now
                    } else {
                        buyer_since(s0.account_profile_buyer@, caller@)
                    }
                    &&& forall|k: int| 0 <= k < lines.len() ==> {
                        let oid = order_id_of(caller@, now, (#[trigger] lines[k]).0@);
                        &&& s1.order_details@.contains_key(oid)
                        &&& s0.placed_order(s1.order_details@[oid], caller, now, deliver_to_address@, lines[k])
                        &&& s0.is_product(lines[k].0@) ==> s1.product_details@.contains_key(lines[k].0@)
                            && Self::product_sold(s0.product_details@[lines[k].0@], s1.product_details@[lines[k].0@], lines[k].1, caller)
                        &&& s0.is_service(lines[k].0@) ==> s1.service_details@.contains_key(lines[k].0@)
                            && Self::service_sold(s0.service_details@[lines[k].0@], s1.service_details@[lines[k].0@], lines[k].1, caller)
                    }
                    &&& forall|id: Seq<u8>| #[trigger] s1.order_details@.contains_key(id) <==> (s0.order_details@.contains_key(id)
                        || exists|k: int| 0 <= k < lines.len() && id == order_id_of(caller@, now, (#[trigger] lines[k]).0@))
                    &&& forall|id: Seq<u8>| #[trigger] s0.order_details@.contains_key(id) ==> s1.order_details@[id] == s0.order_details@[id]
                    &&& forall|id: Seq<u8>| !Self::items_in(lines, id) ==> #[trigger] s1.same_item(s0, id)
                    &&& forall|id: Seq<u8>| #[trigger] s1.product_details@.contains_key(id) == s0.product_details@.contains_key(id)
                    &&& forall|id: Seq<u8>| #[trigger] s1.service_details@.contains_key(id) == s0.service_details@.contains_key(id)
                }
            }),
    {
        if deliver_to_address.len() > ADDRESS_LIMIT {
            return Err(Error::DataTooLarge);
        }
        let ghost s0 = *self;
        let (buy, total) = match self.account_current_cart.find(&caller) {
            Some(i) => {
                proof {
                    self.account_current_cart.lemma_index(i as int);
                }
                self.buyable_total(&self.account_current_cart.entries[i].1.cart_items)
            },
            None => {
                let empty: Vec<(Digest, u128)> = Vec::new();
                self.buyable_total(&empty)
            },
        };
        assert(buy@ == s0.buyable_lines(s0.cart_lines(caller@)));
        assert(total == s0.cart_total(s0.cart_lines(caller@)));
        if tendered < total {
            return Err(Error::InsufficientPayment);
        }
        let ghost lines = buy@;
        proof {
            s0.lemma_buyable_lines(s0.cart_lines(caller@));
        }
        // identifiers of the new orders: new, and distinct
        let mut oids: Vec<Digest> = Vec::new();
        let mut k: usize = 0;
        while k < buy.len()
            invariant
                *self == s0,
                s0.wf(),
                buy@ == lines,
                s0 == *old(self),
                lines == s0.buyable_lines(s0.cart_lines(caller@)),
                !(tendered < s0.cart_total(s0.cart_lines(caller@))),
                deliver_to_address@.len() <= ADDRESS_LIMIT,
                0 <= k <= lines.len(),
                oids@.len() == k,
                forall|j: int| 0 <= j < k ==> (#[trigger] oids@[j])@ == order_id_of(caller@, now, lines[j].0@),
                s0.order_ids_fresh(caller@, now, lines.take(k as int)),
            decreases lines.len() - k,
        {
            let id = order_id(caller, now, buy[k].0);
            if self.order_details.contains(&id) || vec_has(&oids, &id) {
                proof {
                    assert(buy@[k as int] == lines[k as int]);
                    if s0.order_details@.contains_key(id@) {
                        assert(!s0.order_ids_fresh(caller@, now, lines));
                    } else {
                        let j = choose|j: int| 0 <= j < oids@.len() && (#[trigger] oids@[j])@ == id@;
                        assert(order_id_of(caller@, now, lines[j].0@) == order_id_of(caller@, now, lines[k as int].0@));
                        assert(!s0.order_ids_fresh(caller@, now, lines));
                    }
                }
                return Err(Error::Duplicate);
            }
            oids.push(id);
            proof {
                let t = lines.take(k + 1);
                assert forall|a: int| 0 <= a < t.len() implies !s0.order_details@.contains_key(
                    order_id_of(caller@, now, (#[trigger] t[a]).0@)) by {
                    if a < k {
                        assert(lines.take(k as int)[a] == t[a]);
                    }
                }
                assert forall|a: int, b: int| 0 <= a < b < t.len() implies order_id_of(caller@, now, (#[trigger] t[a]).0@)
                    != order_id_of(caller@, now, (#[trigger] t[b]).0@) by {
                    if b < k {
                        assert(lines.take(k as int)[a] == t[a]);
                        assert(lines.take(k as int)[b] == t[b]);
                    } else {
                        assert(oids@[a]@ == order_id_of(caller@, now, lines[a].0@));
                        assert(!seq_has(oids@.drop_last(), id@));
                        assert(oids@.drop_last()[a] == oids@[a]);
                    }
                }
            }
            k = k + 1;
        }
        assert(lines.take(lines.len() as int) =~= lines);
        // room in the sellers' awaiting buckets
        let mut k: usize = 0;
        while k < buy.len()
            invariant
                *self == s0,
                s0.wf(),
                buy@ == lines,
                s0 == *old(self),
                lines == s0.buyable_lines(s0.cart_lines(caller@)),
                !(tendered < s0.cart_total(s0.cart_lines(caller@))),
                deliver_to_address@.len() <= ADDRESS_LIMIT,
                0 <= k <= lines.len(),
                s0.order_ids_fresh(caller@, now, lines),
                forall|j: int| 0 <= j < k && s0.item_physical((#[trigger] lines[j]).0@) ==>
                    ids(s0.account_seller_orders_0awaiting, s0.item_seller(lines[j].0@)@).len()
                        + s0.physical_count(lines, s0.item_seller(lines[j].0@)@) <= BUCKET_CAPACITY,
            decreases lines.len() - k,
        {
            match self.physical_seller(&buy[k].0) {
                Some(seller) => {
                    let held = ids_len(&self.account_seller_orders_0awaiting, &seller);
                    let more = self.count_physical(&buy, &seller);
                    if held > BUCKET_CAPACITY || more > BUCKET_CAPACITY - held {
                        proof {
                            assert(buy@[k as int] == lines[k as int]);
                            assert(s0.item_physical(lines[k as int].0@));
                            assert(!s0.awaiting_fits(lines));
                        }
                        return Err(Error::StorageFull);
                    }
                },
                None => {},
            }
            k = k + 1;
        }
        let cart = cart_id(caller, now);
        let mut payouts: Vec<Payout> = Vec::new();
        let mut k: usize = 0;
        while k < buy.len()
            invariant
                self.wf(),
                s0.wf(),
                buy@ == lines,
                s0 == *old(self),
                lines == s0.buyable_lines(s0.cart_lines(caller@)),
                !(tendered < s0.cart_total(s0.cart_lines(caller@))),
                deliver_to_address@.len() <= ADDRESS_LIMIT,
                0 <= k <= lines.len(),
                cart@ == cart_id_of(caller@, now),
                oids@.len() == lines.len(),
                forall|j: int| 0 <= j < lines.len() ==> (#[trigger] oids@[j])@ == order_id_of(caller@, now, lines[j].0@),
                s0.order_ids_fresh(caller@, now, lines),
                s0.awaiting_fits(lines),
                forall|j: int| 0 <= j < lines.len() ==> s0.buyable(#[trigger] lines[j]),
                payouts@ == s0.checkout_payouts(lines.take(k as int)),
                ids(self.account_owned_digital_items, caller@) == s0.owned_after(ids(s0.account_owned_digital_items, caller@), lines.take(k as int)),
                ids(self.account_buyer_items_bought, caller@) == bought_after(ids(s0.account_buyer_items_bought, caller@), lines.take(k as int)),
                ids(self.account_buyer_orders, caller@) == orders_after(ids(s0.account_buyer_orders, caller@), caller, now, lines.take(k as int)),
                forall|sl: Seq<u8>| #[trigger] ids(self.account_seller_orders_0awaiting, sl) == s0.awaiting_after(
                    ids(s0.account_seller_orders_0awaiting, sl), caller, now, lines.take(k as int), sl),
                forall|sl: Seq<u8>| #[trigger] ids(self.account_seller_orders_2delivered, sl) == s0.delivered_after(
                    ids(s0.account_seller_orders_2delivered, sl), caller, now, lines.take(k as int), sl),
                k > 0 ==> self.account_profile_buyer@.contains_key(caller@),
                buyer_count(self.account_profile_buyer@, caller@, |p: BuyerProfile| p.total_orders)
                    == sat(buyer_count(s0.account_profile_buyer@, caller@, |p: BuyerProfile| p.total_orders) + k),
                buyer_count(self.account_profile_buyer@, caller@, |p: BuyerProfile| p.total_carts)
                    == buyer_count(s0.account_profile_buyer@, caller@, |p: BuyerProfile| p.total_carts),
                buyer_since(self.account_profile_buyer@, caller@) == if k > 0 && buyer_since(s0.account_profile_buyer@, caller@) == 0 {
                    now
                } else {
                    buyer_since(s0.account_profile_buyer@, caller@)
                },
                self.account_current_cart == s0.account_current_cart,
                forall|id: Seq<u8>| !Self::items_in(lines.take(k as int), id) ==> #[trigger] self.same_item(s0, id),
                forall|id: Seq<u8>| #[trigger] self.product_details@.contains_key(id) == s0.product_details@.contains_key(id),
                forall|id: Seq<u8>| #[trigger] self.service_details@.contains_key(id) == s0.service_details@.contains_key(id),
                forall|j: int| 0 <= j < k ==> {
                    let oid = order_id_of(caller@, now, (#[trigger] lines[j]).0@);
                    &&& self.order_details@.contains_key(oid)
                    &&& s0.placed_order(self.order_details@[oid], caller, now, deliver_to_address@, lines[j])
                    &&& s0.is_product(lines[j].0@) ==> self.product_details@.contains_key(lines[j].0@) && Self::product_sold(s0.product_details@[lines[j].0@], self.product_details@[lines[j].0@], lines[j].1, caller)
                    &&& s0.is_service(lines[j].0@) ==> self.service_details@.contains_key(lines[j].0@) && Self::service_sold(s0.service_details@[lines[j].0@], self.service_details@[lines[j].0@], lines[j].1, caller)
                },
                forall|id: Seq<u8>| #[trigger] self.order_details@.contains_key(id) <==> (s0.order_details@.contains_key(id)
                    || exists|j: int| 0 <= j < k && id == order_id_of(caller@, now, (#[trigger] lines[j]).0@)),
                forall|id: Seq<u8>| #[trigger] s0.order_details@.contains_key(id) ==> self.order_details@[id] == s0.order_details@[id],
            decreases lines.len() - k,
        {
            let line = buy[k];
            let ghost s_before = *self;
            proof {
                assert(!Self::items_in(lines.take(k as int), line.0@)) by {
                    if Self::items_in(lines.take(k as int), line.0@) {
                        let j = choose|j: int| 0 <= j < k && (#[trigger] lines.take(k as int)[j]).0@ == line.0@;
                        assert(lines.take(k as int)[j] == lines[j]);
                        assert(order_id_of(caller@, now, lines[j].0@) != order_id_of(caller@, now, lines[k as int].0@));
                    }
                }
                assert(self.same_item(s0, line.0@));
                assert(!self.order_details@.contains_key(oids@[k as int]@)) by {
                    if self.order_details@.contains_key(oids@[k as int]@) {
                        if !s0.order_details@.contains_key(oids@[k as int]@) {
                            let j = choose|j: int| 0 <= j < k && oids@[k as int]@ == order_id_of(caller@, now, (#[trigger] lines[j]).0@);
                        }
                    }
                }
            }
            let mut more = self.purchase_line(caller, now, cart, &deliver_to_address, line, oids[k]);
            payouts.append(&mut more);
            proof {
                assert(lines[k as int] == line);
                lemma_digest_of(oids@[k as int]);
                assert(lines.take(k + 1).last() == line);
                assert forall|sl: Seq<u8>| #[trigger] ids(self.account_seller_orders_0awaiting, sl) == s0.awaiting_after(
                    ids(s0.account_seller_orders_0awaiting, sl), caller, now, lines.take(k + 1), sl) by {
                    assert(lines.take(k + 1).drop_last() =~= lines.take(k as int));
                    assert(ids(s_before.account_seller_orders_0awaiting, sl) == s0.awaiting_after(
                        ids(s0.account_seller_orders_0awaiting, sl), caller, now, lines.take(k as int), sl));
                }
                assert forall|sl: Seq<u8>| #[trigger] ids(self.account_seller_orders_2delivered, sl) == s0.delivered_after(
                    ids(s0.account_seller_orders_2delivered, sl), caller, now, lines.take(k + 1), sl) by {
                    assert(lines.take(k + 1).drop_last() =~= lines.take(k as int));
                    assert(ids(s_before.account_seller_orders_2delivered, sl) == s0.delivered_after(
                        ids(s0.account_seller_orders_2delivered, sl), caller, now, lines.take(k as int), sl));
                }
                assert forall|id: Seq<u8>| !Self::items_in(lines.take(k + 1), id) implies #[trigger] self.same_item(s0, id) by {
                    if Self::items_in(lines.take(k as int), id) {
                        let j = choose|j: int| 0 <= j < lines.take(k as int).len() && (#[trigger] lines.take(k as int)[j]).0@ == id;
                        assert(lines.take(k + 1)[j] == lines.take(k as int)[j]);
                    }
                    assert(lines.take(k + 1)[k as int] == line);
                    assert(id != line.0@);
                    assert(s_before.same_item(s0, id));
                }
                assert(lines.take(k + 1).drop_last() =~= lines.take(k as int));
                assert(payouts@ == s0.checkout_payouts(lines.take(k + 1)));
            }
            k = k + 1;
        }
        assert(lines.take(lines.len() as int) =~= lines);
        let ghost s_end = *self;
        let _ = self.account_current_cart.take(&caller);
        let mut bp = take_buyer(&mut self.account_profile_buyer, &caller);
        bp.total_carts = saturating_add(bp.total_carts, 1);
        self.account_profile_buyer.put(caller, bp);
        proof {
            let s1 = *self;
            assert forall|id: Seq<u8>| !Self::items_in(lines, id) implies #[trigger] s1.same_item(s0, id) by {
                assert(lines.take(k as int) == lines);
                assert(s_end.same_item(s0, id));
            }
        }
        Ok(payouts)
    }
}

} // verus!
