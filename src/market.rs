use vstd::prelude::*;

use crate::events::{Error, Event};
use crate::ids::{AccountId, Digest};
use crate::lists::{seq_has, without, push_bounded, vec_has, remove_all, push_evicting};
use crate::money::{sat, line_total_of, saturating_add, saturating_mul, MAX_REFERRERS};
use crate::table::Table;
use crate::types::{AccountVector, BuyerProfile, HashVector, Order, Product, SellerProfile, Service, UnpaidCart};

verus! {

/// Lines a cart may hold.
pub const CART_CAPACITY: usize = 50;

/// Orders a seller's bucket keeps.
pub const BUCKET_CAPACITY: usize = 70;

/// The ledger: catalog, carts, orders, profiles and their indices.
#[derive(Clone, Debug)]
pub struct ContractStorage {
    pub all_sellers: Vec<AccountId>,
    pub total_count_buyers: u128,
    pub total_count_services: u128,
    pub total_count_products: u128,
    pub total_count_orders: u128,
    pub all_orders: Vec<Digest>,
    pub account_profile_seller: Table<AccountId, SellerProfile>,
    pub account_profile_buyer: Table<AccountId, BuyerProfile>,
    pub account_store_bookmarks: Table<AccountId, AccountVector>,
    pub account_buyer_orders: Table<AccountId, HashVector>,
    pub account_buyer_items_bought: Table<AccountId, HashVector>,
    pub account_buyer_items_reviewed: Table<AccountId, HashVector>,
    pub account_seller_buyers_reviewed: Table<AccountId, AccountVector>,
    pub account_owned_digital_items: Table<AccountId, HashVector>,
    pub account_seller_orders_0awaiting: Table<AccountId, HashVector>,
    pub account_seller_orders_1shipped: Table<AccountId, HashVector>,
    pub account_seller_orders_2delivered: Table<AccountId, HashVector>,
    pub account_seller_orders_3resolved: Table<AccountId, HashVector>,
    pub account_seller_orders_4problem: Table<AccountId, HashVector>,
    pub account_seller_orders_5refused: Table<AccountId, HashVector>,
    pub account_current_cart: Table<AccountId, UnpaidCart>,
    pub account_seller_products: Table<AccountId, HashVector>,
    pub account_seller_services: Table<AccountId, HashVector>,
    pub product_details: Table<Digest, Product>,
    pub service_details: Table<Digest, Service>,
    pub order_details: Table<Digest, Order>,
    pub events: Vec<Event>,
}

/// The identifiers that `t` lists under `k`; none where it has no entry.
pub open spec fn ids(t: Table<AccountId, HashVector>, k: Seq<u8>) -> Seq<Digest> {
    if t@.contains_key(k) {
        t@[k].hashvector@
    } else {
        Seq::empty()
    }
}

/// The accounts that `t` lists under `k`; none where it has no entry.
pub open spec fn accounts(t: Table<AccountId, AccountVector>, k: Seq<u8>) -> Seq<AccountId> {
    if t@.contains_key(k) {
        t@[k].accountvector@
    } else {
        Seq::empty()
    }
}

pub open spec fn product_ok(p: Product) -> bool {
    p.zeno_percent <= 100 && p.zeno_buyers@.len() <= MAX_REFERRERS
}

pub open spec fn service_ok(s: Service) -> bool {
    s.zeno_percent <= 100 && s.zeno_buyers@.len() <= MAX_REFERRERS
}

/// An order's referral terms are within bounds, and an order that has not
/// reached a problem has neither a problem code nor a resolution.
pub open spec fn order_ok(o: Order) -> bool {
    &&& o.zeno_total <= o.total_order_price
    &&& o.zeno_referrers@.len() <= MAX_REFERRERS
    &&& o.order_status <= 2 ==> o.problem == 0 && o.resolution == 0
}

/// A cart holds at most `CART_CAPACITY` lines, one per item, each with a
/// positive quantity.
pub open spec fn cart_ok(lines: Seq<(Digest, u128)>) -> bool {
    &&& lines.len() <= CART_CAPACITY
    &&& forall|i: int, j: int|
        0 <= i < j < lines.len() ==> (#[trigger] lines[i]).0@ != (#[trigger] lines[j]).0@
    &&& forall|i: int| 0 <= i < lines.len() ==> (#[trigger] lines[i]).1 > 0
}

/// Takes the list under `k` out of `t`, empty where there was none.
pub(crate) fn take_ids(t: &mut Table<AccountId, HashVector>, k: &AccountId) -> (r: Vec<Digest>)
    requires
        old(t).wf(),
    ensures
        final(t).wf(),
        final(t)@ == old(t)@.remove(k@),
        r@ == ids(*old(t), k@),
{
    match t.take(k) {
        Some(v) => v.hashvector,
        None => Vec::new(),
    }
}

pub(crate) fn take_accounts(t: &mut Table<AccountId, AccountVector>, k: &AccountId) -> (r: Vec<AccountId>)
    requires
        old(t).wf(),
    ensures
        final(t).wf(),
        final(t)@ == old(t)@.remove(k@),
        r@ == accounts(*old(t), k@),
{
    match t.take(k) {
        Some(v) => v.accountvector,
        None => Vec::new(),
    }
}

pub(crate) fn ids_len(t: &Table<AccountId, HashVector>, k: &AccountId) -> (r: usize)
    requires
        t.wf(),
    ensures
        r == ids(*t, k@).len(),
{
    match t.find(k) {
        Some(i) => {
            proof {
                t.lemma_index(i as int);
            }
            t.entries[i].1.hashvector.len()
        },
        None => 0,
    }
}

pub(crate) fn accounts_len(t: &Table<AccountId, AccountVector>, k: &AccountId) -> (r: usize)
    requires
        t.wf(),
    ensures
        r == accounts(*t, k@).len(),
{
    match t.find(k) {
        Some(i) => {
            proof {
                t.lemma_index(i as int);
            }
            t.entries[i].1.accountvector.len()
        },
        None => 0,
    }
}

pub(crate) fn ids_has(t: &Table<AccountId, HashVector>, k: &AccountId, id: &Digest) -> (r: bool)
    requires
        t.wf(),
    ensures
        r == seq_has(ids(*t, k@), id@),
{
    match t.find(k) {
        Some(i) => {
            proof {
                t.lemma_index(i as int);
            }
            vec_has(&t.entries[i].1.hashvector, id)
        },
        None => false,
    }
}

pub(crate) fn accounts_has(t: &Table<AccountId, AccountVector>, k: &AccountId, a: &AccountId) -> (r: bool)
    requires
        t.wf(),
    ensures
        r == seq_has(accounts(*t, k@), a@),
{
    match t.find(k) {
        Some(i) => {
            proof {
                t.lemma_index(i as int);
            }
            vec_has(&t.entries[i].1.accountvector, a)
        },
        None => false,
    }
}

/// Replaces the list under `k`.
pub(crate) fn put_ids(t: &mut Table<AccountId, HashVector>, k: AccountId, v: Vec<Digest>)
    requires
        old(t).wf(),
    ensures
        final(t).wf(),
        final(t)@.contains_key(k@),
        ids(*final(t), k@) == v@,
        forall|j: Seq<u8>| j != k@ ==> ids(*final(t), j) == ids(*old(t), j),
{
    t.set(k, HashVector { hashvector: v });
}

pub(crate) fn put_accounts(t: &mut Table<AccountId, AccountVector>, k: AccountId, v: Vec<AccountId>)
    requires
        old(t).wf(),
    ensures
        final(t).wf(),
        final(t)@.contains_key(k@),
        accounts(*final(t), k@) == v@,
        forall|j: Seq<u8>| j != k@ ==> accounts(*final(t), j) == accounts(*old(t), j),
{
    t.set(k, AccountVector { accountvector: v });
}

/// Moves `id` from the list under `k` in `from` to the end of the list under
/// `k` in `to`, dropping the oldest entry of `to` once it holds `cap`.
pub(crate) fn move_id(
    from: &mut Table<AccountId, HashVector>,
    to: &mut Table<AccountId, HashVector>,
    k: AccountId,
    id: Digest,
    cap: usize,
)
    requires
        old(from).wf(),
        old(to).wf(),
    ensures
        final(from).wf(),
        final(to).wf(),
        ids(*final(from), k@) == without(ids(*old(from), k@), id@),
        ids(*final(to), k@) == push_bounded(ids(*old(to), k@), id, cap as nat),
        forall|j: Seq<u8>| j != k@ ==> ids(*final(from), j) == ids(*old(from), j),
        forall|j: Seq<u8>| j != k@ ==> ids(*final(to), j) == ids(*old(to), j),
{
    let mut a = take_ids(from, &k);
    remove_all(&mut a, &id);
    put_ids(from, k, a);
    let mut b = take_ids(to, &k);
    push_evicting(&mut b, id, cap);
    put_ids(to, k, b);
}

impl ContractStorage {
    pub open spec fn wf(&self) -> bool {
        &&& self.account_profile_seller.wf()
        &&& self.account_profile_buyer.wf()
        &&& self.account_store_bookmarks.wf()
        &&& self.account_buyer_orders.wf()
        &&& self.account_buyer_items_bought.wf()
        &&& self.account_buyer_items_reviewed.wf()
        &&& self.account_seller_buyers_reviewed.wf()
        &&& self.account_owned_digital_items.wf()
        &&& self.account_seller_orders_0awaiting.wf()
        &&& self.account_seller_orders_1shipped.wf()
        &&& self.account_seller_orders_2delivered.wf()
        &&& self.account_seller_orders_3resolved.wf()
        &&& self.account_seller_orders_4problem.wf()
        &&& self.account_seller_orders_5refused.wf()
        &&& self.account_current_cart.wf()
        &&& self.account_seller_products.wf()
        &&& self.account_seller_services.wf()
        &&& self.product_details.wf()
        &&& self.service_details.wf()
        &&& self.order_details.wf()
        &&& forall|k: Seq<u8>| #[trigger]
            self.product_details@.contains_key(k) ==> product_ok(self.product_details@[k])
        &&& forall|k: Seq<u8>| #[trigger]
            self.service_details@.contains_key(k) ==> service_ok(self.service_details@[k])
        &&& forall|k: Seq<u8>| #[trigger]
            self.order_details@.contains_key(k) ==> order_ok(self.order_details@[k])
        &&& forall|k: Seq<u8>| #[trigger]
            self.account_current_cart@.contains_key(k)
                ==> cart_ok(self.account_current_cart@[k].cart_items@)
        &&& forall|s: Seq<u8>, id: Seq<u8>| #[trigger]
            seq_has(ids(self.account_seller_products, s), id)
                ==> self.product_details@.contains_key(id)
                && self.product_details@[id].seller_account@ == s
        &&& forall|s: Seq<u8>, id: Seq<u8>| #[trigger]
            seq_has(ids(self.account_seller_services, s), id)
                ==> self.service_details@.contains_key(id)
                && self.service_details@[id].seller_account@ == s
    }

    /// An empty ledger.
    pub fn new() -> (r: ContractStorage)
        ensures
            r.wf(),
            r.product_details@.is_empty(),
            r.service_details@.is_empty(),
            r.order_details@.is_empty(),
            r.account_current_cart@.is_empty(),
            r.all_sellers@.len() == 0,
            r.all_orders@.len() == 0,
            r.events@.len() == 0,
            r.total_count_buyers == 0,
            r.total_count_products == 0,
            r.total_count_services == 0,
            r.total_count_orders == 0,
    {
        ContractStorage {
            all_sellers: Vec::new(),
            total_count_buyers: 0,
            total_count_services: 0,
            total_count_products: 0,
            total_count_orders: 0,
            all_orders: Vec::new(),
            account_profile_seller: Table::new(),
            account_profile_buyer: Table::new(),
            account_store_bookmarks: Table::new(),
            account_buyer_orders: Table::new(),
            account_buyer_items_bought: Table::new(),
            account_buyer_items_reviewed: Table::new(),
            account_seller_buyers_reviewed: Table::new(),
            account_owned_digital_items: Table::new(),
            account_seller_orders_0awaiting: Table::new(),
            account_seller_orders_1shipped: Table::new(),
            account_seller_orders_2delivered: Table::new(),
            account_seller_orders_3resolved: Table::new(),
            account_seller_orders_4problem: Table::new(),
            account_seller_orders_5refused: Table::new(),
            account_current_cart: Table::new(),
            account_seller_products: Table::new(),
            account_seller_services: Table::new(),
            product_details: Table::new(),
            service_details: Table::new(),
            order_details: Table::new(),
            events: Vec::new(),
        }
    }

    /// The current unit price of an item; 0 for an item that is not listed.
    pub open spec fn price_of(&self, id: Seq<u8>) -> u128 {
        if self.product_details@.contains_key(id) {
            self.product_details@[id].price
        } else if self.service_details@.contains_key(id) {
            self.service_details@[id].price
        } else {
            0
        }
    }

    /// The inventory of a listed item.
    pub open spec fn stock_of(&self, id: Seq<u8>) -> Option<u128> {
        if self.product_details@.contains_key(id) {
            Some(self.product_details@[id].inventory)
        } else if self.service_details@.contains_key(id) {
            Some(self.service_details@[id].inventory)
        } else {
            None
        }
    }

    /// A line can be bought now: its item is listed with enough inventory.
    pub open spec fn buyable(&self, line: (Digest, u128)) -> bool {
        match self.stock_of(line.0@) {
            Some(inv) => line.1 <= inv,
            None => false,
        }
    }

    /// The lines of `lines` that can be bought now, in order.
    pub open spec fn buyable_lines(&self, lines: Seq<(Digest, u128)>) -> Seq<(Digest, u128)>
        decreases lines.len(),
    {
        if lines.len() == 0 {
            lines
        } else if self.buyable(lines.last()) {
            self.buyable_lines(lines.drop_last()).push(lines.last())
        } else {
            self.buyable_lines(lines.drop_last())
        }
    }

    /// Sum of `price * qty` over `lines` at current prices, each product
    /// saturating.
    pub open spec fn lines_sum(&self, lines: Seq<(Digest, u128)>) -> int
        decreases lines.len(),
    {
        if lines.len() == 0 {
            0
        } else {
            self.lines_sum(lines.drop_last()) + line_total_of(
                lines.last().1,
                self.price_of(lines.last().0@),
            )
        }
    }

    /// What checking out `lines` now costs: the saturating sum over the
    /// lines that can be bought.
    pub open spec fn cart_total(&self, lines: Seq<(Digest, u128)>) -> u128 {
        sat(self.lines_sum(self.buyable_lines(lines)))
    }

    /// Totals depend on the catalog alone.
    pub proof fn lemma_lines_sum_catalog(&self, other: ContractStorage, lines: Seq<(Digest, u128)>)
        requires
            self.product_details == other.product_details,
            self.service_details == other.service_details,
        ensures
            self.lines_sum(lines) == other.lines_sum(lines),
            self.buyable_lines(lines) == other.buyable_lines(lines),
        decreases lines.len(),
    {
        if lines.len() > 0 {
            self.lemma_lines_sum_catalog(other, lines.drop_last());
        }
    }

    /// Current price and inventory of an item, if it is listed.
    pub fn lookup_item(&self, id: &Digest) -> (r: Option<(u128, u128)>)
        requires
            self.wf(),
        ensures
            r.is_some() == self.stock_of(id@).is_some(),
            r.is_some() ==> r.unwrap().0 == self.price_of(id@) && r.unwrap().1
                == self.stock_of(id@).unwrap(),
    {
        match self.product_details.find(id) {
            Some(i) => {
                proof {
                    self.product_details.lemma_index(i as int);
                }
                let p = &self.product_details.entries[i].1;
                Some((p.price, p.inventory))
            },
            None => match self.service_details.find(id) {
                Some(i) => {
                    proof {
                        self.service_details.lemma_index(i as int);
                    }
                    let s = &self.service_details.entries[i].1;
                    Some((s.price, s.inventory))
                },
                None => None,
            },
        }
    }

    /// The saturating sum of `price * qty` over all `lines`.
    pub fn lines_total(&self, lines: &Vec<(Digest, u128)>) -> (r: u128)
        requires
            self.wf(),
        ensures
            r == sat(self.lines_sum(lines@)),
    {
        let mut acc: u128 = 0;
        let mut i: usize = 0;
        while i < lines.len()
            invariant
                self.wf(),
                0 <= i <= lines@.len(),
                acc == sat(self.lines_sum(lines@.take(i as int))),
                self.lines_sum(lines@.take(i as int)) >= 0,
            decreases lines@.len() - i,
        {
            let (id, qty) = lines[i];
            let price: u128 = match self.lookup_item(&id) {
                Some(pi) => pi.0,
                None => 0,
            };
            proof {
                assert(lines@.take(i + 1).drop_last() =~= lines@.take(i as int));
            }
            acc = saturating_add(acc, saturating_mul(price, qty));
            proof {
                assert(price * qty == qty * price) by (nonlinear_arith);
            }
            i = i + 1;
        }
        assert(lines@.take(lines@.len() as int) =~= lines@);
        acc
    }

    /// The lines that can be bought now, and what they cost.
    pub fn buyable_total(&self, lines: &Vec<(Digest, u128)>) -> (r: (Vec<(Digest, u128)>, u128))
        requires
            self.wf(),
        ensures
            r.0@ == self.buyable_lines(lines@),
            r.1 == self.cart_total(lines@),
    {
        let mut out: Vec<(Digest, u128)> = Vec::new();
        let mut acc: u128 = 0;
        let mut i: usize = 0;
        while i < lines.len()
            invariant
                self.wf(),
                0 <= i <= lines@.len(),
                out@ == self.buyable_lines(lines@.take(i as int)),
                acc == sat(self.lines_sum(out@)),
                self.lines_sum(out@) >= 0,
            decreases lines@.len() - i,
        {
            let (id, qty) = lines[i];
            proof {
                assert(lines@.take(i + 1).drop_last() =~= lines@.take(i as int));
            }
            match self.lookup_item(&id) {
                Some(pi) => {
                    if qty <= pi.1 {
                        let ghost prev = out@;
                        out.push((id, qty));
                        proof {
                            assert(out@.drop_last() =~= prev);
                            assert(pi.0 * qty == qty * pi.0) by (nonlinear_arith);
                        }
                        acc = saturating_add(acc, saturating_mul(pi.0, qty));
                    }
                },
                None => {},
            }
            i = i + 1;
        }
        assert(lines@.take(lines@.len() as int) =~= lines@);
        (out, acc)
    }
}

} // verus!
