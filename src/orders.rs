use vstd::prelude::*;

use crate::digest::{message_id, message_id_of};
use crate::events::{
    Error, Event, OrderDelivered, OrderRefunded, OrderRefused, OrderReplaced,
    OrderResolutionDenied, OrderShipped, ProblemReported,
};
use crate::ids::{AccountId, Digest};
use crate::table::Table;
use crate::lifecycle::{
    advance, step, Action, Stage, AWAITING, DAMAGED, DELIVERED, DENIED, NOT_RECEIVED, PROBLEM,
    REFUNDED, REFUSED, REPLACED, RESOLVED, SHIPPED, UNRESOLVED, WRONG_ITEM, REPORT_WINDOW_MS,
};
use crate::lists::{push_bounded, without};
use crate::market::{ids, ids_len, move_id, order_ok, ContractStorage, BUCKET_CAPACITY};
use crate::money::{lemma_release_plan_sum, payout_sum, release_payouts, release_plan, sat, saturating_add, Payout};
use crate::types::{BuyerProfile, MessageDetails, Order, SellerProfile};

verus! {

/// Longest tracking text, message or link on an order, in bytes.
pub const ORDER_TEXT_LIMIT: usize = 200;

/// Entries an order's discussion keeps.
pub const DISCUSSION_CAPACITY: usize = 10;

pub open spec fn stage_of(o: Order) -> Stage {
    Stage { status: o.order_status, problem: o.problem, resolution: o.resolution }
}

/// `o` moved to stage `s`.
pub open spec fn with_stage(o: Order, s: Stage) -> Order {
    Order { order_status: s.status, problem: s.problem, resolution: s.resolution, ..o }
}

/// A counter of a profile, 0 where the account has none.
pub open spec fn buyer_count(
    m: Map<Seq<u8>, BuyerProfile>,
    k: Seq<u8>,
    f: spec_fn(BuyerProfile) -> u128,
) -> u128 {
    if m.contains_key(k) {
        f(m[k])
    } else {
        0
    }
}

pub open spec fn seller_count(
    m: Map<Seq<u8>, SellerProfile>,
    k: Seq<u8>,
    f: spec_fn(SellerProfile) -> u128,
) -> u128 {
    if m.contains_key(k) {
        f(m[k])
    } else {
        0
    }
}

/// The counter `f` of `k`'s profile went up by one (saturating); `k` has a
/// profile now.
/// `x - 1`, not below 0.
pub open spec fn dec(x: u128) -> u128 {
    if x == 0 {
        0
    } else {
        (x - 1) as u128
    }
}

pub open spec fn buyer_bumped(
    a: Map<Seq<u8>, BuyerProfile>,
    b: Map<Seq<u8>, BuyerProfile>,
    k: Seq<u8>,
    f: spec_fn(BuyerProfile) -> u128,
) -> bool {
    b.contains_key(k) && f(b[k]) == sat(buyer_count(a, k, f) + 1)
}

pub open spec fn seller_bumped(
    a: Map<Seq<u8>, SellerProfile>,
    b: Map<Seq<u8>, SellerProfile>,
    k: Seq<u8>,
    f: spec_fn(SellerProfile) -> u128,
) -> bool {
    b.contains_key(k) && f(b[k]) == sat(seller_count(a, k, f) + 1)
}


/// Takes `k`'s buyer profile out of `t`, a fresh one where there was none.
pub(crate) fn take_buyer(t: &mut Table<AccountId, BuyerProfile>, k: &AccountId) -> (r: BuyerProfile)
    requires
        old(t).wf(),
    ensures
        final(t).wf(),
        final(t)@ == old(t)@.remove(k@),
        old(t)@.contains_key(k@) ==> r == old(t)@[k@],
        !old(t)@.contains_key(k@) ==> r.total_orders == 0 && r.total_carts == 0
            && r.total_delivered == 0 && r.total_damaged == 0 && r.total_wrong == 0
            && r.total_not_received == 0 && r.total_resolved == 0 && r.total_refused == 0
            && r.member_since == 0 && r.review_average == 0 && r.review_count == 0,
{
    match t.take(k) {
        Some(p) => p,
        None => BuyerProfile::default(),
    }
}

/// Takes `k`'s seller profile out of `t`, a fresh one where there was none.
pub(crate) fn take_seller(t: &mut Table<AccountId, SellerProfile>, k: &AccountId) -> (r: SellerProfile)
    requires
        old(t).wf(),
    ensures
        final(t).wf(),
        final(t)@ == old(t)@.remove(k@),
        old(t)@.contains_key(k@) ==> r == old(t)@[k@],
        !old(t)@.contains_key(k@) ==> r.seller_name@.len() == 0 && r.total_orders == 0 && r.awaiting == 0
            && r.total_delivered == 0 && r.total_damaged == 0 && r.total_wrong == 0
            && r.total_not_received == 0 && r.total_resolved == 0 && r.total_refused == 0
            && r.member_since == 0 && r.review_average == 0 && r.review_count == 0,
{
    match t.take(k) {
        Some(p) => p,
        None => SellerProfile::default(),
    }
}

pub open spec fn orders_ok(t: Table<Digest, Order>) -> bool {
    forall|k: Seq<u8>| #[trigger] t@.contains_key(k) ==> order_ok(t@[k])
}

/// Stores `o` under `id`, which has no order.
pub(crate) fn put_order(t: &mut Table<Digest, Order>, id: Digest, o: Order)
    requires
        old(t).wf(),
        orders_ok(*old(t)),
        !old(t)@.contains_key(id@),
        order_ok(o),
    ensures
        final(t).wf(),
        orders_ok(*final(t)),
        final(t)@ == old(t)@.insert(id@, o),
{
    t.put(id, o);
}


/// Time since `then`, 0 where `then` lies ahead.
pub open spec fn elapsed(now: u64, then: u64) -> u64 {
    if now >= then {
        (now - then) as u64
    } else {
        0
    }
}

/// `m` is the message `text` (with link `url`) from `from` to `to` about
/// `order`, sent at `now`.
pub open spec fn is_message(
    m: MessageDetails,
    from: AccountId,
    to: AccountId,
    now: u64,
    order: Digest,
    text: Vec<u8>,
    url: Vec<u8>,
) -> bool {
    &&& m.message_id@ == message_id_of(from@, now, order@, text@)
    &&& m.from_acct == from
    &&& m.to_acct == to
    &&& m.order_id == order
    &&& m.message == text
    &&& m.media_url == url
    &&& m.timestamp == now
}

/// `d` is `d0` with a message that satisfies `p` appended.
pub open spec fn appended(d0: Seq<MessageDetails>, d: Seq<MessageDetails>, p: spec_fn(MessageDetails) -> bool) -> bool {
    d.len() == d0.len() + 1 && d.drop_last() == d0 && p(d.last())
}

fn new_message(from: AccountId, to: AccountId, now: u64, order: Digest, text: Vec<u8>, url: Vec<u8>) -> (r: MessageDetails)
    ensures
        is_message(r, from, to, now, order, text, url),
{
    let id = message_id(from, now, order, &text);
    MessageDetails {
        message_id: id,
        from_acct: from,
        to_acct: to,
        order_id: order,
        message: text,
        media_url: url,
        timestamp: now,
    }
}

/// What a problem report does: its errors, and on success the order's
/// new stage and discussion, the move between the seller's buckets and
/// the counters of both profiles.
pub open spec fn report_outcome(
    s0: ContractStorage,
    s1: ContractStorage,
    r: Result<(), Error>,
    caller: AccountId,
    now: u64,
    order_id: Digest,
    url: Vec<u8>,
    message: Vec<u8>,
    problem: u8,
) -> bool {
    let too_large = url@.len() > ORDER_TEXT_LIMIT || message@.len() > ORDER_TEXT_LIMIT;
    let o = s0.order_details@[order_id@];
    let act = Action::Report { problem, elapsed_ms: elapsed(now, o.time_delivered) };
    &&& too_large ==> r == Err::<(), Error>(Error::DataTooLarge)
    &&& !too_large && !s0.is_buyer_of(order_id@, caller@) ==> r == Err::<(), Error>(Error::NotYourOrder)
    &&& !too_large && s0.is_buyer_of(order_id@, caller@) && step(stage_of(o), act).is_none()
        ==> r == Err::<(), Error>(Error::NotEligibleToReport)
    &&& !too_large && s0.is_buyer_of(order_id@, caller@) && step(stage_of(o), act).is_some()
        && ids(s0.account_seller_orders_4problem, o.seller@).len() >= BUCKET_CAPACITY
        ==> r == Err::<(), Error>(Error::StorageFull)
    &&& !too_large && s0.is_buyer_of(order_id@, caller@) && step(stage_of(o), act).is_some()
        && ids(s0.account_seller_orders_4problem, o.seller@).len() < BUCKET_CAPACITY ==> r.is_ok()
    &&& r.is_err() ==> s1 == s0
    &&& r.is_ok() ==> {
        let o2 = s1.order_details@[order_id@];
        &&& s0.is_buyer_of(order_id@, caller@)
        &&& step(stage_of(o), act).is_some()
        &&& ids(s0.account_seller_orders_4problem, o.seller@).len() < BUCKET_CAPACITY
        &&& s1.order_details@ == s0.order_details@.insert(order_id@,
            Order { discussion: o2.discussion, ..with_stage(o, step(stage_of(o), act).unwrap()) })
        &&& o2.order_status == PROBLEM
        &&& o2.problem == problem
        &&& if o.discussion@.len() < DISCUSSION_CAPACITY {
            appended(o.discussion@, o2.discussion@,
                |m: MessageDetails| is_message(m, caller, o.seller, now, order_id, message, url))
        } else {
            o2.discussion@ == o.discussion@
        }
        &&& ids(s1.account_seller_orders_2delivered, o.seller@) == without(
            ids(s0.account_seller_orders_2delivered, o.seller@), order_id@)
        &&& ids(s1.account_seller_orders_4problem, o.seller@) == ids(s0.account_seller_orders_4problem, o.seller@).push(order_id)
        &&& s1.account_profile_buyer@.contains_key(caller@)
        &&& s1.account_profile_seller@.contains_key(o.seller@)
        &&& s1.account_profile_buyer@[caller@].total_delivered == dec(buyer_count(s0.account_profile_buyer@, caller@, |p: BuyerProfile| p.total_delivered))
        &&& s1.account_profile_seller@[o.seller@].total_delivered == dec(seller_count(s0.account_profile_seller@, o.seller@, |p: SellerProfile| p.total_delivered))
        &&& problem == DAMAGED ==> buyer_bumped(s0.account_profile_buyer@, s1.account_profile_buyer@, caller@, |p: BuyerProfile| p.total_damaged)
            && seller_bumped(s0.account_profile_seller@, s1.account_profile_seller@, o.seller@, |p: SellerProfile| p.total_damaged)
        &&& problem == WRONG_ITEM ==> buyer_bumped(s0.account_profile_buyer@, s1.account_profile_buyer@, caller@, |p: BuyerProfile| p.total_wrong)
            && seller_bumped(s0.account_profile_seller@, s1.account_profile_seller@, o.seller@, |p: SellerProfile| p.total_wrong)
        &&& problem == NOT_RECEIVED ==> buyer_bumped(s0.account_profile_buyer@, s1.account_profile_buyer@, caller@, |p: BuyerProfile| p.total_not_received)
            && seller_bumped(s0.account_profile_seller@, s1.account_profile_seller@, o.seller@, |p: SellerProfile| p.total_not_received)
        &&& o2.resolution == UNRESOLVED
        &&& s1.account_profile_buyer@ == s0.account_profile_buyer@.insert(caller@, s1.account_profile_buyer@[caller@])
        &&& s1.account_profile_seller@ == s0.account_profile_seller@.insert(o.seller@, s1.account_profile_seller@[o.seller@])
        &&& s0.account_profile_buyer@.contains_key(caller@) ==> {
            let b = s1.account_profile_buyer@[caller@];
            b == BuyerProfile {
                total_delivered: b.total_delivered,
                total_damaged: b.total_damaged,
                total_wrong: b.total_wrong,
                total_not_received: b.total_not_received,
                ..s0.account_profile_buyer@[caller@]
            }
        }
        &&& s0.account_profile_seller@.contains_key(o.seller@) ==> {
            let p = s1.account_profile_seller@[o.seller@];
            p == SellerProfile {
                total_delivered: p.total_delivered,
                total_damaged: p.total_damaged,
                total_wrong: p.total_wrong,
                total_not_received: p.total_not_received,
                ..s0.account_profile_seller@[o.seller@]
            }
        }
        &&& problem != DAMAGED ==> buyer_count(s1.account_profile_buyer@, caller@, |p: BuyerProfile| p.total_damaged) == buyer_count(s0.account_profile_buyer@, caller@, |p: BuyerProfile| p.total_damaged)
            && seller_count(s1.account_profile_seller@, o.seller@, |p: SellerProfile| p.total_damaged) == seller_count(s0.account_profile_seller@, o.seller@, |p: SellerProfile| p.total_damaged)
        &&& problem != WRONG_ITEM ==> buyer_count(s1.account_profile_buyer@, caller@, |p: BuyerProfile| p.total_wrong) == buyer_count(s0.account_profile_buyer@, caller@, |p: BuyerProfile| p.total_wrong)
            && seller_count(s1.account_profile_seller@, o.seller@, |p: SellerProfile| p.total_wrong) == seller_count(s0.account_profile_seller@, o.seller@, |p: SellerProfile| p.total_wrong)
        &&& problem != NOT_RECEIVED ==> buyer_count(s1.account_profile_buyer@, caller@, |p: BuyerProfile| p.total_not_received) == buyer_count(s0.account_profile_buyer@, caller@, |p: BuyerProfile| p.total_not_received)
            && seller_count(s1.account_profile_seller@, o.seller@, |p: SellerProfile| p.total_not_received) == seller_count(s0.account_profile_seller@, o.seller@, |p: SellerProfile| p.total_not_received)
        &&& s1.account_seller_orders_0awaiting == s0.account_seller_orders_0awaiting
        &&& s1.account_seller_orders_1shipped == s0.account_seller_orders_1shipped
        &&& s1.account_seller_orders_3resolved == s0.account_seller_orders_3resolved
        &&& s1.account_seller_orders_5refused == s0.account_seller_orders_5refused
        &&& s1.product_details == s0.product_details
        &&& s1.service_details == s0.service_details
    }
}


/// What posting a message does: the buyer writes to the seller
/// (`to_seller`) or the seller to the buyer; the discussion holds at most
/// `DISCUSSION_CAPACITY` entries.
pub open spec fn message_outcome(
    s0: ContractStorage,
    s1: ContractStorage,
    r: Result<(), Error>,
    caller: AccountId,
    now: u64,
    order_id: Digest,
    url: Vec<u8>,
    message: Vec<u8>,
    to_seller: bool,
) -> bool {
    let too_large = url@.len() > ORDER_TEXT_LIMIT || message@.len() > ORDER_TEXT_LIMIT;
    let o = s0.order_details@[order_id@];
    let party = if to_seller {
        s0.is_buyer_of(order_id@, caller@)
    } else {
        s0.is_seller_of(order_id@, caller@)
    };
    let to = if to_seller {
        o.seller
    } else {
        o.buyer
    };
    &&& too_large ==> r == Err::<(), Error>(Error::DataTooLarge)
    &&& !too_large && !party ==> r == Err::<(), Error>(Error::NotYourOrder)
    &&& !too_large && party && o.discussion@.len() >= DISCUSSION_CAPACITY ==> r == Err::<(), Error>(
        Error::StorageFull)
    &&& !too_large && party && o.discussion@.len() < DISCUSSION_CAPACITY ==> r.is_ok()
    &&& r.is_err() ==> s1 == s0
    &&& r.is_ok() ==> {
        let o2 = s1.order_details@[order_id@];
        &&& party
        &&& s1.order_details@ == s0.order_details@.insert(order_id@, Order { discussion: o2.discussion, ..o })
        &&& appended(o.discussion@, o2.discussion@,
            |m: MessageDetails| is_message(m, caller, to, now, order_id, message, url))
        &&& s1.product_details == s0.product_details
        &&& s1.service_details == s0.service_details
        &&& s1.account_profile_buyer == s0.account_profile_buyer
        &&& s1.account_profile_seller == s0.account_profile_seller
    }
}

impl ContractStorage {
    /// `caller` sold the order `id`.
    pub open spec fn is_seller_of(&self, id: Seq<u8>, caller: Seq<u8>) -> bool {
        self.order_details@.contains_key(id) && self.order_details@[id].seller@ == caller
    }

    /// `caller` bought the order `id`.
    pub open spec fn is_buyer_of(&self, id: Seq<u8>, caller: Seq<u8>) -> bool {
        self.order_details@.contains_key(id) && self.order_details@[id].buyer@ == caller
    }

    /// The order's item is a listed physical product.
    pub open spec fn is_physical(&self, o: Order) -> bool {
        self.product_details@.contains_key(o.item_id@) && !self.product_details@[o.item_id@].digital
    }

    /// Records tracking details on a physical order, and moves it forward:
    /// an awaiting order to shipped when `shipped` is set, which releases its
    /// funds, or a shipped order to delivered when `delivered` is set.
    /// Returns the transfers that release the funds.
    pub fn update_order_tracking_information(
        &mut self,
        caller: AccountId,
        now: u64,
        order_id: Digest,
        tracking_update: Vec<u8>,
        shipped: bool,
        delivered: bool,
    ) -> (r: Result<Vec<Payout>, Error>)
        requires
            old(self).wf(),
        ensures
            final(self).wf(),
            tracking_update@.len() > ORDER_TEXT_LIMIT ==> r == Err::<Vec<Payout>, Error>(
                Error::DataTooLarge),
            tracking_update@.len() <= ORDER_TEXT_LIMIT && !old(self).is_seller_of(
                order_id@,
                caller@,
            ) ==> r == Err::<Vec<Payout>, Error>(Error::NotYourOrder),
            tracking_update@.len() <= ORDER_TEXT_LIMIT && old(self).is_seller_of(
                order_id@,
                caller@,
            ) && !old(self).is_physical(old(self).order_details@[order_id@])
                ==> r == Err::<Vec<Payout>, Error>(Error::NotAPhysicalProduct),
            tracking_update@.len() <= ORDER_TEXT_LIMIT && old(self).is_seller_of(order_id@, caller@)
                && old(self).is_physical(old(self).order_details@[order_id@]) ==> r.is_ok(),
            r.is_err() ==> *final(self) == *old(self),
            r.is_ok() ==> {
                let o = old(self).order_details@[order_id@];
                let ship = o.order_status == AWAITING && shipped;
                let deliver = o.order_status == SHIPPED && delivered;
                let s2 = if ship {
                    step(stage_of(o), Action::Ship).unwrap()
                } else if deliver {
                    step(stage_of(o), Action::Deliver).unwrap()
                } else {
                    stage_of(o)
                };
                &&& tracking_update@.len() <= ORDER_TEXT_LIMIT
                &&& old(self).is_seller_of(order_id@, caller@)
                &&& old(self).is_physical(o)
                &&& final(self).order_details@ == old(self).order_details@.insert(
                    order_id@,
                    Order {
                        tracking_info: tracking_update,
                        time_delivered: if deliver {
                            now
                        } else {
                            o.time_delivered
                        },
                        ..with_stage(o, s2)
                    },
                )
                &&& r.unwrap()@ == if ship {
                    release_plan(o.seller, o.total_order_price, o.zeno_total, o.zeno_referrers@)
                } else {
                    Seq::empty()
                }
                &&& ship ==> ids(final(self).account_seller_orders_0awaiting, caller@) == without(
                    ids(old(self).account_seller_orders_0awaiting, caller@),
                    order_id@,
                ) && ids(final(self).account_seller_orders_1shipped, caller@) == push_bounded(
                    ids(old(self).account_seller_orders_1shipped, caller@),
                    order_id,
                    BUCKET_CAPACITY as nat,
                )
                &&& deliver ==> ids(final(self).account_seller_orders_1shipped, caller@)
                    == without(ids(old(self).account_seller_orders_1shipped, caller@), order_id@)
                    && ids(final(self).account_seller_orders_2delivered, caller@) == push_bounded(
                    ids(old(self).account_seller_orders_2delivered, caller@),
                    order_id,
                    BUCKET_CAPACITY as nat,
                ) && buyer_bumped(
                    old(self).account_profile_buyer@,
                    final(self).account_profile_buyer@,
                    o.buyer@,
                    |p: BuyerProfile| p.total_delivered,
                ) && seller_bumped(
                    old(self).account_profile_seller@,
                    final(self).account_profile_seller@,
                    caller@,
                    |p: SellerProfile| p.total_delivered,
                )
                &&& final(self).product_details == old(self).product_details
                &&& final(self).service_details == old(self).service_details
                &&& ship ==> payout_sum(r.unwrap()@) == o.total_order_price
                &&& !ship ==> final(self).account_seller_orders_0awaiting == old(self).account_seller_orders_0awaiting
                &&& !ship && !deliver ==> final(self).account_seller_orders_1shipped == old(self).account_seller_orders_1shipped
                &&& !deliver ==> final(self).account_seller_orders_2delivered == old(self).account_seller_orders_2delivered
                &&& !deliver ==> final(self).account_profile_buyer == old(self).account_profile_buyer
                    && final(self).account_profile_seller == old(self).account_profile_seller
                &&& final(self).account_seller_orders_3resolved == old(self).account_seller_orders_3resolved
                &&& final(self).account_seller_orders_4problem == old(self).account_seller_orders_4problem
                &&& final(self).account_seller_orders_5refused == old(self).account_seller_orders_5refused
            },
    {
        if tracking_update.len() > ORDER_TEXT_LIMIT {
            return Err(Error::DataTooLarge);
        }
        let i = match self.order_details.find(&order_id) {
            Some(i) => i,
            None => {
                return Err(Error::NotYourOrder);
            },
        };
        proof {
            self.order_details.lemma_index(i as int);
        }
        if !(self.order_details.entries[i].1.seller == caller) {
            return Err(Error::NotYourOrder);
        }
        let item_id = self.order_details.entries[i].1.item_id;
        let physical = match self.product_details.find(&item_id) {
            Some(j) => {
                proof {
                    self.product_details.lemma_index(j as int);
                }
                !self.product_details.entries[j].1.digital
            },
            None => false,
        };
        if !physical {
            return Err(Error::NotAPhysicalProduct);
        }
        let mut o = self.order_details.take(&order_id).unwrap();
        o.tracking_info = tracking_update;
        let mut payouts: Vec<Payout> = Vec::new();
        let ship = o.order_status == AWAITING && shipped;
        let deliver = o.order_status == SHIPPED && delivered;
        if deliver {
            let s = advance(Stage { status: o.order_status, problem: o.problem, resolution: o.resolution }, Action::Deliver).unwrap();
            o.order_status = s.status;
            o.time_delivered = now;
            let buyer = o.buyer;
            self.events.push(
                Event::OrderDelivered(
                    OrderDelivered {
                        seller: caller,
                        buyer,
                        order_id: o.order_id,
                        order_status: DELIVERED,
                        time_delivered: now,
                    },
                ),
            );
            let ghost o_new = o;
            put_order(&mut self.order_details, order_id, o);
            assert(self.order_details@ =~= old(self).order_details@.insert(order_id@, o_new));
            move_id(
                &mut self.account_seller_orders_1shipped,
                &mut self.account_seller_orders_2delivered,
                caller,
                order_id,
                BUCKET_CAPACITY,
            );
            let mut bp = take_buyer(&mut self.account_profile_buyer, &buyer);
            bp.total_delivered = saturating_add(bp.total_delivered, 1);
            self.account_profile_buyer.put(buyer, bp);
            let mut sp = take_seller(&mut self.account_profile_seller, &caller);
            sp.total_delivered = saturating_add(sp.total_delivered, 1);
            self.account_profile_seller.put(caller, sp);
        } else if ship {
            let s = advance(Stage { status: o.order_status, problem: o.problem, resolution: o.resolution }, Action::Ship).unwrap();
            o.order_status = s.status;
            self.events.push(
                Event::OrderShipped(
                    OrderShipped {
                        seller: caller,
                        buyer: o.buyer,
                        order_id: o.order_id,
                        order_status: SHIPPED,
                    },
                ),
            );
            payouts = release_payouts(o.seller, o.total_order_price, o.zeno_total, &o.zeno_referrers);
            proof {
                lemma_release_plan_sum(o.seller, o.total_order_price, o.zeno_total, o.zeno_referrers@);
            }
            let ghost o_new = o;
            put_order(&mut self.order_details, order_id, o);
            assert(self.order_details@ =~= old(self).order_details@.insert(order_id@, o_new));
            move_id(
                &mut self.account_seller_orders_0awaiting,
                &mut self.account_seller_orders_1shipped,
                caller,
                order_id,
                BUCKET_CAPACITY,
            );
        } else {
            let ghost o_new = o;
            put_order(&mut self.order_details, order_id, o);
            assert(self.order_details@ =~= old(self).order_details@.insert(order_id@, o_new));
        }
        Ok(payouts)
    }

    /// Checks and applies a resolution of an open problem: moves the order
    /// to resolved, from the seller's problem bucket to the resolved bucket,
    /// and counts it on both profiles.
    fn close_problem(&mut self, caller: AccountId, order_id: Digest, action: Action, tracking: Option<Vec<u8>>) -> (r: Result<(AccountId, u8), Error>)
        requires
            old(self).wf(),
            action == Action::Refund || action == Action::Replace || action == Action::Deny,
        ensures
            final(self).wf(),
            !old(self).is_seller_of(order_id@, caller@) ==> r == Err::<(AccountId, u8), Error>(Error::NotYourOrder),
            old(self).is_seller_of(order_id@, caller@) && step(stage_of(old(self).order_details@[order_id@]), action).is_none()
                ==> r == Err::<(AccountId, u8), Error>(Error::CannotResolve),
            old(self).is_seller_of(order_id@, caller@) && step(stage_of(old(self).order_details@[order_id@]), action).is_some()
                ==> r.is_ok(),
            r.is_err() ==> *final(self) == *old(self),
            r.is_ok() ==> {
                let o = old(self).order_details@[order_id@];
                let o2 = with_stage(o, step(stage_of(o), action).unwrap());
                let o3 = match tracking {
                    Some(t) => Order { tracking_info: t, ..o2 },
                    None => o2,
                };
                &&& old(self).is_seller_of(order_id@, caller@)
                &&& step(stage_of(o), action).is_some()
                &&& r.unwrap() == (o.buyer, o.problem)
                &&& final(self).order_details@ == old(self).order_details@.insert(order_id@, o3)
                &&& ids(final(self).account_seller_orders_4problem, caller@) == without(
                    ids(old(self).account_seller_orders_4problem, caller@), order_id@)
                &&& ids(final(self).account_seller_orders_3resolved, caller@) == push_bounded(
                    ids(old(self).account_seller_orders_3resolved, caller@), order_id, BUCKET_CAPACITY as nat)
                &&& buyer_bumped(old(self).account_profile_buyer@, final(self).account_profile_buyer@,
                    o.buyer@, |p: BuyerProfile| p.total_resolved)
                &&& seller_bumped(old(self).account_profile_seller@, final(self).account_profile_seller@,
                    caller@, |p: SellerProfile| p.total_resolved)
                &&& final(self).product_details == old(self).product_details
                &&& final(self).service_details == old(self).service_details
                &&& final(self).events == old(self).events
                &&& final(self).account_seller_orders_0awaiting == old(self).account_seller_orders_0awaiting
                &&& final(self).account_seller_orders_1shipped == old(self).account_seller_orders_1shipped
                &&& final(self).account_seller_orders_2delivered == old(self).account_seller_orders_2delivered
                &&& final(self).account_seller_orders_5refused == old(self).account_seller_orders_5refused
            },
    {
        let i = match self.order_details.find(&order_id) {
            Some(i) => i,
            None => {
                return Err(Error::NotYourOrder);
            },
        };
        proof {
            self.order_details.lemma_index(i as int);
        }
        if !(self.order_details.entries[i].1.seller == caller) {
            return Err(Error::NotYourOrder);
        }
        let st = {
            let o = &self.order_details.entries[i].1;
            Stage { status: o.order_status, problem: o.problem, resolution: o.resolution }
        };
        let next = match advance(st, action) {
            Some(n) => n,
            None => {
                return Err(Error::CannotResolve);
            },
        };
        let mut o = self.order_details.take(&order_id).unwrap();
        o.order_status = next.status;
        o.problem = next.problem;
        o.resolution = next.resolution;
        match tracking {
            Some(t) => {
                o.tracking_info = t;
            },
            None => {},
        }
        let buyer = o.buyer;
        let problem = o.problem;
        put_order(&mut self.order_details, order_id, o);
        move_id(
            &mut self.account_seller_orders_4problem,
            &mut self.account_seller_orders_3resolved,
            caller,
            order_id,
            BUCKET_CAPACITY,
        );
        let mut bp = take_buyer(&mut self.account_profile_buyer, &buyer);
        bp.total_resolved = saturating_add(bp.total_resolved, 1);
        self.account_profile_buyer.put(buyer, bp);
        let mut sp = take_seller(&mut self.account_profile_seller, &caller);
        sp.total_resolved = saturating_add(sp.total_resolved, 1);
        self.account_profile_seller.put(caller, sp);
        Ok((buyer, problem))
    }

    /// Resolves an open problem by refunding the buyer the amount the seller
    /// tendered with the call. Returns that transfer.
    pub fn issue_refund(&mut self, caller: AccountId, order_id: Digest, tendered: u128) -> (r: Result<Vec<Payout>, Error>)
        requires
            old(self).wf(),
        ensures
            final(self).wf(),
            !old(self).is_seller_of(order_id@, caller@) ==> r == Err::<Vec<Payout>, Error>(Error::NotYourOrder),
            old(self).is_seller_of(order_id@, caller@) && step(stage_of(old(self).order_details@[order_id@]), Action::Refund).is_none()
                ==> r == Err::<Vec<Payout>, Error>(Error::CannotResolve),
            old(self).is_seller_of(order_id@, caller@) && step(stage_of(old(self).order_details@[order_id@]), Action::Refund).is_some()
                ==> r.is_ok(),
            r.is_err() ==> *final(self) == *old(self),
            r.is_ok() ==> {
                let o = old(self).order_details@[order_id@];
                &&& step(stage_of(o), Action::Refund).is_some()
                &&& final(self).order_details@ == old(self).order_details@.insert(order_id@,
                    with_stage(o, step(stage_of(o), Action::Refund).unwrap()))
                &&& final(self).order_details@[order_id@].resolution == REFUNDED
                &&& ids(final(self).account_seller_orders_4problem, caller@) == without(
                    ids(old(self).account_seller_orders_4problem, caller@), order_id@)
                &&& seller_bumped(old(self).account_profile_seller@, final(self).account_profile_seller@,
                    caller@, |p: SellerProfile| p.total_resolved)
                &&& final(self).account_seller_orders_0awaiting == old(self).account_seller_orders_0awaiting
                &&& final(self).account_seller_orders_1shipped == old(self).account_seller_orders_1shipped
                &&& final(self).account_seller_orders_2delivered == old(self).account_seller_orders_2delivered
                &&& final(self).account_seller_orders_5refused == old(self).account_seller_orders_5refused
                &&& r.unwrap()@ == seq![Payout { to: o.buyer, amount: tendered }]
                &&& ids(final(self).account_seller_orders_3resolved, caller@) == push_bounded(
                    ids(old(self).account_seller_orders_3resolved, caller@), order_id, BUCKET_CAPACITY as nat)
                &&& buyer_bumped(old(self).account_profile_buyer@, final(self).account_profile_buyer@,
                    o.buyer@, |p: BuyerProfile| p.total_resolved)
            },
    {
        let (buyer, problem) = match self.close_problem(caller, order_id, Action::Refund, None) {
            Ok(v) => v,
            Err(e) => {
                return Err(e);
            },
        };
        self.events.push(Event::OrderRefunded(OrderRefunded {
            seller: caller,
            buyer,
            order_id,
            order_status: RESOLVED,
            problem,
            resolution: REFUNDED,
        }));
        let mut p: Vec<Payout> = Vec::new();
        p.push(Payout { to: buyer, amount: tendered });
        Ok(p)
    }

    /// Resolves an open problem by sending a replacement under new tracking
    /// details.
    pub fn issue_replacement(&mut self, caller: AccountId, order_id: Digest, tracking: Vec<u8>) -> (r: Result<(), Error>)
        requires
            old(self).wf(),
        ensures
            final(self).wf(),
            tracking@.len() > ORDER_TEXT_LIMIT ==> r == Err::<(), Error>(Error::DataTooLarge),
            tracking@.len() <= ORDER_TEXT_LIMIT && !old(self).is_seller_of(order_id@, caller@) ==> r == Err::<(), Error>(Error::NotYourOrder),
            tracking@.len() <= ORDER_TEXT_LIMIT && old(self).is_seller_of(order_id@, caller@) && step(stage_of(old(self).order_details@[order_id@]), Action::Replace).is_none()
                ==> r == Err::<(), Error>(Error::CannotResolve),
            tracking@.len() <= ORDER_TEXT_LIMIT && old(self).is_seller_of(order_id@, caller@) && step(stage_of(old(self).order_details@[order_id@]), Action::Replace).is_some()
                ==> r.is_ok(),
            r.is_err() ==> *final(self) == *old(self),
            r.is_ok() ==> {
                let o = old(self).order_details@[order_id@];
                &&& step(stage_of(o), Action::Replace).is_some()
                &&& final(self).order_details@ == old(self).order_details@.insert(order_id@,
                    Order { tracking_info: tracking, ..with_stage(o, step(stage_of(o), Action::Replace).unwrap()) })
                &&& final(self).order_details@[order_id@].resolution == REPLACED
                &&& ids(final(self).account_seller_orders_4problem, caller@) == without(
                    ids(old(self).account_seller_orders_4problem, caller@), order_id@)
                &&& seller_bumped(old(self).account_profile_seller@, final(self).account_profile_seller@,
                    caller@, |p: SellerProfile| p.total_resolved)
                &&& final(self).account_seller_orders_0awaiting == old(self).account_seller_orders_0awaiting
                &&& final(self).account_seller_orders_1shipped == old(self).account_seller_orders_1shipped
                &&& final(self).account_seller_orders_2delivered == old(self).account_seller_orders_2delivered
                &&& final(self).account_seller_orders_5refused == old(self).account_seller_orders_5refused
                &&& ids(final(self).account_seller_orders_3resolved, caller@) == push_bounded(
                    ids(old(self).account_seller_orders_3resolved, caller@), order_id, BUCKET_CAPACITY as nat)
                &&& buyer_bumped(old(self).account_profile_buyer@, final(self).account_profile_buyer@,
                    o.buyer@, |p: BuyerProfile| p.total_resolved)
            },
    {
        if tracking.len() > ORDER_TEXT_LIMIT {
            return Err(Error::DataTooLarge);
        }
        let (buyer, problem) = match self.close_problem(caller, order_id, Action::Replace, Some(tracking)) {
            Ok(v) => v,
            Err(e) => {
                return Err(e);
            },
        };
        self.events.push(Event::OrderReplaced(OrderReplaced {
            seller: caller,
            buyer,
            order_id,
            order_status: RESOLVED,
            problem,
            resolution: REPLACED,
        }));
        Ok(())
    }

    /// Resolves an open problem by denying the buyer's request.
    pub fn deny_resolution_request(&mut self, caller: AccountId, order_id: Digest) -> (r: Result<(), Error>)
        requires
            old(self).wf(),
        ensures
            final(self).wf(),
            !old(self).is_seller_of(order_id@, caller@) ==> r == Err::<(), Error>(Error::NotYourOrder),
            old(self).is_seller_of(order_id@, caller@) && step(stage_of(old(self).order_details@[order_id@]), Action::Deny).is_none()
                ==> r == Err::<(), Error>(Error::CannotResolve),
            old(self).is_seller_of(order_id@, caller@) && step(stage_of(old(self).order_details@[order_id@]), Action::Deny).is_some()
                ==> r.is_ok(),
            r.is_err() ==> *final(self) == *old(self),
            r.is_ok() ==> {
                let o = old(self).order_details@[order_id@];
                &&& step(stage_of(o), Action::Deny).is_some()
                &&& final(self).order_details@ == old(self).order_details@.insert(order_id@,
                    with_stage(o, step(stage_of(o), Action::Deny).unwrap()))
                &&& final(self).order_details@[order_id@].resolution == DENIED
                &&& ids(final(self).account_seller_orders_4problem, caller@) == without(
                    ids(old(self).account_seller_orders_4problem, caller@), order_id@)
                &&& seller_bumped(old(self).account_profile_seller@, final(self).account_profile_seller@,
                    caller@, |p: SellerProfile| p.total_resolved)
                &&& final(self).account_seller_orders_0awaiting == old(self).account_seller_orders_0awaiting
                &&& final(self).account_seller_orders_1shipped == old(self).account_seller_orders_1shipped
                &&& final(self).account_seller_orders_2delivered == old(self).account_seller_orders_2delivered
                &&& final(self).account_seller_orders_5refused == old(self).account_seller_orders_5refused
                &&& ids(final(self).account_seller_orders_3resolved, caller@) == push_bounded(
                    ids(old(self).account_seller_orders_3resolved, caller@), order_id, BUCKET_CAPACITY as nat)
                &&& buyer_bumped(old(self).account_profile_buyer@, final(self).account_profile_buyer@,
                    o.buyer@, |p: BuyerProfile| p.total_resolved)
            },
    {
        let (buyer, problem) = match self.close_problem(caller, order_id, Action::Deny, None) {
            Ok(v) => v,
            Err(e) => {
                return Err(e);
            },
        };
        self.events.push(Event::OrderResolutionDenied(OrderResolutionDenied {
            seller: caller,
            buyer,
            order_id,
            order_status: RESOLVED,
            problem,
            resolution: DENIED,
        }));
        Ok(())
    }

    /// Refuses an awaiting order: refunds the buyer the order total and
    /// closes the order.
    pub fn refuse_an_order(&mut self, caller: AccountId, order_id: Digest) -> (r: Result<Vec<Payout>, Error>)
        requires
            old(self).wf(),
        ensures
            final(self).wf(),
            !old(self).is_seller_of(order_id@, caller@) ==> r == Err::<Vec<Payout>, Error>(Error::NotYourOrder),
            old(self).is_seller_of(order_id@, caller@) && step(stage_of(old(self).order_details@[order_id@]), Action::Refuse).is_none()
                ==> r == Err::<Vec<Payout>, Error>(Error::CannotRefuse),
            old(self).is_seller_of(order_id@, caller@) && step(stage_of(old(self).order_details@[order_id@]), Action::Refuse).is_some()
                ==> r.is_ok(),
            r.is_err() ==> *final(self) == *old(self),
            r.is_ok() ==> {
                let o = old(self).order_details@[order_id@];
                &&& o.order_status == AWAITING
                &&& final(self).order_details@ == old(self).order_details@.insert(order_id@,
                    with_stage(o, step(stage_of(o), Action::Refuse).unwrap()))
                &&& final(self).order_details@[order_id@].order_status == REFUSED
                &&& final(self).account_seller_orders_1shipped == old(self).account_seller_orders_1shipped
                &&& final(self).account_seller_orders_2delivered == old(self).account_seller_orders_2delivered
                &&& final(self).account_seller_orders_3resolved == old(self).account_seller_orders_3resolved
                &&& final(self).account_seller_orders_4problem == old(self).account_seller_orders_4problem
                &&& r.unwrap()@ == seq![Payout { to: o.buyer, amount: o.total_order_price }]
                &&& ids(final(self).account_seller_orders_0awaiting, caller@) == without(
                    ids(old(self).account_seller_orders_0awaiting, caller@), order_id@)
                &&& ids(final(self).account_seller_orders_5refused, caller@) == push_bounded(
                    ids(old(self).account_seller_orders_5refused, caller@), order_id, BUCKET_CAPACITY as nat)
                &&& buyer_bumped(old(self).account_profile_buyer@, final(self).account_profile_buyer@,
                    o.buyer@, |p: BuyerProfile| p.total_refused)
                &&& seller_bumped(old(self).account_profile_seller@, final(self).account_profile_seller@,
                    caller@, |p: SellerProfile| p.total_refused)
                &&& final(self).product_details == old(self).product_details
                &&& final(self).service_details == old(self).service_details
            },
    {
        let i = match self.order_details.find(&order_id) {
            Some(i) => i,
            None => {
                return Err(Error::NotYourOrder);
            },
        };
        proof {
            self.order_details.lemma_index(i as int);
        }
        if !(self.order_details.entries[i].1.seller == caller) {
            return Err(Error::NotYourOrder);
        }
        let st = {
            let o = &self.order_details.entries[i].1;
            Stage { status: o.order_status, problem: o.problem, resolution: o.resolution }
        };
        let next = match advance(st, Action::Refuse) {
            Some(n) => n,
            None => {
                return Err(Error::CannotRefuse);
            },
        };
        let mut o = self.order_details.take(&order_id).unwrap();
        o.order_status = next.status;
        let buyer = o.buyer;
        let mut p: Vec<Payout> = Vec::new();
        p.push(Payout { to: buyer, amount: o.total_order_price });
        self.events.push(Event::OrderRefused(OrderRefused {
            seller: caller,
            buyer,
            order_id: o.order_id,
            order_status: REFUSED,
        }));
        put_order(&mut self.order_details, order_id, o);
        move_id(
            &mut self.account_seller_orders_0awaiting,
            &mut self.account_seller_orders_5refused,
            caller,
            order_id,
            BUCKET_CAPACITY,
        );
        let mut bp = take_buyer(&mut self.account_profile_buyer, &buyer);
        bp.total_refused = saturating_add(bp.total_refused, 1);
        self.account_profile_buyer.put(buyer, bp);
        let mut sp = take_seller(&mut self.account_profile_seller, &caller);
        sp.total_refused = saturating_add(sp.total_refused, 1);
        self.account_profile_seller.put(caller, sp);
        Ok(p)
    }

    /// Reports a problem with a delivered order, within the report window:
    /// the order moves to problem with the message added to its discussion.
    fn report_problem(
        &mut self,
        caller: AccountId,
        now: u64,
        order_id: Digest,
        url: Vec<u8>,
        message: Vec<u8>,
        problem: u8,
    ) -> (r: Result<(), Error>)
        requires
            old(self).wf(),
            problem == DAMAGED || problem == WRONG_ITEM || problem == NOT_RECEIVED,
        ensures
            final(self).wf(),
            report_outcome(*old(self), *final(self), r, caller, now, order_id, url, message, problem),
    {
        if url.len() > ORDER_TEXT_LIMIT || message.len() > ORDER_TEXT_LIMIT {
            return Err(Error::DataTooLarge);
        }
        let i = match self.order_details.find(&order_id) {
            Some(i) => i,
            None => {
                return Err(Error::NotYourOrder);
            },
        };
        proof {
            self.order_details.lemma_index(i as int);
        }
        if !(self.order_details.entries[i].1.buyer == caller) {
            return Err(Error::NotYourOrder);
        }
        let (st, delivered_at, seller) = {
            let o = &self.order_details.entries[i].1;
            (Stage { status: o.order_status, problem: o.problem, resolution: o.resolution }, o.time_delivered, o.seller)
        };
        let since = now.saturating_sub(delivered_at);
        let next = match advance(st, Action::Report { problem, elapsed_ms: since }) {
            Some(n) => n,
            None => {
                return Err(Error::NotEligibleToReport);
            },
        };
        if ids_len(&self.account_seller_orders_4problem, &seller) >= BUCKET_CAPACITY {
            return Err(Error::StorageFull);
        }
        let mut o = self.order_details.take(&order_id).unwrap();
        o.order_status = next.status;
        o.problem = next.problem;
        let ghost d0 = o.discussion@;
        if o.discussion.len() < DISCUSSION_CAPACITY {
            let m = new_message(caller, seller, now, order_id, message, url);
            o.discussion.push(m);
            assert(o.discussion@.drop_last() =~= d0);
        }
        let ghost o_new = o;
        put_order(&mut self.order_details, order_id, o);
        assert(self.order_details@ =~= old(self).order_details@.insert(order_id@, o_new));
        move_id(
            &mut self.account_seller_orders_2delivered,
            &mut self.account_seller_orders_4problem,
            seller,
            order_id,
            BUCKET_CAPACITY,
        );
        let mut bp = take_buyer(&mut self.account_profile_buyer, &caller);
        let mut sp = take_seller(&mut self.account_profile_seller, &seller);
        if problem == DAMAGED {
            bp.total_damaged = saturating_add(bp.total_damaged, 1);
            sp.total_damaged = saturating_add(sp.total_damaged, 1);
        } else if problem == WRONG_ITEM {
            bp.total_wrong = saturating_add(bp.total_wrong, 1);
            sp.total_wrong = saturating_add(sp.total_wrong, 1);
        } else {
            bp.total_not_received = saturating_add(bp.total_not_received, 1);
            sp.total_not_received = saturating_add(sp.total_not_received, 1);
        }
        bp.total_delivered = bp.total_delivered.saturating_sub(1);
        sp.total_delivered = sp.total_delivered.saturating_sub(1);
        let ghost b1 = bp;
        let ghost p1 = sp;
        self.account_profile_buyer.put(caller, bp);
        self.account_profile_seller.put(seller, sp);
        assert(self.account_profile_buyer@ =~= old(self).account_profile_buyer@.insert(caller@, b1));
        assert(self.account_profile_seller@ =~= old(self).account_profile_seller@.insert(seller@, p1));
        self.events.push(Event::ProblemReported(ProblemReported { order_id, buyer: caller, seller, problem }));
        Ok(())
    }

    /// Reports a delivered order as damaged.
    pub fn report_problem_damaged(&mut self, caller: AccountId, now: u64, order_id: Digest, problem_photo_or_youtube_url: Vec<u8>, message: Vec<u8>) -> (r: Result<(), Error>)
        requires
            old(self).wf(),
        ensures
            final(self).wf(),
            report_outcome(*old(self), *final(self), r, caller, now, order_id, problem_photo_or_youtube_url, message, DAMAGED),
    {
        self.report_problem(caller, now, order_id, problem_photo_or_youtube_url, message, DAMAGED)
    }

    /// Reports that a delivered order holds the wrong item.
    pub fn report_problem_wrong_item(&mut self, caller: AccountId, now: u64, order_id: Digest, problem_photo_or_youtube_url: Vec<u8>, message: Vec<u8>) -> (r: Result<(), Error>)
        requires
            old(self).wf(),
        ensures
            final(self).wf(),
            report_outcome(*old(self), *final(self), r, caller, now, order_id, problem_photo_or_youtube_url, message, WRONG_ITEM),
    {
        self.report_problem(caller, now, order_id, problem_photo_or_youtube_url, message, WRONG_ITEM)
    }

    /// Reports that an order marked delivered never arrived.
    pub fn report_problem_not_received(&mut self, caller: AccountId, now: u64, order_id: Digest, problem_photo_or_youtube_url: Vec<u8>, message: Vec<u8>) -> (r: Result<(), Error>)
        requires
            old(self).wf(),
        ensures
            final(self).wf(),
            report_outcome(*old(self), *final(self), r, caller, now, order_id, problem_photo_or_youtube_url, message, NOT_RECEIVED),
    {
        self.report_problem(caller, now, order_id, problem_photo_or_youtube_url, message, NOT_RECEIVED)
    }

    /// Adds a message to an order's discussion; `to_seller` decides which
    /// party the caller must be.
    fn post_message(&mut self, caller: AccountId, now: u64, order_id: Digest, url: Vec<u8>, message: Vec<u8>, to_seller: bool) -> (r: Result<(), Error>)
        requires
            old(self).wf(),
        ensures
            final(self).wf(),
            message_outcome(*old(self), *final(self), r, caller, now, order_id, url, message, to_seller),
    {
        if url.len() > ORDER_TEXT_LIMIT || message.len() > ORDER_TEXT_LIMIT {
            return Err(Error::DataTooLarge);
        }
        let i = match self.order_details.find(&order_id) {
            Some(i) => i,
            None => {
                return Err(Error::NotYourOrder);
            },
        };
        proof {
            self.order_details.lemma_index(i as int);
        }
        let (party, to, n) = {
            let o = &self.order_details.entries[i].1;
            if to_seller {
                (o.buyer, o.seller, o.discussion.len())
            } else {
                (o.seller, o.buyer, o.discussion.len())
            }
        };
        if !(party == caller) {
            return Err(Error::NotYourOrder);
        }
        if n >= DISCUSSION_CAPACITY {
            return Err(Error::StorageFull);
        }
        let mut o = self.order_details.take(&order_id).unwrap();
        let ghost d0 = o.discussion@;
        let m = new_message(caller, to, now, order_id, message, url);
        o.discussion.push(m);
        assert(o.discussion@.drop_last() =~= d0);
        let ghost o_new = o;
        put_order(&mut self.order_details, order_id, o);
        assert(self.order_details@ =~= old(self).order_details@.insert(order_id@, o_new));
        Ok(())
    }

    /// The buyer of an order writes to its seller.
    pub fn message_the_seller(&mut self, caller: AccountId, now: u64, order_id: Digest, photo_or_youtube_url: Vec<u8>, message: Vec<u8>) -> (r: Result<(), Error>)
        requires
            old(self).wf(),
        ensures
            final(self).wf(),
            message_outcome(*old(self), *final(self), r, caller, now, order_id, photo_or_youtube_url, message, true),
    {
        self.post_message(caller, now, order_id, photo_or_youtube_url, message, true)
    }

    /// The seller of an order writes to its buyer.
    pub fn message_the_buyer(&mut self, caller: AccountId, now: u64, order_id: Digest, photo_or_youtube_url: Vec<u8>, message: Vec<u8>) -> (r: Result<(), Error>)
        requires
            old(self).wf(),
        ensures
            final(self).wf(),
            message_outcome(*old(self), *final(self), r, caller, now, order_id, photo_or_youtube_url, message, false),
    {
        self.post_message(caller, now, order_id, photo_or_youtube_url, message, false)
    }
}

} // verus!
