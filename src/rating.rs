use vstd::prelude::*;

use crate::digest::{buyer_review_id, review_id};
use crate::events::{Error, Event, NewBuyerRating, NewProductRating};
use crate::ids::{AccountId, Digest};
use crate::lists::{push_bounded, push_evicting, seq_has};
use crate::market::{
    accounts, accounts_has, ids, ids_has, put_accounts, put_ids, take_accounts, take_ids,
    ContractStorage,
};
use crate::money::{fold_rating, next_count, next_mean};
use crate::orders::{take_buyer, take_seller};
use crate::types::{BuyerProfile, Product, SellerProfile, Service};

verus! {

/// Longest review text, in bytes.
pub const REVIEW_LIMIT: usize = 600;

/// Entries that an account's list of subjects it has rated keeps.
pub const REVIEWED_CAPACITY: usize = 400;

/// Lowest and highest rating.
pub const MIN_RATING: u64 = 1;

pub const MAX_RATING: u64 = 5;

/// `k`'s rating aggregate in `b` is the one in `a` with `rating` folded in
/// (an account without a profile starts from an empty aggregate).
pub open spec fn seller_rated(
    a: Map<Seq<u8>, SellerProfile>,
    b: Map<Seq<u8>, SellerProfile>,
    k: Seq<u8>,
    rating: u64,
) -> bool {
    let (m, c) = if a.contains_key(k) {
        (a[k].review_average, a[k].review_count)
    } else {
        (0u64, 0u64)
    };
    b.contains_key(k) && b[k].review_average == next_mean(m, c, rating) && b[k].review_count
        == next_count(c)
}

pub open spec fn buyer_rated(
    a: Map<Seq<u8>, BuyerProfile>,
    b: Map<Seq<u8>, BuyerProfile>,
    k: Seq<u8>,
    rating: u64,
) -> bool {
    let (m, c) = if a.contains_key(k) {
        (a[k].review_average, a[k].review_count)
    } else {
        (0u64, 0u64)
    };
    b.contains_key(k) && b[k].review_average == next_mean(m, c, rating) && b[k].review_count
        == next_count(c)
}

/// What rating an item does: its errors, and on success the record of the
/// rating and the updated aggregates of the item and its seller.
pub open spec fn rate_item_outcome(
    s0: ContractStorage,
    s1: ContractStorage,
    r: Result<(), Error>,
    caller: AccountId,
    item_id: Digest,
    rating: u64,
    review: Vec<u8>,
) -> bool {
    let too_large = review@.len() > REVIEW_LIMIT;
    let bounded = MIN_RATING <= rating <= MAX_RATING;
    let eligible = seq_has(ids(s0.account_buyer_items_bought, caller@), item_id@)
        && !seq_has(ids(s0.account_buyer_items_reviewed, caller@), item_id@);
    let listed = s0.product_details@.contains_key(item_id@)
        || s0.service_details@.contains_key(item_id@);
    &&& too_large ==> r == Err::<(), Error>(Error::DataTooLarge)
    &&& !too_large && !bounded ==> r == Err::<(), Error>(Error::RatingOutOfBounds)
    &&& !too_large && bounded && !eligible ==> r == Err::<(), Error>(
        Error::NotEligibleToReview)
    &&& !too_large && bounded && eligible && !listed ==> r == Err::<(), Error>(
        Error::ItemDoesNotExist)
    &&& !too_large && bounded && eligible && listed ==> r.is_ok()
    &&& r.is_err() ==> s1 == s0
    &&& r.is_ok() ==> {
        &&& !too_large && bounded && eligible && listed
        &&& ids(s1.account_buyer_items_reviewed, caller@) == push_bounded(
            ids(s0.account_buyer_items_reviewed, caller@),
            item_id,
            REVIEWED_CAPACITY as nat,
        )
        &&& seq_has(ids(s1.account_buyer_items_reviewed, caller@), item_id@)
        &&& s0.product_details@.contains_key(item_id@) ==> {
            let p = s0.product_details@[item_id@];
            &&& s1.product_details@ == s0.product_details@.insert(
                item_id@,
                Product {
                    review_average: next_mean(
                        p.review_average,
                        p.review_count,
                        rating,
                    ),
                    review_count: next_count(p.review_count),
                    ..p
                },
            )
            &&& s1.service_details == s0.service_details
            &&& seller_rated(
                s0.account_profile_seller@,
                s1.account_profile_seller@,
                p.seller_account@,
                rating,
            )
        }
        &&& !s0.product_details@.contains_key(item_id@) ==> {
            let v = s0.service_details@[item_id@];
            &&& s1.service_details@ == s0.service_details@.insert(
                item_id@,
                Service {
                    review_average: next_mean(
                        v.review_average,
                        v.review_count,
                        rating,
                    ),
                    review_count: next_count(v.review_count),
                    ..v
                },
            )
            &&& s1.product_details == s0.product_details
            &&& seller_rated(
                s0.account_profile_seller@,
                s1.account_profile_seller@,
                v.seller_account@,
                rating,
            )
        }
        &&& s1.order_details == s0.order_details
    }
}


/// An account rates an item at most once: after a successful rating, a
/// second rating of the same item by the same account fails with
/// `NotEligibleToReview` and changes nothing.
pub proof fn lemma_rate_item_once(
    s0: ContractStorage,
    s1: ContractStorage,
    s2: ContractStorage,
    r2: Result<(), Error>,
    caller: AccountId,
    item_id: Digest,
    rating1: u64,
    review1: Vec<u8>,
    rating2: u64,
    review2: Vec<u8>,
)
    requires
        rate_item_outcome(s0, s1, Ok(()), caller, item_id, rating1, review1),
        rate_item_outcome(s1, s2, r2, caller, item_id, rating2, review2),
        review2@.len() <= REVIEW_LIMIT,
        MIN_RATING <= rating2 <= MAX_RATING,
    ensures
        r2 == Err::<(), Error>(Error::NotEligibleToReview),
        s2 == s1,
{
}

impl ContractStorage {
    /// Rates an item that `caller` bought and has not rated yet: folds the
    /// rating into the item's aggregate and its seller's, and records the
    /// item as rated by `caller`. Once recorded, a second rating of the
    /// same item by `caller` fails and changes nothing.
    pub fn rate_a_product_or_service(
        &mut self,
        caller: AccountId,
        now: u64,
        item_id: Digest,
        rating: u64,
        review: Vec<u8>,
    ) -> (r: Result<(), Error>)
        requires
            old(self).wf(),
        ensures
            final(self).wf(),
            rate_item_outcome(*old(self), *final(self), r, caller, item_id, rating, review),
    {
        if review.len() > REVIEW_LIMIT {
            return Err(Error::DataTooLarge);
        }
        if rating < MIN_RATING || rating > MAX_RATING {
            return Err(Error::RatingOutOfBounds);
        }
        if !ids_has(&self.account_buyer_items_bought, &caller, &item_id) || ids_has(
            &self.account_buyer_items_reviewed,
            &caller,
            &item_id,
        ) {
            return Err(Error::NotEligibleToReview);
        }
        let is_product = self.product_details.contains(&item_id);
        if !is_product && !self.service_details.contains(&item_id) {
            return Err(Error::ItemDoesNotExist);
        }
        let mut rated = take_ids(&mut self.account_buyer_items_reviewed, &caller);
        push_evicting(&mut rated, item_id, REVIEWED_CAPACITY);
        proof {
            assert(rated@.last() == item_id);
        }
        put_ids(&mut self.account_buyer_items_reviewed, caller, rated);
        let seller: AccountId;
        if is_product {
            let mut p = self.product_details.take(&item_id).unwrap();
            let (m, c) = fold_rating(p.review_average, p.review_count, rating);
            p.review_average = m;
            p.review_count = c;
            seller = p.seller_account;
            let ghost p1 = p;
            self.product_details.put(item_id, p);
            assert(self.product_details@ =~= old(self).product_details@.insert(item_id@, p1));
        } else {
            let mut v = self.service_details.take(&item_id).unwrap();
            let (m, c) = fold_rating(v.review_average, v.review_count, rating);
            v.review_average = m;
            v.review_count = c;
            seller = v.seller_account;
            let ghost v1 = v;
            self.service_details.put(item_id, v);
            assert(self.service_details@ =~= old(self).service_details@.insert(item_id@, v1));
        }
        let mut sp = take_seller(&mut self.account_profile_seller, &seller);
        let (m, c) = fold_rating(sp.review_average, sp.review_count, rating);
        sp.review_average = m;
        sp.review_count = c;
        self.account_profile_seller.put(seller, sp);
        self.events.push(Event::NewProductRating(NewProductRating {
            review_id: review_id(caller, item_id),
            item_id,
            reviewer: caller,
            rating,
            review,
            timestamp: now,
        }));
        Ok(())
    }

    /// The seller of an order rates its buyer, once per buyer: folds the
    /// rating into the buyer's aggregate and records the buyer as rated.
    pub fn rate_a_buyer(
        &mut self,
        caller: AccountId,
        now: u64,
        buyer: AccountId,
        rating: u64,
        review: Vec<u8>,
        order_id: Digest,
    ) -> (r: Result<(), Error>)
        requires
            old(self).wf(),
        ensures
            final(self).wf(),
            ({
                let s0 = *old(self);
                let bounded = MIN_RATING <= rating <= MAX_RATING;
                let dealt = s0.is_seller_of(order_id@, caller@)
                    && s0.order_details@[order_id@].buyer@ == buyer@;
                let eligible = dealt && !seq_has(
                    accounts(s0.account_seller_buyers_reviewed, caller@),
                    buyer@,
                );
                &&& !bounded ==> r == Err::<(), Error>(Error::RatingOutOfBounds)
                &&& bounded && !eligible ==> r == Err::<(), Error>(Error::NotEligibleToReview)
                &&& bounded && eligible ==> r.is_ok()
                &&& r.is_err() ==> *final(self) == s0
                &&& r.is_ok() ==> {
                    let s1 = *final(self);
                    &&& bounded && eligible
                    &&& accounts(s1.account_seller_buyers_reviewed, caller@) == push_bounded(
                        accounts(s0.account_seller_buyers_reviewed, caller@),
                        buyer,
                        REVIEWED_CAPACITY as nat,
                    )
                    &&& seq_has(accounts(s1.account_seller_buyers_reviewed, caller@), buyer@)
                    &&& buyer_rated(
                        s0.account_profile_buyer@,
                        s1.account_profile_buyer@,
                        buyer@,
                        rating,
                    )
                    &&& s1.product_details == s0.product_details
                    &&& s1.service_details == s0.service_details
                    &&& s1.order_details == s0.order_details
                }
            }),
    {
        if rating < MIN_RATING || rating > MAX_RATING {
            return Err(Error::RatingOutOfBounds);
        }
        let dealt = match self.order_details.find(&order_id) {
            Some(i) => {
                proof {
                    self.order_details.lemma_index(i as int);
                }
                let o = &self.order_details.entries[i].1;
                o.seller == caller && o.buyer == buyer
            },
            None => false,
        };
        if !dealt || accounts_has(&self.account_seller_buyers_reviewed, &caller, &buyer) {
            return Err(Error::NotEligibleToReview);
        }
        let mut rated = take_accounts(&mut self.account_seller_buyers_reviewed, &caller);
        push_evicting(&mut rated, buyer, REVIEWED_CAPACITY);
        proof {
            assert(rated@.last() == buyer);
        }
        put_accounts(&mut self.account_seller_buyers_reviewed, caller, rated);
        let mut bp = take_buyer(&mut self.account_profile_buyer, &buyer);
        let (m, c) = fold_rating(bp.review_average, bp.review_count, rating);
        bp.review_average = m;
        bp.review_count = c;
        self.account_profile_buyer.put(buyer, bp);
        let id = buyer_review_id(caller, buyer, &review);
        self.events.push(Event::NewBuyerRating(NewBuyerRating {
            review_id: id,
            buyer,
            reviewer: caller,
            rating,
            review,
            timestamp: now,
        }));
        Ok(())
    }
}

} // verus!
