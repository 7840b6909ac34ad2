use vstd::prelude::*;

use crate::ids::{AccountId, Digest};

verus! {

/// Identifier of a checkout: digest of the encoded (buyer, time).
pub uninterp spec fn cart_id_of(buyer: Seq<u8>, at: u64) -> Seq<u8>;

/// Identifier of an order: digest of the encoded (buyer, time, item).
pub uninterp spec fn order_id_of(buyer: Seq<u8>, at: u64, item: Seq<u8>) -> Seq<u8>;

/// Identifier of a message: digest of the encoded (sender, time, order, text).
pub uninterp spec fn message_id_of(sender: Seq<u8>, at: u64, order: Seq<u8>, text: Seq<u8>) -> Seq<u8>;

/// Identifier of a listing: digest of the encoded (seller, title, time).
pub uninterp spec fn listing_id_of(seller: Seq<u8>, title: Seq<u8>, at: u64) -> Seq<u8>;

/// Identifier of an item rating: digest of the encoded (rater, item).
pub uninterp spec fn review_id_of(rater: Seq<u8>, item: Seq<u8>) -> Seq<u8>;

/// Identifier of a buyer rating: digest of the encoded (rater, buyer, text).
pub uninterp spec fn buyer_review_id_of(rater: Seq<u8>, buyer: Seq<u8>, text: Seq<u8>) -> Seq<u8>;

/// Relies on ink::env::hash_encoded with Sha2x256 over (AccountId, Hash):
/// the digest depends on the encoded values alone.
#[verifier::external_body]
pub(crate) fn review_id(rater: AccountId, item: Digest) -> (r: Digest)
    ensures
        r@ == review_id_of(rater@, item@),
{
    let mut out = <ink::env::hash::Sha2x256 as ink::env::hash::HashOutput>::Type::default();
    let input = (ink::primitives::AccountId::from(rater.bytes), ink::primitives::Hash::from(item.bytes));
    ink::env::hash_encoded::<ink::env::hash::Sha2x256, _>(&input, &mut out);
    Digest { bytes: out }
}

/// Relies on ink::env::hash_encoded with Sha2x256 over (AccountId, AccountId,
/// Vec<u8>): the digest depends on the encoded values alone.
#[verifier::external_body]
pub(crate) fn buyer_review_id(rater: AccountId, buyer: AccountId, text: &Vec<u8>) -> (r: Digest)
    ensures
        r@ == buyer_review_id_of(rater@, buyer@, text@),
{
    let mut out = <ink::env::hash::Sha2x256 as ink::env::hash::HashOutput>::Type::default();
    let input = (
        ink::primitives::AccountId::from(rater.bytes),
        ink::primitives::AccountId::from(buyer.bytes),
        text,
    );
    ink::env::hash_encoded::<ink::env::hash::Sha2x256, _>(&input, &mut out);
    Digest { bytes: out }
}

/// Relies on ink::env::hash_encoded with Sha2x256 over (AccountId, u64): the
/// digest depends on the encoded values alone.
#[verifier::external_body]
pub(crate) fn cart_id(buyer: AccountId, at: u64) -> (r: Digest)
    ensures
        r@ == cart_id_of(buyer@, at),
{
    let mut out = <ink::env::hash::Sha2x256 as ink::env::hash::HashOutput>::Type::default();
    let input = (ink::primitives::AccountId::from(buyer.bytes), at);
    ink::env::hash_encoded::<ink::env::hash::Sha2x256, _>(&input, &mut out);
    Digest { bytes: out }
}

/// Relies on ink::env::hash_encoded with Sha2x256 over (AccountId, u64,
/// Hash): the digest depends on the encoded values alone.
#[verifier::external_body]
pub(crate) fn order_id(buyer: AccountId, at: u64, item: Digest) -> (r: Digest)
    ensures
        r@ == order_id_of(buyer@, at, item@),
{
    let mut out = <ink::env::hash::Sha2x256 as ink::env::hash::HashOutput>::Type::default();
    let input = (
        ink::primitives::AccountId::from(buyer.bytes),
        at,
        ink::primitives::Hash::from(item.bytes),
    );
    ink::env::hash_encoded::<ink::env::hash::Sha2x256, _>(&input, &mut out);
    Digest { bytes: out }
}

/// Relies on ink::env::hash_encoded with Sha2x256 over (AccountId, u64, Hash,
/// Vec<u8>): the digest depends on the encoded values alone.
#[verifier::external_body]
pub(crate) fn message_id(sender: AccountId, at: u64, order: Digest, text: &Vec<u8>) -> (r: Digest)
    ensures
        r@ == message_id_of(sender@, at, order@, text@),
{
    let mut out = <ink::env::hash::Sha2x256 as ink::env::hash::HashOutput>::Type::default();
    let input = (
        ink::primitives::AccountId::from(sender.bytes),
        at,
        ink::primitives::Hash::from(order.bytes),
        text,
    );
    ink::env::hash_encoded::<ink::env::hash::Sha2x256, _>(&input, &mut out);
    Digest { bytes: out }
}

/// Relies on ink::env::hash_encoded with Sha2x256 over (AccountId, Vec<u8>,
/// u64): the digest depends on the encoded values alone.
#[verifier::external_body]
pub(crate) fn listing_id(seller: AccountId, title: &Vec<u8>, at: u64) -> (r: Digest)
    ensures
        r@ == listing_id_of(seller@, title@, at),
{
    let mut out = <ink::env::hash::Sha2x256 as ink::env::hash::HashOutput>::Type::default();
    let input = (ink::primitives::AccountId::from(seller.bytes), title, at);
    ink::env::hash_encoded::<ink::env::hash::Sha2x256, _>(&input, &mut out);
    Digest { bytes: out }
}

} // verus!
