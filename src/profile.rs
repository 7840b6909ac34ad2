use vstd::prelude::*;

use crate::copy::copy_bytes;
use crate::events::{BuyerSettingsUpdated, Error, Event, SellerSettingsUpdated};
use crate::ids::AccountId;
use crate::lists::{remove_all, seq_has, without};
use crate::market::{accounts, accounts_has, accounts_len, put_accounts, take_accounts, ContractStorage};
use crate::orders::{take_buyer, take_seller};
use crate::types::{BuyerProfile, SellerProfile};

verus! {

/// Stores a buyer may bookmark.
pub const BOOKMARK_CAPACITY: usize = 20;

/// Longest name or location, in bytes.
pub const NAME_LIMIT: usize = 100;

/// Longest store description, in bytes.
pub const STORE_DESCRIPTION_LIMIT: usize = 600;

/// Longest banner, video or external link, in bytes.
pub const PROFILE_LINK_LIMIT: usize = 200;

impl ContractStorage {
    /// Adds a store to `caller`'s bookmarks.
    pub fn bookmark_a_store(&mut self, caller: AccountId, seller: AccountId) -> (r: Result<(), Error>)
        requires
            old(self).wf(),
        ensures
            final(self).wf(),
            ({
                let mine = accounts(old(self).account_store_bookmarks, caller@);
                &&& mine.len() >= BOOKMARK_CAPACITY ==> r == Err::<(), Error>(Error::StorageFull)
                &&& mine.len() < BOOKMARK_CAPACITY && seq_has(mine, seller@) ==> r == Err::<(), Error>(
                    Error::Duplicate)
                &&& mine.len() < BOOKMARK_CAPACITY && !seq_has(mine, seller@) ==> r.is_ok()
                &&& r.is_err() ==> *final(self) == *old(self)
                &&& r.is_ok() ==> mine.len() < BOOKMARK_CAPACITY && !seq_has(mine, seller@)
                    && accounts(final(self).account_store_bookmarks, caller@) == mine.push(seller)
                    && final(self).account_profile_seller == old(self).account_profile_seller
            }),
    {
        if accounts_len(&self.account_store_bookmarks, &caller) >= BOOKMARK_CAPACITY {
            return Err(Error::StorageFull);
        }
        if accounts_has(&self.account_store_bookmarks, &caller, &seller) {
            return Err(Error::Duplicate);
        }
        let mine = take_accounts(&mut self.account_store_bookmarks, &caller);
        let mut mine = mine;
        mine.push(seller);
        put_accounts(&mut self.account_store_bookmarks, caller, mine);
        Ok(())
    }

    /// Removes a store from `caller`'s bookmarks.
    pub fn remove_store_bookmark(&mut self, caller: AccountId, seller: AccountId) -> (r: Result<(), Error>)
        requires
            old(self).wf(),
        ensures
            final(self).wf(),
            r.is_ok(),
            accounts(final(self).account_store_bookmarks, caller@) == without(
                accounts(old(self).account_store_bookmarks, caller@),
                seller@,
            ),
            forall|k: Seq<u8>| k != caller@ ==> accounts(final(self).account_store_bookmarks, k)
                == accounts(old(self).account_store_bookmarks, k),
    {
        let mut mine = take_accounts(&mut self.account_store_bookmarks, &caller);
        remove_all(&mut mine, &seller);
        put_accounts(&mut self.account_store_bookmarks, caller, mine);
        Ok(())
    }

    /// Sets `caller`'s buyer name and location.
    pub fn update_buyer_account_settings(&mut self, caller: AccountId, name: Vec<u8>, location: Vec<u8>) -> (r: Result<(), Error>)
        requires
            old(self).wf(),
        ensures
            final(self).wf(),
            name@.len() > NAME_LIMIT || location@.len() > NAME_LIMIT ==> r == Err::<(), Error>(
                Error::DataTooLarge) && *final(self) == *old(self),
            name@.len() <= NAME_LIMIT && location@.len() <= NAME_LIMIT ==> {
                let p = final(self).account_profile_buyer@[caller@];
                &&& r.is_ok()
                &&& final(self).account_profile_buyer@ == old(self).account_profile_buyer@.insert(caller@, p)
                &&& p.buyer_account == caller
                &&& p.buyer_name == name
                &&& p.buyer_location == location
                &&& old(self).account_profile_buyer@.contains_key(caller@) ==> p == BuyerProfile {
                    buyer_account: caller,
                    buyer_name: name,
                    buyer_location: location,
                    ..old(self).account_profile_buyer@[caller@]
                }
            },
    {
        if name.len() > NAME_LIMIT || location.len() > NAME_LIMIT {
            return Err(Error::DataTooLarge);
        }
        self.events.push(Event::BuyerSettingsUpdated(BuyerSettingsUpdated {
            buyer_account: caller,
            name: copy_bytes(&name),
            location: copy_bytes(&location),
        }));
        let mut p = take_buyer(&mut self.account_profile_buyer, &caller);
        p.buyer_account = caller;
        p.buyer_name = name;
        p.buyer_location = location;
        self.account_profile_buyer.put(caller, p);
        Ok(())
    }

    /// Sets `caller`'s store details.
    pub fn update_seller_account_settings(
        &mut self,
        caller: AccountId,
        name: Vec<u8>,
        location: Vec<u8>,
        description: Vec<u8>,
        banner_url: Vec<u8>,
        youtube_url: Vec<u8>,
        external_link: Vec<u8>,
    ) -> (r: Result<(), Error>)
        requires
            old(self).wf(),
        ensures
            final(self).wf(),
            ({
                let too_large = name@.len() > NAME_LIMIT || location@.len() > NAME_LIMIT
                    || description@.len() > STORE_DESCRIPTION_LIMIT || banner_url@.len()
                    > PROFILE_LINK_LIMIT || youtube_url@.len() > PROFILE_LINK_LIMIT
                    || external_link@.len() > PROFILE_LINK_LIMIT;
                &&& too_large ==> r == Err::<(), Error>(Error::DataTooLarge) && *final(self) == *old(self)
                &&& !too_large ==> {
                    let p = final(self).account_profile_seller@[caller@];
                    &&& r.is_ok()
                    &&& final(self).account_profile_seller@ == old(self).account_profile_seller@.insert(caller@, p)
                    &&& p.seller_account == caller
                    &&& p.seller_name == name
                    &&& p.seller_location == location
                    &&& p.store_description == description
                    &&& p.banner_url == banner_url
                    &&& p.youtube_url == youtube_url
                    &&& p.external_link == external_link
                    &&& old(self).account_profile_seller@.contains_key(caller@) ==> p == SellerProfile {
                        seller_account: caller,
                        seller_name: name,
                        seller_location: location,
                        store_description: description,
                        banner_url,
                        youtube_url,
                        external_link,
                        ..old(self).account_profile_seller@[caller@]
                    }
                }
            }),
    {
        if name.len() > NAME_LIMIT || location.len() > NAME_LIMIT || description.len()
            > STORE_DESCRIPTION_LIMIT || banner_url.len() > PROFILE_LINK_LIMIT || youtube_url.len()
            > PROFILE_LINK_LIMIT || external_link.len() > PROFILE_LINK_LIMIT {
            return Err(Error::DataTooLarge);
        }
        self.events.push(Event::SellerSettingsUpdated(SellerSettingsUpdated {
            seller_account: caller,
            seller_name: copy_bytes(&name),
            store_description: copy_bytes(&description),
            seller_location: copy_bytes(&location),
            banner_url: copy_bytes(&banner_url),
            youtube_url: copy_bytes(&youtube_url),
            external_link: copy_bytes(&external_link),
        }));
        let mut p = take_seller(&mut self.account_profile_seller, &caller);
        p.seller_account = caller;
        p.seller_name = name;
        p.seller_location = location;
        p.store_description = description;
        p.banner_url = banner_url;
        p.youtube_url = youtube_url;
        p.external_link = external_link;
        self.account_profile_seller.put(caller, p);
        Ok(())
    }

    /// Whether `verify` has a buyer profile and a seller profile, as 1 or 0.
    pub fn verify_account(&self, verify: AccountId) -> (r: (u8, u8))
        requires
            self.wf(),
        ensures
            r.0 == (if self.account_profile_buyer@.contains_key(verify@) { 1u8 } else { 0u8 }),
            r.1 == (if self.account_profile_seller@.contains_key(verify@) { 1u8 } else { 0u8 }),
    {
        let buyer: u8 = if self.account_profile_buyer.contains(&verify) { 1 } else { 0 };
        let seller: u8 = if self.account_profile_seller.contains(&verify) { 1 } else { 0 };
        (buyer, seller)
    }
}

} // verus!
