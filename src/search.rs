use vstd::prelude::*;
use vstd::utf8::valid_utf8;

use crate::ids::AccountId;
use crate::market::{ids, ContractStorage};
use crate::copy::{copy_bytes, copy_keys};
use crate::table::Table;
use crate::records::{copy_seller_profile, copy_service, same_seller_profile, same_service};
use crate::types::{
    HashVector, Product, ProductSearchResults, PublicProduct, SellerProfile, Service, ServiceSearchResults,
    StoreSearchResults,
};
use crate::views::{public_product, shows_product};
use crate::ids::Digest;

verus! {

/// Relies on core::str::from_utf8: it succeeds exactly on well-formed UTF-8.
#[verifier::external_body]
fn is_utf8(b: &Vec<u8>) -> (r: bool)
    ensures
        r == valid_utf8(b@),
{
    core::str::from_utf8(b.as_slice()).is_ok()
}

/// The text that bytes stand for: themselves where they are UTF-8, and the
/// empty text otherwise.
pub open spec fn text_of(b: Seq<u8>) -> Seq<u8> {
    if valid_utf8(b) {
        b
    } else {
        Seq::empty()
    }
}

/// `needle` occurs in `hay`.
pub open spec fn occurs(hay: Seq<u8>, needle: Seq<u8>) -> bool {
    exists|i: int| 0 <= i <= hay.len() - needle.len() && #[trigger] hay.subrange(i, i + needle.len()) == needle
}

/// `needle` occurs in one of `fields`.
pub open spec fn occurs_in_any(fields: Seq<Seq<u8>>, needle: Seq<u8>) -> bool {
    exists|f: int| 0 <= f < fields.len() && occurs(#[trigger] fields[f], needle)
}

/// Each keyword's text occurs in the text of some field.
pub open spec fn matches_all(fields: Seq<Seq<u8>>, k1: Seq<u8>, k2: Seq<u8>, k3: Seq<u8>) -> bool {
    let texts = fields.map_values(|f: Seq<u8>| text_of(f));
    occurs_in_any(texts, text_of(k1)) && occurs_in_any(texts, text_of(k2)) && occurs_in_any(texts, text_of(k3))
}

pub open spec fn product_fields(p: Product) -> Seq<Seq<u8>> {
    seq![p.title@, p.brand@, p.category@, p.description@, p.delivery_info@, p.product_location@, p.seller_name@]
}

pub open spec fn service_fields(s: Service) -> Seq<Seq<u8>> {
    seq![s.title@, s.seller_name@, s.category@, s.description@, s.service_location@]
}

pub open spec fn store_fields(p: SellerProfile) -> Seq<Seq<u8>> {
    seq![p.seller_name@, p.store_description@, p.seller_location@]
}

fn occurs_exec(hay: &Vec<u8>, needle: &Vec<u8>) -> (r: bool)
    ensures
        r == occurs(hay@, needle@),
{
    if needle.len() > hay.len() {
        return false;
    }
    let hl = hay.len();
    let last = hl - needle.len();
    let mut i: usize = 0;
    while i <= last
        invariant
            last == hay@.len() - needle@.len(),
            needle@.len() <= hay@.len(),
            hl == hay@.len(),
            0 <= i <= last,
            forall|j: int| 0 <= j < i ==> #[trigger] hay@.subrange(j, j + needle@.len()) != needle@,
        decreases last - i,
    {
        let mut k: usize = 0;
        while k < needle.len() && hay[i + k] == needle[k]
            invariant
                last == hay@.len() - needle@.len(),
                needle@.len() <= hay@.len(),
                hl == hay@.len(),
                0 <= i <= last,
                0 <= k <= needle@.len(),
                forall|m: int| 0 <= m < k ==> hay@[i + m] == needle@[m],
            decreases needle@.len() - k,
        {
            k = k + 1;
        }
        if k == needle.len() {
            assert(hay@.subrange(i as int, i + needle@.len()) =~= needle@);
            return true;
        }
        assert(hay@.subrange(i as int, i + needle@.len())[k as int] != needle@[k as int]);
        if i == last {
            return false;
        }
        i = i + 1;
    }
    false
}

fn text_exec(b: &Vec<u8>) -> (r: Vec<u8>)
    ensures
        r@ == text_of(b@),
{
    if is_utf8(b) {
        copy_bytes(b)
    } else {
        Vec::new()
    }
}

fn occurs_in_any_exec(fields: &Vec<Vec<u8>>, needle: &Vec<u8>) -> (r: bool)
    ensures
        r == occurs_in_any(fields@.map_values(|f: Vec<u8>| f@), needle@),
{
    let ghost fs = fields@.map_values(|f: Vec<u8>| f@);
    let mut i: usize = 0;
    while i < fields.len()
        invariant
            0 <= i <= fields@.len(),
            fs == fields@.map_values(|f: Vec<u8>| f@),
            forall|f: int| 0 <= f < i ==> !occurs(#[trigger] fs[f], needle@),
        decreases fields@.len() - i,
    {
        if occurs_exec(&fields[i], needle) {
            assert(fs[i as int] == fields@[i as int]@);
            return true;
        }
        i = i + 1;
    }
    false
}

/// Whether each keyword's text occurs in the text of some field.
fn matches_all_exec(fields: &Vec<Vec<u8>>, k1: &Vec<u8>, k2: &Vec<u8>, k3: &Vec<u8>) -> (r: bool)
    ensures
        r == matches_all(fields@.map_values(|f: Vec<u8>| f@), k1@, k2@, k3@),
{
    let mut texts: Vec<Vec<u8>> = Vec::new();
    let mut i: usize = 0;
    while i < fields.len()
        invariant
            0 <= i <= fields@.len(),
            texts@.len() == i,
            forall|j: int| 0 <= j < i ==> (#[trigger] texts@[j])@ == text_of(fields@[j]@),
        decreases fields@.len() - i,
    {
        texts.push(text_exec(&fields[i]));
        i = i + 1;
    }
    let ghost want = fields@.map_values(|f: Vec<u8>| f@).map_values(|f: Seq<u8>| text_of(f));
    assert(texts@.map_values(|f: Vec<u8>| f@) =~= want);
    let t1 = text_exec(k1);
    let t2 = text_exec(k2);
    let t3 = text_exec(k3);
    occurs_in_any_exec(&texts, &t1) && occurs_in_any_exec(&texts, &t2) && occurs_in_any_exec(&texts, &t3)
}


/// The identifiers that `t` lists under each of `sellers`, in order.
pub open spec fn listed(t: Table<AccountId, HashVector>, sellers: Seq<AccountId>) -> Seq<Digest>
    decreases sellers.len(),
{
    if sellers.len() == 0 {
        Seq::empty()
    } else {
        listed(t, sellers.drop_last()) + ids(t, sellers.last()@)
    }
}

/// Appends what `t` lists under each of `sellers`.
fn collect_listed(t: &Table<AccountId, HashVector>, sellers: &Vec<AccountId>) -> (r: Vec<Digest>)
    requires
        t.wf(),
    ensures
        r@ == listed(*t, sellers@),
{
    let mut out: Vec<Digest> = Vec::new();
    let mut i: usize = 0;
    while i < sellers.len()
        invariant
            t.wf(),
            0 <= i <= sellers@.len(),
            out@ == listed(*t, sellers@.take(i as int)),
        decreases sellers@.len() - i,
    {
        proof {
            assert(sellers@.take(i + 1).drop_last() =~= sellers@.take(i as int));
        }
        match t.find(&sellers[i]) {
            Some(e) => {
                proof {
                    t.lemma_index(e as int);
                }
                let mut more = copy_keys(&t.entries[e].1.hashvector);
                out.append(&mut more);
            },
            None => {
                assert(out@ + Seq::<Digest>::empty() =~= out@);
            },
        }
        i = i + 1;
    }
    assert(sellers@.take(sellers@.len() as int) =~= sellers@);
    out
}

fn bytes_list(a: &Vec<u8>, b: &Vec<u8>, c: &Vec<u8>) -> (r: Vec<Vec<u8>>)
    ensures
        r@.map_values(|f: Vec<u8>| f@) == seq![a@, b@, c@],
{
    let mut r: Vec<Vec<u8>> = Vec::new();
    r.push(copy_bytes(a));
    r.push(copy_bytes(b));
    r.push(copy_bytes(c));
    assert(r@.map_values(|f: Vec<u8>| f@) =~= seq![a@, b@, c@]);
    r
}

impl ContractStorage {
    /// The listed products among `cands` that match the keywords, in order.
    pub open spec fn product_hits(&self, cands: Seq<Digest>, k1: Seq<u8>, k2: Seq<u8>, k3: Seq<u8>) -> Seq<Digest>
        decreases cands.len(),
    {
        if cands.len() == 0 {
            Seq::empty()
        } else {
            let prev = self.product_hits(cands.drop_last(), k1, k2, k3);
            let id = cands.last()@;
            if self.product_details@.contains_key(id) && matches_all(product_fields(self.product_details@[id]), k1, k2, k3) {
                prev.push(cands.last())
            } else {
                prev
            }
        }
    }

    pub open spec fn service_hits(&self, cands: Seq<Digest>, k1: Seq<u8>, k2: Seq<u8>, k3: Seq<u8>) -> Seq<Digest>
        decreases cands.len(),
    {
        if cands.len() == 0 {
            Seq::empty()
        } else {
            let prev = self.service_hits(cands.drop_last(), k1, k2, k3);
            let id = cands.last()@;
            if self.service_details@.contains_key(id) && matches_all(service_fields(self.service_details@[id]), k1, k2, k3) {
                prev.push(cands.last())
            } else {
                prev
            }
        }
    }

    /// The sellers among `sellers` with a profile whose store matches the
    /// keywords, in order.
    pub open spec fn store_hits(&self, sellers: Seq<AccountId>, k1: Seq<u8>, k2: Seq<u8>, k3: Seq<u8>) -> Seq<AccountId>
        decreases sellers.len(),
    {
        if sellers.len() == 0 {
            Seq::empty()
        } else {
            let prev = self.store_hits(sellers.drop_last(), k1, k2, k3);
            let k = sellers.last()@;
            if self.account_profile_seller@.contains_key(k) && matches_all(store_fields(self.account_profile_seller@[k]), k1, k2, k3) {
                prev.push(sellers.last())
            } else {
                prev
            }
        }
    }

    /// Products of every store in which each keyword occurs in the title,
    /// brand, category, description, delivery details, location or seller
    /// name (bytes that are not UTF-8 count as empty text).
    pub fn search_products_by_keyword(&self, keywords1: Vec<u8>, keywords2: Vec<u8>, keywords3: Vec<u8>) -> (r: ProductSearchResults)
        requires
            self.wf(),
        ensures
            r.search@.map_values(|f: Vec<u8>| f@) == seq![keywords1@, keywords2@, keywords3@],
            ({
                let hits = self.product_hits(listed(self.account_seller_products, self.all_sellers@), keywords1@, keywords2@, keywords3@);
                &&& r.products@.len() == hits.len()
                &&& forall|j: int| 0 <= j < hits.len() ==> shows_product(#[trigger] r.products@[j], self.product_details@[hits[j]@])
            }),
    {
        let cands = collect_listed(&self.account_seller_products, &self.all_sellers);
        let ghost hits = |n: int| self.product_hits(cands@.take(n), keywords1@, keywords2@, keywords3@);
        let mut out: Vec<PublicProduct> = Vec::new();
        let mut i: usize = 0;
        while i < cands.len()
            invariant
                self.wf(),
                0 <= i <= cands@.len(),
                hits == (|n: int| self.product_hits(cands@.take(n), keywords1@, keywords2@, keywords3@)),
                out@.len() == hits(i as int).len(),
                forall|j: int| 0 <= j < out@.len() ==> shows_product(#[trigger] out@[j], self.product_details@[hits(i as int)[j]@]),
            decreases cands@.len() - i,
        {
            proof {
                assert(cands@.take(i + 1).drop_last() =~= cands@.take(i as int));
            }
            match self.product_details.find(&cands[i]) {
                Some(e) => {
                    proof {
                        self.product_details.lemma_index(e as int);
                    }
                    let p = &self.product_details.entries[e].1;
                    let mut fields: Vec<Vec<u8>> = Vec::new();
                    fields.push(copy_bytes(&p.title));
                    fields.push(copy_bytes(&p.brand));
                    fields.push(copy_bytes(&p.category));
                    fields.push(copy_bytes(&p.description));
                    fields.push(copy_bytes(&p.delivery_info));
                    fields.push(copy_bytes(&p.product_location));
                    fields.push(copy_bytes(&p.seller_name));
                    assert(fields@.map_values(|f: Vec<u8>| f@) =~= product_fields(*p));
                    if matches_all_exec(&fields, &keywords1, &keywords2, &keywords3) {
                        out.push(public_product(p));
                    }
                },
                None => {},
            }
            i = i + 1;
        }
        assert(cands@.take(cands@.len() as int) =~= cands@);
        ProductSearchResults { search: bytes_list(&keywords1, &keywords2, &keywords3), products: out }
    }

    /// Services of every store in which each keyword occurs in the title,
    /// seller name, category, description or location.
    pub fn search_services_by_keyword(&self, keywords1: Vec<u8>, keywords2: Vec<u8>, keywords3: Vec<u8>) -> (r: ServiceSearchResults)
        requires
            self.wf(),
        ensures
            r.search@.map_values(|f: Vec<u8>| f@) == seq![keywords1@, keywords2@, keywords3@],
            ({
                let hits = self.service_hits(listed(self.account_seller_services, self.all_sellers@), keywords1@, keywords2@, keywords3@);
                &&& r.services@.len() == hits.len()
                &&& forall|j: int| 0 <= j < hits.len() ==> same_service(#[trigger] r.services@[j], self.service_details@[hits[j]@])
            }),
    {
        let cands = collect_listed(&self.account_seller_services, &self.all_sellers);
        let ghost hits = |n: int| self.service_hits(cands@.take(n), keywords1@, keywords2@, keywords3@);
        let mut out: Vec<Service> = Vec::new();
        let mut i: usize = 0;
        while i < cands.len()
            invariant
                self.wf(),
                0 <= i <= cands@.len(),
                hits == (|n: int| self.service_hits(cands@.take(n), keywords1@, keywords2@, keywords3@)),
                out@.len() == hits(i as int).len(),
                forall|j: int| 0 <= j < out@.len() ==> same_service(#[trigger] out@[j], self.service_details@[hits(i as int)[j]@]),
            decreases cands@.len() - i,
        {
            proof {
                assert(cands@.take(i + 1).drop_last() =~= cands@.take(i as int));
            }
            match self.service_details.find(&cands[i]) {
                Some(e) => {
                    proof {
                        self.service_details.lemma_index(e as int);
                    }
                    let v = &self.service_details.entries[e].1;
                    let mut fields: Vec<Vec<u8>> = Vec::new();
                    fields.push(copy_bytes(&v.title));
                    fields.push(copy_bytes(&v.seller_name));
                    fields.push(copy_bytes(&v.category));
                    fields.push(copy_bytes(&v.description));
                    fields.push(copy_bytes(&v.service_location));
                    assert(fields@.map_values(|f: Vec<u8>| f@) =~= service_fields(*v));
                    if matches_all_exec(&fields, &keywords1, &keywords2, &keywords3) {
                        out.push(copy_service(v));
                    }
                },
                None => {},
            }
            i = i + 1;
        }
        assert(cands@.take(cands@.len() as int) =~= cands@);
        ServiceSearchResults { search: bytes_list(&keywords1, &keywords2, &keywords3), services: out }
    }

    /// Stores whose name, description or location hold each keyword.
    pub fn search_stores_by_keyword(&self, keywords1: Vec<u8>, keywords2: Vec<u8>, keywords3: Vec<u8>) -> (r: StoreSearchResults)
        requires
            self.wf(),
        ensures
            r.search@.map_values(|f: Vec<u8>| f@) == seq![keywords1@, keywords2@, keywords3@],
            ({
                let hits = self.store_hits(self.all_sellers@, keywords1@, keywords2@, keywords3@);
                &&& r.stores@.len() == hits.len()
                &&& forall|j: int| 0 <= j < hits.len() ==> same_seller_profile(#[trigger] r.stores@[j], self.account_profile_seller@[hits[j]@])
            }),
    {
        let sellers = &self.all_sellers;
        let ghost hits = |n: int| self.store_hits(sellers@.take(n), keywords1@, keywords2@, keywords3@);
        let mut out: Vec<SellerProfile> = Vec::new();
        let mut i: usize = 0;
        while i < sellers.len()
            invariant
                self.wf(),
                sellers == &self.all_sellers,
                0 <= i <= sellers@.len(),
                hits == (|n: int| self.store_hits(sellers@.take(n), keywords1@, keywords2@, keywords3@)),
                out@.len() == hits(i as int).len(),
                forall|j: int| 0 <= j < out@.len() ==> same_seller_profile(#[trigger] out@[j], self.account_profile_seller@[hits(i as int)[j]@]),
            decreases sellers@.len() - i,
        {
            proof {
                assert(sellers@.take(i + 1).drop_last() =~= sellers@.take(i as int));
            }
            match self.account_profile_seller.find(&sellers[i]) {
                Some(e) => {
                    proof {
                        self.account_profile_seller.lemma_index(e as int);
                    }
                    let p = &self.account_profile_seller.entries[e].1;
                    let mut fields: Vec<Vec<u8>> = Vec::new();
                    fields.push(copy_bytes(&p.seller_name));
                    fields.push(copy_bytes(&p.store_description));
                    fields.push(copy_bytes(&p.seller_location));
                    assert(fields@.map_values(|f: Vec<u8>| f@) =~= store_fields(*p));
                    if matches_all_exec(&fields, &keywords1, &keywords2, &keywords3) {
                        out.push(copy_seller_profile(p));
                    }
                },
                None => {},
            }
            i = i + 1;
        }
        assert(sellers@.take(sellers@.len() as int) =~= sellers@);
        StoreSearchResults { search: bytes_list(&keywords1, &keywords2, &keywords3), stores: out }
    }
}

} // verus!
