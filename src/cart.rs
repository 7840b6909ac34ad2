use vstd::prelude::*;

use crate::events::Error;
use crate::ids::{AccountId, Digest};
use crate::market::{cart_ok, ContractStorage, CART_CAPACITY};
use crate::money::{sat, saturating_add};
use crate::table::Key;
use crate::types::UnpaidCart;

verus! {

/// `s` without its lines for item `id`, the rest in order.
pub open spec fn drop_item(s: Seq<(Digest, u128)>, id: Seq<u8>) -> Seq<(Digest, u128)>
    decreases s.len(),
{
    if s.len() == 0 {
        s
    } else if s.last().0@ == id {
        drop_item(s.drop_last(), id)
    } else {
        drop_item(s.drop_last(), id).push(s.last())
    }
}

/// The quantity of the last line of `s` for item `id`.
pub open spec fn quantity_of(s: Seq<(Digest, u128)>, id: Seq<u8>) -> Option<u128>
    decreases s.len(),
{
    if s.len() == 0 {
        None
    } else if s.last().0@ == id {
        Some(s.last().1)
    } else {
        quantity_of(s.drop_last(), id)
    }
}

/// The lines after adding `qty` of `id`: an existing line's quantity grows
/// (saturating) and moves to the end; otherwise a new line is appended.
pub open spec fn lines_after_add(s: Seq<(Digest, u128)>, id: Digest, qty: u128) -> Seq<(Digest, u128)> {
    let q = match quantity_of(s, id@) {
        Some(old) => sat(old + qty),
        None => qty,
    };
    drop_item(s, id@).push((id, q))
}

fn drop_item_exec(v: &Vec<(Digest, u128)>, id: &Digest) -> (r: Vec<(Digest, u128)>)
    ensures
        r@ == drop_item(v@, id@),
{
    let mut out: Vec<(Digest, u128)> = Vec::new();
    let mut i: usize = 0;
    while i < v.len()
        invariant
            0 <= i <= v@.len(),
            out@ == drop_item(v@.take(i as int), id@),
        decreases v@.len() - i,
    {
        let x = v[i];
        proof {
            assert(v@.take(i + 1).drop_last() =~= v@.take(i as int));
        }
        if !x.0.same(id) {
            out.push(x);
        }
        i = i + 1;
    }
    assert(v@.take(v@.len() as int) =~= v@);
    out
}

fn quantity_of_exec(v: &Vec<(Digest, u128)>, id: &Digest) -> (r: Option<u128>)
    ensures
        r == quantity_of(v@, id@),
{
    let mut q: Option<u128> = None;
    let mut i: usize = 0;
    while i < v.len()
        invariant
            0 <= i <= v@.len(),
            q == quantity_of(v@.take(i as int), id@),
        decreases v@.len() - i,
    {
        proof {
            assert(v@.take(i + 1).drop_last() =~= v@.take(i as int));
        }
        if v[i].0.same(id) {
            q = Some(v[i].1);
        }
        i = i + 1;
    }
    assert(v@.take(v@.len() as int) =~= v@);
    q
}

impl ContractStorage {
    /// `buyer`'s cart holds `lines`, with the total at current prices and
    /// the line count recomputed.
    pub open spec fn cart_stored(&self, buyer: AccountId, lines: Seq<(Digest, u128)>) -> bool {
        &&& self.account_current_cart@.contains_key(buyer@)
        &&& self.account_current_cart@[buyer@].buyer == buyer
        &&& self.account_current_cart@[buyer@].cart_items@ == lines
        &&& self.account_current_cart@[buyer@].cart_total == sat(self.lines_sum(lines))
        &&& self.account_current_cart@[buyer@].total_items == lines.len()
    }

    /// Takes `buyer`'s cart lines out; none where there is no cart.
    fn take_cart_lines(&mut self, buyer: &AccountId) -> (r: Vec<(Digest, u128)>)
        requires
            old(self).wf(),
        ensures
            final(self).wf(),
            r@ == old(self).cart_lines(buyer@),
            final(self).account_current_cart@ == old(self).account_current_cart@.remove(buyer@),
            final(self).product_details == old(self).product_details,
            final(self).service_details == old(self).service_details,
            final(self).order_details == old(self).order_details,
    {
        match self.account_current_cart.take(buyer) {
            Some(c) => c.cart_items,
            None => Vec::new(),
        }
    }

    /// Stores `lines` as `buyer`'s cart, with its totals recomputed.
    fn store_cart(&mut self, buyer: AccountId, lines: Vec<(Digest, u128)>)
        requires
            old(self).wf(),
            !old(self).account_current_cart@.contains_key(buyer@),
            cart_ok(lines@),
        ensures
            final(self).wf(),
            final(self).cart_stored(buyer, lines@),
            final(self).account_current_cart@ == old(self).account_current_cart@.insert(
                buyer@,
                final(self).account_current_cart@[buyer@],
            ),
            final(self).product_details == old(self).product_details,
            final(self).service_details == old(self).service_details,
            final(self).order_details == old(self).order_details,
    {
        let total = self.lines_total(&lines);
        let n = lines.len() as u128;
        let ghost before = *self;
        let ghost l = lines@;
        self.account_current_cart.put(
            buyer,
            UnpaidCart { buyer, cart_total: total, total_items: n, cart_items: lines },
        );
        proof {
            self.lemma_lines_sum_catalog(before, l);
        }
    }

    /// Adds `quantity` of an item to `caller`'s cart, merging with a line
    /// for the same item; adding nothing changes nothing.
    pub fn add_item_to_cart(&mut self, caller: AccountId, add_item_id: Digest, quantity: u128) -> (r: Result<(), Error>)
        requires
            old(self).wf(),
        ensures
            final(self).wf(),
            cart_ok(final(self).cart_lines(caller@)),
            quantity == 0 ==> r.is_ok() && *final(self) == *old(self),
            quantity > 0 && old(self).cart_lines(caller@).len() >= CART_CAPACITY ==> r == Err::<(), Error>(Error::StorageFull)
                && *final(self) == *old(self),
            quantity > 0 && old(self).cart_lines(caller@).len() < CART_CAPACITY ==> r.is_ok()
                && final(self).cart_stored(caller, lines_after_add(old(self).cart_lines(caller@), add_item_id, quantity))
                && final(self).account_current_cart@ == old(self).account_current_cart@.insert(
                    caller@, final(self).account_current_cart@[caller@])
                && final(self).product_details == old(self).product_details
                && final(self).service_details == old(self).service_details
                && final(self).order_details == old(self).order_details,
    {
        if quantity == 0 {
            return Ok(());
        }
        let has = match self.account_current_cart.find(&caller) {
            Some(i) => {
                proof {
                    self.account_current_cart.lemma_index(i as int);
                }
                self.account_current_cart.entries[i].1.cart_items.len()
            },
            None => 0,
        };
        if has >= CART_CAPACITY {
            return Err(Error::StorageFull);
        }
        let ghost s0 = *self;
        let lines = self.take_cart_lines(&caller);
        let q = match quantity_of_exec(&lines, &add_item_id) {
            Some(old) => saturating_add(old, quantity),
            None => quantity,
        };
        let mut next = drop_item_exec(&lines, &add_item_id);
        proof {
            assert(cart_ok(lines@)) by {
                if !s0.account_current_cart@.contains_key(caller@) {
                    assert(lines@ =~= Seq::<(Digest, u128)>::empty());
                }
            }
            lemma_drop_item(lines@, add_item_id@);
            lemma_cart_push(next@, (add_item_id, q));
        }
        next.push((add_item_id, q));
        self.store_cart(caller, next);
        Ok(())
    }

    /// Removes an item's line from `caller`'s cart.
    pub fn remove_item_from_cart(&mut self, caller: AccountId, item_id: Digest) -> (r: Result<(), Error>)
        requires
            old(self).wf(),
        ensures
            final(self).wf(),
            cart_ok(final(self).cart_lines(caller@)),
            r.is_ok(),
            final(self).cart_stored(caller, drop_item(old(self).cart_lines(caller@), item_id@)),
            final(self).account_current_cart@ == old(self).account_current_cart@.insert(
                caller@, final(self).account_current_cart@[caller@]),
            final(self).product_details == old(self).product_details,
            final(self).service_details == old(self).service_details,
            final(self).order_details == old(self).order_details,
    {
        let ghost s0 = *self;
        let lines = self.take_cart_lines(&caller);
        let next = drop_item_exec(&lines, &item_id);
        proof {
            assert(cart_ok(lines@)) by {
                if !s0.account_current_cart@.contains_key(caller@) {
                    assert(lines@ =~= Seq::<(Digest, u128)>::empty());
                }
            }
            lemma_drop_item(lines@, item_id@);
        }
        self.store_cart(caller, next);
        Ok(())
    }

    /// Sets the quantity of an item in `caller`'s cart, adding its line
    /// where there was none; a quantity of 0 removes the line.
    pub fn update_cart_item_quantity(&mut self, caller: AccountId, item_id: Digest, new_quantity: u128) -> (r: Result<(), Error>)
        requires
            old(self).wf(),
        ensures
            final(self).wf(),
            cart_ok(final(self).cart_lines(caller@)),
            ({
                let kept = drop_item(old(self).cart_lines(caller@), item_id@);
                let next = if new_quantity == 0 {
                    kept
                } else {
                    kept.push((item_id, new_quantity))
                };
                &&& next.len() > CART_CAPACITY ==> r == Err::<(), Error>(Error::StorageFull)
                    && *final(self) == *old(self)
                &&& next.len() <= CART_CAPACITY ==> r.is_ok()
                    && final(self).cart_stored(caller, next)
                    && final(self).account_current_cart@ == old(self).account_current_cart@.insert(
                        caller@, final(self).account_current_cart@[caller@])
                    && final(self).product_details == old(self).product_details
                    && final(self).service_details == old(self).service_details
                    && final(self).order_details == old(self).order_details
            }),
    {
        let mut next = match self.account_current_cart.find(&caller) {
            Some(i) => {
                proof {
                    self.account_current_cart.lemma_index(i as int);
                }
                drop_item_exec(&self.account_current_cart.entries[i].1.cart_items, &item_id)
            },
            None => Vec::new(),
        };
        let ghost s0 = *self;
        proof {
            let c = s0.cart_lines(caller@);
            assert(cart_ok(c)) by {
                if !s0.account_current_cart@.contains_key(caller@) {
                    assert(c =~= Seq::<(Digest, u128)>::empty());
                }
            }
            lemma_drop_item(c, item_id@);
            assert(next@ == drop_item(c, item_id@)) by {
                if !s0.account_current_cart@.contains_key(caller@) {
                    assert(c =~= Seq::<(Digest, u128)>::empty());
                }
            }
        }
        if new_quantity > 0 && next.len() >= CART_CAPACITY {
            return Err(Error::StorageFull);
        }
        let _ = self.take_cart_lines(&caller);
        if new_quantity > 0 {
            proof {
                lemma_cart_push(next@, (item_id, new_quantity));
            }
            next.push((item_id, new_quantity));
        }
        self.store_cart(caller, next);
        Ok(())
    }
}

/// Dropping an item's lines keeps a cart well formed and leaves no line
/// for that item.
pub proof fn lemma_drop_item(s: Seq<(Digest, u128)>, id: Seq<u8>)
    ensures
        drop_item(s, id).len() <= s.len(),
        forall|j: int| 0 <= j < drop_item(s, id).len() ==> (#[trigger] drop_item(s, id)[j]).0@ != id
            && exists|i: int| 0 <= i < s.len() && s[i] == drop_item(s, id)[j],
        cart_ok(s) ==> cart_ok(drop_item(s, id)),
    decreases s.len(),
{
    if s.len() > 0 {
        let p = s.drop_last();
        lemma_drop_item(p, id);
        let w = drop_item(p, id);
        let d = drop_item(s, id);
        assert forall|j: int| 0 <= j < d.len() implies (#[trigger] d[j]).0@ != id
            && exists|i: int| 0 <= i < s.len() && s[i] == d[j] by {
            if j < w.len() {
                assert(d[j] == w[j]);
                let i = choose|i: int| 0 <= i < p.len() && p[i] == w[j];
                assert(s[i] == p[i]);
            } else {
                assert(s[s.len() - 1] == d[j]);
            }
        }
        if cart_ok(s) {
            assert(cart_ok(p)) by {
                assert forall|i: int, j: int| 0 <= i < j < p.len() implies (#[trigger] p[i]).0@ != (#[trigger] p[j]).0@ by {
                    assert(p[i] == s[i] && p[j] == s[j]);
                }
                assert forall|i: int| 0 <= i < p.len() implies (#[trigger] p[i]).1 > 0 by {
                    assert(p[i] == s[i]);
                }
            }
            assert forall|i: int, j: int| 0 <= i < j < d.len() implies (#[trigger] d[i]).0@ != (#[trigger] d[j]).0@ by {
                if j < w.len() {
                    assert(d[i] == w[i] && d[j] == w[j]);
                } else {
                    assert(d[i] == w[i]);
                    let a = choose|a: int| 0 <= a < p.len() && p[a] == w[i];
                    assert(s[a] == p[a]);
                    assert(d[j] == s[s.len() - 1]);
                }
            }
            assert forall|i: int| 0 <= i < d.len() implies (#[trigger] d[i]).1 > 0 by {
                let a = choose|a: int| 0 <= a < s.len() && s[a] == d[i];
            }
        }
    }
}

/// Appending a line for an item the cart lacks, with a positive quantity,
/// keeps it well formed while there is room.
proof fn lemma_cart_push(s: Seq<(Digest, u128)>, line: (Digest, u128))
    requires
        cart_ok(s),
        s.len() < CART_CAPACITY,
        line.1 > 0,
        forall|j: int| 0 <= j < s.len() ==> (#[trigger] s[j]).0@ != line.0@,
    ensures
        cart_ok(s.push(line)),
{
    let t = s.push(line);
    assert forall|i: int, j: int| 0 <= i < j < t.len() implies (#[trigger] t[i]).0@ != (#[trigger] t[j]).0@ by {
        assert(t[i] == s[i]);
        if j < s.len() {
            assert(t[j] == s[j]);
        }
    }
    assert forall|i: int| 0 <= i < t.len() implies (#[trigger] t[i]).1 > 0 by {
        if i < s.len() {
            assert(t[i] == s[i]);
        }
    }
}

} // verus!
