use vstd::prelude::*;

use crate::table::Key;

verus! {

/// `s` holds an element whose bytes are `k`.
pub open spec fn seq_has<K: Key>(s: Seq<K>, k: Seq<u8>) -> bool {
    exists|i: int| 0 <= i < s.len() && (#[trigger] s[i])@ == k
}

/// `s` without the elements whose bytes are `k`, the rest in order.
pub open spec fn without<K: Key>(s: Seq<K>, k: Seq<u8>) -> Seq<K>
    decreases s.len(),
{
    if s.len() == 0 {
        s
    } else if s.last()@ == k {
        without(s.drop_last(), k)
    } else {
        without(s.drop_last(), k).push(s.last())
    }
}

/// `s` with `x` appended, the oldest element dropped first when `s` already
/// holds `cap` or more.
pub open spec fn push_bounded<K>(s: Seq<K>, x: K, cap: nat) -> Seq<K> {
    if s.len() >= cap && s.len() > 0 {
        s.drop_first().push(x)
    } else {
        s.push(x)
    }
}

pub fn vec_has<K: Key>(v: &Vec<K>, k: &K) -> (r: bool)
    ensures
        r == seq_has(v@, k@),
{
    let mut i: usize = 0;
    while i < v.len()
        invariant
            0 <= i <= v@.len(),
            forall|j: int| 0 <= j < i ==> (#[trigger] v@[j])@ != k@,
        decreases v@.len() - i,
    {
        if v[i].same(k) {
            return true;
        }
        i = i + 1;
    }
    false
}

pub fn remove_all<K: Key>(v: &mut Vec<K>, k: &K)
    ensures
        final(v)@ == without(old(v)@, k@),
{
    let mut out: Vec<K> = Vec::new();
    let mut i: usize = 0;
    while i < v.len()
        invariant
            0 <= i <= v@.len(),
            v@ == old(v)@,
            out@ == without(v@.take(i as int), k@),
        decreases v@.len() - i,
    {
        let x = v[i];
        proof {
            assert(v@.take(i + 1).drop_last() =~= v@.take(i as int));
        }
        if !x.same(k) {
            out.push(x);
        }
        i = i + 1;
    }
    proof {
        assert(v@.take(v@.len() as int) =~= v@);
    }
    *v = out;
}

pub fn push_evicting<K: Key>(v: &mut Vec<K>, x: K, cap: usize)
    ensures
        final(v)@ == push_bounded(old(v)@, x, cap as nat),
{
    if v.len() >= cap && v.len() > 0 {
        v.remove(0);
    }
    v.push(x);
    proof {
        if old(v)@.len() >= cap && old(v)@.len() > 0 {
            assert(old(v)@.remove(0) =~= old(v)@.drop_first());
        }
    }
}

/// Removing an element leaves none with its bytes, and adds nothing.
pub proof fn lemma_without<K: Key>(s: Seq<K>, k: Seq<u8>)
    ensures
        !seq_has(without(s, k), k),
        forall|x: Seq<u8>| #[trigger] seq_has(without(s, k), x) ==> seq_has(s, x),
    decreases s.len(),
{
    if s.len() > 0 {
        lemma_without(s.drop_last(), k);
        let w = without(s.drop_last(), k);
        assert forall|x: Seq<u8>| #[trigger] seq_has(without(s, k), x) implies seq_has(s, x) by {
            let d = without(s, k);
            let i = choose|i: int| 0 <= i < d.len() && (#[trigger] d[i])@ == x;
            if i < w.len() {
                assert(d[i] == w[i]);
                assert(seq_has(w, x));
                let j = choose|j: int| 0 <= j < s.drop_last().len() && (#[trigger] s.drop_last()[j])@ == x;
                assert(s[j] == s.drop_last()[j]);
            } else {
                assert(s[s.len() - 1]@ == x);
            }
        }
        if s.last()@ != k {
            let d = without(s, k);
            if seq_has(d, k) {
                let i = choose|i: int| 0 <= i < d.len() && (#[trigger] d[i])@ == k;
                if i < w.len() {
                    assert(d[i] == w[i]);
                }
            }
        }
    }
}

} // verus!
