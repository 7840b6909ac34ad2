use vstd::arithmetic::div_mod::{lemma_div_denominator, lemma_fundamental_div_mod, lemma_mod_pos_bound};
use vstd::arithmetic::power2::{lemma_pow2_pos, lemma_pow2_unfold, pow2};
use vstd::prelude::*;

use crate::ids::AccountId;

verus! {

/// Amounts are unsigned integers in the smallest currency unit.
pub type Balance = u128;

/// Largest number of early buyers that share in an item's referral portion.
pub const MAX_REFERRERS: usize = 20;

/// `x` clamped to the range of `u128`.
pub open spec fn sat(x: int) -> u128 {
    if x > u128::MAX {
        u128::MAX
    } else if x < 0 {
        0
    } else {
        x as u128
    }
}

/// `a * b`, saturating at the largest `u128`.
pub fn saturating_mul(a: u128, b: u128) -> (r: u128)
    ensures
        r == sat(a * b),
{
    proof {
        if b != 0 {
            lemma_fundamental_div_mod(u128::MAX as int, b as int);
            lemma_mod_pos_bound(u128::MAX as int, b as int);
        }
    }
    if b != 0 && a > u128::MAX / b {
        proof {
            assert(a * b > u128::MAX) by (nonlinear_arith)
                requires
                    b > 0,
                    a > u128::MAX / b,
                    b * (u128::MAX / b) + u128::MAX % b == u128::MAX,
                    0 <= u128::MAX % b,
                    u128::MAX % b < b,
            ;
        }
        u128::MAX
    } else {
        proof {
            if b != 0 {
                assert(a * b <= u128::MAX) by (nonlinear_arith)
                    requires
                        b > 0,
                        a <= u128::MAX / b,
                        b * (u128::MAX / b) + u128::MAX % b == u128::MAX,
                        0 <= u128::MAX % b,
                ;
            }
            assert(0 <= a * b) by (nonlinear_arith);
        }
        a * b
    }
}

/// `a + b`, saturating at the largest `u128`.
pub fn saturating_add(a: u128, b: u128) -> (r: u128)
    ensures
        r == sat(a + b),
{
    if a > u128::MAX - b {
        u128::MAX
    } else {
        a + b
    }
}

/// Price of a line: quantity times unit price, saturating.
pub open spec fn line_total_of(qty: u128, price: u128) -> u128 {
    sat(qty * price)
}

/// The referral portion of a line: `percent` of its total, rounded down.
pub open spec fn referral_total_of(line_total: u128, percent: u128) -> u128 {
    (sat(line_total * percent) / 100) as u128
}

pub fn line_total(qty: u128, price: u128) -> (r: u128)
    ensures
        r == line_total_of(qty, price),
{
    saturating_mul(qty, price)
}

pub fn referral_total(line_total: u128, percent: u128) -> (r: u128)
    ensures
        r == referral_total_of(line_total, percent),
        percent <= 100 ==> r <= line_total,
{
    let p = saturating_mul(line_total, percent);
    proof {
        if percent <= 100 {
            if line_total * percent > u128::MAX {
                assert(line_total * percent <= line_total * 100) by (nonlinear_arith)
                    requires
                        percent <= 100,
                ;
            } else {
                assert(line_total * percent <= line_total * 100) by (nonlinear_arith)
                    requires
                        percent <= 100,
                ;
            }
        }
    }
    p / 100
}

/// A transfer of funds that the host is to perform.
#[derive(Clone, Copy, Debug, PartialEq, Eq)]
pub struct Payout {
    pub to: AccountId,
    pub amount: Balance,
}

/// Share of the k-th referrer (counted from 1) in a referral portion `z`.
pub open spec fn referral_share(z: nat, k: nat) -> nat {
    z / pow2(k)
}

/// Sum of the shares of the first `n` referrers.
pub open spec fn shares_total(z: nat, n: nat) -> nat
    decreases n,
{
    if n == 0 {
        0
    } else {
        shares_total(z, (n - 1) as nat) + referral_share(z, n)
    }
}

/// The halving series over `refs`: the k-th account receives `z / 2^k`.
pub open spec fn fanout(refs: Seq<AccountId>, z: nat) -> Seq<Payout> {
    Seq::new(
        refs.len(),
        |i: int| Payout { to: refs[i], amount: referral_share(z, (i + 1) as nat) as u128 },
    )
}

/// What is left of `z` after the first `n` referrers are paid.
pub open spec fn fanout_remainder(z: nat, n: nat) -> nat {
    (z - shares_total(z, n)) as nat
}

/// Transfers that release a line's funds: the seller is paid the line total
/// less the referral portion; the referral portion is fanned out over `refs`
/// by halving, and what is left of it goes to the seller.
pub open spec fn release_plan(
    seller: AccountId,
    line_total: u128,
    referral: u128,
    refs: Seq<AccountId>,
) -> Seq<Payout> {
    let first = seq![Payout { to: seller, amount: (line_total - referral) as u128 }];
    if referral == 0 {
        first
    } else {
        let rem = fanout_remainder(referral as nat, refs.len());
        let tail = if rem > 0 {
            seq![Payout { to: seller, amount: rem as u128 }]
        } else {
            Seq::<Payout>::empty()
        };
        first + fanout(refs, referral as nat) + tail
    }
}

/// Sum of the amounts of a list of transfers.
pub open spec fn payout_sum(ps: Seq<Payout>) -> nat
    decreases ps.len(),
{
    if ps.len() == 0 {
        0
    } else {
        payout_sum(ps.drop_last()) + ps.last().amount as nat
    }
}

proof fn lemma_share_halves(z: nat, k: nat)
    ensures
        referral_share(z, k + 1) == referral_share(z, k) / 2,
        pow2(k) > 0,
{
    lemma_pow2_pos(k);
    lemma_pow2_unfold(k + 1);
    lemma_div_denominator(z as int, pow2(k) as int, 2);
    assert(pow2(k) * 2 == pow2(k + 1)) by (nonlinear_arith)
        requires
            pow2(k + 1) == 2 * pow2(k),
    ;
}

proof fn lemma_shares_bound(z: nat, n: nat)
    ensures
        shares_total(z, n) + referral_share(z, n) <= z,
    decreases n,
{
    if n == 0 {
        assert(pow2(0) == 1) by {
            lemma_pow2_unfold(1);
            vstd::arithmetic::power2::lemma2_to64();
        }
    } else {
        lemma_shares_bound(z, (n - 1) as nat);
        lemma_share_halves(z, (n - 1) as nat);
        let x = referral_share(z, (n - 1) as nat);
        lemma_fundamental_div_mod(x as int, 2);
    }
}

/// The halving fan-out never pays out more than the referral portion, so
/// the shares and the remainder add up to it exactly; and the seller's part
/// and the referral portion add up to the line total.
pub proof fn lemma_fanout_conserves(line_total: u128, percent: u128, n: nat)
    requires
        percent <= 100,
    ensures
        ({
            let z = referral_total_of(line_total, percent) as nat;
            &&& shares_total(z, n) <= z
            &&& shares_total(z, n) + fanout_remainder(z, n) == z
            &&& (line_total - referral_total_of(line_total, percent)) + referral_total_of(
                line_total,
                percent,
            ) == line_total
            &&& referral_total_of(line_total, percent) <= line_total
        }),
{
    let z = referral_total_of(line_total, percent) as nat;
    lemma_shares_bound(z, n);
    if line_total * percent > u128::MAX {
        assert(line_total * percent <= line_total * 100) by (nonlinear_arith)
            requires
                percent <= 100,
        ;
    } else {
        assert(line_total * percent <= line_total * 100) by (nonlinear_arith)
            requires
                percent <= 100,
        ;
    }
}

proof fn lemma_payout_sum_append(ps: Seq<Payout>, qs: Seq<Payout>)
    ensures
        payout_sum(ps + qs) == payout_sum(ps) + payout_sum(qs),
    decreases qs.len(),
{
    if qs.len() == 0 {
        assert(ps + qs =~= ps);
    } else {
        lemma_payout_sum_append(ps, qs.drop_last());
        assert((ps + qs).drop_last() =~= ps + qs.drop_last());
    }
}

proof fn lemma_fanout_sum(refs: Seq<AccountId>, z: nat, n: nat)
    requires
        n <= refs.len(),
        z <= u128::MAX,
        refs.len() <= 64,
    ensures
        payout_sum(fanout(refs, z).take(n as int)) == shares_total(z, n),
    decreases n,
{
    if n > 0 {
        lemma_fanout_sum(refs, z, (n - 1) as nat);
        assert(fanout(refs, z).take(n as int).drop_last() =~= fanout(refs, z).take(n - 1));
        lemma_shares_bound(z, n);
        lemma_share_halves(z, (n - 1) as nat);
        let t = fanout(refs, z).take(n as int);
        assert(t.last().amount == referral_share(z, n) as u128);
    }
}

/// Releasing funds pays out exactly the line total: the seller's part, the
/// referrers' shares and the remainder add up to it.
pub proof fn lemma_release_plan_sum(seller: AccountId, line_total: u128, referral: u128, refs: Seq<AccountId>)
    requires
        referral <= line_total,
        refs.len() <= MAX_REFERRERS,
    ensures
        payout_sum(release_plan(seller, line_total, referral, refs)) == line_total,
{
    let z = referral;
    lemma_shares_bound(z as nat, refs.len());
    let first = seq![Payout { to: seller, amount: (line_total - z) as u128 }];
    assert(payout_sum(first) == line_total - z) by {
        reveal_with_fuel(payout_sum, 2);
        assert(first.drop_last() =~= Seq::<Payout>::empty());
    }
    if z != 0 {
        let rem = fanout_remainder(z as nat, refs.len());
        let tail = if rem > 0 {
            seq![Payout { to: seller, amount: rem as u128 }]
        } else {
            Seq::<Payout>::empty()
        };
        assert(payout_sum(tail) == rem) by {
            reveal_with_fuel(payout_sum, 2);
            if rem > 0 {
                assert(tail.drop_last() =~= Seq::<Payout>::empty());
            }
        }
        lemma_fanout_sum(refs, z as nat, refs.len());
        assert(fanout(refs, z as nat).take(refs.len() as int) =~= fanout(refs, z as nat));
        lemma_payout_sum_append(first, fanout(refs, z as nat));
        lemma_payout_sum_append(first + fanout(refs, z as nat), tail);
    }
}

/// Releasing a line at its referral percentage pays out exactly its total.
pub proof fn lemma_release_pays_line_total(
    seller: AccountId,
    line_total: u128,
    percent: u128,
    refs: Seq<AccountId>,
)
    requires
        percent <= 100,
        refs.len() <= MAX_REFERRERS,
    ensures
        payout_sum(
            release_plan(seller, line_total, referral_total_of(line_total, percent), refs),
        ) == line_total,
{
    lemma_fanout_conserves(line_total, percent, refs.len());
    lemma_release_plan_sum(seller, line_total, referral_total_of(line_total, percent), refs);
}

/// Builds the transfers that release a line's funds.
pub fn release_payouts(seller: AccountId, line_total: u128, referral: u128, refs: &Vec<AccountId>) -> (r:
    Vec<Payout>)
    requires
        referral <= line_total,
        refs@.len() <= MAX_REFERRERS,
    ensures
        r@ == release_plan(seller, line_total, referral, refs@),
{
    let mut out: Vec<Payout> = Vec::new();
    out.push(Payout { to: seller, amount: line_total - referral });
    if referral == 0 {
        return out;
    }
    let ghost z = referral as nat;
    let ghost first = out@;
    let mut cur: u128 = referral;
    let mut paid: u128 = 0;
    let mut i: usize = 0;
    proof {
        assert(pow2(0) == 1) by {
            lemma_pow2_unfold(1);
            vstd::arithmetic::power2::lemma2_to64();
        }
    }
    while i < refs.len()
        invariant
            0 <= i <= refs@.len(),
            refs@.len() <= MAX_REFERRERS,
            z == referral as nat,
            cur as nat == referral_share(z, i as nat),
            paid as nat == shares_total(z, i as nat),
            out@ == first + fanout(refs@, z).take(i as int),
        decreases refs@.len() - i,
    {
        proof {
            lemma_share_halves(z, i as nat);
            lemma_shares_bound(z, (i + 1) as nat);
        }
        cur = cur / 2;
        paid = paid + cur;
        out.push(Payout { to: refs[i], amount: cur });
        proof {
            assert(fanout(refs@, z).take(i + 1) =~= fanout(refs@, z).take(i as int).push(
                Payout { to: refs@[i as int], amount: cur },
            ));
        }
        i = i + 1;
    }
    proof {
        lemma_shares_bound(z, refs@.len());
        assert(fanout(refs@, z).take(refs@.len() as int) =~= fanout(refs@, z));
    }
    let rem = referral - paid;
    if rem > 0 {
        out.push(Payout { to: seller, amount: rem });
        assert(out@ =~= release_plan(seller, line_total, referral, refs@));
    } else {
        assert(out@ =~= release_plan(seller, line_total, referral, refs@));
    }
    out
}

/// Running mean after one more rating, in exact integer arithmetic
/// (`new = (mean * count + rating) / (count + 1)`, rounded down), with the
/// count and the sum saturating.
pub open spec fn next_mean(mean: u64, count: u64, rating: u64) -> u64 {
    let sum = if count * mean > u64::MAX {
        u64::MAX as int
    } else {
        count * mean
    };
    let sum2 = if sum + rating > u64::MAX {
        u64::MAX as int
    } else {
        sum + rating
    };
    let c2 = if count + 1 > u64::MAX {
        u64::MAX as int
    } else {
        count + 1
    };
    (sum2 / c2) as u64
}

pub open spec fn next_count(count: u64) -> u64 {
    if count == u64::MAX {
        count
    } else {
        (count + 1) as u64
    }
}

/// Folds one rating into a `(mean, count)` aggregate.
pub fn fold_rating(mean: u64, count: u64, rating: u64) -> (r: (u64, u64))
    ensures
        r.0 == next_mean(mean, count, rating),
        r.1 == next_count(count),
{
    proof {
        if mean != 0 {
            lemma_fundamental_div_mod(u64::MAX as int, mean as int);
            lemma_mod_pos_bound(u64::MAX as int, mean as int);
        }
    }
    let sum: u64 = if mean != 0 && count > u64::MAX / mean {
        proof {
            assert(count * mean > u64::MAX) by (nonlinear_arith)
                requires
                    mean > 0,
                    count > u64::MAX / mean,
                    mean * (u64::MAX / mean) + u64::MAX % mean == u64::MAX,
                    0 <= u64::MAX % mean,
                    u64::MAX % mean < mean,
            ;
        }
        u64::MAX
    } else {
        proof {
            if mean != 0 {
                assert(count * mean <= u64::MAX) by (nonlinear_arith)
                    requires
                        mean > 0,
                        count <= u64::MAX / mean,
                        mean * (u64::MAX / mean) + u64::MAX % mean == u64::MAX,
                        0 <= u64::MAX % mean,
                ;
            }
            assert(0 <= count * mean) by (nonlinear_arith);
        }
        count * mean
    };
    let sum2 = sum.saturating_add(rating);
    let c2 = count.saturating_add(1);
    (sum2 / c2, c2)
}

/// Sum of a list of ratings.
pub open spec fn ratings_sum(rs: Seq<u64>) -> int
    decreases rs.len(),
{
    if rs.len() == 0 {
        0
    } else {
        ratings_sum(rs.drop_last()) + rs.last()
    }
}

/// The aggregate reached by folding `rs` into an empty one, in order.
pub open spec fn mean_of(rs: Seq<u64>) -> (u64, u64)
    decreases rs.len(),
{
    if rs.len() == 0 {
        (0, 0)
    } else {
        let prev = mean_of(rs.drop_last());
        (next_mean(prev.0, prev.1, rs.last()), next_count(prev.1))
    }
}

/// After `n` ratings of 1 to 5 the count is `n`, and where the mean of every
/// shorter prefix was exact (its sum divisible by its length), the mean is
/// the sum divided by `n`, rounded down.
pub proof fn lemma_mean_of_ratings(rs: Seq<u64>)
    requires
        rs.len() < 1000000,
        forall|i: int| 0 <= i < rs.len() ==> 1 <= #[trigger] rs[i] <= 5,
        forall|k: int| 1 <= k < rs.len() ==> #[trigger] ratings_sum(rs.take(k)) % k == 0,
    ensures
        mean_of(rs).1 == rs.len(),
        rs.len() > 0 ==> mean_of(rs).0 == ratings_sum(rs) / (rs.len() as int),
        mean_of(rs).0 <= 5,
    decreases rs.len(),
{
    if rs.len() > 0 {
        let n = rs.len() as int;
        let prev = rs.drop_last();
        assert forall|i: int| 0 <= i < prev.len() implies 1 <= #[trigger] prev[i] <= 5 by {
            assert(prev[i] == rs[i]);
        }
        assert forall|k: int| 1 <= k < prev.len() implies #[trigger] ratings_sum(prev.take(k)) % k
            == 0 by {
            assert(prev.take(k) =~= rs.take(k));
        }
        lemma_mean_of_ratings(prev);
        lemma_sum_bound(prev);
        let (m, c) = mean_of(prev);
        let s = ratings_sum(prev);
        assert(c == n - 1);
        if n > 1 {
            assert(prev =~= rs.take(n - 1));
            assert(s % (n - 1) == 0);
            lemma_fundamental_div_mod(s, n - 1);
            assert(m * c == s) by (nonlinear_arith)
                requires
                    m == s / (n - 1),
                    c == n - 1,
                    s == (n - 1) * (s / (n - 1)) + s % (n - 1),
                    s % (n - 1) == 0,
            ;
        } else {
            assert(m * c == 0) by (nonlinear_arith)
                requires
                    c == 0,
            ;
            assert(s == 0);
        }
        assert(m * c <= 5 * 1000000) by (nonlinear_arith)
            requires
                m * c == s,
                s <= 5 * (n - 1),
                n < 1000000,
        ;
        assert(ratings_sum(rs) == s + rs.last());
        let total = s + rs.last();
        assert(total / n <= 5) by (nonlinear_arith)
            requires
                total <= 5 * n,
                n > 0,
                total >= 0,
        ;
        assert(total <= 5 * n) by {
            assert(rs.last() <= 5);
        }
    }
}

proof fn lemma_sum_bound(rs: Seq<u64>)
    requires
        forall|i: int| 0 <= i < rs.len() ==> 1 <= #[trigger] rs[i] <= 5,
    ensures
        0 <= ratings_sum(rs) <= 5 * rs.len(),
    decreases rs.len(),
{
    if rs.len() > 0 {
        let prev = rs.drop_last();
        assert forall|i: int| 0 <= i < prev.len() implies 1 <= #[trigger] prev[i] <= 5 by {
            assert(prev[i] == rs[i]);
        }
        lemma_sum_bound(prev);
        assert(rs.last() == rs[rs.len() - 1]);
    }
}

} // verus!
