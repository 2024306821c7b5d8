//! Sums over a page of investors, and the bound that the pro-rata payouts of
//! a page never exceed the investor pool.
use vstd::prelude::*;
use vstd::arithmetic::div_mod::*;
use vstd::arithmetic::mul::*;

use crate::math::{lemma_payout_bound, spec_payout};
use crate::state::InvestorDistribution;

verus! {

/// Sum of the locked amounts.
pub open spec fn sum_locked(s: Seq<InvestorDistribution>) -> nat
    decreases s.len(),
{
    if s.len() == 0 {
        0
    } else {
        sum_locked(s.drop_last()) + (s.last().locked_amount as nat)
    }
}

/// Sum of the initial allocations (Y0).
pub open spec fn sum_initial(s: Seq<InvestorDistribution>) -> nat
    decreases s.len(),
{
    if s.len() == 0 {
        0
    } else {
        sum_initial(s.drop_last()) + (s.last().initial_allocation as nat)
    }
}

/// The payout of one investor if it reaches the minimum, else 0.
pub open spec fn paid_amount(
    inv: InvestorDistribution,
    investor_fee_quote: u64,
    locked_total: u64,
    min_payout_quote: u64,
) -> nat {
    let p = spec_payout(investor_fee_quote, inv.locked_amount, locked_total);
    if p >= min_payout_quote {
        p
    } else {
        0
    }
}

/// Sum of the payouts that reach the minimum.
pub open spec fn paid_total(
    s: Seq<InvestorDistribution>,
    investor_fee_quote: u64,
    locked_total: u64,
    min_payout_quote: u64,
) -> nat
    decreases s.len(),
{
    if s.len() == 0 {
        0
    } else {
        paid_total(s.drop_last(), investor_fee_quote, locked_total, min_payout_quote)
            + paid_amount(s.last(), investor_fee_quote, locked_total, min_payout_quote)
    }
}

/// The sum over a prefix plus the next element is the sum over the longer prefix.
pub proof fn lemma_take_step(s: Seq<InvestorDistribution>, i: int)
    requires
        0 <= i < s.len(),
    ensures
        s.take(i + 1).drop_last() == s.take(i),
        s.take(i + 1).last() == s[i],
        sum_locked(s.take(i + 1)) == sum_locked(s.take(i)) + s[i].locked_amount,
        sum_initial(s.take(i + 1)) == sum_initial(s.take(i)) + s[i].initial_allocation,
{
    assert(s.take(i + 1).drop_last() =~= s.take(i));
}

/// The locked sum of a prefix is at most the locked sum of the whole.
pub proof fn lemma_prefix_sums(s: Seq<InvestorDistribution>, k: int)
    requires
        0 <= k <= s.len(),
    ensures
        sum_locked(s.take(k)) <= sum_locked(s),
        sum_initial(s.take(k)) <= sum_initial(s),
    decreases s.len(),
{
    if k == s.len() {
        assert(s.take(k) =~= s);
    } else {
        let t = s.drop_last();
        assert(t.take(k) =~= s.take(k));
        lemma_prefix_sums(t, k);
    }
}

/// What a page pays, times the locked total, is at most the pool times the
/// page's locked amounts.
pub proof fn lemma_paid_scaled(
    s: Seq<InvestorDistribution>,
    investor_fee_quote: u64,
    locked_total: u64,
    min_payout_quote: u64,
)
    ensures
        paid_total(s, investor_fee_quote, locked_total, min_payout_quote) * (locked_total as nat)
            <= (investor_fee_quote as nat) * sum_locked(s),
    decreases s.len(),
{
    if s.len() == 0 {
        lemma_mul_basics(locked_total as int);
        lemma_mul_basics(investor_fee_quote as int);
    } else {
        let t = s.drop_last();
        let l = s.last().locked_amount;
        lemma_paid_scaled(t, investor_fee_quote, locked_total, min_payout_quote);
        lemma_payout_bound(investor_fee_quote, l, locked_total);
        let pt = paid_total(t, investor_fee_quote, locked_total, min_payout_quote) as int;
        let pa = paid_amount(s.last(), investor_fee_quote, locked_total, min_payout_quote) as int;
        let lt = locked_total as int;
        let f = investor_fee_quote as int;
        lemma_mul_is_distributive_add_other_way(lt, pt, pa);
        lemma_mul_is_distributive_add(f, sum_locked(t) as int, l as int);
        lemma_mul_inequality(pa, spec_payout(investor_fee_quote, l, locked_total) as int, lt);
        assert(sum_locked(s) == sum_locked(t) + l);
        assert(pt * lt <= f * sum_locked(t));
        assert(pa * lt <= f * l);
        assert((pt + pa) * lt == pt * lt + pa * lt);
        assert(f * (sum_locked(t) + l) == f * sum_locked(t) + f * l);
    }
}

/// With nothing locked, nothing is paid.
pub proof fn lemma_paid_zero_total(s: Seq<InvestorDistribution>, investor_fee_quote: u64, min_payout_quote: u64)
    ensures
        paid_total(s, investor_fee_quote, 0, min_payout_quote) == 0,
    decreases s.len(),
{
    if s.len() > 0 {
        lemma_paid_zero_total(s.drop_last(), investor_fee_quote, min_payout_quote);
    }
}

/// What a page pays out is at most the investor pool, as long as the
/// page's locked amounts are part of `locked_total`.
pub proof fn lemma_paid_total_within_pool(
    s: Seq<InvestorDistribution>,
    investor_fee_quote: u64,
    locked_total: u64,
    min_payout_quote: u64,
)
    requires
        sum_locked(s) <= locked_total,
    ensures
        paid_total(s, investor_fee_quote, locked_total, min_payout_quote) <= investor_fee_quote,
{
    if locked_total == 0 {
        lemma_paid_zero_total(s, investor_fee_quote, min_payout_quote);
    } else {
        lemma_paid_scaled(s, investor_fee_quote, locked_total, min_payout_quote);
        let p = paid_total(s, investor_fee_quote, locked_total, min_payout_quote) as int;
        let f = investor_fee_quote as int;
        let t = locked_total as int;
        lemma_mul_inequality(sum_locked(s) as int, t, f);
        lemma_mul_is_commutative(sum_locked(s) as int, f);
        lemma_mul_is_commutative(t, f);
        lemma_mul_inequality_converse(p, f, t);
    }
}

/// Sums over two lists joined are the sums of the two.
pub proof fn lemma_sums_concat(
    a: Seq<InvestorDistribution>,
    b: Seq<InvestorDistribution>,
    investor_fee_quote: u64,
    locked_total: u64,
    min_payout_quote: u64,
)
    ensures
        sum_locked(a + b) == sum_locked(a) + sum_locked(b),
        sum_initial(a + b) == sum_initial(a) + sum_initial(b),
        paid_total(a + b, investor_fee_quote, locked_total, min_payout_quote) == paid_total(
            a,
            investor_fee_quote,
            locked_total,
            min_payout_quote,
        ) + paid_total(b, investor_fee_quote, locked_total, min_payout_quote),
    decreases b.len(),
{
    if b.len() == 0 {
        assert(a + b =~= a);
    } else {
        lemma_sums_concat(a, b.drop_last(), investor_fee_quote, locked_total, min_payout_quote);
        assert((a + b).drop_last() =~= a + b.drop_last());
        assert((a + b).last() == b.last());
    }
}

/// Sums over a list do not depend on the order of its items.
pub proof fn lemma_sums_reorder(s: Seq<InvestorDistribution>, t: Seq<InvestorDistribution>)
    requires
        s.to_multiset() == t.to_multiset(),
    ensures
        sum_locked(s) == sum_locked(t),
        sum_initial(s) == sum_initial(t),
    decreases s.len(),
{
    broadcast use vstd::seq_lib::group_to_multiset_ensures;
    broadcast use vstd::multiset::group_multiset_axioms;

    if s.len() == 0 {
        assert(s.to_multiset().len() == 0);
        assert(t.to_multiset().len() == t.len());
        assert(t =~= Seq::<InvestorDistribution>::empty());
    } else {
        let x = s.last();
        let rest = s.drop_last();
        assert(rest.push(x) =~= s);
        assert(s.to_multiset() =~= rest.to_multiset().insert(x));
        assert(t.to_multiset().count(x) > 0);
        assert(t.contains(x));
        let i = choose|i: int| 0 <= i < t.len() && t[i] == x;
        let shorter = t.remove(i);
        assert(shorter.to_multiset() =~= t.to_multiset().remove(x));
        assert(shorter.to_multiset() =~= rest.to_multiset());
        lemma_sums_reorder(rest, shorter);
        let front = t.take(i);
        let back = t.skip(i + 1);
        let one = seq![x];
        assert(shorter =~= front + back);
        assert(t =~= front + (one + back));
        lemma_sums_concat(front, back, 0, 0, 0);
        lemma_sums_concat(front, one + back, 0, 0, 0);
        lemma_sums_concat(one, back, 0, 0, 0);
        assert(one.drop_last() =~= Seq::<InvestorDistribution>::empty());
        assert(one.last() == x);
        assert(sum_locked(one.drop_last()) == 0);
        assert(sum_initial(one.drop_last()) == 0);
        assert(sum_locked(one) == x.locked_amount);
        assert(sum_initial(one) == x.initial_allocation);
        assert(sum_locked(s) == sum_locked(rest) + x.locked_amount);
        assert(sum_initial(s) == sum_initial(rest) + x.initial_allocation);
    }
}

} // verus!
