//! Properties of the distribution as a whole.
use vstd::prelude::*;
use vstd::arithmetic::div_mod::*;
use vstd::arithmetic::mul::*;

use crate::crank::{
    lemma_apply_page_wf, spec_apply_page, spec_close_day, spec_crank_allowed, spec_crank_error,
    spec_day_base, spec_day_investor_fee, spec_next_page,
};
use crate::math::{
    lemma_investor_fee_bound, lemma_payout_bound, spec_distributable, spec_eligible_share_bps,
    spec_investor_fee_quote, spec_locked_ratio_bps, spec_payout,
};
use crate::state::{DistributeFeesCrank, ErrorCode, InvestorDistribution, ProgressPda};
use crate::sums::{lemma_sums_concat, lemma_sums_reorder, paid_total, sum_initial, sum_locked};

verus! {

/// The daily cap holds: no more than the cap, and no more than was claimed,
/// is distributed in a day.
pub proof fn law_distributable_within_cap(claimed_quote: u64, daily_cap_quote: u64)
    ensures
        spec_distributable(claimed_quote, daily_cap_quote) <= daily_cap_quote,
        spec_distributable(claimed_quote, daily_cap_quote) <= claimed_quote,
        claimed_quote <= daily_cap_quote ==> spec_distributable(claimed_quote, daily_cap_quote)
            == claimed_quote,
{
}

/// The eligible share is the smaller of the policy's share and the locked
/// ratio, with no truncation: it never exceeds either.
pub proof fn law_eligible_share_capped(f_locked_bps: nat, investor_fee_share_bps: u16)
    ensures
        spec_eligible_share_bps(f_locked_bps, investor_fee_share_bps) <= investor_fee_share_bps,
        spec_eligible_share_bps(f_locked_bps, investor_fee_share_bps) <= f_locked_bps,
        spec_eligible_share_bps(f_locked_bps, investor_fee_share_bps) == f_locked_bps
            || spec_eligible_share_bps(f_locked_bps, investor_fee_share_bps) == investor_fee_share_bps,
{
}

/// When no more is locked than was allocated, the locked ratio is at most
/// 10000 basis points.
pub proof fn law_locked_ratio_at_most_full(locked_total: u64, y0_total: u64)
    requires
        locked_total <= y0_total,
    ensures
        spec_locked_ratio_bps(locked_total, y0_total) <= 10000,
{
    if y0_total > 0 {
        let y = y0_total as int;
        lemma_mul_inequality(locked_total as int, y, 10000);
        lemma_div_is_ordered(locked_total * 10000, y * 10000, y);
        lemma_div_by_multiple(10000, y);
        lemma_mul_is_commutative(y, 10000);
    }
}

/// With a share of at most 100%, the investor pool never exceeds the
/// distributable amount.
pub proof fn law_investor_fee_within_distributable(distributable: u64, eligible_share_bps: u16)
    requires
        eligible_share_bps <= 10000,
    ensures
        spec_investor_fee_quote(distributable, eligible_share_bps) <= distributable,
{
    lemma_investor_fee_bound(distributable, eligible_share_bps);
}

/// A share of 100% passes the whole amount on, for every amount.
pub proof fn law_full_share_keeps_amount(distributable: u64)
    ensures
        spec_investor_fee_quote(distributable, 10000) == distributable,
{
    lemma_div_by_multiple(distributable as int, 10000);
}

/// Nothing claimed, nothing for investors.
pub proof fn law_zero_fees(eligible_share_bps: u16)
    ensures
        spec_investor_fee_quote(0, eligible_share_bps) == 0,
{
}

/// When nothing is locked any more, the investor pool is empty, so the
/// creator gets the whole distributable amount.
pub proof fn law_all_unlocked_all_to_creator(distributable: u64, investor_fee_share_bps: u16, y0_total: u64)
    ensures
        spec_day_investor_fee(distributable, investor_fee_share_bps, 0, y0_total) == 0,
{
    if y0_total > 0 {
        lemma_div_of0(y0_total as int);
    }
    lemma_mul_basics(distributable as int);
}

/// Pro-rata: an investor with more locked never gets less.
pub proof fn law_payout_monotone(
    investor_fee_quote: u64,
    locked_a: u64,
    locked_b: u64,
    locked_total: u64,
)
    requires
        locked_a <= locked_b,
    ensures
        spec_payout(investor_fee_quote, locked_a, locked_total) <= spec_payout(
            investor_fee_quote,
            locked_b,
            locked_total,
        ),
{
    if locked_total > 0 {
        let f = investor_fee_quote as int;
        lemma_mul_inequality(locked_a as int, locked_b as int, f);
        lemma_mul_is_commutative(locked_a as int, f);
        lemma_mul_is_commutative(locked_b as int, f);
        lemma_div_is_ordered(f * locked_a, f * locked_b, locked_total as int);
    }
}

/// One investor's payout never exceeds the investor pool.
pub proof fn law_payout_within_pool(investor_fee_quote: u64, locked_amount: u64, locked_total: u64)
    requires
        locked_amount <= locked_total,
    ensures
        spec_payout(investor_fee_quote, locked_amount, locked_total) <= investor_fee_quote,
{
    lemma_payout_bound(investor_fee_quote, locked_amount, locked_total);
}

/// Pagination only batches the investor list: paying the investors `a` and
/// then `b` on two pages leaves the day exactly as paying `a + b` on one.
pub proof fn law_two_pages_pay_as_one(
    p: ProgressPda,
    a: Seq<InvestorDistribution>,
    b: Seq<InvestorDistribution>,
    min_payout_quote: u64,
)
    requires
        p.wf(),
        p.day_locked_seen + sum_locked(a + b) <= p.day_locked_total,
    ensures
        spec_apply_page(spec_apply_page(p, a, min_payout_quote), b, min_payout_quote) == spec_apply_page(
            p,
            a + b,
            min_payout_quote,
        ),
{
    lemma_sums_concat(a, b, p.day_investor_fee, p.day_locked_total, min_payout_quote);
    lemma_apply_page_wf(p, a, min_payout_quote);
    lemma_apply_page_wf(spec_apply_page(p, a, min_payout_quote), b, min_payout_quote);
    lemma_apply_page_wf(p, a + b, min_payout_quote);
}

/// The progress after paying a sequence of pages, in order.
pub open spec fn spec_apply_pages(
    p: ProgressPda,
    pages: Seq<Seq<InvestorDistribution>>,
    min_payout_quote: u64,
) -> ProgressPda
    decreases pages.len(),
{
    if pages.len() == 0 {
        p
    } else {
        spec_apply_pages(spec_apply_page(p, pages[0], min_payout_quote), pages.drop_first(), min_payout_quote)
    }
}

/// What a sequence of pages pays investors, page by page.
pub open spec fn spec_pages_paid(
    p: ProgressPda,
    pages: Seq<Seq<InvestorDistribution>>,
    min_payout_quote: u64,
) -> nat
    decreases pages.len(),
{
    if pages.len() == 0 {
        0
    } else {
        paid_total(pages[0], p.day_investor_fee, p.day_locked_total, min_payout_quote)
            + spec_pages_paid(spec_apply_page(p, pages[0], min_payout_quote), pages.drop_first(), min_payout_quote)
    }
}

/// Pagination only batches the investor list, for any number of pages: the
/// pages of a day pay, together, exactly what one page with all their
/// investors pays, and leave the day in the same state, so the creator's
/// share on the final page is the same too.
pub proof fn law_pages_pay_as_one(
    p: ProgressPda,
    pages: Seq<Seq<InvestorDistribution>>,
    min_payout_quote: u64,
)
    requires
        p.wf(),
        p.day_locked_seen + sum_locked(pages.flatten()) <= p.day_locked_total,
    ensures
        spec_apply_pages(p, pages, min_payout_quote) == spec_apply_page(p, pages.flatten(), min_payout_quote),
        spec_pages_paid(p, pages, min_payout_quote) == paid_total(
            pages.flatten(),
            p.day_investor_fee,
            p.day_locked_total,
            min_payout_quote,
        ),
    decreases pages.len(),
{
    if pages.len() == 0 {
        let e = Seq::<InvestorDistribution>::empty();
        assert(pages.flatten() =~= e);
        let q = spec_apply_page(p, e, min_payout_quote);
        assert(q == p);
    } else {
        let a = pages[0];
        let rest = pages.drop_first();
        assert(pages.flatten() == a + rest.flatten());
        lemma_sums_concat(a, rest.flatten(), p.day_investor_fee, p.day_locked_total, min_payout_quote);
        lemma_apply_page_wf(p, a, min_payout_quote);
        let q = spec_apply_page(p, a, min_payout_quote);
        law_pages_pay_as_one(q, rest, min_payout_quote);
        law_two_pages_pay_as_one(p, a, rest.flatten(), min_payout_quote);
    }
}

/// No tokens are lost: in a well-formed progress, what investors have been
/// paid is at most the pool, which is at most the day's amount, so the
/// creator's share on the final page (the day's amount less what investors
/// were paid) is never negative, and the two add up to the day's amount.
pub proof fn law_no_tokens_lost(p: ProgressPda)
    requires
        p.wf(),
    ensures
        0 <= p.day_paid() <= p.day_investor_fee <= p.day_distributable,
        p.day_paid() + ((p.day_distributable - p.day_paid()) as u64) == p.day_distributable,
{
}

/// At most one day closes per 24 hours: once a day has closed at `now`
/// (a non-zero time), the crank is refused at any time less than 86400
/// seconds later, so a closed day is never paid twice.
pub proof fn law_one_close_per_day(progress: ProgressPda, now: i64, later: i64)
    requires
        now != 0,
        later - now < 86400,
    ensures
        !spec_crank_allowed(spec_close_day(progress, now).last_distribution_ts, later),
{
}

/// The first distribution is always allowed, and once 86400 seconds have
/// passed since the last close the crank may run again.
pub proof fn law_crank_reopens(last_distribution_ts: i64, now: i64)
    ensures
        spec_crank_allowed(0, now),
        now - last_distribution_ts >= 86400 ==> spec_crank_allowed(last_distribution_ts, now),
{
}

/// A page that was paid is not paid again: once page `page` has run, a
/// retry of it is answered with `InvalidPageSequence` (when nothing checked
/// before refuses it first) and changes nothing.
pub proof fn law_page_retry_refused(
    ctx: DistributeFeesCrank,
    now: i64,
    page: u32,
    is_final_page: bool,
    day_locked_total: u64,
    day_y0_total: u64,
    investors: Seq<InvestorDistribution>,
)
    requires
        page < u32::MAX,
        ctx.progress.current_page == page + 1,
        i64::MIN <= now - ctx.progress.last_distribution_ts <= i64::MAX,
        spec_crank_allowed(ctx.progress.last_distribution_ts, now),
        ctx.policy.wf(),
    ensures
        spec_crank_error(ctx, now, page, is_final_page, day_locked_total, day_y0_total, investors)
            == Some(ErrorCode::InvalidPageSequence),
        spec_next_page(ctx.progress, page).current_page == page + 1,
{
}

/// Closing a day keeps the progress well formed, adds the day's amount to
/// the distributed total and resets the page cursor; a page that is not the
/// last keeps the distributed total and the close time.
pub proof fn law_total_distributed_grows(progress: ProgressPda, now: i64, page: u32)
    requires
        progress.total_distributed + progress.day_distributable <= u64::MAX,
    ensures
        spec_close_day(progress, now).wf(),
        spec_close_day(progress, now).current_page == 0,
        spec_close_day(progress, now).total_distributed == progress.total_distributed
            + progress.day_distributable,
        spec_next_page(progress, page).total_distributed == progress.total_distributed,
        spec_next_page(progress, page).last_distribution_ts == progress.last_distribution_ts,
{
    lemma_mul_basics(0);
}

/// The locked totals of a list joined from two are the sums of the two
/// lists' totals.
pub proof fn law_locked_totals_concat(a: Seq<InvestorDistribution>, b: Seq<InvestorDistribution>)
    ensures
        sum_locked(a + b) == sum_locked(a) + sum_locked(b),
        sum_initial(a + b) == sum_initial(a) + sum_initial(b),
{
    lemma_sums_concat(a, b, 0, 0, 0);
}

/// The locked totals do not depend on the order of the investors: a list
/// that holds the same investors as another, in any order, has the same
/// locked total and the same total initial allocation.
pub proof fn law_locked_totals_reorder(a: Seq<InvestorDistribution>, b: Seq<InvestorDistribution>)
    requires
        a.to_multiset() == b.to_multiset(),
    ensures
        sum_locked(a) == sum_locked(b),
        sum_initial(a) == sum_initial(b),
{
    lemma_sums_reorder(a, b);
}

/// The daily cap takes the smaller of the claimed amount and the cap: all
/// that was claimed when it is within the cap, else exactly the cap.
pub proof fn law_distributable_is_the_smaller(claimed_quote: u64, daily_cap_quote: u64)
    ensures
        claimed_quote <= daily_cap_quote ==> spec_distributable(claimed_quote, daily_cap_quote)
            == claimed_quote,
        claimed_quote > daily_cap_quote ==> spec_distributable(claimed_quote, daily_cap_quote)
            == daily_cap_quote,
{
}

/// The locked ratio is `locked * 10000 / y0` rounded down: the largest
/// number of basis points whose share of `y0` is within the locked amount.
/// With no initial allocation it is 0.
pub proof fn law_locked_ratio_is_floor(locked_total: u64, y0_total: u64)
    ensures
        y0_total > 0 ==> spec_locked_ratio_bps(locked_total, y0_total) * y0_total <= locked_total
            * 10000,
        y0_total > 0 ==> locked_total * 10000 < (spec_locked_ratio_bps(locked_total, y0_total) + 1)
            * y0_total,
        y0_total == 0 ==> spec_locked_ratio_bps(locked_total, y0_total) == 0,
{
    if y0_total > 0 {
        let n = locked_total * 10000;
        let y = y0_total as int;
        lemma_fundamental_div_mod(n, y);
        lemma_mod_bound(n, y);
        lemma_mul_is_commutative(y, n / y);
        lemma_mul_is_distributive_add_other_way(y, n / y, 1);
    }
}

/// The investor pool is `distributable * share / 10000` rounded down: the
/// largest amount whose 10000-fold is within `distributable * share`.
pub proof fn law_investor_fee_is_floor(distributable: u64, eligible_share_bps: u16)
    ensures
        spec_investor_fee_quote(distributable, eligible_share_bps) * 10000 <= distributable
            * eligible_share_bps,
        distributable * eligible_share_bps < (spec_investor_fee_quote(distributable, eligible_share_bps)
            + 1) * 10000,
{
    let n = distributable * eligible_share_bps;
    lemma_fundamental_div_mod(n, 10000);
    lemma_mod_bound(n, 10000);
}

/// An investor's payout is `pool * locked / locked_total` rounded down: the
/// largest amount whose `locked_total`-fold is within `pool * locked`. With
/// nothing locked in total there is no payout.
pub proof fn law_payout_is_floor(investor_fee_quote: u64, locked_amount: u64, locked_total: u64)
    ensures
        locked_total > 0 ==> spec_payout(investor_fee_quote, locked_amount, locked_total)
            * locked_total <= investor_fee_quote * locked_amount,
        locked_total > 0 ==> investor_fee_quote * locked_amount < (spec_payout(
            investor_fee_quote,
            locked_amount,
            locked_total,
        ) + 1) * locked_total,
        locked_total == 0 ==> spec_payout(investor_fee_quote, locked_amount, locked_total) == 0,
{
    if locked_total > 0 {
        let n = investor_fee_quote * locked_amount;
        let t = locked_total as int;
        lemma_fundamental_div_mod(n, t);
        lemma_mod_bound(n, t);
        lemma_mul_is_commutative(t, n / t);
        lemma_mul_is_distributive_add_other_way(t, n / t, 1);
    }
}

/// A page after the first works from the stored progress, whatever totals
/// are declared with it: only page 0 starts a day.
pub proof fn law_later_pages_keep_the_day(
    ctx: DistributeFeesCrank,
    page: u32,
    day_locked_total: u64,
    day_y0_total: u64,
)
    requires
        page != 0,
    ensures
        spec_day_base(ctx, page, day_locked_total, day_y0_total) == ctx.progress,
{
}

/// A day paid on two pages hands out exactly its distributable amount:
/// what page 0 pays, plus what page 1 pays, plus the creator's share on
/// page 1 (the day's amount less everything paid) is `min(treasury, cap)`,
/// whatever totals page 1 declares.
pub proof fn law_two_page_day_pays_out_its_amount(
    ctx: DistributeFeesCrank,
    day_locked_total: u64,
    day_y0_total: u64,
    later_locked_total: u64,
    later_y0_total: u64,
    first: Seq<InvestorDistribution>,
    second: Seq<InvestorDistribution>,
)
    requires
        ctx.policy.wf(),
        ctx.progress.wf(),
        sum_locked(first) + sum_locked(second) <= day_locked_total,
    ensures
        ({
            let m = ctx.policy.min_payout_quote;
            let p0 = spec_day_base(ctx, 0, day_locked_total, day_y0_total);
            let a0 = spec_apply_page(p0, first, m);
            let ctx1 = DistributeFeesCrank { progress: spec_next_page(a0, 0), ..ctx };
            let p1 = spec_day_base(ctx1, 1, later_locked_total, later_y0_total);
            let a1 = spec_apply_page(p1, second, m);
            let paid0 = paid_total(first, p0.day_investor_fee, p0.day_locked_total, m);
            let paid1 = paid_total(second, p1.day_investor_fee, p1.day_locked_total, m);
            &&& a1.day_paid() <= p1.day_distributable
            &&& paid0 + paid1 + (p1.day_distributable - a1.day_paid()) == spec_distributable(
                ctx.treasury_amount,
                ctx.policy.daily_cap_quote,
            )
        }),
{
    let m = ctx.policy.min_payout_quote;
    let d = spec_distributable(ctx.treasury_amount, ctx.policy.daily_cap_quote);
    let e = spec_eligible_share_bps(
        spec_locked_ratio_bps(day_locked_total, day_y0_total),
        ctx.policy.investor_fee_share_bps,
    );
    lemma_investor_fee_bound(d, e);
    let p0 = spec_day_base(ctx, 0, day_locked_total, day_y0_total);
    lemma_mul_basics(p0.day_investor_fee as int);
    lemma_mul_basics(day_locked_total as int);
    assert(p0.wf());
    lemma_apply_page_wf(p0, first, m);
    let a0 = spec_apply_page(p0, first, m);
    let ctx1 = DistributeFeesCrank { progress: spec_next_page(a0, 0), ..ctx };
    let p1 = spec_day_base(ctx1, 1, later_locked_total, later_y0_total);
    assert(p1 == spec_next_page(a0, 0));
    lemma_apply_page_wf(p1, second, m);
}

} // verus!
