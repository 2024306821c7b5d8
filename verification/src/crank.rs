//! The 24h distribution crank: the daily window, the page sequence, the
//! day's figures fixed on page 0, pro-rata investor payouts page by page,
//! the creator's remainder and the progress update.
use vstd::prelude::*;
use vstd::arithmetic::mul::*;

use crate::math::{
    distributable_amount, eligible_share_bps, investor_fee_quote, investor_payout,
    lemma_investor_fee_bound, locked_ratio_bps, saturating_sub, spec_distributable,
    spec_eligible_share_bps, spec_investor_fee_quote, spec_locked_ratio_bps, spec_payout,
};
use crate::state::{
    CreatorPayoutDayClosed, DistributeFeesCrank, ErrorCode, InvestorDistribution,
    InvestorPayoutPage, ProgressPda, QuoteFeesClaimed,
};
use crate::sums::{
    lemma_paid_scaled, lemma_paid_total_within_pool, lemma_paid_zero_total, lemma_prefix_sums,
    lemma_take_step, paid_amount, paid_total, sum_initial, sum_locked,
};

verus! {

/// Minimum number of seconds between two closed distribution days.
pub const DISTRIBUTION_INTERVAL_SECS: i64 = 86400;

/// The crank may run: a full day has passed since the last distribution, or
/// no distribution has happened yet.
pub open spec fn spec_crank_allowed(last_distribution_ts: i64, now: i64) -> bool {
    now - last_distribution_ts >= 86400 || last_distribution_ts == 0
}

/// Whether the crank may run at `now`.
pub fn distribution_allowed(last_distribution_ts: i64, now: i64) -> (r: bool)
    requires
        i64::MIN <= now - last_distribution_ts <= i64::MAX,
    ensures
        r == spec_crank_allowed(last_distribution_ts, now),
{
    let time_since_last = now - last_distribution_ts;
    time_since_last >= DISTRIBUTION_INTERVAL_SECS || last_distribution_ts == 0
}

/// The day's investor pool: the distributable amount times the eligible
/// share, where the share is the policy's, capped by the ratio of the
/// day's locked total to its initial allocation.
pub open spec fn spec_day_investor_fee(
    distributable: u64,
    investor_fee_share_bps: u16,
    day_locked_total: u64,
    day_y0_total: u64,
) -> u64 {
    spec_investor_fee_quote(
        distributable,
        spec_eligible_share_bps(spec_locked_ratio_bps(day_locked_total, day_y0_total), investor_fee_share_bps),
    ) as u64
}

/// The progress at the start of a day: the day's figures are fixed and the
/// whole pool is still to be paid.
pub open spec fn spec_start_day(
    p: ProgressPda,
    distributable: u64,
    investor_fee: u64,
    day_locked_total: u64,
) -> ProgressPda {
    ProgressPda {
        day_distributable: distributable,
        day_investor_fee: investor_fee,
        day_locked_total,
        day_locked_seen: 0,
        carry_over_dust: investor_fee,
        ..p
    }
}

/// The progress a page works from: on page 0 a new day starts, from the
/// treasury balance, the policy and the declared totals; on a later page
/// the day goes on as it stands.
pub open spec fn spec_day_base(
    ctx: DistributeFeesCrank,
    page: u32,
    day_locked_total: u64,
    day_y0_total: u64,
) -> ProgressPda {
    if page == 0 {
        let d = spec_distributable(ctx.treasury_amount, ctx.policy.daily_cap_quote);
        spec_start_day(
            ctx.progress,
            d,
            spec_day_investor_fee(d, ctx.policy.investor_fee_share_bps, day_locked_total, day_y0_total),
            day_locked_total,
        )
    } else {
        ctx.progress
    }
}

/// The progress after paying a page: what the page pays leaves the unpaid
/// pool, and its locked amounts count as seen.
pub open spec fn spec_apply_page(
    p: ProgressPda,
    investors: Seq<InvestorDistribution>,
    min_payout_quote: u64,
) -> ProgressPda {
    let paid = paid_total(investors, p.day_investor_fee, p.day_locked_total, min_payout_quote);
    ProgressPda {
        carry_over_dust: if paid <= p.carry_over_dust {
            (p.carry_over_dust - paid) as u64
        } else {
            0
        },
        day_locked_seen: (p.day_locked_seen + sum_locked(investors)) as u64,
        ..p
    }
}

/// The progress after the final page of a day: the day is stamped, the
/// distributed total grows by the day's amount, the page cursor goes back
/// to 0 and the day's figures are cleared.
pub open spec fn spec_close_day(p: ProgressPda, now: i64) -> ProgressPda {
    ProgressPda {
        last_distribution_ts: now,
        total_distributed: (p.total_distributed + p.day_distributable) as u64,
        current_page: 0,
        carry_over_dust: 0,
        day_distributable: 0,
        day_investor_fee: 0,
        day_locked_total: 0,
        day_locked_seen: 0,
        ..p
    }
}

/// The progress after a page that is not the last: the cursor moves on.
pub open spec fn spec_next_page(p: ProgressPda, page: u32) -> ProgressPda {
    ProgressPda { current_page: (page + 1) as u32, ..p }
}

/// The error the crank answers with, if any, in the order it checks:
/// the time since the last close does not fit in `i64`; less than a day has
/// passed since it; the policy's share is above 100%; the page is not the
/// next one expected; the page's locked amounts do not fit in `u64`; they
/// exceed what is left of the day's declared locked total; the distributed
/// total would overflow on the final page, or the page number on another.
pub open spec fn spec_crank_error(
    ctx: DistributeFeesCrank,
    now: i64,
    page: u32,
    is_final_page: bool,
    day_locked_total: u64,
    day_y0_total: u64,
    investors: Seq<InvestorDistribution>,
) -> Option<ErrorCode> {
    let last = ctx.progress.last_distribution_ts;
    let base = spec_day_base(ctx, page, day_locked_total, day_y0_total);
    if !(i64::MIN <= now - last <= i64::MAX) {
        Some(ErrorCode::ArithmeticOverflow)
    } else if !spec_crank_allowed(last, now) {
        Some(ErrorCode::TooSoonForNextDistribution)
    } else if !ctx.policy.wf() {
        Some(ErrorCode::InvalidFeeShare)
    } else if page != ctx.progress.current_page {
        Some(ErrorCode::InvalidPageSequence)
    } else if sum_locked(investors) > u64::MAX {
        Some(ErrorCode::ArithmeticOverflow)
    } else if base.day_locked_seen + sum_locked(investors) > base.day_locked_total {
        Some(ErrorCode::InvalidInvestorData)
    } else if is_final_page && base.total_distributed + base.day_distributable > u64::MAX {
        Some(ErrorCode::ArithmeticOverflow)
    } else if !is_final_page && page >= u32::MAX {
        Some(ErrorCode::ArithmeticOverflow)
    } else {
        None
    }
}

/// What one run of the crank reports.
pub struct CrankOutcome {
    /// The claim event, on page 0.
    pub claimed: Option<QuoteFeesClaimed>,
    /// The pro-rata payout of each investor of the page, in order.
    pub payouts: Vec<u64>,
    /// Whether each investor is paid: its payout reaches the policy's minimum.
    pub paid: Vec<bool>,
    /// The event for this page.
    pub page_event: InvestorPayoutPage,
    /// The creator's payout and the day's close, on the final page.
    pub day_closed: Option<CreatorPayoutDayClosed>,
}

/// Total locked amount and total initial allocation (Y0) of the investors.
pub fn calculate_locked_totals(investors: &[InvestorDistribution]) -> (r: (u64, u64))
    requires
        sum_locked(investors@) <= u64::MAX,
        sum_initial(investors@) <= u64::MAX,
    ensures
        r.0 == sum_locked(investors@),
        r.1 == sum_initial(investors@),
{
    let mut locked_total: u64 = 0;
    let mut y0_total: u64 = 0;
    let mut i: usize = 0;
    while i < investors.len()
        invariant
            0 <= i <= investors@.len(),
            sum_locked(investors@) <= u64::MAX,
            sum_initial(investors@) <= u64::MAX,
            locked_total == sum_locked(investors@.take(i as int)),
            y0_total == sum_initial(investors@.take(i as int)),
        decreases investors@.len() - i,
    {
        proof {
            lemma_take_step(investors@, i as int);
            lemma_prefix_sums(investors@, i + 1);
        }
        locked_total = locked_total + investors[i].locked_amount;
        y0_total = y0_total + investors[i].initial_allocation;
        i = i + 1;
    }
    assert(investors@.take(investors@.len() as int) =~= investors@);
    (locked_total, y0_total)
}

/// Total locked amount of the investors, or `None` when it does not fit in `u64`.
pub fn checked_sum_locked(investors: &[InvestorDistribution]) -> (r: Option<u64>)
    ensures
        r is Some <==> sum_locked(investors@) <= u64::MAX,
        r matches Some(t) ==> t == sum_locked(investors@),
{
    let mut total: u64 = 0;
    let mut i: usize = 0;
    while i < investors.len()
        invariant
            0 <= i <= investors@.len(),
            total == sum_locked(investors@.take(i as int)),
        decreases investors@.len() - i,
    {
        proof {
            lemma_take_step(investors@, i as int);
            lemma_prefix_sums(investors@, i + 1);
        }
        let l = investors[i].locked_amount;
        if l > u64::MAX - total {
            assert(sum_locked(investors@) > u64::MAX);
            return None;
        }
        total = total + l;
        i = i + 1;
    }
    assert(investors@.take(investors@.len() as int) =~= investors@);
    Some(total)
}

/// Paying a page keeps the progress well formed, and never pays more than
/// the unpaid pool.
pub proof fn lemma_apply_page_wf(p: ProgressPda, investors: Seq<InvestorDistribution>, min_payout_quote: u64)
    requires
        p.wf(),
        p.day_locked_seen + sum_locked(investors) <= p.day_locked_total,
    ensures
        paid_total(investors, p.day_investor_fee, p.day_locked_total, min_payout_quote)
            <= p.carry_over_dust,
        spec_apply_page(p, investors, min_payout_quote).wf(),
        spec_apply_page(p, investors, min_payout_quote).day_paid() == p.day_paid() + paid_total(
            investors,
            p.day_investor_fee,
            p.day_locked_total,
            min_payout_quote,
        ),
{
    let f = p.day_investor_fee as int;
    let t = p.day_locked_total as int;
    let pp = paid_total(investors, p.day_investor_fee, p.day_locked_total, min_payout_quote) as int;
    let sp = sum_locked(investors) as int;
    let seen = p.day_locked_seen as int;
    let paid = p.day_paid();
    if t == 0 {
        lemma_paid_zero_total(investors, p.day_investor_fee, min_payout_quote);
    } else {
        lemma_paid_scaled(investors, p.day_investor_fee, p.day_locked_total, min_payout_quote);
        lemma_mul_is_distributive_add_other_way(t, paid, pp);
        lemma_mul_is_distributive_add(f, seen, sp);
        lemma_mul_inequality(seen + sp, t, f);
        lemma_mul_is_commutative(seen + sp, f);
        lemma_mul_is_commutative(t, f);
        lemma_mul_inequality_converse(paid + pp, f, t);
    }
}

/// The progress a page works from, computed.
fn day_base(ctx: &DistributeFeesCrank, page: u32, day_locked_total: u64, day_y0_total: u64) -> (base:
    ProgressPda)
    requires
        ctx.policy.wf(),
        ctx.progress.wf(),
    ensures
        base == spec_day_base(*ctx, page, day_locked_total, day_y0_total),
        base.wf(),
{
    let mut base = ctx.progress;
    if page == 0 {
        let d = distributable_amount(ctx.treasury_amount, ctx.policy.daily_cap_quote);
        let f_locked_bps = locked_ratio_bps(day_locked_total, day_y0_total);
        let eligible = eligible_share_bps(f_locked_bps, ctx.policy.investor_fee_share_bps);
        let fee = investor_fee_quote(d, eligible);
        base.day_distributable = d;
        base.day_investor_fee = fee;
        base.day_locked_total = day_locked_total;
        base.day_locked_seen = 0;
        base.carry_over_dust = fee;
        proof {
            lemma_mul_basics(fee as int);
            lemma_mul_basics(day_locked_total as int);
        }
    }
    base
}

/// Pays one page against the day's figures: each investor's payout, whether
/// it reaches the minimum, and the sum of those that do.
fn pay_page(base: &ProgressPda, investor_accounts: &Vec<InvestorDistribution>, min_payout: u64) -> (r: (
    Vec<u64>,
    Vec<bool>,
    u64,
))
    requires
        base.wf(),
        base.day_locked_seen + sum_locked(investor_accounts@) <= base.day_locked_total,
    ensures
        r.0@.len() == investor_accounts@.len(),
        r.1@.len() == investor_accounts@.len(),
        forall|j: int|
            0 <= j < investor_accounts@.len() ==> #[trigger] r.0@[j] == spec_payout(
                base.day_investor_fee,
                investor_accounts@[j].locked_amount,
                base.day_locked_total,
            ),
        forall|j: int| 0 <= j < investor_accounts@.len() ==> #[trigger] r.1@[j] == (r.0@[j] >= min_payout),
        r.2 == paid_total(investor_accounts@, base.day_investor_fee, base.day_locked_total, min_payout),
{
    let fee = base.day_investor_fee;
    let locked_total = base.day_locked_total;
    let ghost invs = investor_accounts@;
    let mut total_paid: u64 = 0;
    let mut payouts: Vec<u64> = Vec::new();
    let mut paid: Vec<bool> = Vec::new();
    let mut i: usize = 0;
    while i < investor_accounts.len()
        invariant
            invs == investor_accounts@,
            0 <= i <= invs.len(),
            sum_locked(invs) <= locked_total,
            total_paid == paid_total(invs.take(i as int), fee, locked_total, min_payout),
            payouts@.len() == i,
            paid@.len() == i,
            forall|j: int|
                0 <= j < i ==> #[trigger] payouts@[j] == spec_payout(fee, invs[j].locked_amount, locked_total),
            forall|j: int| 0 <= j < i ==> #[trigger] paid@[j] == (payouts@[j] >= min_payout),
        decreases invs.len() - i,
    {
        proof {
            lemma_take_step(invs, i as int);
            lemma_prefix_sums(invs, i + 1);
            lemma_paid_total_within_pool(invs.take(i + 1), fee, locked_total, min_payout);
            assert(paid_total(invs.take(i + 1), fee, locked_total, min_payout) == paid_total(
                invs.take(i as int),
                fee,
                locked_total,
                min_payout,
            ) + paid_amount(invs[i as int], fee, locked_total, min_payout));
        }
        let ghost old_payouts = payouts@;
        let ghost old_paid = paid@;
        let locked_amount = investor_accounts[i].locked_amount;
        let payout = investor_payout(fee, locked_amount, locked_total);
        let reaches = payout >= min_payout;
        if reaches {
            total_paid = total_paid + payout;
        }
        payouts.push(payout);
        paid.push(reaches);
        proof {
            assert(payouts@ == old_payouts.push(payout));
            assert(paid@ == old_paid.push(reaches));
            assert forall|j: int| 0 <= j < i + 1 implies #[trigger] payouts@[j] == spec_payout(
                fee,
                invs[j].locked_amount,
                locked_total,
            ) by {
                if j < i {
                    assert(payouts@[j] == old_payouts[j]);
                }
            }
            assert forall|j: int| 0 <= j < i + 1 implies #[trigger] paid@[j] == (payouts@[j]
                >= min_payout) by {
                if j < i {
                    assert(paid@[j] == old_paid[j]);
                    assert(payouts@[j] == old_payouts[j]);
                }
            }
        }
        i = i + 1;
    }
    proof {
        assert(invs.take(invs.len() as int) =~= invs);
    }
    proof {
        assert(invs.take(invs.len() as int) =~= invs);
    }
    (payouts, paid, total_paid)
}

/// Runs one page of the daily distribution.
///
/// Page 0 starts the day: the distributable amount is the treasury balance
/// capped by the daily cap, and the investor pool is that amount times the
/// eligible share, the policy's share capped by the declared day's locked
/// total over its initial allocation. Every page pays each of its investors
/// `floor(pool * locked / day's locked total)` if that reaches the policy's
/// minimum; the unpaid pool carries to the next page. The final page gives
/// the creator the day's amount less everything paid to investors, and
/// closes the day. The declared totals are read on page 0 only.
#[verifier::spinoff_prover]
#[verifier::rlimit(40)]
pub fn distribute_fees_crank(
    ctx: &mut DistributeFeesCrank,
    now: i64,
    page: u32,
    is_final_page: bool,
    day_locked_total: u64,
    day_y0_total: u64,
    investor_accounts: Vec<InvestorDistribution>,
) -> (r: Result<CrankOutcome, ErrorCode>)
    requires
        old(ctx).progress.wf(),
    ensures
        final(ctx).policy == old(ctx).policy,
        final(ctx).treasury_amount == old(ctx).treasury_amount,
        final(ctx).progress.wf(),
        r is Err <==> spec_crank_error(
            *old(ctx),
            now,
            page,
            is_final_page,
            day_locked_total,
            day_y0_total,
            investor_accounts@,
        ) is Some,
        r matches Err(e) ==> spec_crank_error(
            *old(ctx),
            now,
            page,
            is_final_page,
            day_locked_total,
            day_y0_total,
            investor_accounts@,
        ) == Some(e) && final(ctx).progress == old(ctx).progress,
        r matches Ok(out) ==> {
            let invs = investor_accounts@;
            let min = old(ctx).policy.min_payout_quote;
            let base = spec_day_base(*old(ctx), page, day_locked_total, day_y0_total);
            let after = spec_apply_page(base, invs, min);
            let page_paid = paid_total(invs, base.day_investor_fee, base.day_locked_total, min);
            &&& out.claimed == (if page == 0 {
                Some(
                    QuoteFeesClaimed {
                        pool: old(ctx).progress.pool,
                        amount: old(ctx).treasury_amount,
                        timestamp: now,
                    },
                )
            } else {
                None::<QuoteFeesClaimed>
            })
            &&& out.payouts@.len() == invs.len()
            &&& out.paid@.len() == invs.len()
            &&& forall|i: int|
                0 <= i < invs.len() ==> #[trigger] out.payouts@[i] == spec_payout(
                    base.day_investor_fee,
                    invs[i].locked_amount,
                    base.day_locked_total,
                )
            &&& forall|i: int| 0 <= i < invs.len() ==> #[trigger] out.paid@[i] == (out.payouts@[i] >= min)
            &&& page_paid <= base.carry_over_dust
            &&& out.page_event == (InvestorPayoutPage {
                page,
                investors_count: (invs.len() % 0x1_0000_0000) as u32,
                total_paid: page_paid as u64,
                timestamp: now,
            })
            &&& if is_final_page {
                &&& out.day_closed == Some(
                    CreatorPayoutDayClosed {
                        creator: old(ctx).policy.creator,
                        creator_payout: (base.day_distributable - after.day_paid()) as u64,
                        total_distributed: base.day_distributable,
                        timestamp: now,
                    },
                )
                &&& final(ctx).progress == spec_close_day(after, now)
            } else {
                &&& out.day_closed is None
                &&& final(ctx).progress == spec_next_page(after, page)
            }
        },
{
    let ghost old_ctx = *ctx;
    let last = ctx.progress.last_distribution_ts;
    if (last < 0 && now > i64::MAX + last) || (last > 0 && now < i64::MIN + last) {
        return Err(ErrorCode::ArithmeticOverflow);
    }
    if !distribution_allowed(last, now) {
        return Err(ErrorCode::TooSoonForNextDistribution);
    }
    if ctx.policy.investor_fee_share_bps > 10000 {
        return Err(ErrorCode::InvalidFeeShare);
    }
    if page != ctx.progress.current_page {
        return Err(ErrorCode::InvalidPageSequence);
    }
    let page_locked = match checked_sum_locked(investor_accounts.as_slice()) {
        Some(t) => t,
        None => {
            return Err(ErrorCode::ArithmeticOverflow);
        },
    };

    // The day's figures.
    let claimed_quote = ctx.treasury_amount;
    let base = day_base(ctx, page, day_locked_total, day_y0_total);
    if page_locked > base.day_locked_total - base.day_locked_seen {
        return Err(ErrorCode::InvalidInvestorData);
    }
    if is_final_page && base.total_distributed > u64::MAX - base.day_distributable {
        return Err(ErrorCode::ArithmeticOverflow);
    }
    if !is_final_page && page == u32::MAX {
        return Err(ErrorCode::ArithmeticOverflow);
    }

    let claimed = if page == 0 {
        Some(QuoteFeesClaimed { pool: ctx.progress.pool, amount: claimed_quote, timestamp: now })
    } else {
        None
    };
    let min_payout = ctx.policy.min_payout_quote;
    let ghost invs = investor_accounts@;
    proof {
        lemma_apply_page_wf(base, invs, min_payout);
    }
    let (payouts, paid, total_paid) = pay_page(&base, &investor_accounts, min_payout);
    let n = investor_accounts.len();
    assert(n as u32 == (n as u64) % 0x1_0000_0000) by (bit_vector);
    let page_event = InvestorPayoutPage {
        page,
        investors_count: n as u32,
        total_paid: total_paid,
        timestamp: now,
    };

    let mut after = base;
    after.carry_over_dust = base.carry_over_dust - total_paid;
    after.day_locked_seen = base.day_locked_seen + page_locked;
    assert(after == spec_apply_page(base, invs, min_payout));

    let day_closed = if is_final_page {
        let day_paid = after.day_investor_fee - after.carry_over_dust;
        let creator_share = saturating_sub(after.day_distributable, day_paid);
        let ev = CreatorPayoutDayClosed {
            creator: ctx.policy.creator,
            creator_payout: creator_share,
            total_distributed: after.day_distributable,
            timestamp: now,
        };
        let mut closed = after;
        closed.last_distribution_ts = now;
        closed.total_distributed = after.total_distributed + after.day_distributable;
        closed.current_page = 0;
        closed.carry_over_dust = 0;
        closed.day_distributable = 0;
        closed.day_investor_fee = 0;
        closed.day_locked_total = 0;
        closed.day_locked_seen = 0;
        ctx.progress = closed;
        Some(ev)
    } else {
        let mut next = after;
        next.current_page = page + 1;
        ctx.progress = next;
        None
    };
    Ok(CrankOutcome { claimed, payouts, paid, page_event, day_closed })
}

} // verus!
