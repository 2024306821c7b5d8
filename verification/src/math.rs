//! The fee formulas: locked ratio, eligible share, investor pool and
//! pro-rata payouts, each with floor rounding.
use vstd::prelude::*;
use vstd::arithmetic::div_mod::*;
use vstd::arithmetic::mul::*;

verus! {

/// `floor(locked_total * 10000 / y0_total)`, or 0 when `y0_total` is 0.
pub open spec fn spec_locked_ratio_bps(locked_total: u64, y0_total: u64) -> nat {
    if y0_total > 0 {
        ((locked_total as nat) * 10000nat) / (y0_total as nat)
    } else {
        0
    }
}

/// The smaller of the locked ratio and the policy's share.
pub open spec fn spec_eligible_share_bps(f_locked_bps: nat, investor_fee_share_bps: u16) -> u16 {
    if f_locked_bps <= investor_fee_share_bps {
        f_locked_bps as u16
    } else {
        investor_fee_share_bps
    }
}

/// `floor(distributable * eligible_share_bps / 10000)`.
pub open spec fn spec_investor_fee_quote(distributable: u64, eligible_share_bps: u16) -> nat {
    ((distributable as nat) * (eligible_share_bps as nat)) / 10000nat
}

/// `floor(investor_fee_quote * locked_amount / locked_total)`, or 0 when
/// nothing is locked.
pub open spec fn spec_payout(investor_fee_quote: u64, locked_amount: u64, locked_total: u64) -> nat {
    if locked_total > 0 {
        ((investor_fee_quote as nat) * (locked_amount as nat)) / (locked_total as nat)
    } else {
        0
    }
}

/// The smaller of the claimed amount and the daily cap.
pub open spec fn spec_distributable(claimed_quote: u64, daily_cap_quote: u64) -> u64 {
    if claimed_quote <= daily_cap_quote {
        claimed_quote
    } else {
        daily_cap_quote
    }
}

/// `a - b`, or 0 when `b > a`.
pub open spec fn spec_saturating_sub(a: u64, b: u64) -> u64 {
    if b <= a {
        (a - b) as u64
    } else {
        0
    }
}

/// The locked ratio in basis points: how much of the initial allocation is
/// still locked. It may exceed 10000 when more is locked than was allocated.
pub fn locked_ratio_bps(locked_total: u64, y0_total: u64) -> (r: u128)
    ensures
        r == spec_locked_ratio_bps(locked_total, y0_total),
{
    if y0_total > 0 {
        (locked_total as u128 * 10000) / (y0_total as u128)
    } else {
        0
    }
}

/// The investor share that applies: the policy share, capped by the locked ratio.
pub fn eligible_share_bps(f_locked_bps: u128, investor_fee_share_bps: u16) -> (r: u16)
    ensures
        r == spec_eligible_share_bps(f_locked_bps as nat, investor_fee_share_bps),
        r <= investor_fee_share_bps,
        r <= f_locked_bps,
{
    if f_locked_bps <= investor_fee_share_bps as u128 {
        f_locked_bps as u16
    } else {
        investor_fee_share_bps
    }
}

/// The part of the distributable amount that goes to investors, for a
/// share of at most 100%.
pub fn investor_fee_quote(distributable: u64, eligible_share_bps: u16) -> (r: u64)
    requires
        eligible_share_bps <= 10000,
    ensures
        r == spec_investor_fee_quote(distributable, eligible_share_bps),
        r <= distributable,
{
    proof {
        lemma_investor_fee_bound(distributable, eligible_share_bps);
    }
    let p: u128 = distributable as u128 * eligible_share_bps as u128;
    (p / 10000) as u64
}

/// The amount that may be distributed today: the claimed amount, capped.
pub fn distributable_amount(claimed_quote: u64, daily_cap_quote: u64) -> (r: u64)
    ensures
        r == spec_distributable(claimed_quote, daily_cap_quote),
{
    if claimed_quote <= daily_cap_quote {
        claimed_quote
    } else {
        daily_cap_quote
    }
}

/// With a share of at most 100% the investor pool is at most the
/// distributable amount, and the product fits in 80 bits.
pub proof fn lemma_investor_fee_bound(distributable: u64, eligible_share_bps: u16)
    requires
        eligible_share_bps <= 10000,
    ensures
        spec_investor_fee_quote(distributable, eligible_share_bps) <= distributable,
        (distributable as nat) * (eligible_share_bps as nat) <= 0xFFFF_FFFF_FFFF_FFFF * 10000,
{
    let d = distributable as int;
    let e = eligible_share_bps as int;
    lemma_mul_inequality(e, 10000, d);
    lemma_mul_is_commutative(e, d);
    lemma_mul_is_commutative(10000, d);
    lemma_div_is_ordered(d * e, d * 10000, 10000);
    lemma_div_by_multiple(d, 10000);
    lemma_mul_upper_bound(d, 0xFFFF_FFFF_FFFF_FFFF, e, 10000);
}

/// A payout times the locked total is at most the pool times the investor's
/// locked amount; so, for an amount that is part of the total, a payout is
/// at most the pool.
pub proof fn lemma_payout_bound(investor_fee_quote: u64, locked_amount: u64, locked_total: u64)
    ensures
        spec_payout(investor_fee_quote, locked_amount, locked_total) * (locked_total as nat)
            <= (investor_fee_quote as nat) * (locked_amount as nat),
        locked_amount <= locked_total ==> spec_payout(investor_fee_quote, locked_amount, locked_total)
            <= investor_fee_quote,
{
    let f = investor_fee_quote as int;
    let l = locked_amount as int;
    let t = locked_total as int;
    if t > 0 {
        lemma_fundamental_div_mod(f * l, t);
        lemma_mul_is_commutative(t, (f * l) / t);
        if l <= t {
            lemma_mul_inequality(l, t, f);
            lemma_mul_is_commutative(l, f);
            lemma_mul_is_commutative(t, f);
            lemma_div_is_ordered(f * l, f * t, t);
            lemma_div_by_multiple(f, t);
        }
    }
}

/// The payout of one investor whose locked amount is part of `locked_total`.
pub fn investor_payout(investor_fee_quote: u64, locked_amount: u64, locked_total: u64) -> (r: u64)
    requires
        locked_amount <= locked_total,
    ensures
        r == spec_payout(investor_fee_quote, locked_amount, locked_total),
        r <= investor_fee_quote,
{
    proof {
        lemma_payout_bound(investor_fee_quote, locked_amount, locked_total);
        lemma_mul_upper_bound(
            investor_fee_quote as int,
            0xFFFF_FFFF_FFFF_FFFF,
            locked_amount as int,
            0xFFFF_FFFF_FFFF_FFFF,
        );
    }
    if locked_total > 0 {
        let p: u128 = investor_fee_quote as u128 * locked_amount as u128;
        (p / locked_total as u128) as u64
    } else {
        0
    }
}

/// `a - b`, or 0 when `b > a`.
pub fn saturating_sub(a: u64, b: u64) -> (r: u64)
    ensures
        r == spec_saturating_sub(a, b),
{
    if b <= a {
        a - b
    } else {
        0
    }
}

} // verus!
