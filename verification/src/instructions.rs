//! Setting up the policy and the honorary position, claiming pool fees, and
//! the quote-only check.
use vstd::prelude::*;

use crate::key::{key_eq, Pubkey};
use crate::state::{
    ClaimPoolFees, ErrorCode, HonoraryPosition, HonoraryPositionInitialized, InitializeHonoraryPosition,
    InitializePolicy, MockPoolState, PolicyPda, ProgressPda, QuoteFeesClaimed,
};

verus! {

/// Fees that one claim from the pool yields: 1000 tokens of 6 decimals.
pub const SIMULATED_CLAIM_AMOUNT: u64 = 1000000000;

/// Whether `mint` is one of the two mints of `pool`.
pub fn pool_has_mint(pool: &MockPoolState, mint: &Pubkey) -> (r: bool)
    ensures
        r == pool.has_mint(*mint),
{
    key_eq(&pool.token_a_mint, mint) || key_eq(&pool.token_b_mint, mint)
}

/// Sets up the fee distribution policy of a vault.
///
/// Fails with `InvalidFeeShare` exactly when the investor share is above
/// 10000 basis points.
pub fn initialize_policy(
    ctx: &InitializePolicy,
    investor_fee_share_bps: u16,
    daily_cap_quote: u64,
    min_payout_quote: u64,
) -> (r: Result<PolicyPda, ErrorCode>)
    ensures
        r is Err <==> investor_fee_share_bps > 10000,
        r is Err ==> r == Err::<PolicyPda, ErrorCode>(ErrorCode::InvalidFeeShare),
        r matches Ok(p) ==> p == (PolicyPda {
            vault: ctx.vault,
            creator: ctx.creator,
            investor_fee_share_bps,
            daily_cap_quote,
            min_payout_quote,
            bump: ctx.policy_bump,
        }),
        r matches Ok(p) ==> p.wf(),
{
    if investor_fee_share_bps > 10000 {
        return Err(ErrorCode::InvalidFeeShare);
    }
    Ok(PolicyPda {
        vault: ctx.vault,
        creator: ctx.creator,
        investor_fee_share_bps,
        daily_cap_quote,
        min_payout_quote,
        bump: ctx.policy_bump,
    })
}

/// The accounts that `initialize_honorary_position` creates, and its event.
pub struct PositionSetup {
    pub progress: ProgressPda,
    pub position: HonoraryPosition,
    pub event: HonoraryPositionInitialized,
}

/// Sets up the progress account and the honorary position of a pool.
///
/// Fails with `InvalidPoolMints` exactly when the base mint or the quote
/// mint is not one of the pool's mints. The progress starts with no
/// distribution and page 0; the position starts with no fees and its last
/// claim at `now`.
pub fn initialize_honorary_position(ctx: &InitializeHonoraryPosition, now: i64) -> (r: Result<
    PositionSetup,
    ErrorCode,
>)
    ensures
        r is Err <==> !(ctx.pool.has_mint(ctx.base_mint) && ctx.pool.has_mint(ctx.quote_mint)),
        r is Err ==> r == Err::<PositionSetup, ErrorCode>(ErrorCode::InvalidPoolMints),
        r matches Ok(s) ==> {
            &&& s.progress == (ProgressPda {
                vault: ctx.policy.vault,
                pool: ctx.pool_key,
                quote_mint: ctx.quote_mint,
                last_distribution_ts: 0,
                total_distributed: 0,
                carry_over_dust: 0,
                current_page: 0,
                bump: ctx.progress_bump,
                day_distributable: 0,
                day_investor_fee: 0,
                day_locked_total: 0,
                day_locked_seen: 0,
            })
            &&& s.progress.wf()
            &&& s.position == (HonoraryPosition {
                pool: ctx.pool_key,
                owner: ctx.position_owner_key,
                total_fees_earned: 0,
                last_claim_ts: now,
                bump: ctx.position_bump,
            })
            &&& s.event == (HonoraryPositionInitialized {
                vault: ctx.policy.vault,
                pool: ctx.pool_key,
                position: ctx.position_key,
                quote_mint: ctx.quote_mint,
            })
        },
{
    if !pool_has_mint(&ctx.pool, &ctx.base_mint) {
        return Err(ErrorCode::InvalidPoolMints);
    }
    if !pool_has_mint(&ctx.pool, &ctx.quote_mint) {
        return Err(ErrorCode::InvalidPoolMints);
    }
    let quote_mint = ctx.quote_mint;
    if !pool_has_mint(&ctx.pool, &quote_mint) {
        return Err(ErrorCode::QuoteMintMismatch);
    }
    let progress = ProgressPda {
        vault: ctx.policy.vault,
        pool: ctx.pool_key,
        quote_mint,
        last_distribution_ts: 0,
        total_distributed: 0,
        carry_over_dust: 0,
        current_page: 0,
        bump: ctx.progress_bump,
        day_distributable: 0,
        day_investor_fee: 0,
        day_locked_total: 0,
        day_locked_seen: 0,
    };
    proof {
        vstd::arithmetic::mul::lemma_mul_basics(0);
    }
    let position = HonoraryPosition {
        pool: ctx.pool_key,
        owner: ctx.position_owner_key,
        total_fees_earned: 0,
        last_claim_ts: now,
        bump: ctx.position_bump,
    };
    let event = HonoraryPositionInitialized {
        vault: ctx.policy.vault,
        pool: ctx.pool_key,
        position: ctx.position_key,
        quote_mint,
    };
    Ok(PositionSetup { progress, position, event })
}

/// Claims the fees of the position from the pool: the claim yields a fixed
/// amount, added to the position's earned fees, and the claim time is
/// stamped. The claim is refused with `QuoteMintMismatch` when the quote mint
/// is not one of the pool's mints (the position must earn quote fees only),
/// else with `ArithmeticOverflow` when the earned fees would not fit in
/// `u64`; a refused claim changes nothing.
pub fn claim_pool_fees(ctx: &mut ClaimPoolFees, now: i64) -> (r: Result<QuoteFeesClaimed, ErrorCode>)
    ensures
        final(ctx).pool == old(ctx).pool,
        final(ctx).quote_mint == old(ctx).quote_mint,
        !old(ctx).pool.has_mint(old(ctx).quote_mint) ==> r == Err::<QuoteFeesClaimed, ErrorCode>(
            ErrorCode::QuoteMintMismatch,
        ),
        old(ctx).pool.has_mint(old(ctx).quote_mint) && old(ctx).position.total_fees_earned
            + SIMULATED_CLAIM_AMOUNT > u64::MAX ==> r == Err::<QuoteFeesClaimed, ErrorCode>(
            ErrorCode::ArithmeticOverflow,
        ),
        r is Err ==> final(ctx).position == old(ctx).position,
        r is Ok <==> old(ctx).pool.has_mint(old(ctx).quote_mint)
            && old(ctx).position.total_fees_earned + SIMULATED_CLAIM_AMOUNT <= u64::MAX,
        r matches Ok(e) ==> {
            &&& e == (QuoteFeesClaimed {
                pool: old(ctx).position.pool,
                amount: SIMULATED_CLAIM_AMOUNT,
                timestamp: now,
            })
            &&& final(ctx).position == (HonoraryPosition {
                total_fees_earned: (old(ctx).position.total_fees_earned + SIMULATED_CLAIM_AMOUNT) as u64,
                last_claim_ts: now,
                ..old(ctx).position
            })
        },
{
    validate_quote_only_position(&ctx.pool, ctx.quote_mint)?;
    if ctx.position.total_fees_earned > u64::MAX - SIMULATED_CLAIM_AMOUNT {
        return Err(ErrorCode::ArithmeticOverflow);
    }
    ctx.position.total_fees_earned = ctx.position.total_fees_earned + SIMULATED_CLAIM_AMOUNT;
    ctx.position.last_claim_ts = now;
    Ok(QuoteFeesClaimed { pool: ctx.position.pool, amount: SIMULATED_CLAIM_AMOUNT, timestamp: now })
}

/// Checks that the position can only earn quote fees: the quote mint must be
/// one of the pool's mints. Fails with `QuoteMintMismatch` exactly when it is not.
pub fn validate_quote_only_position(pool: &MockPoolState, quote_mint: Pubkey) -> (r: Result<
    (),
    ErrorCode,
>)
    ensures
        r is Ok <==> pool.has_mint(quote_mint),
        r is Err ==> r == Err::<(), ErrorCode>(ErrorCode::QuoteMintMismatch),
{
    if !pool_has_mint(pool, &quote_mint) {
        return Err(ErrorCode::QuoteMintMismatch);
    }
    Ok(())
}

} // verus!
