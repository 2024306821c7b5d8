//! Account state, instruction inputs, events and error codes.
use vstd::prelude::*;

use crate::key::Pubkey;

verus! {

/// Policy configuration for fee distribution.
#[derive(Clone, Copy, Debug, PartialEq, Eq)]
pub struct PolicyPda {
    pub vault: Pubkey,
    pub creator: Pubkey,
    pub investor_fee_share_bps: u16,
    pub daily_cap_quote: u64,
    pub min_payout_quote: u64,
    pub bump: u8,
}

impl PolicyPda {
    /// Serialized size of the account data, without the 8-byte discriminator.
    pub const SPACE: usize = 32 + 32 + 2 + 8 + 8 + 1;

    /// A policy is well formed when the investor share is at most 100%.
    pub open spec fn wf(self) -> bool {
        self.investor_fee_share_bps <= 10000
    }
}

/// Progress tracking for distribution cycles.
///
/// While a day is being paid out page by page, the progress holds the day's
/// figures, fixed on page 0: the distributable amount, the investor pool and
/// the locked total that weights are taken against. `carry_over_dust` is the
/// part of the investor pool not yet paid, carried from page to page; on the
/// final page it goes to the creator.
#[derive(Clone, Copy, Debug, PartialEq, Eq)]
pub struct ProgressPda {
    pub vault: Pubkey,
    pub pool: Pubkey,
    pub quote_mint: Pubkey,
    pub last_distribution_ts: i64,
    pub total_distributed: u64,
    pub carry_over_dust: u64,
    pub current_page: u32,
    pub bump: u8,
    /// The day's distributable amount.
    pub day_distributable: u64,
    /// The day's investor pool.
    pub day_investor_fee: u64,
    /// The day's locked total, declared on page 0.
    pub day_locked_total: u64,
    /// Locked amounts of the investors paid so far today.
    pub day_locked_seen: u64,
}

impl ProgressPda {
    /// Serialized size of the account data, without the 8-byte discriminator.
    pub const SPACE: usize = 32 + 32 + 32 + 8 + 8 + 8 + 4 + 1 + 8 + 8 + 8 + 8;

    /// What the investors have been paid so far today.
    pub open spec fn day_paid(self) -> int {
        self.day_investor_fee - self.carry_over_dust
    }

    /// The progress is well formed: the unpaid pool is part of the pool,
    /// which is part of the distributable amount; no more locked has been
    /// seen than was declared; and what was paid is at most the pool's share
    /// of the locked amounts seen: `paid * locked_total <= pool * seen`.
    pub open spec fn wf(self) -> bool {
        &&& self.carry_over_dust <= self.day_investor_fee
        &&& self.day_investor_fee <= self.day_distributable
        &&& self.day_locked_seen <= self.day_locked_total
        &&& self.day_paid() * self.day_locked_total <= self.day_investor_fee * self.day_locked_seen
    }

    /// Whether the progress is well formed.
    pub fn is_wf(&self) -> (r: bool)
        ensures
            r == self.wf(),
    {
        if self.carry_over_dust > self.day_investor_fee || self.day_investor_fee > self.day_distributable
            || self.day_locked_seen > self.day_locked_total {
            return false;
        }
        let paid = (self.day_investor_fee - self.carry_over_dust) as u128;
        proof {
            vstd::arithmetic::mul::lemma_mul_upper_bound(
                paid as int,
                0xFFFF_FFFF_FFFF_FFFF,
                self.day_locked_total as int,
                0xFFFF_FFFF_FFFF_FFFF,
            );
            vstd::arithmetic::mul::lemma_mul_upper_bound(
                self.day_investor_fee as int,
                0xFFFF_FFFF_FFFF_FFFF,
                self.day_locked_seen as int,
                0xFFFF_FFFF_FFFF_FFFF,
            );
        }
        paid * (self.day_locked_total as u128) <= (self.day_investor_fee as u128) * (
        self.day_locked_seen as u128)
    }
}

/// Honorary LP position state.
#[derive(Clone, Copy, Debug, PartialEq, Eq)]
pub struct HonoraryPosition {
    pub pool: Pubkey,
    pub owner: Pubkey,
    pub total_fees_earned: u64,
    pub last_claim_ts: i64,
    pub bump: u8,
}

impl HonoraryPosition {
    /// Serialized size of the account data, without the 8-byte discriminator.
    pub const SPACE: usize = 32 + 32 + 8 + 8 + 1;
}

/// Pool state of the CP-AMM pool that the position lives in.
#[derive(Clone, Copy, Debug, PartialEq, Eq)]
pub struct MockPoolState {
    pub token_a_mint: Pubkey,
    pub token_b_mint: Pubkey,
    pub token_a_vault: Pubkey,
    pub token_b_vault: Pubkey,
    pub fee_rate_bps: u16,
}

impl MockPoolState {
    /// Whether `mint` is one of the two mints of the pool.
    pub open spec fn has_mint(self, mint: Pubkey) -> bool {
        self.token_a_mint.same_as(mint) || self.token_b_mint.same_as(mint)
    }
}

/// Investor distribution data passed to the crank.
#[derive(Clone, Copy, Debug, PartialEq, Eq)]
pub struct InvestorDistribution {
    pub investor_pubkey: Pubkey,
    pub locked_amount: u64,
    pub initial_allocation: u64,
}

/// What `initialize_policy` reads of its accounts.
#[derive(Clone, Copy, Debug)]
pub struct InitializePolicy {
    /// The vault (fundraising round) the policy is for.
    pub vault: Pubkey,
    /// The creator, who signs and pays.
    pub creator: Pubkey,
    /// The bump seed of the policy account's address.
    pub policy_bump: u8,
}

/// What `initialize_honorary_position` reads of its accounts.
#[derive(Clone, Copy, Debug)]
pub struct InitializeHonoraryPosition {
    pub policy: PolicyPda,
    /// Address of the pool account.
    pub pool_key: Pubkey,
    pub pool: MockPoolState,
    /// Address of the position account being created.
    pub position_key: Pubkey,
    /// Address of the PDA that owns the position.
    pub position_owner_key: Pubkey,
    pub base_mint: Pubkey,
    pub quote_mint: Pubkey,
    /// Bump seed of the progress account's address.
    pub progress_bump: u8,
    /// Bump seed of the position account's address.
    pub position_bump: u8,
}

/// What `distribute_fees_crank` reads and writes of its accounts.
#[derive(Clone, Copy, Debug)]
pub struct DistributeFeesCrank {
    pub policy: PolicyPda,
    /// The progress account; the crank updates it.
    pub progress: ProgressPda,
    /// Quote balance of the treasury token account.
    pub treasury_amount: u64,
}

/// What `claim_pool_fees` reads and updates of its accounts.
#[derive(Clone, Copy, Debug)]
pub struct ClaimPoolFees {
    pub position: HonoraryPosition,
    /// The pool the position is in.
    pub pool: MockPoolState,
    /// The quote mint recorded for the position's vault.
    pub quote_mint: Pubkey,
}

/// Event: the honorary position was created.
#[derive(Clone, Copy, Debug, PartialEq, Eq)]
pub struct HonoraryPositionInitialized {
    pub vault: Pubkey,
    pub pool: Pubkey,
    pub position: Pubkey,
    pub quote_mint: Pubkey,
}

/// Event: quote fees were claimed.
#[derive(Clone, Copy, Debug, PartialEq, Eq)]
pub struct QuoteFeesClaimed {
    pub pool: Pubkey,
    pub amount: u64,
    pub timestamp: i64,
}

/// Event: one page of investors was paid.
#[derive(Clone, Copy, Debug, PartialEq, Eq)]
pub struct InvestorPayoutPage {
    pub page: u32,
    pub investors_count: u32,
    pub total_paid: u64,
    pub timestamp: i64,
}

/// Event: the creator was paid and the day closed.
#[derive(Clone, Copy, Debug, PartialEq, Eq)]
pub struct CreatorPayoutDayClosed {
    pub creator: Pubkey,
    pub creator_payout: u64,
    pub total_distributed: u64,
    pub timestamp: i64,
}

/// Errors of the program.
#[derive(Clone, Copy, Debug, PartialEq, Eq, Structural)]
pub enum ErrorCode {
    InvalidFeeShare,
    InvalidPoolMints,
    QuoteMintMismatch,
    BaseFeeDetected,
    TooSoonForNextDistribution,
    BelowMinimumPayout,
    ArithmeticOverflow,
    InvalidPageSequence,
    InvalidInvestorData,
}

impl ErrorCode {
    /// Position of the variant in the declaration, from 0.
    pub open spec fn spec_index(self) -> u32 {
        match self {
            ErrorCode::InvalidFeeShare => 0,
            ErrorCode::InvalidPoolMints => 1,
            ErrorCode::QuoteMintMismatch => 2,
            ErrorCode::BaseFeeDetected => 3,
            ErrorCode::TooSoonForNextDistribution => 4,
            ErrorCode::BelowMinimumPayout => 5,
            ErrorCode::ArithmeticOverflow => 6,
            ErrorCode::InvalidPageSequence => 7,
            ErrorCode::InvalidInvestorData => 8,
        }
    }

    /// The program error number: 6000 plus the variant's position.
    pub fn code(&self) -> (c: u32)
        ensures
            c == 6000 + self.spec_index(),
    {
        match self {
            ErrorCode::InvalidFeeShare => 6000,
            ErrorCode::InvalidPoolMints => 6001,
            ErrorCode::QuoteMintMismatch => 6002,
            ErrorCode::BaseFeeDetected => 6003,
            ErrorCode::TooSoonForNextDistribution => 6004,
            ErrorCode::BelowMinimumPayout => 6005,
            ErrorCode::ArithmeticOverflow => 6006,
            ErrorCode::InvalidPageSequence => 6007,
            ErrorCode::InvalidInvestorData => 6008,
        }
    }

    /// The message of the error.
    pub open spec fn spec_message(self) -> Seq<char> {
        match self {
            ErrorCode::InvalidFeeShare => "Invalid fee share percentage (must be <= 10000 bps)"@,
            ErrorCode::InvalidPoolMints => "Pool mints do not match expected base/quote configuration"@,
            ErrorCode::QuoteMintMismatch => "Quote mint does not match pool configuration"@,
            ErrorCode::BaseFeeDetected => "Base fees detected - position must be quote-only"@,
            ErrorCode::TooSoonForNextDistribution => "Too soon for next distribution (24h minimum)"@,
            ErrorCode::BelowMinimumPayout => "Payout below minimum threshold"@,
            ErrorCode::ArithmeticOverflow => "Arithmetic overflow in fee calculation"@,
            ErrorCode::InvalidPageSequence => "Invalid page sequence"@,
            ErrorCode::InvalidInvestorData => "Investor locked amounts exceed the day's locked total"@,
        }
    }

    /// The message of the error.
    pub fn message(&self) -> (m: &'static str)
        ensures
            m@ == self.spec_message(),
    {
        match self {
            ErrorCode::InvalidFeeShare => "Invalid fee share percentage (must be <= 10000 bps)",
            ErrorCode::InvalidPoolMints => "Pool mints do not match expected base/quote configuration",
            ErrorCode::QuoteMintMismatch => "Quote mint does not match pool configuration",
            ErrorCode::BaseFeeDetected => "Base fees detected - position must be quote-only",
            ErrorCode::TooSoonForNextDistribution => "Too soon for next distribution (24h minimum)",
            ErrorCode::BelowMinimumPayout => "Payout below minimum threshold",
            ErrorCode::ArithmeticOverflow => "Arithmetic overflow in fee calculation",
            ErrorCode::InvalidPageSequence => "Invalid page sequence",
            ErrorCode::InvalidInvestorData => "Investor locked amounts exceed the day's locked total",
        }
    }
}

} // verus!
