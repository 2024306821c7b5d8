//! Fee-distribution policy, progress tracking and the daily distribution
//! crank of an honorary quote-only LP position.
use vstd::prelude::*;

pub mod key;
pub mod state;
pub mod math;
pub mod sums;
pub mod crank;
pub mod instructions;
pub mod laws;
pub mod pda;

pub use crank::{calculate_locked_totals, distribute_fees_crank, distribution_allowed, CrankOutcome};
pub use instructions::{
    claim_pool_fees, initialize_honorary_position, initialize_policy, validate_quote_only_position,
    PositionSetup,
};
pub use key::Pubkey;
pub use state::{
    ClaimPoolFees, CreatorPayoutDayClosed, DistributeFeesCrank, ErrorCode, HonoraryPosition,
    HonoraryPositionInitialized, InitializeHonoraryPosition, InitializePolicy, InvestorDistribution,
    InvestorPayoutPage, MockPoolState, PolicyPda, ProgressPda, QuoteFeesClaimed,
};

verus! {

} // verus!
