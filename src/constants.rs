use vstd::prelude::*;

verus! {

/// The largest number of outcomes a market may offer.
pub const MAX_OUTCOME_LEN: u8 = 10;

/// Basis points in one whole: a fee of this many bps takes everything.
pub const BPS_DENOMINATOR: u64 = 10_000;

} // verus!
