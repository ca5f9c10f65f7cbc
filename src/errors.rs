use vstd::prelude::*;

verus! {

/// Every way an operation on a market or a bet record can be refused.
#[derive(Clone, Copy, Debug, PartialEq, Eq, Structural)]
pub enum CustomError {
    MarketNotOpen,
    OutsideBetWindow,
    InvalidOutcomeIndex,
    BetAmountOutOfRange,
    MaxPoolExceeded,
    Unauthorized,
    MarketNotClosed,
    MarketNotSettled,
    MarketNotConfirmed,
    NoWinnerChosen,
    AlreadyClaimed,
    NumericalOverflow,
    NumericalUnderflow,
    OutcomeLenExceeded,
    InvalidOracle,
    InvalidMarketConfig,
}

} // verus!
