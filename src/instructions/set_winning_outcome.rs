use crate::errors::CustomError;
use crate::state::{AccountKey, Market, MarketStatus};
use vstd::prelude::*;

verus! {

/// What confirming a winner works on: the market, the caller and the
/// administrator it must be.
#[derive(Clone, Debug)]
pub struct SetWinningOutcome {
    pub market: Market,
    pub authority: AccountKey,
    pub admin: AccountKey,
}

/// The effect of confirming outcome `winning_outcome` in the context `c`:
/// `post` is the context afterwards and `r` the result.
pub open spec fn set_winning_outcome_effect(
    c: SetWinningOutcome,
    winning_outcome: u8,
    r: Result<(), CustomError>,
    post: SetWinningOutcome,
) -> bool {
    let m = c.market;
    let admin = c.authority == c.admin;
    let valid_index = winning_outcome < m.outcomes.len();
    &&& (r == Err::<(), CustomError>(CustomError::Unauthorized) <==> !admin)
    &&& (r == Err::<(), CustomError>(CustomError::InvalidOutcomeIndex) <==> admin
        && !valid_index)
    &&& (r == Err::<(), CustomError>(CustomError::MarketNotSettled) <==> admin && valid_index
        && m.status != MarketStatus::Settled)
    &&& (r is Ok <==> admin && valid_index && m.status == MarketStatus::Settled)
    &&& (r is Err ==> post == c)
    &&& (r is Ok ==> post == (SetWinningOutcome {
        market: Market {
            status: MarketStatus::Confirmed,
            winning_outcome: Some(winning_outcome),
            ..m
        },
        ..c
    }))
}

/// Fixes the winning outcome of a settled market and moves it to confirmed.
/// Only the administrator may do so; on any failure nothing changes.
pub fn set_winning_outcome_handler(ctx: &mut SetWinningOutcome, winning_outcome: u8) -> (r: Result<
    (),
    CustomError,
>)
    ensures
        set_winning_outcome_effect(*old(ctx), winning_outcome, r, *final(ctx)),
        old(ctx).market.wf() ==> final(ctx).market.wf(),
{
    if ctx.authority != ctx.admin {
        return Err(CustomError::Unauthorized);
    }
    if winning_outcome as usize >= ctx.market.outcomes.len() {
        return Err(CustomError::InvalidOutcomeIndex);
    }
    if ctx.market.status != MarketStatus::Settled {
        return Err(CustomError::MarketNotSettled);
    }
    ctx.market.status = MarketStatus::Confirmed;
    ctx.market.winning_outcome = Some(winning_outcome);
    Ok(())
}

} // verus!
