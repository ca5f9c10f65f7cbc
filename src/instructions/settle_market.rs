use crate::errors::CustomError;
use crate::snapshot::{capture_snapshot, captured_a, captured_b, snapshot_ready};
use crate::state::{AccountKey, Market, MarketStatus};
use rust_decimal::Decimal;
use vstd::prelude::*;

verus! {

/// What settling a market works on: the market, the caller and the
/// administrator it must be, and the second price snapshot as read from the
/// feeds (`None` where a feed is missing or has no value).
#[derive(Clone, Debug)]
pub struct SettleMarket {
    pub market: Market,
    pub authority: AccountKey,
    pub admin: AccountKey,
    pub feed1: Option<Decimal>,
    pub feed2: Option<Decimal>,
}

/// The effect of settling the market of `c`: `post` is the context
/// afterwards and `r` the result.
pub open spec fn settle_market_effect(
    c: SettleMarket,
    r: Result<(), CustomError>,
    post: SettleMarket,
) -> bool {
    let m = c.market;
    &&& (r == Err::<(), CustomError>(CustomError::Unauthorized) <==> c.authority != c.admin)
    &&& (r == Err::<(), CustomError>(CustomError::MarketNotClosed) <==> c.authority
        == c.admin && m.status != MarketStatus::Closed)
    &&& (r == Err::<(), CustomError>(CustomError::InvalidOracle) <==> c.authority == c.admin
        && m.status == MarketStatus::Closed && !snapshot_ready(
        m.market_type,
        c.feed1,
        c.feed2,
    ))
    &&& (r is Ok <==> c.authority == c.admin && m.status == MarketStatus::Closed && snapshot_ready(
        m.market_type,
        c.feed1,
        c.feed2,
    ))
    &&& (r is Err ==> post == c)
    &&& (r is Ok ==> post == (SettleMarket {
        market: Market {
            status: MarketStatus::Settled,
            final_price_a_settled: captured_a(m.market_type, c.feed1, m.final_price_a_settled),
            final_price_b_settled: captured_b(m.market_type, c.feed2, m.final_price_b_settled),
            ..m
        },
        ..c
    }))
}

/// Moves a closed market to settled, capturing the settlement prices its type
/// needs. Only the administrator may do so; on any failure nothing changes.
pub fn settle_market_handler(ctx: &mut SettleMarket) -> (r: Result<(), CustomError>)
    ensures
        settle_market_effect(*old(ctx), r, *final(ctx)),
        old(ctx).market.wf() ==> final(ctx).market.wf(),
{
    if ctx.authority != ctx.admin {
        return Err(CustomError::Unauthorized);
    }
    if ctx.market.status != MarketStatus::Closed {
        return Err(CustomError::MarketNotClosed);
    }
    let t = ctx.market.market_type;
    capture_snapshot(
        t,
        &ctx.feed1,
        &ctx.feed2,
        &mut ctx.market.final_price_a_settled,
        &mut ctx.market.final_price_b_settled,
    )?;
    ctx.market.status = MarketStatus::Settled;
    Ok(())
}

} // verus!
