use crate::errors::CustomError;
use crate::snapshot::{capture_snapshot, captured_a, captured_b, snapshot_ready};
use crate::state::{AccountKey, Market, MarketStatus};
use rust_decimal::Decimal;
use vstd::prelude::*;

verus! {

/// What closing a market works on: the market, the caller and the
/// administrator it must be, and the first price snapshot as read from the
/// feeds (`None` where a feed is missing or has no value).
#[derive(Clone, Debug)]
pub struct CloseMarket {
    pub market: Market,
    pub authority: AccountKey,
    pub admin: AccountKey,
    pub feed1: Option<Decimal>,
    pub feed2: Option<Decimal>,
}

/// The effect of closing the market of `c`: `post` is the context
/// afterwards and `r` the result.
pub open spec fn close_market_effect(
    c: CloseMarket,
    r: Result<(), CustomError>,
    post: CloseMarket,
) -> bool {
    let m = c.market;
    &&& (r == Err::<(), CustomError>(CustomError::Unauthorized) <==> c.authority != c.admin)
    &&& (r == Err::<(), CustomError>(CustomError::MarketNotOpen) <==> c.authority
        == c.admin && m.status != MarketStatus::Opened)
    &&& (r == Err::<(), CustomError>(CustomError::InvalidOracle) <==> c.authority == c.admin
        && m.status == MarketStatus::Opened && !snapshot_ready(
        m.market_type,
        c.feed1,
        c.feed2,
    ))
    &&& (r is Ok <==> c.authority == c.admin && m.status == MarketStatus::Opened && snapshot_ready(
        m.market_type,
        c.feed1,
        c.feed2,
    ))
    &&& (r is Err ==> post == c)
    &&& (r is Ok ==> post == (CloseMarket {
        market: Market {
            status: MarketStatus::Closed,
            final_price_a_closed: captured_a(m.market_type, c.feed1, m.final_price_a_closed),
            final_price_b_closed: captured_b(m.market_type, c.feed2, m.final_price_b_closed),
            ..m
        },
        ..c
    }))
}

/// Moves an open market to closed, ending the bet window and capturing the
/// closing prices its type needs. Only the administrator may do so; on any failure nothing changes.
pub fn close_market_handler(ctx: &mut CloseMarket) -> (r: Result<(), CustomError>)
    ensures
        close_market_effect(*old(ctx), r, *final(ctx)),
        old(ctx).market.wf() ==> final(ctx).market.wf(),
{
    if ctx.authority != ctx.admin {
        return Err(CustomError::Unauthorized);
    }
    if ctx.market.status != MarketStatus::Opened {
        return Err(CustomError::MarketNotOpen);
    }
    let t = ctx.market.market_type;
    capture_snapshot(
        t,
        &ctx.feed1,
        &ctx.feed2,
        &mut ctx.market.final_price_a_closed,
        &mut ctx.market.final_price_b_closed,
    )?;
    ctx.market.status = MarketStatus::Closed;
    Ok(())
}

} // verus!
