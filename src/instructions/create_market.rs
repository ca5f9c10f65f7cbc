use crate::constants::{BPS_DENOMINATOR, MAX_OUTCOME_LEN};
use crate::errors::CustomError;
use crate::pool::{lemma_sum_zeros, zero_stakes, zeroed_stakes};
use crate::state::{AccountKey, Market, MarketStatus, MarketType};
use vstd::prelude::*;

verus! {

/// What creating a market works on: the caller and the administrator it must
/// be.
#[derive(Clone, Copy, Debug)]
pub struct CreateMarket {
    pub authority: AccountKey,
    pub admin: AccountKey,
}

/// The terms of a new market.
#[derive(Clone, Debug)]
pub struct CreateMarketArgs {
    pub id: String,
    pub title: String,
    pub description: String,
    pub image_link: String,
    pub market_type: MarketType,
    pub token_mint_a: AccountKey,
    pub token_mint_b: AccountKey,
    pub open_time: u64,
    pub close_time: u64,
    pub settle_time: u64,
    pub service_fee_bps: u16,
    pub min_bet: u64,
    pub max_bet: u64,
    pub total_max_bet: u64,
    pub outcomes: Vec<String>,
}

/// Whether terms are consistent: at least one outcome, the time window in
/// order, the bet limits in order, and a fee of at most the whole.
pub open spec fn terms_consistent(args: CreateMarketArgs) -> bool {
    &&& 1 <= args.outcomes.len()
    &&& args.open_time <= args.close_time <= args.settle_time
    &&& args.min_bet <= args.max_bet
    &&& args.service_fee_bps <= BPS_DENOMINATOR
}

/// The effect of creating a market from `args` in the context `c`, where `r`
/// is the result.
pub open spec fn create_market_effect(
    c: CreateMarket,
    args: CreateMarketArgs,
    r: Result<Market, CustomError>,
) -> bool {
    let admin = c.authority == c.admin;
    let short_enough = args.outcomes.len() <= MAX_OUTCOME_LEN;
    &&& (r == Err::<Market, CustomError>(CustomError::Unauthorized) <==> !admin)
    &&& (r == Err::<Market, CustomError>(CustomError::OutcomeLenExceeded) <==> admin
        && !short_enough)
    &&& (r == Err::<Market, CustomError>(CustomError::InvalidMarketConfig) <==> admin
        && short_enough && !terms_consistent(args))
    &&& (r is Ok <==> admin && short_enough && terms_consistent(args))
    &&& (r matches Ok(m) ==> {
        &&& m == (Market {
            id: args.id,
            title: args.title,
            description: args.description,
            image_link: args.image_link,
            market_type: args.market_type,
            token_mint_a: args.token_mint_a,
            token_mint_b: args.token_mint_b,
            open_time: args.open_time,
            close_time: args.close_time,
            settle_time: args.settle_time,
            service_fee_bps: args.service_fee_bps,
            min_bet: args.min_bet,
            max_bet: args.max_bet,
            total_max_bet: args.total_max_bet,
            total_bet_amount: 0,
            final_price_a_closed: None,
            final_price_b_closed: None,
            final_price_a_settled: None,
            final_price_b_settled: None,
            outcomes: args.outcomes,
            amounts_per_outcome: m.amounts_per_outcome,
            winning_outcome: None,
            status: MarketStatus::Opened,
        })
        &&& m.amounts_per_outcome@ == zero_stakes(args.outcomes.len() as nat)
        &&& m.wf()
    })
}

/// Creates an open market with the given terms, an empty pool on each
/// outcome and no winner. Only the administrator may do so.
pub fn create_market_handler(ctx: &CreateMarket, args: CreateMarketArgs) -> (r: Result<
    Market,
    CustomError,
>)
    ensures
        create_market_effect(*ctx, args, r),
{
    if ctx.authority != ctx.admin {
        return Err(CustomError::Unauthorized);
    }
    if args.outcomes.len() > MAX_OUTCOME_LEN as usize {
        return Err(CustomError::OutcomeLenExceeded);
    }
    if args.outcomes.len() == 0 || args.open_time > args.close_time || args.close_time
        > args.settle_time || args.min_bet > args.max_bet || args.service_fee_bps as u64
        > BPS_DENOMINATOR {
        return Err(CustomError::InvalidMarketConfig);
    }
    let amounts_per_outcome = zeroed_stakes(args.outcomes.len());
    proof {
        lemma_sum_zeros(amounts_per_outcome@);
    }
    Ok(Market {
        id: args.id,
        title: args.title,
        description: args.description,
        image_link: args.image_link,
        market_type: args.market_type,
        token_mint_a: args.token_mint_a,
        token_mint_b: args.token_mint_b,
        open_time: args.open_time,
        close_time: args.close_time,
        settle_time: args.settle_time,
        service_fee_bps: args.service_fee_bps,
        min_bet: args.min_bet,
        max_bet: args.max_bet,
        total_max_bet: args.total_max_bet,
        total_bet_amount: 0,
        final_price_a_closed: None,
        final_price_b_closed: None,
        final_price_a_settled: None,
        final_price_b_settled: None,
        outcomes: args.outcomes,
        amounts_per_outcome,
        winning_outcome: None,
        status: MarketStatus::Opened,
    })
}

} // verus!
