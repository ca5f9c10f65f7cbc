//! A parimutuel prediction-market engine: markets move through a strict
//! lifecycle, participants stake on outcomes, and winners of a confirmed
//! market share the losing pool pro rata, net of a service fee.
use vstd::prelude::*;

pub mod constants;
pub mod errors;
pub mod instructions;
pub mod pool;
pub mod settlement;
pub mod snapshot;
pub mod state;

use crate::errors::CustomError;
use crate::instructions::claim_reward::claim_reward_handler;
use crate::instructions::close_market::{close_market_effect, close_market_handler};
use crate::instructions::create_market::{create_market_effect, create_market_handler};
use crate::instructions::place_bet::{place_bet_effect, place_bet_handler};
use crate::instructions::set_winning_outcome::{
    set_winning_outcome_effect, set_winning_outcome_handler,
};
use crate::instructions::settle_market::{settle_market_effect, settle_market_handler};
use crate::instructions::{
    ClaimReward, CloseMarket, CreateMarket, CreateMarketArgs, PlaceBet, SetWinningOutcome,
    SettleMarket,
};
use crate::settlement::claim_result;
use crate::state::{Bet, Market, MarketStatus};

verus! {

/// Creates a market; see `create_market_handler`.
pub fn create_market(ctx: &CreateMarket, args: CreateMarketArgs) -> (r: Result<Market, CustomError>)
    ensures
        create_market_effect(*ctx, args, r),
{
    create_market_handler(ctx, args)
}

/// Closes a market; see `close_market_handler`.
pub fn close_market(ctx: &mut CloseMarket) -> (r: Result<(), CustomError>)
    ensures
        close_market_effect(*old(ctx), r, *final(ctx)),
        old(ctx).market.wf() ==> final(ctx).market.wf(),
{
    close_market_handler(ctx)
}

/// Settles a market; see `settle_market_handler`.
pub fn settle_market(ctx: &mut SettleMarket) -> (r: Result<(), CustomError>)
    ensures
        settle_market_effect(*old(ctx), r, *final(ctx)),
        old(ctx).market.wf() ==> final(ctx).market.wf(),
{
    settle_market_handler(ctx)
}

/// Confirms the winning outcome; see `set_winning_outcome_handler`.
pub fn set_winning_outcome(ctx: &mut SetWinningOutcome, winning_outcome: u8) -> (r: Result<
    (),
    CustomError,
>)
    ensures
        set_winning_outcome_effect(*old(ctx), winning_outcome, r, *final(ctx)),
        old(ctx).market.wf() ==> final(ctx).market.wf(),
{
    set_winning_outcome_handler(ctx, winning_outcome)
}

/// Places a bet; see `place_bet_handler`.
pub fn place_bet(ctx: &mut PlaceBet, outcome_index: u8, amount: u64) -> (r: Result<
    (),
    CustomError,
>)
    requires
        old(ctx).market.wf(),
        old(ctx).bet.is_initialized ==> old(ctx).bet.wf_for(old(ctx).market),
    ensures
        place_bet_effect(*old(ctx), outcome_index, amount, r, *final(ctx)),
        final(ctx).market.wf(),
        r is Ok ==> final(ctx).bet.wf_for(final(ctx).market),
        r is Ok && old(ctx).bet.is_initialized ==> {
            &&& old(ctx).bet.total_bet_amount <= final(ctx).bet.total_bet_amount
            &&& forall|j: int|
                0 <= j < old(ctx).bet.amounts_per_outcome.len() ==> #[trigger] old(
                    ctx,
                ).bet.amounts_per_outcome@[j] <= final(ctx).bet.amounts_per_outcome@[j]
        },
{
    place_bet_handler(ctx, outcome_index, amount)
}

/// Claims a payout; see `claim_reward_handler`.
pub fn claim_reward(ctx: &mut ClaimReward) -> (r: Result<u64, CustomError>)
    requires
        old(ctx).market.wf(),
        old(ctx).bet.wf_for(old(ctx).market),
    ensures
        r == claim_result(old(ctx).market, old(ctx).bet),
        r is Err ==> *final(ctx) == *old(ctx),
        r is Ok ==> *final(ctx) == (ClaimReward {
            bet: Bet { claimed: true, ..old(ctx).bet },
            ..*old(ctx)
        }),
{
    claim_reward_handler(ctx)
}

/// The lifecycle is strictly linear: closing succeeds only on an open
/// market, settling only on a closed one, confirming only on a settled one,
/// and each moves the market exactly one step forward; bets are taken only
/// while the market is open, and claims paid only once it is confirmed.
pub proof fn lemma_lifecycle_in_order(
    close: (CloseMarket, Result<(), CustomError>, CloseMarket),
    settle: (SettleMarket, Result<(), CustomError>, SettleMarket),
    confirm: (SetWinningOutcome, u8, Result<(), CustomError>, SetWinningOutcome),
    bet: (PlaceBet, u8, u64, Result<(), CustomError>, PlaceBet),
    claim: (Market, Bet),
)
    ensures
        close_market_effect(close.0, close.1, close.2) && close.1 is Ok ==> {
            &&& close.0.market.status == MarketStatus::Opened
            &&& close.2.market.status == MarketStatus::Closed
            &&& close.2.market.status.rank() == close.0.market.status.rank() + 1
        },
        settle_market_effect(settle.0, settle.1, settle.2) && settle.1 is Ok ==> {
            &&& settle.0.market.status == MarketStatus::Closed
            &&& settle.2.market.status == MarketStatus::Settled
            &&& settle.2.market.status.rank() == settle.0.market.status.rank() + 1
        },
        set_winning_outcome_effect(confirm.0, confirm.1, confirm.2, confirm.3) && confirm.2 is Ok
            ==> {
            &&& confirm.0.market.status == MarketStatus::Settled
            &&& confirm.3.market.status == MarketStatus::Confirmed
            &&& confirm.3.market.status.rank() == confirm.0.market.status.rank() + 1
        },
        place_bet_effect(bet.0, bet.1, bet.2, bet.3, bet.4) && bet.3 is Ok ==> {
            &&& bet.0.market.status == MarketStatus::Opened
            &&& bet.4.market.status == MarketStatus::Opened
        },
        claim_result(claim.0, claim.1) is Ok ==> claim.0.status == MarketStatus::Confirmed,
{
}

} // verus!
