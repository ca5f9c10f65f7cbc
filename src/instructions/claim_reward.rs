use crate::errors::CustomError;
use crate::pool::lemma_entry_le_sum;
use crate::settlement::{claim_result, compute_payout};
use crate::state::{AccountKey, Bet, Market, MarketStatus};
use vstd::prelude::*;

verus! {

/// What claiming works on: the market, the claimant's bet record in it, and
/// the claimant.
#[derive(Clone, Debug)]
pub struct ClaimReward {
    pub market: Market,
    pub bet: Bet,
    pub user: AccountKey,
}

/// Pays out a bet record on a confirmed market and marks it claimed. The
/// amount returned is what the claimant is owed; a record that did not back
/// the winner is owed nothing. On any failure nothing changes.
pub fn claim_reward_handler(ctx: &mut ClaimReward) -> (r: Result<u64, CustomError>)
    requires
        old(ctx).market.wf(),
        old(ctx).bet.wf_for(old(ctx).market),
    ensures
        r == claim_result(old(ctx).market, old(ctx).bet),
        r is Err ==> *final(ctx) == *old(ctx),
        r is Ok ==> *final(ctx) == (ClaimReward {
            bet: Bet { claimed: true, ..old(ctx).bet },
            ..*old(ctx)
        }),
{
    if ctx.market.status != MarketStatus::Confirmed {
        return Err(CustomError::MarketNotConfirmed);
    }
    if ctx.bet.claimed {
        return Err(CustomError::AlreadyClaimed);
    }
    let w = match ctx.market.winning_outcome {
        Some(w) => w as usize,
        None => {
            return Err(CustomError::NoWinnerChosen);
        },
    };
    let user_win_amount = ctx.bet.amounts_per_outcome[w];
    let winning_pool = ctx.market.amounts_per_outcome[w];
    if winning_pool == 0 {
        return Err(CustomError::NumericalOverflow);
    }
    proof {
        lemma_entry_le_sum(ctx.market.amounts_per_outcome@, w as int);
    }
    let total_pool = ctx.market.total_bet_amount;
    let losing_pool = total_pool - winning_pool;
    let (payout, _fee) = compute_payout(
        user_win_amount,
        winning_pool,
        losing_pool,
        ctx.market.service_fee_bps,
    );
    ctx.bet.claimed = true;
    Ok(payout)
}

} // verus!
