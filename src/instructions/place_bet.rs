use crate::errors::CustomError;
use crate::pool::{
    lemma_entry_le_sum, lemma_sum_le, lemma_sum_update, lemma_sum_zeros, zero_stakes,
    zeroed_stakes,
};
use crate::state::{AccountKey, Bet, Market, MarketStatus};
use vstd::prelude::*;

verus! {

/// What placing a bet works on: the market and its address, the bettor's
/// record in it (not yet initialized on a first bet), the bettor, the bump to
/// give a new record, and the current time.
#[derive(Clone, Debug)]
pub struct PlaceBet {
    pub market: Market,
    pub market_key: AccountKey,
    pub bet: Bet,
    pub user: AccountKey,
    pub bet_bump: u8,
    pub now: u64,
}

/// The bettor's stakes before a bet: none if the record is new.
pub open spec fn stakes_before(b: Bet, n: nat) -> Seq<u64> {
    if b.is_initialized {
        b.amounts_per_outcome@
    } else {
        zero_stakes(n)
    }
}

/// The bettor's total before a bet: zero if the record is new.
pub open spec fn total_before(b: Bet) -> int {
    if b.is_initialized {
        b.total_bet_amount as int
    } else {
        0
    }
}

/// The effect of a bet of `amount` on outcome `outcome_index` in the context
/// `c`: `post` is the context afterwards and `r` the result.
pub open spec fn place_bet_effect(
    c: PlaceBet,
    outcome_index: u8,
    amount: u64,
    r: Result<(), CustomError>,
    post: PlaceBet,
) -> bool {
    let m = c.market;
    let open = m.status == MarketStatus::Opened;
    let in_window = m.open_time <= c.now <= m.close_time;
    let valid_index = outcome_index < m.outcomes.len();
    let in_range = m.min_bet <= amount <= m.max_bet;
    let under_cap = m.total_bet_amount + amount <= m.total_max_bet;
    &&& (r == Err::<(), CustomError>(CustomError::MarketNotOpen) <==> !open)
    &&& (r == Err::<(), CustomError>(CustomError::OutsideBetWindow) <==> open && !in_window)
    &&& (r == Err::<(), CustomError>(CustomError::InvalidOutcomeIndex) <==> open && in_window
        && !valid_index)
    &&& (r == Err::<(), CustomError>(CustomError::BetAmountOutOfRange) <==> open && in_window
        && valid_index && !in_range)
    &&& (r == Err::<(), CustomError>(CustomError::MaxPoolExceeded) <==> open && in_window
        && valid_index && in_range && !under_cap)
    &&& (r is Ok <==> open && in_window && valid_index && in_range && under_cap)
    &&& (r is Err ==> post == c)
    &&& (r is Ok ==> {
        let b = c.bet;
        let i = outcome_index as int;
        let n = m.outcomes.len() as nat;
        &&& post == (PlaceBet { market: post.market, bet: post.bet, ..c })
        &&& post.market == (Market {
            amounts_per_outcome: post.market.amounts_per_outcome,
            total_bet_amount: (m.total_bet_amount + amount) as u64,
            ..m
        })
        &&& post.market.amounts_per_outcome@ == m.amounts_per_outcome@.update(
            i,
            (m.amounts_per_outcome@[i] + amount) as u64,
        )
        &&& post.bet.amounts_per_outcome@ == stakes_before(b, n).update(
            i,
            (stakes_before(b, n)[i] + amount) as u64,
        )
        &&& post.bet.total_bet_amount == total_before(b) + amount
        &&& post.bet.is_initialized
        &&& post.bet.claimed == (b.is_initialized && b.claimed)
        &&& post.bet.market == (if b.is_initialized { b.market } else { c.market_key })
        &&& post.bet.bettor == (if b.is_initialized { b.bettor } else { c.user })
        &&& post.bet.bump == (if b.is_initialized { b.bump } else { c.bet_bump })
    })
}

/// Stakes `amount` on outcome `outcome_index` of an open market, within its
/// bet window, its bet limits and its pool cap. The market's and the bettor's
/// totals grow together by `amount`; a first bet creates the bettor's record.
/// On any failure nothing changes.
pub fn place_bet_handler(ctx: &mut PlaceBet, outcome_index: u8, amount: u64) -> (r: Result<
    (),
    CustomError,
>)
    requires
        old(ctx).market.wf(),
        old(ctx).bet.is_initialized ==> old(ctx).bet.wf_for(old(ctx).market),
    ensures
        place_bet_effect(*old(ctx), outcome_index, amount, r, *final(ctx)),
        final(ctx).market.wf(),
        r is Ok ==> final(ctx).bet.wf_for(final(ctx).market),
        r is Ok && old(ctx).bet.is_initialized ==> {
            &&& old(ctx).bet.total_bet_amount <= final(ctx).bet.total_bet_amount
            &&& forall|j: int|
                0 <= j < old(ctx).bet.amounts_per_outcome.len() ==> #[trigger] old(
                    ctx,
                ).bet.amounts_per_outcome@[j] <= final(ctx).bet.amounts_per_outcome@[j]
        },
{
    if ctx.market.status != MarketStatus::Opened {
        return Err(CustomError::MarketNotOpen);
    }
    if !(ctx.now >= ctx.market.open_time && ctx.now <= ctx.market.close_time) {
        return Err(CustomError::OutsideBetWindow);
    }
    if outcome_index as usize >= ctx.market.outcomes.len() {
        return Err(CustomError::InvalidOutcomeIndex);
    }
    if amount < ctx.market.min_bet || amount > ctx.market.max_bet {
        return Err(CustomError::BetAmountOutOfRange);
    }
    if amount > ctx.market.total_max_bet - ctx.market.total_bet_amount {
        return Err(CustomError::MaxPoolExceeded);
    }
    let ghost m0 = ctx.market;
    let ghost b0 = ctx.bet;
    let i = outcome_index as usize;
    let n = ctx.market.outcomes.len();

    // The market's pool.
    proof {
        lemma_entry_le_sum(m0.amounts_per_outcome@, i as int);
    }
    let cur = ctx.market.amounts_per_outcome[i];
    ctx.market.amounts_per_outcome.set(i, cur + amount);
    ctx.market.total_bet_amount = ctx.market.total_bet_amount + amount;
    proof {
        lemma_sum_update(m0.amounts_per_outcome@, i as int, (cur + amount) as u64);
    }

    // The bettor's record, created on a first bet.
    if !ctx.bet.is_initialized {
        ctx.bet.is_initialized = true;
        ctx.bet.market = ctx.market_key;
        ctx.bet.bettor = ctx.user;
        ctx.bet.claimed = false;
        ctx.bet.bump = ctx.bet_bump;
        ctx.bet.amounts_per_outcome = zeroed_stakes(n);
        ctx.bet.total_bet_amount = 0;
        proof {
            lemma_sum_zeros(zero_stakes(n as nat));
        }
    }
    let ghost b1 = ctx.bet;
    assert(b1.amounts_per_outcome@ == stakes_before(b0, n as nat));
    assert(forall|j: int|
        0 <= j < n ==> #[trigger] b1.amounts_per_outcome@[j] <= m0.amounts_per_outcome@[j]);
    proof {
        lemma_sum_le(b1.amounts_per_outcome@, m0.amounts_per_outcome@);
    }
    let bcur = ctx.bet.amounts_per_outcome[i];
    ctx.bet.amounts_per_outcome.set(i, bcur + amount);
    ctx.bet.total_bet_amount = ctx.bet.total_bet_amount + amount;
    proof {
        lemma_sum_update(b1.amounts_per_outcome@, i as int, (bcur + amount) as u64);
    }
    Ok(())
}

} // verus!
