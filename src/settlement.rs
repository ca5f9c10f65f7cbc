//! Payouts of a confirmed market: a winner gets back their stake plus a share
//! of the losing pool in proportion to their share of the winning pool, less
//! the service fee. Every division rounds down, so rounding favours the pool.
use crate::constants::BPS_DENOMINATOR;
use crate::errors::CustomError;
use crate::pool::{lemma_entry_le_sum, sum_seq};
use crate::state::{Bet, Market, MarketStatus};
use vstd::arithmetic::div_mod::{
    lemma_div_is_ordered, lemma_div_multiples_vanish, lemma_fundamental_div_mod,
    lemma_mod_pos_bound,
};
use vstd::prelude::*;

verus! {

/// The part of the losing pool owed to a stake on the winning outcome.
pub open spec fn share_of_losers(stake: int, winning_pool: int, losing_pool: int) -> int {
    stake * losing_pool / winning_pool
}

/// A winner's payout before the fee: the stake back plus its share.
pub open spec fn raw_payout(stake: int, winning_pool: int, losing_pool: int) -> int {
    stake + share_of_losers(stake, winning_pool, losing_pool)
}

/// The fee on a raw payout, rounded down.
pub open spec fn service_fee(raw: int, fee_bps: int) -> int {
    raw * fee_bps / BPS_DENOMINATOR as int
}

/// What the participant receives.
pub open spec fn net_payout(raw: int, fee_bps: int) -> int {
    raw - service_fee(raw, fee_bps)
}

/// The confirmed winner's index.
pub open spec fn winner_of(m: Market) -> int {
    m.winning_outcome.unwrap() as int
}

/// The staked total on every outcome but the winner.
pub open spec fn losing_pool_of(m: Market) -> int {
    m.total_pool() - m.pool_of(winner_of(m))
}

/// The raw payout of a stake of `stake` on the winner of `m`.
pub open spec fn claim_raw(m: Market, stake: int) -> int {
    raw_payout(stake, m.pool_of(winner_of(m)), losing_pool_of(m))
}

/// The fee charged on claiming a stake of `stake` on the winner of `m`.
pub open spec fn claim_fee(m: Market, stake: int) -> int {
    service_fee(claim_raw(m, stake), m.service_fee_bps as int)
}

/// What claiming a stake of `stake` on the winner of `m` pays out.
pub open spec fn claim_payout(m: Market, stake: int) -> int {
    net_payout(claim_raw(m, stake), m.service_fee_bps as int)
}

/// The result of claiming with bet record `b` on market `m`.
pub open spec fn claim_result(m: Market, b: Bet) -> Result<u64, CustomError> {
    if m.status != MarketStatus::Confirmed {
        Err(CustomError::MarketNotConfirmed)
    } else if b.claimed {
        Err(CustomError::AlreadyClaimed)
    } else if m.winning_outcome is None {
        Err(CustomError::NoWinnerChosen)
    } else if m.pool_of(winner_of(m)) == 0 {
        Err(CustomError::NumericalOverflow)
    } else {
        Ok(claim_payout(m, b.amounts_per_outcome@[winner_of(m)] as int) as u64)
    }
}

/// The payout and the fee of a winning stake, in exact integer arithmetic.
/// The share never exceeds the losing pool and the fee never exceeds the raw
/// payout, so nothing can overflow or underflow.
pub fn compute_payout(stake: u64, winning_pool: u64, losing_pool: u64, fee_bps: u16) -> (r: (
    u64,
    u64,
))
    requires
        0 < winning_pool,
        stake <= winning_pool,
        winning_pool + losing_pool <= u64::MAX,
        fee_bps <= BPS_DENOMINATOR,
    ensures
        r.0 == net_payout(
            raw_payout(stake as int, winning_pool as int, losing_pool as int),
            fee_bps as int,
        ),
        r.1 == service_fee(
            raw_payout(stake as int, winning_pool as int, losing_pool as int),
            fee_bps as int,
        ),
        r.0 + r.1 == raw_payout(stake as int, winning_pool as int, losing_pool as int),
        r.0 + r.1 <= stake + losing_pool,
{
    let s = stake as u128;
    let w = winning_pool as u128;
    let l = losing_pool as u128;
    proof {
        assert(s * l <= 0xffff_ffff_ffff_ffffu128 * 0xffff_ffff_ffff_ffffu128) by (nonlinear_arith)
            requires
                s <= 0xffff_ffff_ffff_ffffu128,
                l <= 0xffff_ffff_ffff_ffffu128,
        ;
        assert(s * l <= w * l) by (nonlinear_arith)
            requires
                s <= w,
                0 <= l,
        ;
        lemma_div_is_ordered((s * l) as int, (w * l) as int, w as int);
        lemma_div_multiples_vanish(l as int, w as int);
        assert(w * l == l * w) by (nonlinear_arith);
    }
    let share = s * l / w;
    let raw = s + share;
    let b = fee_bps as u128;
    proof {
        assert(raw * b <= raw * 10000) by (nonlinear_arith)
            requires
                b <= 10000,
                0 <= raw,
        ;
        lemma_div_is_ordered((raw * b) as int, (raw * 10000) as int, 10000);
        lemma_div_multiples_vanish(raw as int, 10000);
        assert(raw * 10000 == 10000 * raw) by (nonlinear_arith);
        assert(0 <= raw * b) by (nonlinear_arith)
            requires
                0 <= raw,
                0 <= b,
        ;
        assert(0 <= (raw * b) / 10000) by (nonlinear_arith)
            requires
                0 <= raw * b,
        ;
    }
    let fee = raw * b / 10000;
    ((raw - fee) as u64, fee as u64)
}

/// Sum of the payouts of a sequence of claims on the winner of `m`.
pub open spec fn payouts_sum(m: Market, stakes: Seq<u64>) -> int
    decreases stakes.len(),
{
    if stakes.len() == 0 {
        0
    } else {
        payouts_sum(m, stakes.drop_last()) + claim_payout(m, stakes.last() as int)
    }
}

/// Sum of the fees of a sequence of claims on the winner of `m`.
pub open spec fn fees_sum(m: Market, stakes: Seq<u64>) -> int
    decreases stakes.len(),
{
    if stakes.len() == 0 {
        0
    } else {
        fees_sum(m, stakes.drop_last()) + claim_fee(m, stakes.last() as int)
    }
}

/// Sum of the shares of the losing pool of a sequence of stakes.
pub open spec fn shares_sum(stakes: Seq<u64>, winning_pool: int, losing_pool: int) -> int
    decreases stakes.len(),
{
    if stakes.len() == 0 {
        0
    } else {
        shares_sum(stakes.drop_last(), winning_pool, losing_pool) + share_of_losers(
            stakes.last() as int,
            winning_pool,
            losing_pool,
        )
    }
}

/// Rounding each share down never hands out more than the exact proportion.
proof fn lemma_shares_bound(stakes: Seq<u64>, winning_pool: int, losing_pool: int)
    requires
        0 < winning_pool,
        0 <= losing_pool,
    ensures
        0 <= shares_sum(stakes, winning_pool, losing_pool),
        shares_sum(stakes, winning_pool, losing_pool) * winning_pool <= sum_seq(stakes)
            * losing_pool,
        sum_seq(stakes) * losing_pool <= shares_sum(stakes, winning_pool, losing_pool)
            * winning_pool + stakes.len() * (winning_pool - 1),
    decreases stakes.len(),
{
    if stakes.len() > 0 {
        let init = stakes.drop_last();
        lemma_shares_bound(init, winning_pool, losing_pool);
        let x = stakes.last() as int * losing_pool;
        assert(0 <= x) by (nonlinear_arith)
            requires
                x == stakes.last() as int * losing_pool,
                0 <= losing_pool,
        ;
        lemma_fundamental_div_mod(x, winning_pool);
        lemma_mod_pos_bound(x, winning_pool);
        let q = x / winning_pool;
        assert(0 <= q) by (nonlinear_arith)
            requires
                x == winning_pool * q + x % winning_pool,
                0 <= x,
                x % winning_pool < winning_pool,
                0 < winning_pool,
        ;
        let a = shares_sum(init, winning_pool, losing_pool);
        assert((a + q) * winning_pool <= (sum_seq(init) + stakes.last()) * losing_pool)
            by (nonlinear_arith)
            requires
                a * winning_pool <= sum_seq(init) * losing_pool,
                x == stakes.last() as int * losing_pool,
                x == winning_pool * q + x % winning_pool,
                0 <= x % winning_pool,
        ;
        assert((sum_seq(init) + stakes.last()) * losing_pool <= (a + q) * winning_pool + (
        init.len() + 1) * (winning_pool - 1)) by (nonlinear_arith)
            requires
                sum_seq(init) * losing_pool <= a * winning_pool + init.len() * (winning_pool - 1),
                x == stakes.last() as int * losing_pool,
                x == winning_pool * q + x % winning_pool,
                x % winning_pool < winning_pool,
        ;
    }
}

/// Each claim's payout and fee together are its raw payout.
proof fn lemma_payouts_fees_split(m: Market, stakes: Seq<u64>)
    ensures
        payouts_sum(m, stakes) + fees_sum(m, stakes) == sum_seq(stakes) + shares_sum(
            stakes,
            m.pool_of(winner_of(m)),
            losing_pool_of(m),
        ),
    decreases stakes.len(),
{
    if stakes.len() > 0 {
        lemma_payouts_fees_split(m, stakes.drop_last());
    }
}

/// Conservation: however many winners claim, as long as their stakes on the
/// winning outcome add up to no more than the winning pool, the payouts sum
/// to at most the whole pool less the fees collected on them. When every
/// winning stake has claimed, what rounding leaves in the pool is less than
/// one unit per claim.
pub proof fn lemma_payouts_conserve_pool(m: Market, stakes: Seq<u64>)
    requires
        m.wf(),
        m.status == MarketStatus::Confirmed,
        m.pool_of(winner_of(m)) > 0,
        sum_seq(stakes) <= m.pool_of(winner_of(m)),
    ensures
        payouts_sum(m, stakes) <= m.total_pool() - fees_sum(m, stakes),
        sum_seq(stakes) == m.pool_of(winner_of(m)) ==> 0 <= m.total_pool() - fees_sum(m, stakes)
            - payouts_sum(m, stakes) < stakes.len(),
{
    let w = winner_of(m);
    let wp = m.pool_of(w);
    lemma_entry_le_sum(m.amounts_per_outcome@, w);
    let lp = losing_pool_of(m);
    lemma_shares_bound(stakes, wp, lp);
    lemma_payouts_fees_split(m, stakes);
    let s = shares_sum(stakes, wp, lp);
    assert(s <= lp) by (nonlinear_arith)
        requires
            s * wp <= sum_seq(stakes) * lp,
            sum_seq(stakes) <= wp,
            0 < wp,
            0 <= lp,
    ;
    if sum_seq(stakes) == wp {
        let n = stakes.len() as int;
        assert(n > 0);
        assert(wp * (lp - s - n) <= -n) by (nonlinear_arith)
            requires
                wp * lp <= s * wp + n * (wp - 1),
        ;
        assert(lp - s - n < 0) by (nonlinear_arith)
            requires
                wp * (lp - s - n) <= -n,
                0 < wp,
                0 < n,
        ;
    }
}

/// A claim that succeeded cannot succeed again: the same record, now marked
/// claimed, is refused with `AlreadyClaimed`.
pub proof fn lemma_claim_idempotent(m: Market, b: Bet)
    requires
        claim_result(m, b) is Ok,
    ensures
        claim_result(m, Bet { claimed: true, ..b }) == Err::<u64, CustomError>(
            CustomError::AlreadyClaimed,
        ),
{
}

/// If nobody backed the confirmed winner, every claim fails, and an unclaimed
/// record fails with the arithmetic guard rather than a division by zero.
pub proof fn lemma_zero_pool_claims_fail(m: Market, b: Bet)
    requires
        m.wf(),
        m.status == MarketStatus::Confirmed,
        m.pool_of(winner_of(m)) == 0,
    ensures
        claim_result(m, b) is Err,
        !b.claimed ==> claim_result(m, b) == Err::<u64, CustomError>(
            CustomError::NumericalOverflow,
        ),
{
}

} // verus!
