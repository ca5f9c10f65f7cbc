//! The records a market keeps: the market itself, each participant's bet
//! record, and the fee treasury.
use crate::constants::{BPS_DENOMINATOR, MAX_OUTCOME_LEN};
use crate::pool::sum_seq;
use rust_decimal::Decimal;
use vstd::prelude::*;

verus! {

/// Declares `rust_decimal::Decimal`, the value an oracle feed reports, so that
/// markets can hold price snapshots. Nothing inside a value is read here.
#[verifier::external_type_specification]
#[verifier::external_body]
pub struct ExDecimal(Decimal);

/// A 32-byte account address, as two 128-bit halves.
#[derive(Clone, Copy, Debug, PartialEq, Eq, Structural)]
pub struct AccountKey {
    pub hi: u128,
    pub lo: u128,
}

/// Where a market is in its lifecycle; it only ever moves forward, one step
/// at a time.
#[derive(Clone, Copy, Debug, PartialEq, Eq, Structural)]
pub enum MarketStatus {
    Opened,
    Closed,
    Settled,
    Confirmed,
}

impl MarketStatus {
    /// The position of the status in the lifecycle.
    pub open spec fn rank(self) -> nat {
        match self {
            MarketStatus::Opened => 0,
            MarketStatus::Closed => 1,
            MarketStatus::Settled => 2,
            MarketStatus::Confirmed => 3,
        }
    }
}

/// Which price snapshots a market takes: two assets, one asset, or none.
#[derive(Clone, Copy, Debug, PartialEq, Eq, Structural)]
pub enum MarketType {
    Hilo,
    TokenFight,
    Custom,
}

/// One bettable event and its pooled stakes.
#[derive(Clone, Debug)]
pub struct Market {
    pub id: String,
    pub title: String,
    pub description: String,
    pub image_link: String,
    pub market_type: MarketType,
    pub token_mint_a: AccountKey,
    pub token_mint_b: AccountKey,
    pub open_time: u64,
    pub close_time: u64,
    pub settle_time: u64,
    pub service_fee_bps: u16,
    pub min_bet: u64,
    pub max_bet: u64,
    pub total_max_bet: u64,
    pub total_bet_amount: u64,
    pub final_price_a_closed: Option<Decimal>,
    pub final_price_b_closed: Option<Decimal>,
    pub final_price_a_settled: Option<Decimal>,
    pub final_price_b_settled: Option<Decimal>,
    pub outcomes: Vec<String>,
    pub amounts_per_outcome: Vec<u64>,
    pub winning_outcome: Option<u8>,
    pub status: MarketStatus,
}

impl Market {
    /// The market's invariant: its terms are consistent, the pool total is
    /// the sum of the per-outcome totals and within the cap, and a winner is
    /// fixed exactly when the market is confirmed.
    pub open spec fn wf(&self) -> bool {
        &&& 1 <= self.outcomes.len() <= MAX_OUTCOME_LEN
        &&& self.amounts_per_outcome.len() == self.outcomes.len()
        &&& self.total_bet_amount == sum_seq(self.amounts_per_outcome@)
        &&& self.total_bet_amount <= self.total_max_bet
        &&& self.min_bet <= self.max_bet
        &&& self.service_fee_bps <= BPS_DENOMINATOR
        &&& self.open_time <= self.close_time <= self.settle_time
        &&& (self.status == MarketStatus::Confirmed <==> self.winning_outcome is Some)
        &&& (self.winning_outcome matches Some(w) ==> w < self.outcomes.len())
    }

    /// Tests the market's invariant, so that a caller holding a stored record
    /// can check it before handing it to an operation.
    pub fn is_well_formed(&self) -> (r: bool)
        ensures
            r == self.wf(),
    {
        if self.outcomes.len() < 1 || self.outcomes.len() > MAX_OUTCOME_LEN as usize
            || self.amounts_per_outcome.len() != self.outcomes.len() {
            return false;
        }
        if self.total_bet_amount > self.total_max_bet || self.min_bet > self.max_bet
            || self.service_fee_bps as u64 > BPS_DENOMINATOR || self.open_time > self.close_time
            || self.close_time > self.settle_time {
            return false;
        }
        let confirmed = self.status == MarketStatus::Confirmed;
        match self.winning_outcome {
            Some(w) => {
                if !confirmed || w as usize >= self.outcomes.len() {
                    return false;
                }
            },
            None => {
                if confirmed {
                    return false;
                }
            },
        }
        sum_of(&self.amounts_per_outcome) == self.total_bet_amount as u128
    }

    /// The staked total on one outcome.
    pub open spec fn pool_of(&self, i: int) -> int {
        self.amounts_per_outcome@[i] as int
    }

    /// The market's whole pool.
    pub open spec fn total_pool(&self) -> int {
        sum_seq(self.amounts_per_outcome@)
    }
}

/// One participant's stakes in one market.
#[derive(Clone, Debug)]
pub struct Bet {
    pub is_initialized: bool,
    pub market: AccountKey,
    pub bettor: AccountKey,
    pub amounts_per_outcome: Vec<u64>,
    pub total_bet_amount: u64,
    pub claimed: bool,
    pub bump: u8,
}

impl Bet {
    /// The record's invariant against its market: it has one entry per
    /// outcome, its total is the sum of its entries, and no entry exceeds the
    /// market's total on that outcome.
    pub open spec fn wf_for(&self, m: Market) -> bool {
        &&& self.amounts_per_outcome.len() == m.amounts_per_outcome.len()
        &&& self.total_bet_amount == sum_seq(self.amounts_per_outcome@)
        &&& forall|i: int|
            0 <= i < self.amounts_per_outcome.len() ==> #[trigger] self.amounts_per_outcome@[i]
                <= m.amounts_per_outcome@[i]
    }
}

impl Bet {
    /// Tests the record's invariant against market `m`.
    pub fn is_well_formed_for(&self, m: &Market) -> (r: bool)
        ensures
            r == self.wf_for(*m),
    {
        let n = self.amounts_per_outcome.len();
        if n != m.amounts_per_outcome.len() {
            return false;
        }
        let mut i: usize = 0;
        while i < n
            invariant
                i <= n,
                n == self.amounts_per_outcome.len(),
                n == m.amounts_per_outcome.len(),
                forall|j: int| 0 <= j < i ==> #[trigger] self.amounts_per_outcome@[j]
                    <= m.amounts_per_outcome@[j],
            decreases n - i,
        {
            if self.amounts_per_outcome[i] > m.amounts_per_outcome[i] {
                return false;
            }
            i = i + 1;
        }
        sum_of(&self.amounts_per_outcome) == self.total_bet_amount as u128
    }
}

/// The account that collects service fees.
#[derive(Clone, Copy, Debug)]
pub struct Treasury {
    pub is_initialized: bool,
    pub amount: u64,
    pub bump: u8,
}

/// The sum of a ledger, held in 128 bits so that it cannot overflow.
pub fn sum_of(v: &Vec<u64>) -> (r: u128)
    ensures
        r == sum_seq(v@),
{
    let mut acc: u128 = 0;
    let mut i: usize = 0;
    while i < v.len()
        invariant
            i <= v.len(),
            acc == sum_seq(v@.subrange(0, i as int)),
            acc <= i * 0xffff_ffff_ffff_ffffu128,
        decreases v.len() - i,
    {
        assert(v@.subrange(0, i + 1).drop_last() =~= v@.subrange(0, i as int));
        let x = v[i];
        assert(acc + x <= (i + 1) * 0xffff_ffff_ffff_ffffu128 <= 0xffff_ffff_ffff_ffffu128
            * 0xffff_ffff_ffff_ffffu128) by (nonlinear_arith)
            requires
                acc <= i * 0xffff_ffff_ffff_ffffu128,
                x <= 0xffff_ffff_ffff_ffffu128,
                i < 0xffff_ffff_ffff_ffffu128,
        ;
        acc = acc + x as u128;
        i = i + 1;
    }
    assert(v@.subrange(0, v.len() as int) =~= v@);
    acc
}

} // verus!
