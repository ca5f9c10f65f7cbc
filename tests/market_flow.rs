use betting_program::errors::CustomError;
use betting_program::instructions::{
    ClaimReward, CloseMarket, CreateMarket, CreateMarketArgs, PlaceBet, SetWinningOutcome,
    SettleMarket,
};
use betting_program::settlement::compute_payout;
use betting_program::state::{AccountKey, Bet, Market, MarketStatus, MarketType};
use betting_program::{
    claim_reward, close_market, create_market, place_bet, set_winning_outcome, settle_market,
};
use rust_decimal::Decimal;

fn key(n: u128) -> AccountKey {
    AccountKey { hi: n, lo: n * 7 + 1 }
}

fn admin() -> AccountKey {
    key(1)
}

fn args(market_type: MarketType, outcomes: &[&str]) -> CreateMarketArgs {
    CreateMarketArgs {
        id: "m1".to_string(),
        title: "Will it rain?".to_string(),
        description: "Rain tomorrow".to_string(),
        image_link: "https://example.org/rain.png".to_string(),
        market_type,
        token_mint_a: key(50),
        token_mint_b: key(51),
        open_time: 100,
        close_time: 200,
        settle_time: 300,
        service_fee_bps: 500,
        min_bet: 10,
        max_bet: 1000,
        total_max_bet: 5000,
        outcomes: outcomes.iter().map(|s| s.to_string()).collect(),
    }
}

fn new_market(market_type: MarketType) -> Market {
    let ctx = CreateMarket { authority: admin(), admin: admin() };
    create_market(&ctx, args(market_type, &["Yes", "No"])).unwrap()
}

fn empty_bet() -> Bet {
    Bet {
        is_initialized: false,
        market: key(0),
        bettor: key(0),
        amounts_per_outcome: Vec::new(),
        total_bet_amount: 0,
        claimed: false,
        bump: 0,
    }
}

fn bet(market: Market, b: Bet, user: u128, now: u64, idx: u8, amount: u64)
    -> (Market, Bet, Result<(), CustomError>)
{
    let mut ctx =
        PlaceBet { market, market_key: key(9), bet: b, user: key(user), bet_bump: 254, now };
    let r = place_bet(&mut ctx, idx, amount);
    (ctx.market, ctx.bet, r)
}

fn close(market: Market, by: AccountKey, f1: Option<Decimal>, f2: Option<Decimal>)
    -> (Market, Result<(), CustomError>)
{
    let mut ctx = CloseMarket { market, authority: by, admin: admin(), feed1: f1, feed2: f2 };
    let r = close_market(&mut ctx);
    (ctx.market, r)
}

fn settle(market: Market, by: AccountKey, f1: Option<Decimal>, f2: Option<Decimal>)
    -> (Market, Result<(), CustomError>)
{
    let mut ctx = SettleMarket { market, authority: by, admin: admin(), feed1: f1, feed2: f2 };
    let r = settle_market(&mut ctx);
    (ctx.market, r)
}

fn confirm(market: Market, by: AccountKey, w: u8) -> (Market, Result<(), CustomError>) {
    let mut ctx = SetWinningOutcome { market, authority: by, admin: admin() };
    let r = set_winning_outcome(&mut ctx, w);
    (ctx.market, r)
}

fn claim(market: Market, b: Bet, user: u128) -> (Bet, Result<u64, CustomError>) {
    let mut ctx = ClaimReward { market, bet: b, user: key(user) };
    let r = claim_reward(&mut ctx);
    (ctx.bet, r)
}

/// Market with a 100 on Yes by user 2 and a 300 on No by user 3, confirmed Yes.
fn confirmed_two_sided_market() -> (Market, Bet, Bet) {
    let m = new_market(MarketType::Custom);
    let (m, yes, r) = bet(m, empty_bet(), 2, 150, 0, 100);
    assert_eq!(r, Ok(()));
    let (m, no, r) = bet(m, empty_bet(), 3, 150, 1, 300);
    assert_eq!(r, Ok(()));
    let (m, r) = close(m, admin(), None, None);
    assert_eq!(r, Ok(()));
    let (m, r) = settle(m, admin(), None, None);
    assert_eq!(r, Ok(()));
    let (m, r) = confirm(m, admin(), 0);
    assert_eq!(r, Ok(()));
    (m, yes, no)
}

#[test]
fn winner_gets_stake_plus_losing_share_less_fee() {
    let (m, yes, _no) = confirmed_two_sided_market();
    assert_eq!(m.status, MarketStatus::Confirmed);
    assert_eq!(m.winning_outcome, Some(0));
    assert_eq!(m.total_bet_amount, 400);
    let (yes, r) = claim(m, yes, 2);
    assert_eq!(r, Ok(380));
    assert!(yes.claimed);
}

#[test]
fn loser_claims_nothing() {
    let (m, _yes, no) = confirmed_two_sided_market();
    let (no, r) = claim(m, no, 3);
    assert_eq!(r, Ok(0));
    assert!(no.claimed);
}

#[test]
fn second_claim_is_refused() {
    let (m, yes, _no) = confirmed_two_sided_market();
    let (yes, r) = claim(m.clone(), yes, 2);
    assert_eq!(r, Ok(380));
    let (yes2, r2) = claim(m, yes.clone(), 2);
    assert_eq!(r2, Err(CustomError::AlreadyClaimed));
    assert!(yes2.claimed);
    assert_eq!(yes2.total_bet_amount, yes.total_bet_amount);
}

#[test]
fn bet_outside_limits_is_refused() {
    let m = new_market(MarketType::Custom);
    let (m, b, r) = bet(m, empty_bet(), 2, 150, 0, 5);
    assert_eq!(r, Err(CustomError::BetAmountOutOfRange));
    assert_eq!(m.total_bet_amount, 0);
    assert!(!b.is_initialized);
    let (_, _, r) = bet(m, empty_bet(), 2, 150, 0, 1001);
    assert_eq!(r, Err(CustomError::BetAmountOutOfRange));
}

#[test]
fn bet_outside_window_is_refused() {
    let m = new_market(MarketType::Custom);
    let (m, _, r) = bet(m, empty_bet(), 2, 201, 0, 100);
    assert_eq!(r, Err(CustomError::OutsideBetWindow));
    let (m, _, r) = bet(m, empty_bet(), 2, 99, 0, 100);
    assert_eq!(r, Err(CustomError::OutsideBetWindow));
    let (_, _, r) = bet(m, empty_bet(), 2, 200, 0, 100);
    assert_eq!(r, Ok(()));
}

#[test]
fn confirm_before_settle_is_refused() {
    let m = new_market(MarketType::Custom);
    let (m, r) = close(m, admin(), None, None);
    assert_eq!(r, Ok(()));
    let (m, r) = confirm(m, admin(), 0);
    assert_eq!(r, Err(CustomError::MarketNotSettled));
    assert_eq!(m.status, MarketStatus::Closed);
    assert_eq!(m.winning_outcome, None);
}

#[test]
fn non_admin_is_unauthorized() {
    let outsider = key(77);
    let ctx = CreateMarket { authority: outsider, admin: admin() };
    assert_eq!(
        create_market(&ctx, args(MarketType::Custom, &["Yes", "No"])).unwrap_err(),
        CustomError::Unauthorized
    );
    let m = new_market(MarketType::Custom);
    let (m, r) = close(m, outsider, None, None);
    assert_eq!(r, Err(CustomError::Unauthorized));
    let (m, _) = close(m, admin(), None, None);
    let (m, r) = settle(m, outsider, None, None);
    assert_eq!(r, Err(CustomError::Unauthorized));
    let (m, _) = settle(m, admin(), None, None);
    let (m, r) = confirm(m, outsider, 0);
    assert_eq!(r, Err(CustomError::Unauthorized));
    assert_eq!(m.status, MarketStatus::Settled);
}

#[test]
fn zero_winning_pool_claim_fails() {
    let m = new_market(MarketType::Custom);
    let (m, no, _) = bet(m, empty_bet(), 3, 150, 1, 300);
    let (m, _) = close(m, admin(), None, None);
    let (m, _) = settle(m, admin(), None, None);
    let (m, _) = confirm(m, admin(), 0);
    let (no, r) = claim(m, no, 3);
    assert_eq!(r, Err(CustomError::NumericalOverflow));
    assert!(!no.claimed);
}

#[test]
fn claim_before_confirmation_fails() {
    let m = new_market(MarketType::Custom);
    let (m, yes, _) = bet(m, empty_bet(), 2, 150, 0, 100);
    let (_, r) = claim(m.clone(), yes.clone(), 2);
    assert_eq!(r, Err(CustomError::MarketNotConfirmed));
    let (m, _) = close(m, admin(), None, None);
    let (_, r) = claim(m.clone(), yes.clone(), 2);
    assert_eq!(r, Err(CustomError::MarketNotConfirmed));
    let (m, _) = settle(m, admin(), None, None);
    let (_, r) = claim(m, yes, 2);
    assert_eq!(r, Err(CustomError::MarketNotConfirmed));
}

#[test]
fn operations_out_of_order_fail() {
    let m = new_market(MarketType::Custom);
    let (m, r) = settle(m, admin(), None, None);
    assert_eq!(r, Err(CustomError::MarketNotClosed));
    let (m, r) = close(m, admin(), None, None);
    assert_eq!(r, Ok(()));
    let (m, r) = close(m, admin(), None, None);
    assert_eq!(r, Err(CustomError::MarketNotOpen));
    let (m, _, r) = bet(m, empty_bet(), 2, 150, 0, 100);
    assert_eq!(r, Err(CustomError::MarketNotOpen));
    let (m, _) = settle(m, admin(), None, None);
    let (m, _) = confirm(m, admin(), 1);
    let (m, r) = confirm(m, admin(), 0);
    assert_eq!(r, Err(CustomError::MarketNotSettled));
    assert_eq!(m.winning_outcome, Some(1));
}

#[test]
fn outcome_count_limits() {
    let ctx = CreateMarket { authority: admin(), admin: admin() };
    let eleven = ["a", "b", "c", "d", "e", "f", "g", "h", "i", "j", "k"];
    assert_eq!(
        create_market(&ctx, args(MarketType::Custom, &eleven)).unwrap_err(),
        CustomError::OutcomeLenExceeded
    );
    let m = create_market(&ctx, args(MarketType::Custom, &eleven[..10])).unwrap();
    assert_eq!(m.amounts_per_outcome, vec![0u64; 10]);
    assert_eq!(
        create_market(&ctx, args(MarketType::Custom, &[])).unwrap_err(),
        CustomError::InvalidMarketConfig
    );
}

#[test]
fn inconsistent_terms_are_refused() {
    let ctx = CreateMarket { authority: admin(), admin: admin() };
    let mut a = args(MarketType::Custom, &["Yes", "No"]);
    a.close_time = 50;
    assert_eq!(create_market(&ctx, a).unwrap_err(), CustomError::InvalidMarketConfig);
    let mut a = args(MarketType::Custom, &["Yes", "No"]);
    a.settle_time = 150;
    assert_eq!(create_market(&ctx, a).unwrap_err(), CustomError::InvalidMarketConfig);
    let mut a = args(MarketType::Custom, &["Yes", "No"]);
    a.min_bet = 2000;
    assert_eq!(create_market(&ctx, a).unwrap_err(), CustomError::InvalidMarketConfig);
    let mut a = args(MarketType::Custom, &["Yes", "No"]);
    a.service_fee_bps = 10_001;
    assert_eq!(create_market(&ctx, a).unwrap_err(), CustomError::InvalidMarketConfig);
}

#[test]
fn created_market_starts_open_and_empty() {
    let m = new_market(MarketType::Hilo);
    assert_eq!(m.status, MarketStatus::Opened);
    assert_eq!(m.outcomes, vec!["Yes".to_string(), "No".to_string()]);
    assert_eq!(m.amounts_per_outcome, vec![0, 0]);
    assert_eq!(m.total_bet_amount, 0);
    assert_eq!(m.winning_outcome, None);
    assert_eq!(m.final_price_a_closed, None);
    assert_eq!(m.id, "m1");
    assert_eq!(m.service_fee_bps, 500);
}

#[test]
fn bets_accumulate_in_market_and_record() {
    let m = new_market(MarketType::Custom);
    let (m, b, r) = bet(m, empty_bet(), 2, 150, 0, 100);
    assert_eq!(r, Ok(()));
    assert!(b.is_initialized);
    assert_eq!(b.bettor, key(2));
    assert_eq!(b.market, key(9));
    assert_eq!(b.bump, 254);
    let (m, b, _) = bet(m, b, 2, 160, 1, 40);
    let (m, b, _) = bet(m, b, 2, 170, 0, 60);
    assert_eq!(m.amounts_per_outcome, vec![160, 40]);
    assert_eq!(m.total_bet_amount, 200);
    assert_eq!(b.amounts_per_outcome, vec![160, 40]);
    assert_eq!(b.total_bet_amount, 200);
    assert_eq!(m.total_bet_amount, m.amounts_per_outcome.iter().sum::<u64>());
}

#[test]
fn pool_cap_and_outcome_index() {
    let m = new_market(MarketType::Custom);
    let mut m = m;
    let mut users = 10;
    for _ in 0..5 {
        let (m2, _, r) = bet(m, empty_bet(), users, 150, 0, 1000);
        assert_eq!(r, Ok(()));
        m = m2;
        users += 1;
    }
    assert_eq!(m.total_bet_amount, 5000);
    let (m, _, r) = bet(m, empty_bet(), users, 150, 1, 10);
    assert_eq!(r, Err(CustomError::MaxPoolExceeded));
    let (_, _, r) = bet(m, empty_bet(), users, 150, 2, 10);
    assert_eq!(r, Err(CustomError::InvalidOutcomeIndex));
}

#[test]
fn confirm_rejects_unknown_outcome() {
    let m = new_market(MarketType::Custom);
    let (m, _) = close(m, admin(), None, None);
    let (m, _) = settle(m, admin(), None, None);
    let (m, r) = confirm(m, admin(), 2);
    assert_eq!(r, Err(CustomError::InvalidOutcomeIndex));
    assert_eq!(m.status, MarketStatus::Settled);
}

#[test]
fn token_fight_needs_both_feeds() {
    let m = new_market(MarketType::TokenFight);
    let pa = Decimal::new(12345, 2);
    let pb = Decimal::new(-7, 1);
    let (m, r) = close(m, admin(), Some(pa), None);
    assert_eq!(r, Err(CustomError::InvalidOracle));
    assert_eq!(m.status, MarketStatus::Opened);
    assert_eq!(m.final_price_a_closed, None);
    let (m, r) = close(m, admin(), Some(pa), Some(pb));
    assert_eq!(r, Ok(()));
    assert_eq!(m.status, MarketStatus::Closed);
    assert_eq!(m.final_price_a_closed, Some(pa));
    assert_eq!(m.final_price_b_closed, Some(pb));
    let (m, r) = settle(m, admin(), None, Some(pb));
    assert_eq!(r, Err(CustomError::InvalidOracle));
    assert_eq!(m.status, MarketStatus::Closed);
    let (m, r) = settle(m, admin(), Some(pb), Some(pa));
    assert_eq!(r, Ok(()));
    assert_eq!(m.final_price_a_settled, Some(pb));
    assert_eq!(m.final_price_b_settled, Some(pa));
}

#[test]
fn hilo_needs_first_feed_only() {
    let m = new_market(MarketType::Hilo);
    let p = Decimal::new(42, 0);
    let (m, r) = close(m, admin(), None, None);
    assert_eq!(r, Err(CustomError::InvalidOracle));
    let (m, r) = close(m, admin(), Some(p), None);
    assert_eq!(r, Ok(()));
    assert_eq!(m.final_price_a_closed, Some(p));
    assert_eq!(m.final_price_b_closed, None);
    let (m, r) = settle(m, admin(), Some(p), None);
    assert_eq!(r, Ok(()));
    assert_eq!(m.final_price_a_settled, Some(p));
    assert_eq!(m.final_price_b_settled, None);
}

#[test]
fn custom_market_ignores_feeds() {
    let m = new_market(MarketType::Custom);
    let p = Decimal::new(1, 0);
    let (m, r) = close(m, admin(), Some(p), Some(p));
    assert_eq!(r, Ok(()));
    assert_eq!(m.final_price_a_closed, None);
    assert_eq!(m.final_price_b_closed, None);
}

#[test]
fn payout_formula_exact_values() {
    assert_eq!(compute_payout(100, 100, 300, 500), (380, 20));
    assert_eq!(compute_payout(1, 3, 10, 0), (4, 0));
    assert_eq!(compute_payout(0, 3, 10, 500), (0, 0));
    assert_eq!(compute_payout(50, 50, 0, 10_000), (0, 50));
    assert_eq!(compute_payout(7, 9, 5, 333), (10, 0));
    let fee = u64::MAX / 10_000;
    assert_eq!(compute_payout(u64::MAX, u64::MAX, 0, 1), (u64::MAX - fee, fee));
}

#[test]
fn payouts_never_exceed_pool_less_fees() {
    // Three winners split a winning pool of 10 over a losing pool of 7.
    let stakes = [3u64, 3, 4];
    let mut paid = 0u64;
    let mut fees = 0u64;
    for s in stakes {
        let (p, f) = compute_payout(s, 10, 7, 250);
        paid += p;
        fees += f;
    }
    assert!(paid <= 17 - fees);
    assert_eq!(paid + fees, 3 + 2 + 3 + 2 + 4 + 2);
    // Rounding leaves less than one unit per claim in the pool.
    assert!(17 - (paid + fees) < 3);
}

#[test]
fn all_winners_claim_within_pool() {
    let m = new_market(MarketType::Custom);
    let (m, a, _) = bet(m, empty_bet(), 2, 150, 0, 30);
    let (m, b, _) = bet(m, empty_bet(), 3, 150, 0, 30);
    let (m, c, _) = bet(m, empty_bet(), 4, 150, 0, 40);
    let (m, d, _) = bet(m, empty_bet(), 5, 150, 1, 70);
    let (m, _) = close(m, admin(), None, None);
    let (m, _) = settle(m, admin(), None, None);
    let (m, _) = confirm(m, admin(), 0);
    let mut paid = 0;
    for (rec, user) in [(a, 2), (b, 3), (c, 4), (d, 5)] {
        let (_, r) = claim(m.clone(), rec, user);
        paid += r.unwrap();
    }
    assert_eq!(paid, 49 + 49 + 65);
    let fees = 2 + 2 + 3;
    assert!(paid <= m.total_bet_amount - fees);
    assert_eq!(m.total_bet_amount, 170);
}
