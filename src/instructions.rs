//! The operations on a market, one module each.
pub mod claim_reward;
pub mod close_market;
pub mod create_market;
pub mod place_bet;
pub mod set_winning_outcome;
pub mod settle_market;

pub use claim_reward::{claim_reward_handler, ClaimReward};
pub use close_market::{close_market_handler, CloseMarket};
pub use create_market::{create_market_handler, CreateMarket, CreateMarketArgs};
pub use place_bet::{place_bet_handler, PlaceBet};
pub use set_winning_outcome::{set_winning_outcome_handler, SetWinningOutcome};
pub use settle_market::{settle_market_handler, SettleMarket};
