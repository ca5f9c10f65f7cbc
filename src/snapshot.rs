//! Price snapshots taken from oracle feeds when a market closes and when it
//! settles. Two-asset markets need both feeds, one-asset markets the first,
//! and custom markets none.
use crate::errors::CustomError;
use crate::state::MarketType;
use rust_decimal::Decimal;
use vstd::prelude::*;

verus! {

/// Whether the feeds that a market of type `t` needs have all resolved.
pub open spec fn snapshot_ready(
    t: MarketType,
    feed1: Option<Decimal>,
    feed2: Option<Decimal>,
) -> bool {
    match t {
        MarketType::TokenFight => feed1 is Some && feed2 is Some,
        MarketType::Hilo => feed1 is Some,
        MarketType::Custom => true,
    }
}

/// The first asset's price after a snapshot that replaced `prev`.
pub open spec fn captured_a(t: MarketType, feed1: Option<Decimal>, prev: Option<Decimal>) -> Option<
    Decimal,
> {
    if t == MarketType::Custom {
        prev
    } else {
        feed1
    }
}

/// The second asset's price after a snapshot that replaced `prev`.
pub open spec fn captured_b(t: MarketType, feed2: Option<Decimal>, prev: Option<Decimal>) -> Option<
    Decimal,
> {
    if t == MarketType::TokenFight {
        feed2
    } else {
        prev
    }
}

/// Records the prices a market of type `t` needs from the two feeds, where
/// `None` stands for a feed that is missing or has no value. If a needed feed
/// did not resolve, nothing is written.
pub fn capture_snapshot(
    t: MarketType,
    feed1: &Option<Decimal>,
    feed2: &Option<Decimal>,
    price_a: &mut Option<Decimal>,
    price_b: &mut Option<Decimal>,
) -> (r: Result<(), CustomError>)
    ensures
        r is Ok <==> snapshot_ready(t, *feed1, *feed2),
        r is Err ==> r == Err::<(), CustomError>(CustomError::InvalidOracle),
        r is Err ==> *final(price_a) == *old(price_a) && *final(price_b) == *old(price_b),
        r is Ok ==> *final(price_a) == captured_a(t, *feed1, *old(price_a)),
        r is Ok ==> *final(price_b) == captured_b(t, *feed2, *old(price_b)),
{
    match t {
        MarketType::TokenFight => {
            if feed1.is_none() || feed2.is_none() {
                return Err(CustomError::InvalidOracle);
            }
            *price_a = *feed1;
            *price_b = *feed2;
        },
        MarketType::Hilo => {
            if feed1.is_none() {
                return Err(CustomError::InvalidOracle);
            }
            *price_a = *feed1;
        },
        MarketType::Custom => {},
    }
    Ok(())
}

} // verus!
