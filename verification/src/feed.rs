//! The feed's side of the pipeline: from the fields of a wire message to a
//! normalized trade event.
//!
//! A message whose price or quantity is not a decimal that the engine can
//! count exactly is filtered out here; no stand-in value reaches the engine.

use crate::decimal::parse_decimal;
use crate::decimal::parsed;
use crate::event::TradeEvent;
use crate::event::TradeEventView;
use vstd::prelude::*;
use vstd::string::StringSliceAdditionalSpecFns;

verus! {

/// Fractional digits of a price: one price step is `10^-8`.
pub const PRICE_DECIMALS: u8 = 8;

/// Fractional digits of a quantity: one quantity step is `10^-8`.
pub const QUANTITY_DECIMALS: u8 = 8;

/// The event that the fields of a message stand for, if price and quantity
/// both read as decimals.
pub open spec fn normalized(
    symbol: Seq<char>,
    trade_id: u64,
    price_text: Seq<u8>,
    quantity_text: Seq<u8>,
    exchange_time_ms: u64,
    is_buyer_maker: bool,
) -> Option<TradeEventView> {
    match (
        parsed(price_text, PRICE_DECIMALS as nat),
        parsed(quantity_text, QUANTITY_DECIMALS as nat),
    ) {
        (Some(price), Some(quantity)) => Some(
            TradeEventView {
                symbol,
                trade_id,
                price,
                quantity,
                exchange_time_ms,
                is_buyer_maker,
            },
        ),
        _ => None,
    }
}

/// Builds the trade event of one message, or filters the message out.
pub fn normalize(
    symbol: String,
    trade_id: u64,
    price_text: &str,
    quantity_text: &str,
    exchange_time_ms: u64,
    is_buyer_maker: bool,
) -> (event: Option<TradeEvent>)
    ensures
        match normalized(
            symbol@,
            trade_id,
            price_text.spec_bytes(),
            quantity_text.spec_bytes(),
            exchange_time_ms,
            is_buyer_maker,
        ) {
            Some(view) => event matches Some(e) && e@ == view,
            None => event is None,
        },
{
    let price = parse_decimal(price_text.as_bytes(), PRICE_DECIMALS);
    let quantity = parse_decimal(quantity_text.as_bytes(), QUANTITY_DECIMALS);
    match (price, quantity) {
        (Some(p), Some(q)) => Some(
            TradeEvent::new(symbol, trade_id, p, q, exchange_time_ms, is_buyer_maker),
        ),
        _ => None,
    }
}

} // verus!
