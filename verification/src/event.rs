//! One executed trade, as the feed reports it.

use vstd::prelude::*;

verus! {

/// The mathematical content of a trade event.
pub struct TradeEventView {
    pub symbol: Seq<char>,
    pub trade_id: u64,
    pub price: i64,
    pub quantity: i64,
    pub exchange_time_ms: u64,
    pub is_buyer_maker: bool,
}

/// A normalized trade event. Price and quantity count the smallest step of
/// each; the time is the producer's, in milliseconds since the epoch. An
/// event does not change once made.
#[derive(Debug)]
pub struct TradeEvent {
    symbol: String,
    trade_id: u64,
    price: i64,
    quantity: i64,
    exchange_time_ms: u64,
    is_buyer_maker: bool,
}

impl View for TradeEvent {
    type V = TradeEventView;

    closed spec fn view(&self) -> TradeEventView {
        TradeEventView {
            symbol: self.symbol@,
            trade_id: self.trade_id,
            price: self.price,
            quantity: self.quantity,
            exchange_time_ms: self.exchange_time_ms,
            is_buyer_maker: self.is_buyer_maker,
        }
    }
}

impl Clone for TradeEvent {
    /// A second event with the same fields.
    fn clone(&self) -> (copy: TradeEvent)
        ensures
            copy@ == self@,
    {
        TradeEvent {
            symbol: self.symbol.clone(),
            trade_id: self.trade_id,
            price: self.price,
            quantity: self.quantity,
            exchange_time_ms: self.exchange_time_ms,
            is_buyer_maker: self.is_buyer_maker,
        }
    }
}

impl TradeEvent {
    /// An event with the given fields.
    pub fn new(
        symbol: String,
        trade_id: u64,
        price: i64,
        quantity: i64,
        exchange_time_ms: u64,
        is_buyer_maker: bool,
    ) -> (event: TradeEvent)
        ensures
            event@ == (TradeEventView {
                symbol: symbol@,
                trade_id,
                price,
                quantity,
                exchange_time_ms,
                is_buyer_maker,
            }),
    {
        TradeEvent { symbol, trade_id, price, quantity, exchange_time_ms, is_buyer_maker }
    }

    /// The traded symbol.
    pub fn symbol(&self) -> (symbol: &str)
        ensures
            symbol@ == self@.symbol,
    {
        self.symbol.as_str()
    }

    /// The exchange's identifier of the trade.
    pub fn trade_id(&self) -> (id: u64)
        ensures
            id == self@.trade_id,
    {
        self.trade_id
    }

    /// The price of the trade.
    pub fn price(&self) -> (price: i64)
        ensures
            price == self@.price,
    {
        self.price
    }

    /// The traded quantity.
    pub fn quantity(&self) -> (quantity: i64)
        ensures
            quantity == self@.quantity,
    {
        self.quantity
    }

    /// When the exchange executed the trade, in milliseconds since the epoch.
    pub fn exchange_time_ms(&self) -> (ms: u64)
        ensures
            ms == self@.exchange_time_ms,
    {
        self.exchange_time_ms
    }

    /// Whether the buyer was the maker of the trade.
    pub fn is_buyer_maker(&self) -> (maker: bool)
        ensures
            maker == self@.is_buyer_maker,
    {
        self.is_buyer_maker
    }
}

} // verus!
