//! Order and trade values of the generic model. Prices and amounts are
//! fixed-point integers; see the crate root.

use crate::TradingPair;
use vstd::prelude::*;

verus! {

/// A request to create or replace an order: instrument, price and amount.
#[derive(Clone, Copy, Debug, PartialEq, Eq, Structural)]
pub struct Order {
    pub trading_pair: TradingPair,
    pub price: i64,
    pub amount: i64,
}

/// An order resting on the book, with the exchange-assigned identifier.
#[derive(Clone, Debug, PartialEq, Eq)]
pub struct OrderWithId {
    pub id: String,
    pub trading_pair: TradingPair,
    pub price: i64,
    pub amount: i64,
}

/// The confirmation of a market execution: identifier, executed price and
/// amount.
#[derive(Clone, Debug, PartialEq, Eq)]
pub struct TradeResult {
    pub id: String,
    pub trading_pair: TradingPair,
    pub price: i64,
    pub amount: i64,
}

/// The outcome of creating an order. The two execution modes confirm
/// differently: a market order reports its execution, a limit order rests on
/// the book under an identifier.
#[derive(Clone, Debug, PartialEq, Eq)]
pub enum Trade {
    Market(TradeResult),
    Limit(OrderWithId),
}

} // verus!
