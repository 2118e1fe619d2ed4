//! Order creation, cancellation, and cancel-then-create replacement, over
//! the exchange's order replies.

use crate::order::{Order, OrderWithId, Trade, TradeResult};
use crate::parse::{parse_fixed, spec_parse_fixed};
use crate::{from_agnostic_side, spec_from_agnostic_side, spec_to_pair};
use crate::{NativeSide, NativeSymbol, Side, Target, TradingPairConverter};
use vstd::prelude::*;

verus! {

/// A native order-creation request. A market request carries no price; a
/// limit request carries the inverted native side and the resting price.
#[derive(Clone, Copy, Debug, PartialEq, Eq, Structural)]
pub enum NativeCreateOrder {
    Market { symbol: NativeSymbol, side: NativeSide, amount: i64 },
    Limit { symbol: NativeSymbol, side: NativeSide, amount: i64, price: i64 },
}

/// The exchange's reply to an order-creation request: the assigned
/// identifier and, for market executions, the decimal execution price text,
/// which the exchange may omit.
#[derive(Clone, Debug, PartialEq, Eq)]
pub struct CreateOrderResponse {
    pub id: String,
    pub price: Option<String>,
}

/// The exchange's confirmation of a cancellation: the cancelled order's
/// identifier.
#[derive(Clone, Debug, PartialEq, Eq)]
pub struct CancelConfirmation {
    pub id: String,
}

/// The native request that creating `order` issues. Market orders keep the
/// generic side; limit orders carry the inverted native side and the price.
pub open spec fn spec_create_order_request(order: Order) -> NativeCreateOrder {
    match order.trading_pair.target {
        Target::Market => NativeCreateOrder::Market {
            symbol: spec_to_pair(order.trading_pair),
            side: match order.trading_pair.side {
                Side::Buy => NativeSide::Buy,
                Side::Sell => NativeSide::Sell,
            },
            amount: order.amount,
        },
        Target::Limit => NativeCreateOrder::Limit {
            symbol: spec_to_pair(order.trading_pair),
            side: spec_from_agnostic_side(order.trading_pair.target, order.trading_pair.side),
            amount: order.amount,
            price: order.price,
        },
    }
}

/// The price a market confirmation reports: the exchange's own execution
/// price where present and readable, the requested price otherwise.
pub open spec fn spec_market_fill_price(native: Option<String>, fallback: i64) -> i64 {
    match native {
        Some(p) => match spec_parse_fixed(p@) {
            Some(v) => v as i64,
            None => fallback,
        },
        None => fallback,
    }
}

/// The trade a successful creation reports: a market execution with its fill
/// price, or a resting limit order echoing the request under the assigned
/// identifier.
pub open spec fn spec_trade_of(order: Order, resp: CreateOrderResponse) -> Trade {
    match order.trading_pair.target {
        Target::Market => Trade::Market(
            TradeResult {
                id: resp.id,
                trading_pair: order.trading_pair,
                price: spec_market_fill_price(resp.price, order.price),
                amount: order.amount,
            },
        ),
        Target::Limit => Trade::Limit(
            OrderWithId {
                id: resp.id,
                trading_pair: order.trading_pair,
                price: order.price,
                amount: order.amount,
            },
        ),
    }
}

/// The first step of a replacement: only a confirmed cancellation lets the
/// new request go out; a failed one surfaces the cancel error and no request
/// exists to send.
pub open spec fn spec_replace_after_cancel(
    new_order: Order,
    cancel_response: Option<CancelConfirmation>,
) -> Result<NativeCreateOrder, Seq<char>> {
    match cancel_response {
        None => Err("Failed to cancel order"@),
        Some(c) => Ok(spec_create_order_request(new_order)),
    }
}

/// The second step of a replacement: the new order's identifier, or the
/// create error.
pub open spec fn spec_replace_after_create(create_response: Option<CreateOrderResponse>) -> Result<
    Seq<char>,
    Seq<char>,
> {
    match create_response {
        None => Err("Failed to create order"@),
        Some(resp) => Ok(resp.id@),
    }
}

/// Creates, cancels and replaces orders. Stateless: each operation works on
/// the exchange reply handed to it.
#[derive(Clone, Copy, Debug)]
pub struct Trader {}

impl Trader {
    pub fn new() -> (r: Trader)
        ensures
            r == (Trader {  }),
    {
        Trader {  }
    }

    /// The native request that creating `order` issues; see
    /// [`spec_create_order_request`].
    pub fn create_order_request(&self, order: &Order) -> (r: NativeCreateOrder)
        ensures
            r == spec_create_order_request(*order),
    {
        let converter = TradingPairConverter::default();
        let symbol = converter.to_pair(order.trading_pair);
        match order.trading_pair.target {
            Target::Market => {
                let side = match order.trading_pair.side {
                    Side::Buy => NativeSide::Buy,
                    Side::Sell => NativeSide::Sell,
                };
                NativeCreateOrder::Market { symbol, side, amount: order.amount }
            },
            Target::Limit => {
                let side = from_agnostic_side(order.trading_pair.target, order.trading_pair.side);
                NativeCreateOrder::Limit { symbol, side, amount: order.amount, price: order.price }
            },
        }
    }

    /// The outcome of creating `order`, given the exchange's reply
    /// (absent on a failed call). A rejected order is not told apart from a
    /// transport failure: both surface the one create error.
    pub fn create_order(&self, order: &Order, response: Option<CreateOrderResponse>) -> (r: Result<
        Trade,
        String,
    >)
        ensures
            response is None ==> (r matches Err(e) && e@ == "Failed to create order"@),
            response matches Some(resp) ==> r == Ok::<Trade, String>(spec_trade_of(*order, resp)),
    {
        let resp = match response {
            Some(resp) => resp,
            None => {
                return Err("Failed to create order".to_owned());
            },
        };
        match order.trading_pair.target {
            Target::Market => {
                let price = match &resp.price {
                    Some(p) => match parse_fixed(p.as_str()) {
                        Some(v) => v,
                        None => order.price,
                    },
                    None => order.price,
                };
                Ok(
                    Trade::Market(
                        TradeResult {
                            id: resp.id.clone(),
                            trading_pair: order.trading_pair,
                            price,
                            amount: order.amount,
                        },
                    ),
                )
            },
            Target::Limit => Ok(
                Trade::Limit(
                    OrderWithId {
                        id: resp.id.clone(),
                        trading_pair: order.trading_pair,
                        price: order.price,
                        amount: order.amount,
                    },
                ),
            ),
        }
    }

    /// The outcome of cancelling an order, given the exchange's reply
    /// (absent on a failed call). An already-filled or unknown identifier is
    /// not told apart from a transport failure.
    pub fn delete_order(&self, response: Option<CancelConfirmation>) -> (r: Result<(), String>)
        ensures
            response is None ==> (r matches Err(e) && e@ == "Failed to cancel order"@),
            response is Some ==> r == Ok::<(), String>(()),
    {
        match response {
            Some(_confirmation) => Ok(()),
            None => Err("Failed to cancel order".to_owned()),
        }
    }

    /// The step of a replacement after the cancel call: on a confirmed
    /// cancellation, the native request for the new order; on a failed one,
    /// the cancel error — the create is never attempted. The replacement is
    /// not atomic: once the cancellation is confirmed the original order is
    /// gone, whatever becomes of the new one; a failure between the two
    /// calls leaves no order resting and the caller must reconcile.
    pub fn replace_after_cancel(
        &self,
        new_order: &Order,
        cancel_response: Option<CancelConfirmation>,
    ) -> (r: Result<NativeCreateOrder, String>)
        ensures
            match spec_replace_after_cancel(*new_order, cancel_response) {
                Ok(req) => r == Ok::<NativeCreateOrder, String>(req),
                Err(m) => r matches Err(e) && e@ == m,
            },
    {
        match cancel_response {
            None => Err("Failed to cancel order".to_owned()),
            Some(_confirmation) => Ok(self.create_order_request(new_order)),
        }
    }

    /// The step of a replacement after the create call: the new order's
    /// exchange-assigned identifier, or the create error.
    pub fn replace_after_create(&self, create_response: Option<CreateOrderResponse>) -> (r: Result<
        String,
        String,
    >)
        ensures
            match spec_replace_after_create(create_response) {
                Ok(id) => r matches Ok(out) && out@ == id,
                Err(m) => r matches Err(e) && e@ == m,
            },
    {
        match create_response {
            None => Err("Failed to create order".to_owned()),
            Some(resp) => Ok(resp.id),
        }
    }
}

/// A replacement surfaces whichever step failed: a failed cancellation
/// yields the cancel error and no create request, so the create is never
/// attempted; after a confirmed cancellation a failed create yields the
/// create error, with the original order already gone.
pub proof fn lemma_replace_failure_order(
    new_order: Order,
    cancel_response: Option<CancelConfirmation>,
    create_response: Option<CreateOrderResponse>,
)
    ensures
        cancel_response is None ==> spec_replace_after_cancel(new_order, cancel_response)
            == Err::<NativeCreateOrder, Seq<char>>("Failed to cancel order"@),
        cancel_response is Some ==> spec_replace_after_cancel(new_order, cancel_response)
            == Ok::<NativeCreateOrder, Seq<char>>(spec_create_order_request(new_order)),
        cancel_response is Some && create_response is None ==> spec_replace_after_create(
            create_response,
        ) == Err::<Seq<char>, Seq<char>>("Failed to create order"@),
{
}

} // verus!
