use exchange_adapter::order::{Order, OrderWithId, Trade, TradeResult};
use exchange_adapter::trader::{
    CancelConfirmation, CreateOrderResponse, NativeCreateOrder, Trader,
};
use exchange_adapter::{Coins, NativeCoin, NativeSide, NativeSymbol, Side, Target, TradingPair};

fn pair(side: Side, target: Target) -> TradingPair {
    TradingPair { coins: Coins::TonUsdt, side, target }
}

fn ton_usdt_symbol() -> NativeSymbol {
    NativeSymbol::new(NativeCoin::Ton, NativeCoin::Usdt)
}

fn limit_buy() -> Order {
    Order { trading_pair: pair(Side::Buy, Target::Limit), price: 1_000_000, amount: 20_000 }
}

fn market_buy() -> Order {
    Order { trading_pair: pair(Side::Buy, Target::Market), price: 1_000_000, amount: 20_000 }
}

#[test]
fn a_limit_request_inverts_the_side() {
    let trader = Trader::new();
    assert_eq!(
        trader.create_order_request(&limit_buy()),
        NativeCreateOrder::Limit {
            symbol: ton_usdt_symbol(),
            side: NativeSide::Sell,
            amount: 20_000,
            price: 1_000_000,
        }
    );
}

#[test]
fn a_market_request_keeps_the_side_and_carries_no_price() {
    let trader = Trader::new();
    assert_eq!(
        trader.create_order_request(&market_buy()),
        NativeCreateOrder::Market {
            symbol: ton_usdt_symbol(),
            side: NativeSide::Buy,
            amount: 20_000,
        }
    );
}

#[test]
fn a_limit_confirmation_echoes_the_request_under_the_assigned_id() {
    let trader = Trader::new();
    let response = CreateOrderResponse { id: "42".to_owned(), price: None };
    assert_eq!(
        trader.create_order(&limit_buy(), Some(response)),
        Ok(Trade::Limit(OrderWithId {
            id: "42".to_owned(),
            trading_pair: pair(Side::Buy, Target::Limit),
            price: 1_000_000,
            amount: 20_000,
        }))
    );
}

#[test]
fn a_market_confirmation_reports_its_own_price() {
    let trader = Trader::new();
    let response = CreateOrderResponse { id: "42".to_owned(), price: Some("101.5".to_owned()) };
    assert_eq!(
        trader.create_order(&market_buy(), Some(response)),
        Ok(Trade::Market(TradeResult {
            id: "42".to_owned(),
            trading_pair: pair(Side::Buy, Target::Market),
            price: 1_015_000,
            amount: 20_000,
        }))
    );
}

#[test]
fn a_market_confirmation_without_a_price_falls_back_to_the_request() {
    let trader = Trader::new();
    let response = CreateOrderResponse { id: "42".to_owned(), price: None };
    let trade = trader.create_order(&market_buy(), Some(response)).unwrap();
    assert_eq!(
        trade,
        Trade::Market(TradeResult {
            id: "42".to_owned(),
            trading_pair: pair(Side::Buy, Target::Market),
            price: 1_000_000,
            amount: 20_000,
        })
    );
}

#[test]
fn an_unreadable_market_price_falls_back_to_the_request() {
    let trader = Trader::new();
    let response = CreateOrderResponse { id: "42".to_owned(), price: Some("garbled".to_owned()) };
    let trade = trader.create_order(&market_buy(), Some(response)).unwrap();
    assert_eq!(
        trade,
        Trade::Market(TradeResult {
            id: "42".to_owned(),
            trading_pair: pair(Side::Buy, Target::Market),
            price: 1_000_000,
            amount: 20_000,
        })
    );
}

#[test]
fn a_failed_create_call_is_surfaced() {
    let trader = Trader::new();
    assert_eq!(
        trader.create_order(&limit_buy(), None),
        Err("Failed to create order".to_owned())
    );
}

#[test]
fn a_confirmed_cancellation_succeeds() {
    let trader = Trader::new();
    let confirmation = CancelConfirmation { id: "42".to_owned() };
    assert_eq!(trader.delete_order(Some(confirmation)), Ok(()));
}

#[test]
fn a_failed_cancellation_is_surfaced() {
    let trader = Trader::new();
    assert_eq!(trader.delete_order(None), Err("Failed to cancel order".to_owned()));
}

#[test]
fn replace_never_creates_after_a_failed_cancel() {
    let trader = Trader::new();
    // No request comes back, only the cancel error: there is nothing to send.
    assert_eq!(
        trader.replace_after_cancel(&limit_buy(), None),
        Err("Failed to cancel order".to_owned())
    );
}

#[test]
fn replace_builds_the_new_request_after_a_confirmed_cancel() {
    let trader = Trader::new();
    let confirmation = CancelConfirmation { id: "42".to_owned() };
    assert_eq!(
        trader.replace_after_cancel(&limit_buy(), Some(confirmation)),
        Ok(trader.create_order_request(&limit_buy()))
    );
}

#[test]
fn replace_surfaces_the_create_error_after_a_confirmed_cancel() {
    let trader = Trader::new();
    // The original order is already gone at this point; only the create
    // error comes back.
    assert_eq!(
        trader.replace_after_create(None),
        Err("Failed to create order".to_owned())
    );
}

#[test]
fn replace_reports_the_new_identifier() {
    let trader = Trader::new();
    let response = CreateOrderResponse { id: "43".to_owned(), price: None };
    assert_eq!(trader.replace_after_create(Some(response)), Ok("43".to_owned()));
}
