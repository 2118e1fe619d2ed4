use exchange_adapter::merchant::Merchant;
use exchange_adapter::{Coins, Side, Target, TradingPair};

#[test]
fn the_merchant_carries_its_identifier() {
    let merchant = Merchant::new("exchange");
    assert_eq!(merchant.id(), "exchange");
}

#[test]
fn the_handed_out_facades_are_usable() {
    let merchant = Merchant::new("exchange");
    let trading_pair = TradingPair { coins: Coins::TonUsdt, side: Side::Buy, target: Target::Limit };
    assert_eq!(merchant.accountant().nearest_price(trading_pair, 1_000_000), 1_000_001);
    assert_eq!(
        merchant.trader().delete_order(None),
        Err("Failed to cancel order".to_owned())
    );
    assert_eq!(
        merchant.sniffer().the_best_order(trading_pair, None),
        Err("Failed to get orderbook".to_owned())
    );
}
