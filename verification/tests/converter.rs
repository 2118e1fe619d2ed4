use exchange_adapter::{
    from_agnostic_side, Coin, Coins, NativeCoin, NativeSide, NativeSymbol, Side, Target,
    TradingPair, TradingPairConverter,
};

fn pair(side: Side, target: Target) -> TradingPair {
    TradingPair { coins: Coins::TonUsdt, side, target }
}

#[test]
fn round_trip_ton() {
    let converter = TradingPairConverter::default();
    assert_eq!(
        converter.to_agnostic_coin(converter.from_agnostic_coin(Coin::Ton)),
        Some(Coin::Ton)
    );
}

#[test]
fn round_trip_usdt() {
    let converter = TradingPairConverter::default();
    assert_eq!(
        converter.to_agnostic_coin(converter.from_agnostic_coin(Coin::Usdt)),
        Some(Coin::Usdt)
    );
}

#[test]
fn unsupported_native_coin_has_no_generic_form() {
    let converter = TradingPairConverter::default();
    assert_eq!(converter.to_agnostic_coin(NativeCoin::Other), None);
}

#[test]
fn to_pair_gives_ton_quoted_in_usdt() {
    let converter = TradingPairConverter::default();
    let symbol = converter.to_pair(pair(Side::Buy, Target::Limit));
    assert_eq!(symbol, NativeSymbol::new(NativeCoin::Ton, NativeCoin::Usdt));
    assert_eq!(symbol.base, NativeCoin::Ton);
    assert_eq!(symbol.quote, NativeCoin::Usdt);
}

#[test]
fn symbol_text_is_tickers_joined() {
    let converter = TradingPairConverter::default();
    assert_eq!(converter.to_string(pair(Side::Sell, Target::Market)), "TONUSDT");
}

#[test]
fn side_inversion_table() {
    assert_eq!(from_agnostic_side(Target::Market, Side::Buy), NativeSide::Buy);
    assert_eq!(from_agnostic_side(Target::Market, Side::Sell), NativeSide::Sell);
    assert_eq!(from_agnostic_side(Target::Limit, Side::Buy), NativeSide::Sell);
    assert_eq!(from_agnostic_side(Target::Limit, Side::Sell), NativeSide::Buy);
}
