use exchange_adapter::accountant::{Accountant, BalanceRecord, Currency};
use exchange_adapter::{Coin, Coins, NativeCoin, Side, Target, TradingPair};

fn pair(side: Side, target: Target) -> TradingPair {
    TradingPair { coins: Coins::TonUsdt, side, target }
}

// A snapshot holding 5.0 TON available and 1.0 TON reserved, in fixed-point
// steps of one ten-thousandth, beside an unrelated entry.
fn snapshot_with_ton() -> Vec<BalanceRecord> {
    vec![
        BalanceRecord { currency: NativeCoin::Other, available: 7, reserved: 7 },
        BalanceRecord { currency: NativeCoin::Ton, available: 50_000, reserved: 10_000 },
        BalanceRecord { currency: NativeCoin::Usdt, available: 30_000, reserved: 0 },
    ]
}

#[test]
fn ask_reads_available_and_held() {
    let accountant = Accountant::new();
    let currency = accountant.ask(Coin::Ton, Some(snapshot_with_ton())).unwrap();
    assert_eq!(
        currency,
        Currency { coin: Coin::Ton, amount: 50_000, held: 10_000 }
    );
}

#[test]
fn ask_without_the_coin_fails() {
    let accountant = Accountant::new();
    let snapshot = vec![BalanceRecord {
        currency: NativeCoin::Usdt,
        available: 30_000,
        reserved: 0,
    }];
    assert_eq!(
        accountant.ask(Coin::Ton, Some(snapshot)),
        Err("Failed to find currency in balance".to_owned())
    );
}

#[test]
fn ask_surfaces_a_failed_fetch() {
    let accountant = Accountant::new();
    assert_eq!(
        accountant.ask(Coin::Ton, None),
        Err("FAILED TO GET TRADING BALANCE".to_owned())
    );
}

#[test]
fn ask_both_reads_both_coins() {
    let accountant = Accountant::new();
    let (left, right) = accountant
        .ask_both(Coin::Ton, Coin::Usdt, Some(snapshot_with_ton()))
        .unwrap();
    assert_eq!(left, Currency { coin: Coin::Ton, amount: 50_000, held: 10_000 });
    assert_eq!(right, Currency { coin: Coin::Usdt, amount: 30_000, held: 0 });
}

#[test]
fn ask_both_fails_when_one_coin_is_missing() {
    let accountant = Accountant::new();
    let snapshot = vec![BalanceRecord {
        currency: NativeCoin::Ton,
        available: 50_000,
        reserved: 10_000,
    }];
    assert_eq!(
        accountant.ask_both(Coin::Ton, Coin::Usdt, Some(snapshot)),
        Err("Failed to find coins in wallet".to_owned())
    );
}

#[test]
fn ask_both_surfaces_a_failed_fetch() {
    let accountant = Accountant::new();
    assert_eq!(
        accountant.ask_both(Coin::Ton, Coin::Usdt, None),
        Err("FAILED TO GET TRADING BALANCE".to_owned())
    );
}

// 100.0 * 2.0 == 200.0 in fixed-point steps, whatever the pair.
#[test]
fn volume_is_price_times_amount() {
    let accountant = Accountant::new();
    assert_eq!(
        accountant.calculate_volume(pair(Side::Buy, Target::Limit), 1_000_000, 20_000),
        2_000_000
    );
    assert_eq!(
        accountant.calculate_volume(pair(Side::Sell, Target::Market), 1_000_000, 20_000),
        2_000_000
    );
}

// The epsilon is one step, 0.0001: added when buying, subtracted when selling.
#[test]
fn nearest_price_nudges_by_one_step() {
    let accountant = Accountant::new();
    assert_eq!(accountant.nearest_price(pair(Side::Buy, Target::Limit), 1_000_000), 1_000_001);
    assert_eq!(accountant.nearest_price(pair(Side::Sell, Target::Limit), 1_000_000), 999_999);
}
