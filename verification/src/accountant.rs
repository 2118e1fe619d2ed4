//! Balance reporting and price arithmetic over the exchange's balance
//! snapshots.

use crate::{Coin, NativeCoin, Side, TradingPair, TradingPairConverter, PRICE_SCALE};
use crate::spec_from_agnostic_coin;
use vstd::prelude::*;

verus! {

/// One entry of the exchange's balance snapshot: a coin, the amount free to
/// trade, and the amount reserved by resting orders.
#[derive(Clone, Copy, Debug, PartialEq, Eq, Structural)]
pub struct BalanceRecord {
    pub currency: NativeCoin,
    pub available: i64,
    pub reserved: i64,
}

/// A coin's balance in the generic model: the available amount and the held
/// (reserved) amount.
#[derive(Clone, Copy, Debug, PartialEq, Eq, Structural)]
pub struct Currency {
    pub coin: Coin,
    pub amount: i64,
    pub held: i64,
}

/// The first record of `records` for the native coin `c`, if any.
pub open spec fn spec_find_balance(records: Seq<BalanceRecord>, c: NativeCoin) -> Option<
    BalanceRecord,
>
    decreases records.len(),
{
    if records.len() == 0 {
        None
    } else if records.first().currency == c {
        Some(records.first())
    } else {
        spec_find_balance(records.drop_first(), c)
    }
}

/// The generic balance entry built from a snapshot record.
pub open spec fn spec_currency_of(coin: Coin, rec: BalanceRecord) -> Currency {
    Currency { coin, amount: rec.available, held: rec.reserved }
}

fn find_balance(records: &Vec<BalanceRecord>, c: NativeCoin) -> (r: Option<BalanceRecord>)
    ensures
        r == spec_find_balance(records@, c),
{
    let mut i: usize = 0;
    proof {
        assert(records@.skip(0) =~= records@);
    }
    while i < records.len()
        invariant
            i <= records@.len(),
            spec_find_balance(records@, c) == spec_find_balance(records@.skip(i as int), c),
        decreases records@.len() - i,
    {
        proof {
            assert(records@.skip(i as int).first() == records@[i as int]);
            assert(records@.skip(i as int).drop_first() =~= records@.skip(i as int + 1));
        }
        let rec = records[i];
        if rec.currency == c {
            return Some(rec);
        }
        i += 1;
    }
    proof {
        assert(records@.skip(records@.len() as int) =~= Seq::<BalanceRecord>::empty());
    }
    None
}

/// Reports balances and computes notional volume and a competitive price.
/// Stateless: each query works on the snapshot handed to it.
#[derive(Clone, Copy, Debug)]
pub struct Accountant {
    price_epsilon: i64,
}

impl Accountant {
    /// The price nudge is one fixed-point step, standing for 0.0001.
    pub closed spec fn wf(self) -> bool {
        self.price_epsilon == 1
    }

    pub fn new() -> (r: Accountant)
        ensures
            r.wf(),
    {
        Accountant { price_epsilon: 1 }
    }

    /// The balance of `coin` read out of the exchange's reply `balance`
    /// (absent on a failed call). Fails when the call failed, or when the
    /// snapshot holds no entry for the coin.
    pub fn ask(&self, coin: Coin, balance: Option<Vec<BalanceRecord>>) -> (r: Result<
        Currency,
        String,
    >)
        ensures
            balance is None ==> (r matches Err(e) && e@ == "FAILED TO GET TRADING BALANCE"@),
            balance matches Some(b) ==> match spec_find_balance(b@, spec_from_agnostic_coin(coin)) {
                Some(rec) => r == Ok::<Currency, String>(spec_currency_of(coin, rec)),
                None => r matches Err(e) && e@ == "Failed to find currency in balance"@,
            },
    {
        let b = match balance {
            Some(b) => b,
            None => {
                return Err("FAILED TO GET TRADING BALANCE".to_owned());
            },
        };
        let converter = TradingPairConverter::default();
        match find_balance(&b, converter.from_agnostic_coin(coin)) {
            Some(rec) => Ok(Currency { coin, amount: rec.available, held: rec.reserved }),
            None => Err("Failed to find currency in balance".to_owned()),
        }
    }

    /// The balances of two coins out of one snapshot. Partial success is not
    /// surfaced: if either coin is missing the whole query fails with one
    /// combined error.
    pub fn ask_both(&self, left: Coin, right: Coin, balance: Option<Vec<BalanceRecord>>) -> (r:
        Result<(Currency, Currency), String>)
        ensures
            balance is None ==> (r matches Err(e) && e@ == "FAILED TO GET TRADING BALANCE"@),
            balance matches Some(b) ==> {
                let lrec = spec_find_balance(b@, spec_from_agnostic_coin(left));
                let rrec = spec_find_balance(b@, spec_from_agnostic_coin(right));
                if lrec is Some && rrec is Some {
                    r == Ok::<(Currency, Currency), String>(
                        (
                            spec_currency_of(left, lrec->Some_0),
                            spec_currency_of(right, rrec->Some_0),
                        ),
                    )
                } else {
                    r matches Err(e) && e@ == "Failed to find coins in wallet"@
                }
            },
    {
        let b = match balance {
            Some(b) => b,
            None => {
                return Err("FAILED TO GET TRADING BALANCE".to_owned());
            },
        };
        let converter = TradingPairConverter::default();
        let left_rec = find_balance(&b, converter.from_agnostic_coin(left));
        let right_rec = find_balance(&b, converter.from_agnostic_coin(right));
        match (left_rec, right_rec) {
            (Some(l), Some(rr)) => Ok(
                (
                    Currency { coin: left, amount: l.available, held: l.reserved },
                    Currency { coin: right, amount: rr.available, held: rr.reserved },
                ),
            ),
            _ => Err("Failed to find coins in wallet".to_owned()),
        }
    }

    /// The notional volume of `amount` at `price`: their product, scaled back
    /// to fixed-point steps. The trading pair takes no part in the
    /// computation and is kept for interface symmetry.
    pub fn calculate_volume(&self, _trading_pair: TradingPair, price: i64, amount: i64) -> (r: i64)
        requires
            0 <= price,
            0 <= amount,
            price * amount <= i64::MAX,
        ensures
            r == (price * amount) / (PRICE_SCALE as int),
    {
        (price * amount) / PRICE_SCALE
    }

    /// A price one epsilon more aggressive than `price`: nudged up to outbid
    /// when buying, down to underbid when selling.
    pub fn nearest_price(&self, trading_pair: TradingPair, price: i64) -> (r: i64)
        requires
            self.wf(),
            trading_pair.side is Buy ==> price < i64::MAX,
            trading_pair.side is Sell ==> price > i64::MIN,
        ensures
            trading_pair.side is Buy ==> r == price + 1,
            trading_pair.side is Sell ==> r == price - 1,
    {
        match trading_pair.side {
            Side::Buy => price + self.price_epsilon,
            Side::Sell => price - self.price_epsilon,
        }
    }
}

} // verus!
