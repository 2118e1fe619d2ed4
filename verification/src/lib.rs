//! Adapter between a generic trading domain model (coins, trading pairs,
//! sides, orders, trades) and one exchange's native model.
//!
//! The exchange's own client (HTTP transport, signing, parsing) stays outside
//! this crate; every operation here is the pure half of an exchange call: it
//! takes the client's reply as a plain value and computes the generic result.
//!
//! Money values (prices, amounts, balances) are fixed-point integers with four
//! decimal places: a stored value of `n` means `n / 10000` in the quoted
//! currency. The price epsilon of one step therefore stands for 0.0001.

use vstd::prelude::*;

pub mod accountant;
pub mod merchant;
pub mod order;
pub mod parse;
pub mod sniffer;
pub mod trader;

verus! {

/// Number of fixed-point steps in one whole unit of currency.
pub const PRICE_SCALE: i64 = 10000;

/// A generic asset the adapter supports.
#[derive(Clone, Copy, Debug, PartialEq, Eq, Structural)]
pub enum Coin {
    Ton,
    Usdt,
}

/// A supported combination of assets traded against each other.
#[derive(Clone, Copy, Debug, PartialEq, Eq, Structural)]
pub enum Coins {
    TonUsdt,
}

/// Direction of an order in the generic model.
#[derive(Clone, Copy, Debug, PartialEq, Eq, Structural)]
pub enum Side {
    Buy,
    Sell,
}

/// Whether an order executes at once (market) or rests on the book (limit).
#[derive(Clone, Copy, Debug, PartialEq, Eq, Structural)]
pub enum Target {
    Market,
    Limit,
}

/// A tradable instrument in the generic model: which assets, which direction,
/// and which execution mode. Fully determines the native symbol and side.
#[derive(Clone, Copy, Debug, PartialEq, Eq, Structural)]
pub struct TradingPair {
    pub coins: Coins,
    pub side: Side,
    pub target: Target,
}

/// The exchange's own coin identifier. Coins the generic model does not
/// support are collapsed into `Other`.
#[derive(Clone, Copy, Debug, PartialEq, Eq, Structural)]
pub enum NativeCoin {
    Ton,
    Usdt,
    Other,
}

/// The exchange's own order direction.
#[derive(Clone, Copy, Debug, PartialEq, Eq, Structural)]
pub enum NativeSide {
    Buy,
    Sell,
}

/// The exchange's own instrument identifier: a base coin quoted in another.
#[derive(Clone, Copy, Debug, PartialEq, Eq, Structural)]
pub struct NativeSymbol {
    pub base: NativeCoin,
    pub quote: NativeCoin,
}

impl NativeSymbol {
    pub fn new(base: NativeCoin, quote: NativeCoin) -> (r: NativeSymbol)
        ensures
            r == (NativeSymbol { base, quote }),
    {
        NativeSymbol { base, quote }
    }
}

/// The native symbol for a trading pair.
pub open spec fn spec_to_pair(pair: TradingPair) -> NativeSymbol {
    match pair.coins {
        Coins::TonUsdt => NativeSymbol { base: NativeCoin::Ton, quote: NativeCoin::Usdt },
    }
}

/// The text the exchange uses for a trading pair's symbol: the base coin's
/// ticker followed by the quote coin's.
pub open spec fn spec_symbol_text(pair: TradingPair) -> Seq<char> {
    match pair.coins {
        Coins::TonUsdt => "TONUSDT"@,
    }
}

/// The native coin for a generic coin. Total: every generic coin has one.
pub open spec fn spec_from_agnostic_coin(coin: Coin) -> NativeCoin {
    match coin {
        Coin::Ton => NativeCoin::Ton,
        Coin::Usdt => NativeCoin::Usdt,
    }
}

/// The generic coin for a native coin. Partial: unsupported native coins have
/// none.
pub open spec fn spec_to_agnostic_coin(coin: NativeCoin) -> Option<Coin> {
    match coin {
        NativeCoin::Ton => Some(Coin::Ton),
        NativeCoin::Usdt => Some(Coin::Usdt),
        NativeCoin::Other => None,
    }
}

/// The native side for a generic side under an execution mode. For limit
/// orders the generic side is inverted: the exchange states a resting order's
/// direction from the counter-asset's perspective, while market orders keep
/// the generic direction.
pub open spec fn spec_from_agnostic_side(target: Target, side: Side) -> NativeSide {
    match (target, side) {
        (Target::Market, Side::Buy) => NativeSide::Buy,
        (Target::Market, Side::Sell) => NativeSide::Sell,
        (Target::Limit, Side::Buy) => NativeSide::Sell,
        (Target::Limit, Side::Sell) => NativeSide::Buy,
    }
}

/// Bidirectional mapping between the generic coin/pair/side model and the
/// exchange's native identifiers.
#[derive(Clone, Debug)]
pub struct TradingPairConverter {}

impl Default for TradingPairConverter {
    fn default() -> (r: TradingPairConverter)
        ensures
            r == (TradingPairConverter {  }),
    {
        TradingPairConverter {  }
    }
}

impl TradingPairConverter {
    /// The exchange's textual symbol for the pair.
    pub fn to_string(&self, trading_pair: TradingPair) -> (r: String)
        ensures
            r@ == spec_symbol_text(trading_pair),
    {
        match trading_pair.coins {
            Coins::TonUsdt => "TONUSDT".to_owned(),
        }
    }

    /// The exchange's native symbol for the pair.
    pub fn to_pair(&self, trading_pair: TradingPair) -> (r: NativeSymbol)
        ensures
            r == spec_to_pair(trading_pair),
    {
        match trading_pair.coins {
            Coins::TonUsdt => NativeSymbol::new(NativeCoin::Ton, NativeCoin::Usdt),
        }
    }

    /// The native coin for a generic coin; never fails.
    pub fn from_agnostic_coin(&self, coin: Coin) -> (r: NativeCoin)
        ensures
            r == spec_from_agnostic_coin(coin),
    {
        match coin {
            Coin::Ton => NativeCoin::Ton,
            Coin::Usdt => NativeCoin::Usdt,
        }
    }

    /// The generic coin for a native coin; `None` for unsupported coins.
    pub fn to_agnostic_coin(&self, coin: NativeCoin) -> (r: Option<Coin>)
        ensures
            r == spec_to_agnostic_coin(coin),
    {
        match coin {
            NativeCoin::Ton => Some(Coin::Ton),
            NativeCoin::Usdt => Some(Coin::Usdt),
            NativeCoin::Other => None,
        }
    }
}

/// The native side for a generic (target, side) combination; see
/// [`spec_from_agnostic_side`] for the inversion rule.
pub fn from_agnostic_side(target: Target, side: Side) -> (r: NativeSide)
    ensures
        r == spec_from_agnostic_side(target, side),
{
    match (target, side) {
        (Target::Market, Side::Buy) => NativeSide::Buy,
        (Target::Market, Side::Sell) => NativeSide::Sell,
        (Target::Limit, Side::Buy) => NativeSide::Sell,
        (Target::Limit, Side::Sell) => NativeSide::Buy,
    }
}

/// Converting a generic coin to its native form and back yields the same
/// coin, for every supported coin.
pub proof fn lemma_coin_round_trip(c: Coin)
    ensures
        spec_to_agnostic_coin(spec_from_agnostic_coin(c)) == Some(c),
{
}

/// The side-inversion table in full: market orders keep the generic side,
/// limit orders invert it.
pub proof fn lemma_side_inversion_table()
    ensures
        spec_from_agnostic_side(Target::Market, Side::Buy) == NativeSide::Buy,
        spec_from_agnostic_side(Target::Market, Side::Sell) == NativeSide::Sell,
        spec_from_agnostic_side(Target::Limit, Side::Buy) == NativeSide::Sell,
        spec_from_agnostic_side(Target::Limit, Side::Sell) == NativeSide::Buy,
{
}

} // verus!
