//! Top-of-book reading and the caller's own open orders, over the exchange's
//! order-book and active-order snapshots.

use crate::order::{Order, OrderWithId};
use crate::parse::{parse_fixed, spec_parse_fixed};
use crate::{from_agnostic_side, spec_from_agnostic_side, spec_to_pair};
use crate::{NativeSide, NativeSymbol, TradingPair, TradingPairConverter};
use vstd::prelude::*;

verus! {

/// One price level of an order book: a price and the amount resting at it.
#[derive(Clone, Copy, Debug, PartialEq, Eq, Structural)]
pub struct PriceLevel {
    pub rate: i64,
    pub amount: i64,
}

/// One instrument's part of an order-book snapshot: its resting buy and sell
/// levels, each ordered best price first, as the exchange reports them.
#[derive(Clone, Debug, PartialEq, Eq)]
pub struct OrderBookEntry {
    pub symbol: NativeSymbol,
    pub bids: Vec<PriceLevel>,
    pub asks: Vec<PriceLevel>,
}

/// One of the caller's active orders as the exchange lists it: identifier,
/// direction text, and decimal price and quantity text. The price may be
/// absent.
#[derive(Clone, Debug, PartialEq, Eq)]
pub struct NativeActiveOrder {
    pub id: String,
    pub side: String,
    pub price: Option<String>,
    pub quantity: String,
}

/// The directional page of an entry: the buy levels for the native buy side,
/// the sell levels otherwise.
pub open spec fn spec_page_of(entry: OrderBookEntry, side: NativeSide) -> Seq<PriceLevel> {
    match side {
        NativeSide::Buy => entry.bids@,
        NativeSide::Sell => entry.asks@,
    }
}

/// The first entry of a snapshot for a symbol, if any.
pub open spec fn spec_find_entry(book: Seq<OrderBookEntry>, symbol: NativeSymbol) -> Option<
    OrderBookEntry,
>
    decreases book.len(),
{
    if book.len() == 0 {
        None
    } else if book.first().symbol == symbol {
        Some(book.first())
    } else {
        spec_find_entry(book.drop_first(), symbol)
    }
}

/// The page a snapshot holds for a symbol and side; `None` where the symbol
/// does not appear in the snapshot.
pub open spec fn spec_find_page(
    book: Seq<OrderBookEntry>,
    symbol: NativeSymbol,
    side: NativeSide,
) -> Option<Seq<PriceLevel>> {
    match spec_find_entry(book, symbol) {
        None => None,
        Some(entry) => Some(spec_page_of(entry, side)),
    }
}

/// The direction the exchange's order text denotes: the literal "sell" is a
/// sell, any other text a buy.
pub open spec fn spec_side_of_text(s: Seq<char>) -> NativeSide {
    if s == "sell"@ {
        NativeSide::Sell
    } else {
        NativeSide::Buy
    }
}

/// The generic order built from an active order of the right side, with its
/// price and quantity parsed.
pub open spec fn spec_converted_order(trading_pair: TradingPair, o: NativeActiveOrder) -> OrderWithId {
    OrderWithId {
        id: o.id,
        trading_pair,
        price: spec_parse_fixed(o.price->Some_0@)->Some_0 as i64,
        amount: spec_parse_fixed(o.quantity@)->Some_0 as i64,
    }
}

/// The generic orders built from the caller's active orders: those on the
/// requested native side, in their listed order, with price and quantity
/// parsed. An order on the right side whose price is absent or unparseable,
/// or whose quantity is unparseable, fails the whole conversion; orders on
/// the other side are skipped untouched.
pub open spec fn spec_convert_my_orders(
    trading_pair: TradingPair,
    side: NativeSide,
    orders: Seq<NativeActiveOrder>,
) -> Result<Seq<OrderWithId>, Seq<char>>
    decreases orders.len(),
{
    if orders.len() == 0 {
        Ok(Seq::empty())
    } else {
        let o = orders.first();
        let rest = spec_convert_my_orders(trading_pair, side, orders.drop_first());
        if spec_side_of_text(o.side@) != side {
            rest
        } else if !(o.price matches Some(p) && spec_parse_fixed(p@) is Some) {
            Err("Failed to parse order price"@)
        } else if spec_parse_fixed(o.quantity@) is None {
            Err("Failed to parse order quantity"@)
        } else {
            match rest {
                Ok(v) => Ok(seq![spec_converted_order(trading_pair, o)] + v),
                Err(m) => Err(m),
            }
        }
    }
}

/// An active order whose native side is not the requested one is excluded:
/// in front of any list, it leaves the conversion's outcome unchanged.
pub proof fn lemma_my_orders_exclude_other_side(
    trading_pair: TradingPair,
    side: NativeSide,
    orders: Seq<NativeActiveOrder>,
    o: NativeActiveOrder,
)
    requires
        spec_side_of_text(o.side@) != side,
    ensures
        spec_convert_my_orders(trading_pair, side, seq![o] + orders) == spec_convert_my_orders(
            trading_pair,
            side,
            orders,
        ),
{
    let s = seq![o] + orders;
    assert(s.first() == o);
    assert(s.drop_first() =~= orders);
}

/// An active order on the requested side whose price is absent or
/// unreadable fails the whole conversion, wherever it stands in front of a
/// list: it is never skipped in silence.
pub proof fn lemma_my_orders_parse_failure_fatal(
    trading_pair: TradingPair,
    side: NativeSide,
    orders: Seq<NativeActiveOrder>,
    o: NativeActiveOrder,
)
    requires
        spec_side_of_text(o.side@) == side,
        !(o.price matches Some(p) && spec_parse_fixed(p@) is Some),
    ensures
        spec_convert_my_orders(trading_pair, side, seq![o] + orders) == Err::<
            Seq<OrderWithId>,
            Seq<char>,
        >("Failed to parse order price"@),
{
    let s = seq![o] + orders;
    assert(s.first() == o);
    assert(s.drop_first() =~= orders);
}

fn find_entry_index(book: &Vec<OrderBookEntry>, symbol: NativeSymbol) -> (r: Option<usize>)
    ensures
        match r {
            Some(j) => {
                &&& j < book@.len()
                &&& spec_find_entry(book@, symbol) == Some(book@[j as int])
            },
            None => spec_find_entry(book@, symbol) is None,
        },
{
    let mut i: usize = 0;
    proof {
        assert(book@.skip(0) =~= book@);
    }
    while i < book.len()
        invariant
            i <= book@.len(),
            spec_find_entry(book@, symbol) == spec_find_entry(book@.skip(i as int), symbol),
        decreases book@.len() - i,
    {
        proof {
            assert(book@.skip(i as int).first() == book@[i as int]);
            assert(book@.skip(i as int).drop_first() =~= book@.skip(i as int + 1));
        }
        if book[i].symbol == symbol {
            return Some(i);
        }
        i += 1;
    }
    proof {
        assert(book@.skip(book@.len() as int) =~= Seq::<OrderBookEntry>::empty());
    }
    None
}

/// Reads top-of-book levels and the caller's own open orders. Stateless:
/// each query works on the snapshot handed to it.
#[derive(Clone, Copy, Debug)]
pub struct Sniffer {}

impl Sniffer {
    pub fn new() -> (r: Sniffer)
        ensures
            r == (Sniffer {  }),
    {
        Sniffer {  }
    }

    /// The top `count` levels for the pair, best price first, read out of
    /// the exchange's order-book reply `orderbook` (absent on a failed
    /// call). Fails when the call failed, or when the snapshot holds no page
    /// for the pair's symbol. One snapshot in time, not a live stream.
    pub fn all_the_best_orders(
        &self,
        trading_pair: TradingPair,
        count: u32,
        orderbook: Option<Vec<OrderBookEntry>>,
    ) -> (r: Result<Vec<Order>, String>)
        ensures
            orderbook is None ==> (r matches Err(e) && e@ == "Failed to get orderbook"@),
            orderbook matches Some(book) ==> match spec_find_page(
                book@,
                spec_to_pair(trading_pair),
                spec_from_agnostic_side(trading_pair.target, trading_pair.side),
            ) {
                None => r matches Err(e) && e@ == "Failed to get page from orderbook"@,
                Some(page) => {
                    &&& r is Ok
                    &&& r->Ok_0@.len() == if count as int <= page.len() {
                        count as int
                    } else {
                        page.len() as int
                    }
                    &&& forall|k: int|
                        0 <= k < r->Ok_0@.len() ==> r->Ok_0@[k] == (Order {
                            trading_pair,
                            price: page[k].rate,
                            amount: page[k].amount,
                        })
                },
            },
    {
        let book = match orderbook {
            Some(b) => b,
            None => {
                return Err("Failed to get orderbook".to_owned());
            },
        };
        let converter = TradingPairConverter::default();
        let symbol = converter.to_pair(trading_pair);
        let side = from_agnostic_side(trading_pair.target, trading_pair.side);
        let entry_index = match find_entry_index(&book, symbol) {
            Some(j) => j,
            None => {
                return Err("Failed to get page from orderbook".to_owned());
            },
        };
        let page: &Vec<PriceLevel> = match side {
            NativeSide::Buy => &book[entry_index].bids,
            NativeSide::Sell => &book[entry_index].asks,
        };
        let take = if (count as usize) < page.len() {
            count as usize
        } else {
            page.len()
        };
        let mut result: Vec<Order> = Vec::new();
        let mut i: usize = 0;
        while i < take
            invariant
                take <= page@.len(),
                i <= take,
                result@.len() == i as int,
                forall|k: int|
                    0 <= k < i ==> result@[k] == (Order {
                        trading_pair,
                        price: page@[k].rate,
                        amount: page@[k].amount,
                    }),
            decreases take - i,
        {
            let level = page[i];
            result.push(Order { trading_pair, price: level.rate, amount: level.amount });
            i += 1;
        }
        Ok(result)
    }

    /// The single best level for the pair: the head of a one-level page.
    /// Fails like [`Self::all_the_best_orders`], and also when the page is
    /// empty even though the fetch succeeded.
    pub fn the_best_order(&self, trading_pair: TradingPair, orderbook: Option<Vec<OrderBookEntry>>) -> (r:
        Result<Order, String>)
        ensures
            orderbook is None ==> (r matches Err(e) && e@ == "Failed to get orderbook"@),
            orderbook matches Some(book) ==> match spec_find_page(
                book@,
                spec_to_pair(trading_pair),
                spec_from_agnostic_side(trading_pair.target, trading_pair.side),
            ) {
                None => r matches Err(e) && e@ == "Failed to get page from orderbook"@,
                Some(page) => if page.len() == 0 {
                    r matches Err(e) && e@ == "No orders found"@
                } else {
                    r == Ok::<Order, String>(
                        Order { trading_pair, price: page[0].rate, amount: page[0].amount },
                    )
                },
            },
    {
        match self.all_the_best_orders(trading_pair, 1, orderbook) {
            Err(e) => Err(e),
            Ok(orders) => {
                if orders.len() == 0 {
                    Err("No orders found".to_owned())
                } else {
                    Ok(orders[0])
                }
            },
        }
    }

    /// The caller's open orders for the pair, read out of the exchange's
    /// active-order reply `orders` (absent on a failed call): only those on
    /// the pair's native side, with price and quantity parsed. An order of
    /// the right side without a readable price or quantity fails the whole
    /// query rather than being skipped.
    pub fn get_my_orders(&self, trading_pair: TradingPair, orders: Option<Vec<NativeActiveOrder>>) -> (r:
        Result<Vec<OrderWithId>, String>)
        ensures
            orders is None ==> (r matches Err(e) && e@ == "Failed to get active orders"@),
            orders matches Some(os) ==> match spec_convert_my_orders(
                trading_pair,
                spec_from_agnostic_side(trading_pair.target, trading_pair.side),
                os@,
            ) {
                Ok(v) => r matches Ok(out) && out@ == v,
                Err(m) => r matches Err(e) && e@ == m,
            },
    {
        let os = match orders {
            Some(o) => o,
            None => {
                return Err("Failed to get active orders".to_owned());
            },
        };
        let side = from_agnostic_side(trading_pair.target, trading_pair.side);
        let ghost full = spec_convert_my_orders(trading_pair, side, os@);
        let mut out: Vec<OrderWithId> = Vec::new();
        let mut i: usize = 0;
        proof {
            assert(os@.skip(0) =~= os@);
        }
        while i < os.len()
            invariant
                i <= os@.len(),
                orders == Some(os),
                side == spec_from_agnostic_side(trading_pair.target, trading_pair.side),
                full == spec_convert_my_orders(trading_pair, side, os@),
                full == match spec_convert_my_orders(trading_pair, side, os@.skip(i as int)) {
                    Ok(v) => Ok::<Seq<OrderWithId>, Seq<char>>(out@ + v),
                    Err(m) => Err::<Seq<OrderWithId>, Seq<char>>(m),
                },
            decreases os@.len() - i,
        {
            proof {
                assert(os@.skip(i as int).first() == os@[i as int]);
                assert(os@.skip(i as int).drop_first() =~= os@.skip(i as int + 1));
            }
            let o = &os[i];
            let sell_text: String = "sell".to_owned();
            let order_side = if o.side == sell_text {
                NativeSide::Sell
            } else {
                NativeSide::Buy
            };
            proof {
                assert(order_side == spec_side_of_text(os@[i as int].side@));
            }
            if order_side == side {
                let price = match &o.price {
                    Some(p) => match parse_fixed(p.as_str()) {
                        Some(v) => v,
                        None => {
                            return Err("Failed to parse order price".to_owned());
                        },
                    },
                    None => {
                        return Err("Failed to parse order price".to_owned());
                    },
                };
                let amount = match parse_fixed(o.quantity.as_str()) {
                    Some(v) => v,
                    None => {
                        return Err("Failed to parse order quantity".to_owned());
                    },
                };
                let converted = OrderWithId { id: o.id.clone(), trading_pair, price, amount };
                let ghost out_before = out@;
                proof {
                    assert(converted == spec_converted_order(trading_pair, os@[i as int]));
                    assert(out_before + (seq![converted] + spec_convert_my_orders(
                        trading_pair,
                        side,
                        os@.skip(i as int + 1),
                    )->Ok_0) =~= (out_before + seq![converted]) + spec_convert_my_orders(
                        trading_pair,
                        side,
                        os@.skip(i as int + 1),
                    )->Ok_0);
                }
                out.push(converted);
                proof {
                    assert(out@ =~= out_before + seq![converted]);
                }
            } else {
                proof {
                    assert(spec_convert_my_orders(trading_pair, side, os@.skip(i as int))
                        == spec_convert_my_orders(trading_pair, side, os@.skip(i as int + 1)));
                }
            }
            i += 1;
        }
        proof {
            assert(os@.skip(os@.len() as int) =~= Seq::<NativeActiveOrder>::empty());
            assert(out@ + Seq::<OrderWithId>::empty() =~= out@);
        }
        Ok(out)
    }
}

} // verus!
