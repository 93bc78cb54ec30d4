use crate::amount::Amount;
use crate::asset::AssetRegistry;
use crate::display::{address_display, amount_text, display_address, render_amount};
use crate::error::CoreError;
use vstd::prelude::*;

verus! {

/// The quote asset of a pair where none is given.
pub const DEFAULT_QUOTE_ASSET: &'static str = "USDC";

/// A resting order at one price tick.
#[derive(Clone, Debug)]
pub struct LimitOrder {
    pub lp: String,
    pub id: Amount,
    pub tick: i32,
    pub sell_amount: Amount,
    pub fees_earned: Amount,
    pub original_sell_amount: Amount,
}

/// A pair of amounts, one in each asset of a pool.
#[derive(Clone, Copy, Debug)]
pub struct PoolPairsMap {
    pub base: Amount,
    pub quote: Amount,
}

/// A span of price ticks.
#[derive(Clone, Copy, Debug, PartialEq, Eq, Structural)]
pub struct Range {
    pub start: i32,
    pub end: i32,
}

/// Liquidity provided over a range of ticks.
#[derive(Clone, Debug)]
pub struct RangeOrder {
    pub lp: String,
    pub id: Amount,
    pub range: Range,
    pub liquidity: u128,
    pub fees_earned: PoolPairsMap,
}

/// A pool's limit orders, best first on each side.
#[derive(Clone, Debug)]
pub struct AskBidMap {
    pub asks: Vec<LimitOrder>,
    pub bids: Vec<LimitOrder>,
}

/// A pool's order book.
#[derive(Clone, Debug)]
pub struct PoolOrders {
    pub limit_orders: AskBidMap,
    pub range_orders: Vec<RangeOrder>,
}

/// The two sides of an order book.
#[derive(Clone, Copy, Debug, PartialEq, Eq, Structural)]
pub enum Side {
    Bid,
    Ask,
}

/// A limit order as it is shown: the provider's address in display form and
/// the amount for sale as rounded decimal text.
#[derive(Clone, Debug)]
pub struct OrderSummary {
    pub lp: String,
    pub id: Amount,
    pub tick: i32,
    pub sell_amount: String,
    pub fees_earned: Amount,
}

/// The text of `s` in upper case.
pub uninterp spec fn upper_of(s: Seq<char>) -> Seq<char>;

/// Relies on `str::to_uppercase`: the result depends on the characters alone,
/// and an empty text stays empty.
#[verifier::external_body]
fn to_upper(s: &str) -> (r: String)
    ensures
        r@ == upper_of(s@),
        s@.len() == 0 ==> r@.len() == 0,
{
    s.to_uppercase()
}

/// The symbols of a pair as given by a user: the base asset in upper case,
/// and the quote asset as given, or [`DEFAULT_QUOTE_ASSET`] where none is.
pub fn pair_symbols(asset: &str, quote_asset: Option<&str>) -> (r: (String, String))
    ensures
        r.0@ == upper_of(asset@),
        r.1@ == (match quote_asset {
            Some(q) => q@,
            None => DEFAULT_QUOTE_ASSET@,
        }),
{
    let base = to_upper(asset);
    let quote = match quote_asset {
        Some(q) => String::from_str(q),
        None => String::from_str(DEFAULT_QUOTE_ASSET),
    };
    (base, quote)
}

/// The summary of `order` with its sell amount read in `sell_asset`.
pub fn summarize_order(order: &LimitOrder, sell_asset: &str, registry: &AssetRegistry) -> (r:
    Result<OrderSummary, CoreError>)
    ensures
        match r {
            Ok(s) => amount_text(registry.entries@, order.sell_amount, sell_asset@) == Ok::<
                Seq<char>,
                CoreError,
            >(s.sell_amount@) && s.lp@ == address_display(order.lp@) && s.id == order.id && s.tick
                == order.tick && s.fees_earned == order.fees_earned,
            Err(e) => amount_text(registry.entries@, order.sell_amount, sell_asset@) == Err::<
                Seq<char>,
                CoreError,
            >(e),
        },
{
    let sell = render_amount(&order.sell_amount, sell_asset, registry);
    let sell_amount = match sell {
        Ok(t) => t,
        Err(e) => {
            return Err(e);
        },
    };
    Ok(
        OrderSummary {
            lp: display_address(order.lp.as_str()),
            id: order.id,
            tick: order.tick,
            sell_amount,
            fees_earned: order.fees_earned,
        },
    )
}

impl PoolOrders {
    /// The best order on `side`: the first bid or the first ask.
    pub fn best(&self, side: Side) -> (r: Option<&LimitOrder>)
        ensures
            ({
                let book = match side {
                    Side::Bid => self.limit_orders.bids@,
                    Side::Ask => self.limit_orders.asks@,
                };
                match r {
                    Some(o) => book.len() > 0 && *o == book[0],
                    None => book.len() == 0,
                }
            }),
    {
        let book = match side {
            Side::Bid => &self.limit_orders.bids,
            Side::Ask => &self.limit_orders.asks,
        };
        if book.len() > 0 {
            Some(&book[0])
        } else {
            None
        }
    }

    /// The summary of the best order on `side` of the `base`/`quote` pool. A
    /// bid sells the quote asset and an ask the base asset, so the amount is
    /// read in that asset. `None` where that side of the book is empty.
    pub fn best_summary(&self, side: Side, base: &str, quote: &str, registry: &AssetRegistry) -> (r:
        Result<Option<OrderSummary>, CoreError>)
        ensures
            ({
                let book = match side {
                    Side::Bid => self.limit_orders.bids@,
                    Side::Ask => self.limit_orders.asks@,
                };
                let sell_asset = match side {
                    Side::Bid => quote@,
                    Side::Ask => base@,
                };
                if book.len() == 0 {
                    r == Ok::<Option<OrderSummary>, CoreError>(None)
                } else {
                    match r {
                        Ok(Some(s)) => amount_text(registry.entries@, book[0].sell_amount, sell_asset)
                            == Ok::<Seq<char>, CoreError>(s.sell_amount@) && s.lp@
                            == address_display(book[0].lp@) && s.id == book[0].id && s.tick
                            == book[0].tick && s.fees_earned == book[0].fees_earned,
                        Ok(None) => false,
                        Err(e) => amount_text(registry.entries@, book[0].sell_amount, sell_asset)
                            == Err::<Seq<char>, CoreError>(e),
                    }
                }
            }),
    {
        let sell_asset = match side {
            Side::Bid => quote,
            Side::Ask => base,
        };
        match self.best(side) {
            None => Ok(None),
            Some(order) => match summarize_order(order, sell_asset, registry) {
                Ok(s) => Ok(Some(s)),
                Err(e) => Err(e),
            },
        }
    }
}

} // verus!
