use jitcord::amount::Amount;
use jitcord::asset::AssetRegistry;
use jitcord::error::CoreError;
use jitcord::orders::{
    pair_symbols, summarize_order, AskBidMap, LimitOrder, PoolOrders, PoolPairsMap, Range,
    RangeOrder, Side,
};

fn order(lp: &str, tick: i32, sell: u128) -> LimitOrder {
    LimitOrder {
        lp: lp.to_string(),
        id: Amount::from_u128(1),
        tick,
        sell_amount: Amount::from_u128(sell),
        fees_earned: Amount::from_u128(2),
        original_sell_amount: Amount::from_u128(sell),
    }
}

fn book() -> PoolOrders {
    PoolOrders {
        limit_orders: AskBidMap {
            asks: vec![order("cFAskProvider01", -200, 3_000_000_000_000_000_000), order("cFx", 5, 1)],
            bids: vec![order("cFBidProvider01", -210, 2_500_000)],
        },
        range_orders: vec![RangeOrder {
            lp: "cFRange".to_string(),
            id: Amount::from_u128(9),
            range: Range { start: -10, end: 10 },
            liquidity: 1000,
            fees_earned: PoolPairsMap { base: Amount::from_u128(0), quote: Amount::from_u128(0) },
        }],
    }
}

#[test]
fn pair_symbols_upper_case_base_and_default_quote() {
    assert_eq!(pair_symbols("eth", None), ("ETH".to_string(), "USDC".to_string()));
    assert_eq!(pair_symbols("Btc", Some("ETH")), ("BTC".to_string(), "ETH".to_string()));
    assert_eq!(pair_symbols("", None), ("".to_string(), "USDC".to_string()));
}

#[test]
fn best_orders_are_first_on_each_side() {
    let b = book();
    assert_eq!(b.best(Side::Bid).unwrap().tick, -210);
    assert_eq!(b.best(Side::Ask).unwrap().tick, -200);
    let empty = PoolOrders { limit_orders: AskBidMap { asks: vec![], bids: vec![] }, range_orders: vec![] };
    assert!(empty.best(Side::Bid).is_none());
    assert!(empty.best(Side::Ask).is_none());
}

#[test]
fn bid_summary_reads_quote_asset() {
    let reg = AssetRegistry::standard();
    let s = book().best_summary(Side::Bid, "ETH", "USDC", &reg).unwrap().unwrap();
    assert_eq!(s.lp, "cFBi...er01");
    assert_eq!(s.sell_amount, "2.5000");
    assert_eq!(s.tick, -210);
    assert_eq!(s.fees_earned, Amount::from_u128(2));
}

#[test]
fn ask_summary_reads_base_asset() {
    let reg = AssetRegistry::standard();
    let s = book().best_summary(Side::Ask, "ETH", "USDC", &reg).unwrap().unwrap();
    assert_eq!(s.lp, "cFAs...er01");
    assert_eq!(s.sell_amount, "3.0000");
}

#[test]
fn summary_of_empty_side_is_none() {
    let reg = AssetRegistry::standard();
    let empty = PoolOrders { limit_orders: AskBidMap { asks: vec![], bids: vec![] }, range_orders: vec![] };
    assert!(empty.best_summary(Side::Ask, "ETH", "USDC", &reg).unwrap().is_none());
}

#[test]
fn summary_with_unknown_asset_fails() {
    let reg = AssetRegistry::standard();
    assert_eq!(
        book().best_summary(Side::Ask, "XRP", "USDC", &reg).unwrap_err(),
        CoreError::UnknownAsset
    );
    let s = summarize_order(&order("short", 0, 1), "USDC", &reg).unwrap();
    assert_eq!(s.lp, "short");
    assert_eq!(s.sell_amount, "0.0000");
}
