use jitcord::amount::Amount;
use jitcord::asset::AssetRegistry;
use jitcord::display::{
    balance_map_format, bool_to_emoji, display_address, shorten_address, AssetBalance, HolderBalances,
};
use jitcord::error::CoreError;

#[test]
fn shorten_keeps_four_and_four() {
    let addr = "cFLRQDfEdmnv6d2XfHJNRBQHi4fruPMReLSfvB8WWD2ENbqj7";
    let s = shorten_address(addr).unwrap();
    assert_eq!(s, "cFLR...bqj7");
    assert!(s.starts_with(&addr[..4]));
    assert!(s.ends_with(&addr[addr.len() - 4..]));
}

#[test]
fn shorten_at_nine_characters() {
    assert_eq!(shorten_address("123456789").unwrap(), "1234...6789");
}

#[test]
fn shorten_rejects_short_addresses() {
    assert_eq!(shorten_address("12345678"), Err(CoreError::AddressTooShort));
    assert_eq!(shorten_address(""), Err(CoreError::AddressTooShort));
    assert_eq!(shorten_address("abcd"), Err(CoreError::AddressTooShort));
}

#[test]
fn shorten_counts_characters_not_bytes() {
    assert_eq!(shorten_address("ééééxéééé").unwrap(), "éééé...éééé");
}

#[test]
fn display_address_falls_back_to_whole() {
    assert_eq!(display_address("0x1234"), "0x1234");
    assert_eq!(display_address("0x1234567890"), "0x12...7890");
}

fn bal(asset: &str, raw: u128) -> AssetBalance {
    AssetBalance { asset: asset.to_string(), amount: Amount::from_u128(raw) }
}

#[test]
fn balances_render_grouped_in_order() {
    let reg = AssetRegistry::standard();
    let balances = vec![
        HolderBalances {
            holder: "Ethereum".to_string(),
            balances: vec![bal("ETH", 2_500_000_000_000_000_000), bal("USDC", 1_000_000)],
        },
        HolderBalances { holder: "Bitcoin".to_string(), balances: vec![bal("BTC", 1)] },
        HolderBalances { holder: "Polkadot".to_string(), balances: vec![] },
    ];
    let text = balance_map_format(&balances, &reg).unwrap();
    assert_eq!(
        text,
        "Ethereum\nETH: 2.5000\nUSDC: 1.0000\nBitcoin\nBTC: 0.0000\nPolkadot\n"
    );
}

#[test]
fn balances_of_nothing_render_empty() {
    let reg = AssetRegistry::standard();
    assert_eq!(balance_map_format(&vec![], &reg).unwrap(), "");
}

#[test]
fn balances_with_unknown_asset_fail() {
    let reg = AssetRegistry::standard();
    let balances = vec![HolderBalances {
        holder: "Solana".to_string(),
        balances: vec![bal("USDC", 1), bal("SOL", 1)],
    }];
    assert_eq!(balance_map_format(&balances, &reg), Err(CoreError::UnknownAsset));
}

#[test]
fn balances_of_any_size_render() {
    let reg = AssetRegistry::standard();
    let balances = vec![HolderBalances {
        holder: "Ethereum".to_string(),
        balances: vec![AssetBalance { asset: "USDC".to_string(), amount: Amount::from_parts(1, 0) }],
    }];
    assert_eq!(
        balance_map_format(&balances, &reg).unwrap(),
        "Ethereum\nUSDC: 340282366920938463463374607431768.211456\n"
    );
}

#[test]
fn unknown_asset_after_a_large_balance_fails() {
    let reg = AssetRegistry::standard();
    let balances = vec![HolderBalances {
        holder: "Mixed".to_string(),
        balances: vec![
            AssetBalance { asset: "USDC".to_string(), amount: Amount::from_parts(1, 0) },
            AssetBalance { asset: "SOL".to_string(), amount: Amount::from_u128(1) },
        ],
    }];
    assert_eq!(balance_map_format(&balances, &reg), Err(CoreError::UnknownAsset));
}

#[test]
fn flags_render_as_marks() {
    assert_eq!(bool_to_emoji(true), "\u{2705}");
    assert_eq!(bool_to_emoji(false), "\u{274c}");
}
