use jitcord::account::{
    classify, search_account_by_name, text_contains, AccountInfo, AccountInfoV2, AccountList,
    AccountPair, AccountPayload, Address, RestrictedBalance, Role,
};
use jitcord::amount::Amount;
use jitcord::error::CoreError;

fn payload(role: &str) -> AccountPayload {
    AccountPayload {
        role: role.to_string(),
        flip_balance: Amount::from_u128(42),
        balances: vec![],
        refund_addresses: vec![],
        bond: Amount::from_u128(7),
        last_heartbeat: 11,
        reputation_points: -3,
        keyholder_epochs: vec![1, 2],
        is_current_authority: true,
        is_current_backup: false,
        is_qualified: true,
        is_online: true,
        is_bidding: false,
        bound_redeem_address: None,
        apy_bp: Some(500),
        restricted_balances: vec![],
    }
}

#[test]
fn classify_validator_keeps_flags() {
    match classify(payload("validator")).unwrap() {
        AccountInfo::Validator {
            is_online,
            is_bidding,
            flip_balance,
            bond,
            reputation_points,
            apy_bp,
            bound_redeem_address,
            ..
        } => {
            assert!(is_online);
            assert!(!is_bidding);
            assert_eq!(flip_balance, Amount::from_u128(42));
            assert_eq!(bond, Amount::from_u128(7));
            assert_eq!(reputation_points, -3);
            assert_eq!(apy_bp, Some(500));
            assert!(bound_redeem_address.is_none());
        }
        _ => panic!("expected a validator"),
    }
}

#[test]
fn classify_each_known_role() {
    assert_eq!(classify(payload("unregistered")).unwrap().role(), Role::Unregistered);
    assert_eq!(classify(payload("broker")).unwrap().role(), Role::Broker);
    assert_eq!(classify(payload("liquidity_provider")).unwrap().role(), Role::LiquidityProvider);
    assert_eq!(classify(payload("validator")).unwrap().role(), Role::Validator);
    assert!(matches!(
        classify(payload("broker")).unwrap(),
        AccountInfo::Broker { flip_balance } if flip_balance == Amount::from_u128(42)
    ));
}

#[test]
fn classify_rejects_other_tags() {
    for tag in ["", "Validator", "operator", "liquidityprovider", "validator "] {
        assert_eq!(classify(payload(tag)).unwrap_err(), CoreError::UnrecognizedRole);
    }
}

#[test]
fn every_role_has_a_flip_balance() {
    for tag in ["unregistered", "broker", "liquidity_provider", "validator"] {
        assert_eq!(classify(payload(tag)).unwrap().flip_balance(), Amount::from_u128(42));
    }
}

#[test]
fn legacy_record_becomes_validator() {
    let addr = Address { bytes: [9u8; 20] };
    let v2 = AccountInfoV2 {
        balance: Amount::from_u128(100),
        bond: Amount::from_u128(50),
        last_heartbeat: 12,
        reputation_points: 2000,
        keyholder_epochs: vec![5],
        is_current_authority: false,
        is_current_backup: true,
        is_qualified: true,
        is_online: false,
        is_bidding: true,
        bound_redeem_address: Some(addr),
        apy_bp: None,
        restricted_balances: None,
    };
    match v2.into_account_info() {
        AccountInfo::Validator {
            flip_balance,
            reputation_points,
            is_current_backup,
            is_bidding,
            bound_redeem_address,
            restricted_balances,
            keyholder_epochs,
            ..
        } => {
            assert_eq!(flip_balance, Amount::from_u128(100));
            assert_eq!(reputation_points, 2000);
            assert!(is_current_backup);
            assert!(is_bidding);
            assert_eq!(bound_redeem_address.unwrap().bytes, [9u8; 20]);
            assert!(restricted_balances.is_empty());
            assert_eq!(keyholder_epochs, vec![5]);
        }
        _ => panic!("expected a validator"),
    }
}

#[test]
fn legacy_restricted_balances_are_kept() {
    let v2 = AccountInfoV2 {
        balance: Amount::from_u128(1),
        bond: Amount::from_u128(0),
        last_heartbeat: 0,
        reputation_points: 0,
        keyholder_epochs: vec![],
        is_current_authority: false,
        is_current_backup: false,
        is_qualified: false,
        is_online: false,
        is_bidding: false,
        bound_redeem_address: None,
        apy_bp: None,
        restricted_balances: Some(vec![RestrictedBalance {
            address: Address { bytes: [1u8; 20] },
            amount: Amount::from_u128(3),
        }]),
    };
    match v2.into_account_info() {
        AccountInfo::Validator { restricted_balances, .. } => {
            assert_eq!(restricted_balances.len(), 1);
            assert_eq!(restricted_balances[0].amount, Amount::from_u128(3));
        }
        _ => panic!("expected a validator"),
    }
}

fn accounts() -> AccountList {
    AccountList(vec![
        AccountPair("cFJ4sqrttLq".to_string(), "alpha".to_string()),
        AccountPair("cFK9zzz".to_string(), "beta-node".to_string()),
        AccountPair("cFQQ".to_string(), "alphabet".to_string()),
    ])
}

#[test]
fn search_takes_the_last_match() {
    let found = search_account_by_name(&accounts(), "alpha".to_string()).unwrap();
    assert_eq!(found.0, "cFQQ");
    assert_eq!(found.1, "alphabet");
}

#[test]
fn search_matches_identifier_or_alias() {
    let by_id = search_account_by_name(&accounts(), "K9z".to_string()).unwrap();
    assert_eq!(by_id.1, "beta-node");
    let by_alias = search_account_by_name(&accounts(), "beta".to_string()).unwrap();
    assert_eq!(by_alias.0, "cFK9zzz");
}

#[test]
fn search_without_match_is_none() {
    assert!(search_account_by_name(&accounts(), "gamma".to_string()).is_none());
    assert!(search_account_by_name(&AccountList(vec![]), "".to_string()).is_none());
}

#[test]
fn empty_search_matches_the_last_account() {
    let found = search_account_by_name(&accounts(), "".to_string()).unwrap();
    assert_eq!(found.0, "cFQQ");
}

#[test]
fn contains_on_examples() {
    assert!(text_contains("validator", "lid"));
    assert!(text_contains("abc", ""));
    assert!(text_contains("abc", "abc"));
    assert!(!text_contains("abc", "abcd"));
    assert!(!text_contains("abc", "cb"));
    assert!(text_contains("aab", "ab"));
}
