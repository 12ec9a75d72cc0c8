use cw20_to_tokenfactory::denom::{check_factory_denom, starts_with};
use cw20_to_tokenfactory::types::{find_balance, Coin};

#[test]
fn starts_with_cases() {
    assert!(starts_with("factory/abc", "factory/"));
    assert!(starts_with("abc", ""));
    assert!(!starts_with("fact", "factory/"));
    assert!(!starts_with("ünïcode", "üni"));
    assert!(starts_with("ünïcode", "ünï"));
}

#[test]
fn factory_denom_check() {
    assert!(check_factory_denom(&"factory/juno1x/sub".to_string()));
    assert!(!check_factory_denom(&"ibc/ABCD".to_string()));
}

#[test]
fn find_balance_first_match() {
    let coins = vec![
        Coin { denom: "a".to_string(), amount: 1 },
        Coin { denom: "b".to_string(), amount: 2 },
        Coin { denom: "b".to_string(), amount: 3 },
    ];
    assert_eq!(find_balance(&coins, &"b".to_string()), Some(2));
    assert_eq!(find_balance(&coins, &"c".to_string()), None);
    assert_eq!(find_balance(&vec![], &"a".to_string()), None);
}
