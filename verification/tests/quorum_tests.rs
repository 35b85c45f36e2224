use squaring_testnet::address::Address;
use squaring_testnet::quorum::{
    build_quorum_config, seed_row, OperatorSetParam, QuorumError, QuorumSettings,
};

fn account(tag: u8) -> Address {
    let mut bytes = [0u8; 20];
    bytes[19] = tag;
    Address::from_bytes(bytes)
}

fn settings(multiplier: u64, minimum_stake: u64) -> QuorumSettings {
    QuorumSettings {
        operator_set: OperatorSetParam {
            max_operator_count: 10000,
            kick_bips_of_operator_stake: 15000,
            kick_bips_of_total_stake: 100,
        },
        minimum_stake,
        multiplier,
    }
}

#[test]
fn one_quorum_one_strategy_no_minimum_stake() {
    let strategy = account(9);
    let config = build_quorum_config(1, &vec![strategy], settings(1, 0)).unwrap();
    assert_eq!(config.quorum_count(), 1);
    assert_eq!(config.operator_set_params.len(), 1);
    assert_eq!(config.operator_set_params[0].max_operator_count, 10000);
    assert_eq!(config.operator_set_params[0].kick_bips_of_operator_stake, 15000);
    assert_eq!(config.operator_set_params[0].kick_bips_of_total_stake, 100);
    assert_eq!(config.minimum_stakes, vec![0]);
    assert_eq!(config.strategy_params.len(), 1);
    assert_eq!(config.strategy_params[0].len(), 1);
    assert_eq!(config.strategy_params[0][0].multiplier, 1);
    assert!(config.strategy_params[0][0].strategy == strategy);
}

#[test]
fn every_quorum_lists_every_strategy_in_order() {
    let strategies = vec![account(1), account(2), account(3)];
    let config = build_quorum_config(4, &strategies, settings(7, 50)).unwrap();
    assert_eq!(config.quorum_count(), 4);
    assert_eq!(config.operator_set_params.len(), 4);
    assert_eq!(config.minimum_stakes, vec![50, 50, 50, 50]);
    for row in config.strategy_params.iter() {
        assert_eq!(row.len(), 3);
        for (k, param) in row.iter().enumerate() {
            assert!(param.strategy == strategies[k]);
            assert_eq!(param.multiplier, 7);
        }
    }
}

#[test]
fn no_quorums_and_no_strategies_give_empty_lists() {
    let none = build_quorum_config(0, &vec![account(1)], settings(1, 0)).unwrap();
    assert_eq!(none.quorum_count(), 0);
    assert!(none.operator_set_params.is_empty());
    assert!(none.minimum_stakes.is_empty());
    let bare = build_quorum_config(2, &vec![], settings(1, 0)).unwrap();
    assert_eq!(bare.quorum_count(), 2);
    assert!(bare.strategy_params[0].is_empty());
    assert!(bare.strategy_params[1].is_empty());
}

#[test]
fn zero_multiplier_is_refused() {
    let result = build_quorum_config(1, &vec![account(1)], settings(0, 0));
    assert_eq!(result.err(), Some(QuorumError::ZeroMultiplier));
}

#[test]
fn seeded_row_pairs_each_strategy_with_the_multiplier() {
    let row = seed_row(&vec![account(4), account(5)], 3);
    assert_eq!(row.len(), 2);
    assert!(row[0].strategy == account(4));
    assert!(row[1].strategy == account(5));
    assert_eq!(row[0].multiplier, 3);
    assert_eq!(row[1].multiplier, 3);
}
