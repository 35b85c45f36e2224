use squaring_testnet::abi::{
    assemble_call_data, selector, selector_from_digest, strategy_initializer_call,
    task_manager_initializer_call,
};
use squaring_testnet::address::Address;

fn account(tag: u8) -> Address {
    let mut bytes = [0u8; 20];
    bytes[0] = tag;
    bytes[19] = tag;
    Address::from_bytes(bytes)
}

fn word_of_account(address: &Address) -> Vec<u8> {
    let mut word = vec![0u8; 12];
    word.extend_from_slice(&address.bytes);
    word
}

fn word_of_number(n: u8) -> Vec<u8> {
    let mut word = vec![0u8; 31];
    word.push(n);
    word
}

#[test]
fn selector_of_four_address_initializer() {
    assert_eq!(
        selector("initialize(address,address,address,address)"),
        vec![0xf8, 0xc8, 0x76, 0x5e]
    );
}

#[test]
fn selector_of_strategy_initializer() {
    assert_eq!(
        selector("initialize(uint256,uint256,address,address)"),
        vec![0x01, 0x9e, 0x27, 0x29]
    );
}

#[test]
fn selector_of_transfer_is_the_well_known_one() {
    assert_eq!(selector("transfer(address,uint256)"), vec![0xa9, 0x05, 0x9c, 0xbb]);
}

#[test]
fn selector_is_the_head_of_the_digest() {
    let digest: Vec<u8> = (10u8..42).collect();
    assert_eq!(selector_from_digest(&digest), Some(vec![10, 11, 12, 13]));
    assert_eq!(selector_from_digest(&vec![1, 2, 3, 4]), Some(vec![1, 2, 3, 4]));
    assert_eq!(selector_from_digest(&vec![1, 2, 3]), None);
    assert_eq!(selector_from_digest(&vec![]), None);
}

#[test]
fn call_data_is_selector_then_arguments() {
    let data = assemble_call_data(&vec![1, 2, 3, 4], &vec![9, 8, 7]);
    assert_eq!(data, vec![1, 2, 3, 4, 9, 8, 7]);
    assert_eq!(assemble_call_data(&vec![1, 2, 3, 4], &vec![]), vec![1, 2, 3, 4]);
}

#[test]
fn strategy_initializer_call_encodes_limits_then_accounts() {
    let token = account(0x11);
    let pauser = account(0x22);
    let data = strategy_initializer_call(1, 100, &token, &pauser);
    let mut expected = vec![0x01, 0x9e, 0x27, 0x29];
    expected.extend(word_of_number(1));
    expected.extend(word_of_number(100));
    expected.extend(word_of_account(&token));
    expected.extend(word_of_account(&pauser));
    assert_eq!(data.len(), 4 + 4 * 32);
    assert_eq!(data, expected);
}

#[test]
fn task_manager_initializer_call_encodes_four_accounts() {
    let a = account(1);
    let b = account(2);
    let c = account(3);
    let d = account(4);
    let data = task_manager_initializer_call(&a, &b, &c, &d);
    let mut expected = vec![0xf8, 0xc8, 0x76, 0x5e];
    expected.extend(word_of_account(&a));
    expected.extend(word_of_account(&b));
    expected.extend(word_of_account(&c));
    expected.extend(word_of_account(&d));
    assert_eq!(data, expected);
}
