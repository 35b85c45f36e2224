use squaring_testnet::address::Address;
use squaring_testnet::record::ContractAddresses;
use squaring_testnet::reference::service_account;

fn account(tag: u8) -> Address {
    let mut bytes = [0u8; 20];
    bytes[19] = tag;
    Address::from_bytes(bytes)
}

#[test]
fn zero_address_is_zero() {
    assert!(Address::zero().is_zero());
    assert_eq!(Address::zero().bytes, [0u8; 20]);
    assert!(!account(1).is_zero());
    let mut high = [0u8; 20];
    high[0] = 1;
    assert!(!Address::from_bytes(high).is_zero());
}

#[test]
fn addresses_compare_by_their_bytes() {
    assert!(account(7) == account(7));
    assert!(account(7) != account(8));
    assert!(Address::zero() == Address::from_bytes([0u8; 20]));
}

#[test]
fn checksum_of_a_known_address() {
    let bytes = [
        0xd8, 0xda, 0x6b, 0xf2, 0x69, 0x64, 0xaf, 0x9d, 0x7e, 0xed, 0x9e, 0x03, 0xe5, 0x34, 0x15,
        0xd3, 0x7a, 0xa9, 0x60, 0x45,
    ];
    assert_eq!(
        Address::from_bytes(bytes).checksum(),
        "0xd8dA6BF26964aF9D7eEd9e03E53415D37aA96045"
    );
}

#[test]
fn checksum_of_the_service_account() {
    assert_eq!(service_account().checksum(), "0xa0Ee7A142d267C1f36714E4a8F75612F20a79720");
}

#[test]
fn record_renders_one_labelled_line_per_address() {
    let record = ContractAddresses {
        service_manager: account(1),
        registry_coordinator: account(2),
        operator_state_retriever: account(3),
        delegation_manager: account(4),
        avs_directory: account(5),
        operator: service_account(),
    };
    let expected = "Contract Addresses:\n\
        \x20 Service Manager:          0x0000000000000000000000000000000000000001\n\
        \x20 Registry Coordinator:     0x0000000000000000000000000000000000000002\n\
        \x20 Operator State Retriever: 0x0000000000000000000000000000000000000003\n\
        \x20 Delegation Manager:       0x0000000000000000000000000000000000000004\n\
        \x20 AVS Directory:            0x0000000000000000000000000000000000000005\n\
        \x20 Operator:                 0xa0Ee7A142d267C1f36714E4a8F75612F20a79720\n";
    assert_eq!(record.render(), expected);
}

#[test]
fn record_soundness_needs_distinct_nonzero_addresses() {
    let good = ContractAddresses {
        service_manager: account(1),
        registry_coordinator: account(2),
        operator_state_retriever: account(3),
        delegation_manager: account(4),
        avs_directory: account(5),
        operator: account(6),
    };
    assert!(good.is_sound());
    let mut with_zero = good;
    with_zero.avs_directory = Address::zero();
    assert!(!with_zero.is_sound());
    let mut with_twin = good;
    with_twin.operator = account(1);
    assert!(!with_twin.is_sound());
    let mut with_late_twin = good;
    with_late_twin.operator = account(5);
    assert!(!with_late_twin.is_sound());
}
