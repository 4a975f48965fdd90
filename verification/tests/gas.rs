use relayer::gas::{calculate_total_gas_burned, remaining_allowance, TXN_GAS_ALLOWANCE, YN_TO_GAS};

#[test]
fn burnt_tokens_are_added_up() {
    assert_eq!(calculate_total_gas_burned(0, &vec![]), 0);
    assert_eq!(calculate_total_gas_burned(5, &vec![]), 5);
    assert_eq!(calculate_total_gas_burned(5, &vec![7, 0, 30]), 42);
    assert_eq!(calculate_total_gas_burned(1, &vec![u128::MAX, 3]), u128::MAX);
}

#[test]
fn gas_is_taken_from_the_allowance() {
    assert_eq!(TXN_GAS_ALLOWANCE, 10_000_000_000_000);
    assert_eq!(YN_TO_GAS, 1_000_000_000);
    assert_eq!(remaining_allowance(0, 77), 77);
    assert_eq!(remaining_allowance(1_000_000_000, 77), 76);
    assert_eq!(remaining_allowance(1_999_999_999, 77), 76);
    assert_eq!(remaining_allowance(77_000_000_000, 77), 0);
    assert_eq!(remaining_allowance(78_000_000_000, 77), 0);
    assert_eq!(remaining_allowance(u128::MAX, u64::MAX), 0);
}

#[test]
fn a_larger_charge_never_leaves_more() {
    let burnt: [u128; 5] = [0, 999_999_999, 1_000_000_000, 5_500_000_000, u128::MAX];
    for pair in burnt.windows(2) {
        assert!(remaining_allowance(pair[1], 6) <= remaining_allowance(pair[0], 6));
        assert!(remaining_allowance(pair[0], 6) <= 6);
    }
}
