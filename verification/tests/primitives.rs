use ain_evm::primitives::{H160, H256, H64, MAX_GAS_PER_BLOCK, MIN_GAS_PER_TX, U256};

#[test]
fn numbers_compare_by_their_highest_limb_first() {
    let small = U256([u64::MAX, u64::MAX, u64::MAX, 1]);
    let large = U256([0, 0, 0, 2]);
    assert!(small.lt(&large));
    assert!(!large.lt(&small));
    assert!(!large.lt(&large));
    assert!(U256([0, 5, 7, 1]).lt(&U256([0, 4, 8, 1])));
    assert!(U256([9, 4, 7, 1]).lt(&U256([0, 5, 7, 1])));
    assert!(U256([1, 5, 7, 1]).lt(&U256([2, 5, 7, 1])));
}

#[test]
fn numbers_compare_as_outside() {
    let numbers = [
        U256([0, 0, 0, 0]),
        U256([1, 0, 0, 0]),
        U256([u64::MAX, 0, 0, 0]),
        U256([0, 1, 0, 0]),
        U256([3, 0, 9, 0]),
        U256([0, 0, 0, u64::MAX]),
        U256([u64::MAX; 4]),
    ];
    for a in numbers {
        for b in numbers {
            assert_eq!(a.lt(&b), ethereum_types::U256(a.0) < ethereum_types::U256(b.0));
        }
    }
}

#[test]
fn small_numbers_go_back_and_forth() {
    for number in [0, 1, 21_000, u64::MAX] {
        assert_eq!(U256::from_u64(number).as_u64(), number);
        assert_eq!(ethereum_types::U256(U256::from_u64(number).0), number.into());
    }
}

#[test]
fn defaults_are_zeros() {
    assert_eq!(H160::default(), H160([0; 20]));
    assert_eq!(H256::default(), H256([0; 32]));
    assert_eq!(H64::default(), H64([0; 8]));
    assert_eq!(U256::default(), U256([0; 4]));
    assert_eq!(U256::zero(), U256([0; 4]));
}

#[test]
fn gas_limits() {
    assert_eq!(MAX_GAS_PER_BLOCK, 30_000_000);
    assert_eq!(MIN_GAS_PER_TX, 21_000);
}
