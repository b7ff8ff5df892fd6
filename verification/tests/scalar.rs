use universal_deployer::scalar::Scalar;
use universal_deployer::util::strip_hex_prefix;

#[test]
fn next_of_small_values() {
    assert_eq!(Scalar::zero().wrapping_next(), Scalar::from_u64(1));
    assert_eq!(Scalar::from_u64(41).wrapping_next(), Scalar::from_u64(42));
}

#[test]
fn next_carries_into_higher_limbs() {
    let x = Scalar { limbs: [u64::MAX, 0, 0, 0] };
    assert_eq!(x.wrapping_next(), Scalar { limbs: [0, 1, 0, 0] });
    let x = Scalar { limbs: [u64::MAX, u64::MAX, 7, 0] };
    assert_eq!(x.wrapping_next(), Scalar { limbs: [0, 0, 8, 0] });
    let x = Scalar { limbs: [u64::MAX, u64::MAX, u64::MAX, 9] };
    assert_eq!(x.wrapping_next(), Scalar { limbs: [0, 0, 0, 10] });
    let x = Scalar { limbs: [5, u64::MAX, u64::MAX, 9] };
    assert_eq!(x.wrapping_next(), Scalar { limbs: [6, u64::MAX, u64::MAX, 9] });
}

#[test]
fn next_of_the_largest_value_is_zero() {
    assert_eq!(Scalar::max_value().limbs, [u64::MAX; 4]);
    assert_eq!(Scalar::max_value().wrapping_next(), Scalar::zero());
}

#[test]
fn next_agrees_with_overflowing_add() {
    for limbs in [[0, 0, 0, 0], [u64::MAX, 3, 0, 0], [u64::MAX, u64::MAX, u64::MAX, 1], [u64::MAX; 4]] {
        let expected = ethers::types::U256(limbs).overflowing_add(ethers::types::U256::from(1)).0;
        assert_eq!(Scalar { limbs }.wrapping_next().limbs, expected.0);
    }
}

#[test]
fn same_compares_every_limb() {
    let x = Scalar { limbs: [1, 2, 3, 4] };
    assert!(x.same(&Scalar { limbs: [1, 2, 3, 4] }));
    assert!(!x.same(&Scalar { limbs: [0, 2, 3, 4] }));
    assert!(!x.same(&Scalar { limbs: [1, 0, 3, 4] }));
    assert!(!x.same(&Scalar { limbs: [1, 2, 0, 4] }));
    assert!(!x.same(&Scalar { limbs: [1, 2, 3, 0] }));
}

#[test]
fn strip_hex_prefix_takes_one_marker() {
    assert_eq!(strip_hex_prefix("0x1234"), "1234");
    assert_eq!(strip_hex_prefix("1234"), "1234");
    assert_eq!(strip_hex_prefix("0x"), "");
    assert_eq!(strip_hex_prefix(""), "");
    assert_eq!(strip_hex_prefix("0"), "0");
    assert_eq!(strip_hex_prefix("0X12"), "0X12");
    assert_eq!(strip_hex_prefix("0x0x12"), "0x12");
    assert_eq!(strip_hex_prefix("x0ab"), "x0ab");
    assert_eq!(strip_hex_prefix("0x\u{e9}t\u{e9}"), "\u{e9}t\u{e9}");
}
