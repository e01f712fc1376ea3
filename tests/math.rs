use amm::math::{isqrt, mul_wide, products_equal};

#[test]
fn integer_square_root() {
    assert_eq!(isqrt(10_000), 100);
    assert_eq!(isqrt(99), 9);
    assert_eq!(isqrt(0), 0);
    assert_eq!(isqrt(u128::MAX), 18_446_744_073_709_551_615);
}

#[test]
fn wide_products() {
    assert_eq!(mul_wide(u128::MAX, u128::MAX), (u128::MAX - 1, 1));
    assert_eq!(mul_wide(1 << 64, 1 << 64), (1, 0));
    assert_eq!(mul_wide(6, 7), (0, 42));
    assert!(!products_equal(u128::MAX, 6, 3, u128::MAX));
    assert!(products_equal(u128::MAX, 6, 2 * (u128::MAX / 3), 9));
    assert!(products_equal(1 << 100, 1 << 100, 1 << 120, 1 << 80));
    assert!(!products_equal(1 << 100, 1 << 100, 1 << 120, (1 << 80) + 1));
}
