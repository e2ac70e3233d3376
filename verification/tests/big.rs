use mcp_supervisor::big::Big;

#[test]
fn big_numbers_are_ordered_by_value() {
    let small = Big::from_u64(7);
    let large = Big::from_u64(u64::MAX);
    assert!(large.at_least(&small));
    assert!(!small.at_least(&large));
    assert!(small.at_least(&Big::from_u64(7)));
    assert!(small.at_least(&Big::from_u64(0)));
    assert!(!Big::from_u64(0).at_least(&Big::from_u64(1)));
}

#[test]
fn big_products_do_not_wrap() {
    let square = Big::from_u64(u64::MAX).times(u64::MAX);
    let almost = Big::from_u64(u64::MAX).times(u64::MAX - 1);
    assert!(square.at_least(&almost));
    assert!(!almost.at_least(&square));
    assert!(almost.at_least(&Big::from_u64(u64::MAX)));
    let mut power = Big::from_u64(1);
    let mut other = Big::from_u64(1);
    for _ in 0..40 {
        power = power.times(1000);
        other = other.times(10).times(100);
    }
    assert!(power.at_least(&other));
    assert!(other.at_least(&power));
    assert!(!power.at_least(&other.times(2)));
    assert!(power.times(3).at_least(&other.times(2)));
    assert!(Big::from_u64(5).times(0).at_least(&Big::from_u64(0)));
    assert!(!Big::from_u64(5).times(0).at_least(&Big::from_u64(1)));
}

#[test]
fn products_commute_and_compare_with_machine_words() {
    for (a, b) in [(0u64, 0u64), (1, 0), (3, 5), (1 << 32, 1 << 31), (u64::MAX, 2), (12345, 67890)] {
        let left = Big::from_u64(a).times(b);
        let right = Big::from_u64(b).times(a);
        assert!(left.at_least(&right) && right.at_least(&left));
        let wide = (a as u128) * (b as u128);
        if wide <= u64::MAX as u128 {
            let exact = Big::from_u64(wide as u64);
            assert!(left.at_least(&exact) && exact.at_least(&left));
        } else {
            assert!(left.at_least(&Big::from_u64(u64::MAX)));
            assert!(!Big::from_u64(u64::MAX).at_least(&left));
        }
    }
}
