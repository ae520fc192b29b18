use todo_api::decimal::{i32_to_decimal, u64_to_decimal};

#[test]
fn unsigned_numbers_in_decimal() {
    assert_eq!(u64_to_decimal(0), "0");
    assert_eq!(u64_to_decimal(9), "9");
    assert_eq!(u64_to_decimal(10), "10");
    assert_eq!(u64_to_decimal(109), "109");
    assert_eq!(u64_to_decimal(1234567890), "1234567890");
    assert_eq!(u64_to_decimal(u64::MAX), "18446744073709551615");
}

#[test]
fn signed_numbers_in_decimal() {
    assert_eq!(i32_to_decimal(0), "0");
    assert_eq!(i32_to_decimal(7), "7");
    assert_eq!(i32_to_decimal(-1), "-1");
    assert_eq!(i32_to_decimal(-40), "-40");
    assert_eq!(i32_to_decimal(i32::MAX), "2147483647");
    assert_eq!(i32_to_decimal(i32::MIN), "-2147483648");
}

#[test]
fn decimal_agrees_with_the_standard_formatting() {
    let mut n: u64 = 1;
    for _ in 0..60 {
        assert_eq!(u64_to_decimal(n), n.to_string());
        assert_eq!(u64_to_decimal(n - 1), (n - 1).to_string());
        n *= 2;
    }
    let mut i: i32 = -1_000_000;
    while i <= 1_000_000 {
        assert_eq!(i32_to_decimal(i), i.to_string());
        i += 9_973;
    }
}

#[test]
fn different_numbers_have_different_texts() {
    let samples = [i32::MIN, -100, -10, -1, 0, 1, 10, 11, 100, 101, 110, i32::MAX];
    for a in samples {
        for b in samples {
            assert_eq!(i32_to_decimal(a) == i32_to_decimal(b), a == b);
        }
    }
}
