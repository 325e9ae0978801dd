use owner_fee_ledger::decimal::Decimal;
use owner_fee_ledger::text::{i64_text, parse_i32, str_equal, str_less, u64_text};

fn dec(m: i128, s: u32) -> Decimal {
    Decimal::new(m, s)
}

#[test]
fn decimal_arithmetic_is_exact() {
    assert_eq!(dec(150, 2).plus(&dec(25, 1)), dec(400, 2));
    assert_eq!(dec(150, 2).minus(&dec(25, 1)), dec(-100, 2));
    assert_eq!(dec(15, 1).times(&dec(3, 2)), dec(45, 3));
    assert!(dec(-1, 0).less_than(&dec(0, 5)));
    assert!(!dec(10, 1).less_than(&dec(1, 0)));
    assert!(dec(0, 7).is_zero());
    assert!(dec(1, 30).is_positive());
    assert_eq!(Decimal::from_i64(-3), dec(-3, 0));
    assert_eq!(Decimal::from_u64(3), dec(3, 0));
    assert!(Decimal::zero().is_zero());
}

#[test]
fn decimal_overflow_is_reported() {
    assert_eq!(dec(i128::MAX, 0).checked_plus(&dec(1, 0)), None);
    assert_eq!(dec(i128::MIN, 0).checked_minus(&dec(1, 0)), None);
    assert_eq!(dec(i128::MAX, 0).checked_times(&dec(2, 0)), None);
    // aligning 1 to scale 39 leaves the range
    assert_eq!(dec(1, 0).checked_plus(&dec(1, 39)), None);
    assert_eq!(dec(1, 0).checked_plus(&dec(1, 2)), Some(dec(101, 2)));
}

#[test]
fn string_order() {
    assert!(str_less("HSMZ01", "HSMZ02"));
    assert!(str_less("HSMZ0", "HSMZ01"));
    assert!(!str_less("HSMZ02", "HSMZ02"));
    assert!(!str_less("b", "a"));
    assert!(str_less("", "a"));
    assert!(str_equal("房间", "房间"));
    assert!(!str_equal("a", "b"));
}

#[test]
fn decimal_notation() {
    assert_eq!(u64_text(0), "0");
    assert_eq!(u64_text(1234567890), "1234567890");
    assert_eq!(u64_text(u64::MAX), u64::MAX.to_string());
    assert_eq!(i64_text(-42), "-42");
    assert_eq!(i64_text(i64::MIN), i64::MIN.to_string());
}

#[test]
fn reading_integers_as_i32_from_str_does() {
    for s in ["0", "7", "+7", "-0", "-2147483648", "2147483647", "", "+", "-", "2147483648", "-2147483649", " 1", "1a", "007"] {
        assert_eq!(parse_i32(s), s.parse::<i32>().ok(), "{:?}", s);
    }
}
