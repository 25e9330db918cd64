use dotgain::text::{int_to_text, nat_to_text};

#[test]
fn natural_numbers_in_digits() {
    assert_eq!(nat_to_text(0), "0");
    assert_eq!(nat_to_text(7), "7");
    assert_eq!(nat_to_text(10), "10");
    assert_eq!(nat_to_text(1677001980000), "1677001980000");
    assert_eq!(nat_to_text(u64::MAX), "18446744073709551615");
}

#[test]
fn integers_in_digits() {
    assert_eq!(int_to_text(0), "0");
    assert_eq!(int_to_text(-1), "-1");
    assert_eq!(int_to_text(-60000), "-60000");
    assert_eq!(int_to_text(i64::MAX), "9223372036854775807");
    assert_eq!(int_to_text(i64::MIN), "-9223372036854775808");
}
