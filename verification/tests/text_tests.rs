use smmo_api::text::{digit_text, push_decimal, push_signed_decimal};

fn decimal(n: u64) -> String {
    let mut out = String::new();
    push_decimal(&mut out, n);
    out
}

fn signed(n: i64) -> String {
    let mut out = String::new();
    push_signed_decimal(&mut out, n);
    out
}

#[test]
fn digits_are_single_characters() {
    for d in 0..10u64 {
        assert_eq!(digit_text(d), format!("{}", d));
    }
}

#[test]
fn decimal_of_unsigned_numbers() {
    assert_eq!(decimal(0), "0");
    assert_eq!(decimal(7), "7");
    assert_eq!(decimal(10), "10");
    assert_eq!(decimal(100), "100");
    assert_eq!(decimal(1_002_003), "1002003");
    assert_eq!(decimal(u64::MAX), "18446744073709551615");
    for n in [9u64, 11, 99, 101, 999, 1000, 4_294_967_295, 4_294_967_296] {
        assert_eq!(decimal(n), format!("{}", n));
    }
}

#[test]
fn decimal_of_signed_numbers() {
    assert_eq!(signed(0), "0");
    assert_eq!(signed(72), "72");
    assert_eq!(signed(-24), "-24");
    assert_eq!(signed(-1), "-1");
    assert_eq!(signed(i64::MAX), "9223372036854775807");
    assert_eq!(signed(i64::MIN), "-9223372036854775808");
}

#[test]
fn decimal_is_appended_to_what_is_there() {
    let mut out = String::from("n = ");
    push_decimal(&mut out, 305);
    out.push_str(", m = ");
    push_signed_decimal(&mut out, -40);
    assert_eq!(out, "n = 305, m = -40");
}
