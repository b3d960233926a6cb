use idgen::i64_dec_string;
use idgen::u64_dec_string;

#[test]
fn unsigned_decimal_exact_values() {
    assert_eq!("0", u64_dec_string(0));
    assert_eq!("7", u64_dec_string(7));
    assert_eq!("10", u64_dec_string(10));
    assert_eq!("1234567890", u64_dec_string(1234567890));
    assert_eq!("18446744073709551615", u64_dec_string(u64::MAX));
}

#[test]
fn signed_decimal_exact_values() {
    assert_eq!("0", i64_dec_string(0));
    assert_eq!("42", i64_dec_string(42));
    assert_eq!("-42", i64_dec_string(-42));
    assert_eq!("9223372036854775807", i64_dec_string(i64::MAX));
    assert_eq!("-9223372036854775808", i64_dec_string(i64::MIN));
}

#[test]
fn decimal_matches_display_rendering() {
    let samples: Vec<u64> = vec![1, 9, 99, 100, 4096, 1420070400000];
    for v in &samples {
        assert_eq!(format!("{}", v), u64_dec_string(*v));
    }
    let signed: Vec<i64> = vec![-1, -10, -4096, 1, 0];
    for v in &signed {
        assert_eq!(format!("{}", v), i64_dec_string(*v));
    }
}
