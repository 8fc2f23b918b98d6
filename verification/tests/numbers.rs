use weapon_catalog::number::{parse_i32, parse_i64};

#[test]
fn parse_i64_reads_plain_numbers() {
    assert_eq!(parse_i64("0"), Some(0));
    assert_eq!(parse_i64("7"), Some(7));
    assert_eq!(parse_i64("42"), Some(42));
    assert_eq!(parse_i64("30758"), Some(30758));
    assert_eq!(parse_i64("007"), Some(7));
}

#[test]
fn parse_i64_reads_signs() {
    assert_eq!(parse_i64("-1"), Some(-1));
    assert_eq!(parse_i64("+1"), Some(1));
    assert_eq!(parse_i64("-0"), Some(0));
    assert_eq!(parse_i64("+0"), Some(0));
}

#[test]
fn parse_i64_reads_the_bounds() {
    assert_eq!(parse_i64("9223372036854775807"), Some(i64::MAX));
    assert_eq!(parse_i64("-9223372036854775808"), Some(i64::MIN));
    assert_eq!(parse_i64("9223372036854775808"), None);
    assert_eq!(parse_i64("-9223372036854775809"), None);
    assert_eq!(parse_i64("99999999999999999999999999"), None);
    assert_eq!(parse_i64("000000000000000000000000001"), Some(1));
}

#[test]
fn parse_i64_refuses_what_is_no_number() {
    for text in ["", "-", "+", "+-1", "--1", " 1", "1 ", "1.0", "1e3", "0x10", "1_000", "a", "١٢٣", "12a", "a12"] {
        assert_eq!(parse_i64(text), None, "{:?}", text);
    }
}

#[test]
fn parse_i32_reads_the_bounds() {
    assert_eq!(parse_i32("2147483647"), Some(i32::MAX));
    assert_eq!(parse_i32("-2147483648"), Some(i32::MIN));
    assert_eq!(parse_i32("2147483648"), None);
    assert_eq!(parse_i32("-2147483649"), None);
    assert_eq!(parse_i32("9223372036854775807"), None);
}

#[test]
fn parsing_agrees_with_the_standard_library() {
    let texts = [
        "", "0", "-0", "+0", "1", "-1", "+1", "12", "190", "199", "30758", "-30758", "2147483647",
        "2147483648", "-2147483648", "-2147483649", "4294967296", "9223372036854775807",
        "9223372036854775808", "-9223372036854775808", "-9223372036854775809", "00012", "-00012",
        "+", "-", "++1", "+-1", "1+", "1-", " 12", "12 ", "1 2", "1,2", "1.2", "one", "١٢", "１２",
        "12\n", "\t12", "0x1f", "1e2", "18446744073709551616",
    ];
    for text in texts {
        assert_eq!(parse_i64(text), text.parse::<i64>().ok(), "{:?}", text);
        assert_eq!(parse_i32(text), text.parse::<i32>().ok(), "{:?}", text);
    }
}
