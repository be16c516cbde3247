use mempool_monitor::double::Double;
use mempool_monitor::text;

fn double(x: f64) -> Double {
    Double { bits: x.to_bits() }
}

#[test]
fn trim_drops_white_space_at_both_ends() {
    assert_eq!(text::trim("  a b \n"), "a b");
    assert_eq!(text::trim("\u{3000}x\u{2003}\t"), "x");
    assert_eq!(text::trim(" \r\n "), "");
    assert_eq!(text::trim(""), "");
    assert_eq!(text::trim("\u{200b}x"), "\u{200b}x");
}

#[test]
fn trim_agrees_with_the_standard_library() {
    for code in 0..0x3100u32 {
        if let Some(c) = char::from_u32(code) {
            assert_eq!(text::is_white_space(c), c.is_whitespace(), "{:x}", code);
        }
    }
}

#[test]
fn trimming_twice_changes_nothing() {
    let once = text::trim("  a  ");
    assert_eq!(text::trim(&once), once);
}

#[test]
fn parse_u64_reads_numbers() {
    assert_eq!(text::parse_u64("0"), Some(0));
    assert_eq!(text::parse_u64("880421"), Some(880421));
    assert_eq!(text::parse_u64("+7"), Some(7));
    assert_eq!(text::parse_u64("007"), Some(7));
    assert_eq!(text::parse_u64("18446744073709551615"), Some(u64::MAX));
    assert_eq!(text::parse_u64("18446744073709551616"), None);
    assert_eq!(text::parse_u64("99999999999999999999999"), None);
    assert_eq!(text::parse_u64(""), None);
    assert_eq!(text::parse_u64("+"), None);
    assert_eq!(text::parse_u64("-1"), None);
    assert_eq!(text::parse_u64("1 "), None);
    assert_eq!(text::parse_u64("++1"), None);
}

#[test]
fn decimal_numbers_read_back() {
    for n in [0u64, 9, 10, 480, 1000000, u64::MAX] {
        let mut out = String::new();
        text::push_decimal(&mut out, n);
        assert_eq!(out, n.to_string());
        assert_eq!(text::parse_u64(&out), Some(n));
    }
}

#[test]
fn ascii_case_is_ignored() {
    assert!(text::equals_ignoring_ascii_case("TrUe", "true"));
    assert!(!text::equals_ignoring_ascii_case("tru", "true"));
    assert!(!text::equals_ignoring_ascii_case("true ", "true"));
    assert!(!text::equals_ignoring_ascii_case("É", "é"));
    assert!(!text::equals_ignoring_ascii_case("@", "`"));
}

#[test]
fn cut_str_counts_bytes() {
    assert_eq!(text::cut_str("abcdefghij", 8), "abcdefgh");
    assert_eq!(text::cut_str("é23456789", 2), "é");
    assert_eq!(text::cut_str("abc", 0), "");
}

#[test]
fn doubles_compare_as_numbers() {
    let samples = [
        0.0,
        -0.0,
        1.0,
        -1.0,
        1.5,
        2.0,
        1e-310,
        -1e-310,
        f64::MIN_POSITIVE,
        f64::MAX,
        f64::MIN,
        f64::INFINITY,
        f64::NEG_INFINITY,
        f64::NAN,
        -f64::NAN,
        5e-324,
    ];
    for a in samples {
        assert_eq!(double(a).is_positive(), a > 0.0, "{}", a);
        for b in samples {
            assert_eq!(double(a).ge(double(b)), a >= b, "{} {}", a, b);
        }
    }
    assert_eq!(Double::zero(), double(0.0));
}
