use speech::text::{concat_str, str_equal, text_order, usize_decimal, TextOrder};

#[test]
fn decimal_rendering() {
    assert_eq!(usize_decimal(0), "0");
    assert_eq!(usize_decimal(7), "7");
    assert_eq!(usize_decimal(10), "10");
    assert_eq!(usize_decimal(123), "123");
    assert_eq!(usize_decimal(1000000), "1000000");
    assert_eq!(usize_decimal(usize::MAX), usize::MAX.to_string());
}

#[test]
fn concatenation_and_equality() {
    assert_eq!(concat_str("ab", "cd"), "abcd");
    assert_eq!(concat_str("", ""), "");
    assert!(str_equal("x", "x"));
    assert!(!str_equal("x", "X"));
    assert!(str_equal("", ""));
}

#[test]
fn text_order_matches_rust_string_order() {
    let words = ["", "a", "ab", "b", "B", "\u{e9}", "z", "\u{10000}", "\u{fffd}", "aa"];
    for a in words {
        for b in words {
            let expected = if a < b {
                TextOrder::Before
            } else if a == b {
                TextOrder::Same
            } else {
                TextOrder::After
            };
            assert_eq!(text_order(a, b), expected, "{a:?} vs {b:?}");
        }
    }
}
