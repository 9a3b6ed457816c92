use tgcli::text::{append_decimal, append_signed, contains_text, signed_text, text_order, TextOrder};

#[test]
fn writes_decimals() {
    for n in [0, 7, 10, 42, 200, 10_800, u64::MAX] {
        let mut text = "n=".to_string();
        append_decimal(&mut text, n);
        assert_eq!(text, format!("n={n}"));
    }
    for n in [0, 7, -7, 42, -1_000_000_000_001, i64::MAX, i64::MIN] {
        assert_eq!(signed_text(n), n.to_string());
        let mut text = String::new();
        append_signed(&mut text, n);
        assert_eq!(text, n.to_string());
    }
}

#[test]
fn finds_texts_as_the_standard_library_does() {
    for (haystack, needle) in [
        ("", ""),
        ("Dropped", "Dropped"),
        ("request error: Dropped (cancelled)", "Dropped"),
        ("request error: dropped", "Dropped"),
        ("Dropp", "Dropped"),
        ("aaab", "aab"),
        ("päivää", "ivää"),
        ("x", ""),
    ] {
        assert_eq!(contains_text(haystack, needle), haystack.contains(needle));
    }
}

#[test]
fn orders_texts_as_the_standard_library_does() {
    let words = ["", "-1", "-10", "1", "10", "100", "2", "9", "a", "ä"];
    for a in words {
        for b in words {
            let expected = if a < b {
                TextOrder::Before
            } else if a == b {
                TextOrder::Same
            } else {
                TextOrder::After
            };
            assert_eq!(text_order(a, b), expected);
        }
    }
}
