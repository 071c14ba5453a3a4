use kos::text::{chars_of, contains_chars, decimal, str_contains};

#[test]
fn decimal_renders_without_padding() {
    assert_eq!(decimal(0), "0");
    assert_eq!(decimal(7), "7");
    assert_eq!(decimal(10), "10");
    assert_eq!(decimal(999), "999");
    assert_eq!(decimal(4294967295), "4294967295");
    assert_eq!(decimal(u64::MAX), "18446744073709551615");
}

#[test]
fn decimal_agrees_with_the_standard_rendering() {
    for n in [1u64, 9, 11, 100, 101, 12345, 1 << 40, u64::MAX - 1] {
        assert_eq!(decimal(n), n.to_string());
    }
}

#[test]
fn contains_finds_a_needle_anywhere() {
    assert!(str_contains("abcdef", "abc"));
    assert!(str_contains("abcdef", "cde"));
    assert!(str_contains("abcdef", "def"));
    assert!(str_contains("abcdef", "abcdef"));
    assert!(!str_contains("abcdef", "abd"));
    assert!(!str_contains("abc", "abcd"));
}

#[test]
fn the_empty_needle_is_everywhere() {
    assert!(str_contains("abc", ""));
    assert!(str_contains("", ""));
    assert!(!str_contains("", "a"));
}

#[test]
fn contains_counts_characters_not_bytes() {
    assert!(str_contains("grüße/imu/values", "/imu/values"));
    assert!(str_contains("日本語", "本"));
    assert!(!str_contains("日本語", "本日"));
    assert_eq!(chars_of("grüße").len(), 5);
}

#[test]
fn contains_agrees_with_the_standard_search() {
    let hays = ["", "a", "aa", "aab", "abab", "robots/x/imu/values"];
    let needles = ["", "a", "ab", "b", "ba", "/imu", "values", "valuez"];
    for h in hays {
        for n in needles {
            assert_eq!(str_contains(h, n), h.contains(n), "{h:?} {n:?}");
            assert_eq!(contains_chars(&chars_of(h), &chars_of(n)), h.contains(n));
        }
    }
}
