use weather_report::text::{chars_of, decimal, occurs_from, percent_encode, same_text, starts_with, string_of, unreserved};

#[test]
fn decimal_notation() {
    assert_eq!(decimal(0), "0");
    assert_eq!(decimal(5), "5");
    assert_eq!(decimal(9), "9");
    assert_eq!(decimal(10), "10");
    assert_eq!(decimal(422), "422");
    assert_eq!(decimal(1_000_000), "1000000");
    assert_eq!(decimal(u64::MAX), "18446744073709551615");
}

#[test]
fn unreserved_bytes_stand_for_themselves() {
    let unreserved_bytes = "ABCDEFGHIJKLMNOPQRSTUVWXYZabcdefghijklmnopqrstuvwxyz0123456789-._~";
    assert_eq!(percent_encode(unreserved_bytes), unreserved_bytes);
    for byte in 0..=255u8 {
        assert_eq!(unreserved(byte), unreserved_bytes.as_bytes().contains(&byte), "{}", byte);
    }
}

#[test]
fn every_other_byte_is_escaped() {
    assert_eq!(percent_encode(""), "");
    assert_eq!(percent_encode(" "), "%20");
    assert_eq!(percent_encode("foo bar?"), "foo%20bar%3F");
    assert_eq!(percent_encode("a&b=c"), "a%26b%3Dc");
    assert_eq!(percent_encode("100%"), "100%25");
    assert_eq!(percent_encode("/@:;,+!*'()$[]"), "%2F%40%3A%3B%2C%2B%21%2A%27%28%29%24%5B%5D");
    assert_eq!(percent_encode("\u{0}\n\u{7f}"), "%00%0A%7F");
    assert_eq!(percent_encode("Москва"), "%D0%9C%D0%BE%D1%81%D0%BA%D0%B2%D0%B0");
    assert_eq!(percent_encode("東京"), "%E6%9D%B1%E4%BA%AC");
    assert_eq!(percent_encode("🌦"), "%F0%9F%8C%A6");
}

#[test]
fn texts_and_their_characters() {
    assert_eq!(chars_of(""), vec![]);
    assert_eq!(chars_of("aж🌦"), vec!['a', 'ж', '🌦']);
    let chars = chars_of("forecast");
    assert_eq!(string_of(&chars, 0, 8), "forecast");
    assert_eq!(string_of(&chars, 4, 8), "cast");
    assert_eq!(string_of(&chars, 3, 3), "");
}

#[test]
fn comparing_texts() {
    assert!(same_text("", ""));
    assert!(same_text("GET", "GET"));
    assert!(!same_text("GET", "GE"));
    assert!(!same_text("GE", "GET"));
    assert!(!same_text("GET", "get"));
    assert!(starts_with(&chars_of("/forecasts/x"), &chars_of("/forecasts/")));
    assert!(starts_with(&chars_of("abc"), &chars_of("")));
    assert!(starts_with(&chars_of("abc"), &chars_of("abc")));
    assert!(!starts_with(&chars_of("ab"), &chars_of("abc")));
    assert!(!starts_with(&chars_of("abd"), &chars_of("abc")));
    assert!(occurs_from(&chars_of("a/b"), 0, '/'));
    assert!(occurs_from(&chars_of("a/b"), 1, '/'));
    assert!(!occurs_from(&chars_of("a/b"), 2, '/'));
    assert!(!occurs_from(&chars_of("a/b"), 3, '/'));
}
