use updater::json::{array_member, element, items_of, member, str_member, u64_member, JsonMember, JsonValue};
use updater::text::{
    chars_of, decimal_string, remove_occurrences, starts_with, string_of_chars, trim, trim_end_matches_char,
};

fn s(t: &str) -> JsonValue {
    JsonValue::Str(t.to_string())
}

fn obj(members: Vec<(&str, JsonValue)>) -> JsonValue {
    JsonValue::Object(
        members
            .into_iter()
            .map(|(k, v)| JsonMember { key: k.to_string(), value: v })
            .collect(),
    )
}

#[test]
fn decimal_of_zero_and_large_numbers() {
    assert_eq!(decimal_string(0), "0");
    assert_eq!(decimal_string(7), "7");
    assert_eq!(decimal_string(10), "10");
    assert_eq!(decimal_string(1234567890), "1234567890");
    assert_eq!(decimal_string(u64::MAX), u64::MAX.to_string());
}

#[test]
fn decimal_reads_back_as_its_number() {
    for n in [0u64, 9, 10, 99, 100, 4096, 18446744073709551615] {
        assert_eq!(decimal_string(n).parse::<u64>().unwrap(), n);
    }
}

#[test]
fn trim_removes_unicode_whitespace_at_both_ends() {
    assert_eq!(trim("  ab c \t\n"), "ab c");
    assert_eq!(trim("\u{3000}x\u{00A0}"), "x");
    assert_eq!(trim("   "), "");
    assert_eq!(trim(""), "");
}

#[test]
fn trim_end_matches_removes_only_trailing_dashes() {
    assert_eq!(trim_end_matches_char("-a-b--", '-'), "-a-b");
    assert_eq!(trim_end_matches_char("---", '-'), "");
    assert_eq!(trim_end_matches_char("abc", '-'), "abc");
}

#[test]
fn remove_occurrences_left_to_right_without_overlap() {
    assert_eq!(remove_occurrences("xCUSA1yCUSA1", "CUSA1"), "xy");
    assert_eq!(remove_occurrences("aaa", "aa"), "a");
    assert_eq!(remove_occurrences("abc", ""), "abc");
    assert_eq!(remove_occurrences("abc", "abcd"), "abc");
}

#[test]
fn starts_with_compares_prefixes() {
    assert!(starts_with("CUSA00001", "CUSA"));
    assert!(!starts_with("CUS", "CUSA"));
    assert!(starts_with("x", ""));
    assert!(!starts_with("PLJX1", "PLJS"));
}

#[test]
fn chars_round_trip() {
    let v = chars_of("héllo");
    assert_eq!(v, vec!['h', 'é', 'l', 'l', 'o']);
    assert_eq!(string_of_chars(&v), "héllo");
}

#[test]
fn member_takes_the_first_with_the_key() {
    let v = obj(vec![("a", JsonValue::PosInt(1)), ("b", s("x")), ("a", JsonValue::PosInt(2))]);
    assert_eq!(u64_member(&v, "a"), Some(1));
    assert_eq!(str_member(&v, "b").map(|t| t.as_str()), Some("x"));
    assert!(member(&v, "c").is_none());
    assert!(member(&JsonValue::Array(vec![]), "a").is_none());
}

#[test]
fn numbers_that_are_not_unsigned_integers_read_as_nothing() {
    let v = obj(vec![("n", JsonValue::NegInt(-3)), ("f", JsonValue::Float), ("t", s("5"))]);
    assert_eq!(u64_member(&v, "n"), None);
    assert_eq!(u64_member(&v, "f"), None);
    assert_eq!(u64_member(&v, "t"), None);
}

#[test]
fn arrays_are_indexed_and_listed() {
    let v = JsonValue::Array(vec![JsonValue::Null, JsonValue::Bool(true)]);
    assert!(matches!(element(&v, 1), Some(JsonValue::Bool(true))));
    assert!(element(&v, 2).is_none());
    assert_eq!(items_of(&v).map(|i| i.len()), Some(2));
    assert!(items_of(&JsonValue::Null).is_none());
    let o = obj(vec![("list", v)]);
    assert_eq!(array_member(&o, "list").map(|i| i.len()), Some(2));
    assert!(array_member(&o, "other").is_none());
}

#[test]
fn trim_agrees_with_std_whitespace_for_every_char() {
    for n in 0u32..=0x10FFFF {
        if let Some(c) = char::from_u32(n) {
            let t: String = c.to_string();
            assert_eq!(trim(&t).is_empty(), c.is_whitespace(), "{:#x}", n);
        }
    }
}

#[test]
fn is_whitespace_agrees_with_std() {
    for n in 0u32..=0x10FFFF {
        if let Some(c) = char::from_u32(n) {
            assert_eq!(updater::text::is_whitespace(c), c.is_whitespace(), "{:#x}", n);
        }
    }
}
