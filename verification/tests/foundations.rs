//! Digests, frames, numerals, instants and JSON.

use kobe::digest::sha256_hex_of;
use kobe::frame::{push_be64, push_bytes, push_text_frame};
use kobe::json::{same_opt, same_opt_list, same_opt_ref, Json, JsonNumber};
use kobe::number::{
    decimal_text, hex_digits_text, parse_signed, parse_unsigned, signed_decimal_text,
};
use kobe::text::same_pairs;
use kobe::time::is_strictly_after;
use std::collections::BTreeMap;

#[test]
fn digests_are_lower_case_hexadecimal() {
    assert_eq!(
        sha256_hex_of(b"abc"),
        "ba7816bf8f01cfea414140de5dae2223b00361a396177a9cb410ff61f20015ad"
    );
    assert_eq!(
        sha256_hex_of(b""),
        "e3b0c44298fc1c149afbf4c8996fb92427ae41e4649b934ca495991b7852b855"
    );
}

#[test]
fn frames_carry_their_length() {
    let mut out: Vec<u8> = vec![];
    push_be64(&mut out, 0x0102_0304_0506_0708);
    assert_eq!(out, [1, 2, 3, 4, 5, 6, 7, 8]);
    let mut out: Vec<u8> = vec![9];
    push_bytes(&mut out, &[1, 2]);
    assert_eq!(out, [9, 1, 2]);
    let mut out: Vec<u8> = vec![];
    push_text_frame(&mut out, "\u{e9}a");
    assert_eq!(out, [0, 0, 0, 0, 0, 0, 0, 3, 0xc3, 0xa9, b'a']);
}

#[test]
fn numerals_are_read_and_written() {
    assert_eq!(decimal_text(0), "0");
    assert_eq!(decimal_text(u64::MAX), "18446744073709551615");
    assert_eq!(signed_decimal_text(i64::MIN), "-9223372036854775808");
    assert_eq!(parse_signed("-9223372036854775808"), Some(i64::MIN));
    assert_eq!(parse_signed("9223372036854775808"), None);
    assert_eq!(parse_signed("-9223372036854775809"), None);
    assert_eq!(parse_signed("+07"), Some(7));
    assert_eq!(parse_signed("-0"), Some(0));
    for text in ["", "+", "-", "+-1", " 1", "1 ", "1.0", "\u{0661}"] {
        assert_eq!(parse_signed(text), None, "{text:?}");
    }
    assert_eq!(parse_unsigned("255", 255), Some(255));
    assert_eq!(parse_unsigned("256", 255), None);
    assert_eq!(parse_unsigned("-1", 255), None);
    for value in [0, 7, -1, i64::MAX, i64::MIN] {
        assert_eq!(parse_signed(&signed_decimal_text(value)), Some(value));
    }
    assert_eq!(hex_digits_text(0xbeef, 8), "0000beef");
    assert_eq!(hex_digits_text(0xbeef, 2), "ef");
    assert_eq!(hex_digits_text(1, 0), "");
}

#[test]
fn only_known_instants_are_ordered() {
    assert!(is_strictly_after(Some((2, 0)), Some((1, 9))));
    assert!(is_strictly_after(Some((1, 2)), Some((1, 1))));
    assert!(!is_strictly_after(Some((1, 1)), Some((1, 1))));
    assert!(!is_strictly_after(Some((1, 0)), Some((2, 0))));
    assert!(!is_strictly_after(None, Some((1, 1))));
    assert!(!is_strictly_after(Some((1, 1)), None));
}

fn sample() -> Json {
    Json::object3(
        "array",
        Json::array(vec![Json::Null, Json::Bool(false), Json::integer(-5)]),
        "number",
        Json::Number(JsonNumber::Unsigned(u64::MAX)),
        "text",
        Json::string("a\"\\\n\u{1}\u{e9}/"),
    )
}

#[test]
fn json_is_written_as_serde_json_writes_it() {
    let text = sample().to_text();
    assert_eq!(
        text,
        "{\"array\":[null,false,-5],\"number\":18446744073709551615,\"text\":\"a\\\"\\\\\\n\\u0001\u{e9}/\"}"
    );
    let value: serde_json::Value = serde_json::from_str(&text).unwrap();
    assert_eq!(serde_json::to_string(&value).unwrap(), text);
    assert_eq!(Json::array(vec![]).to_text(), "[]");
    assert_eq!(Json::Object(vec![]).to_text(), "{}");
    assert_eq!(Json::Bool(true).to_text(), "true");
    assert_eq!(
        Json::strings(&["a\"".to_string(), String::new()]).to_text(),
        "[\"a\\\"\",\"\"]"
    );
    assert_eq!(
        Json::object1("a", Json::Null)
            .with_optional("b", &Some("c".to_string()))
            .with_optional("d", &None)
            .to_text(),
        "{\"a\":null,\"b\":\"c\"}"
    );
}

#[test]
fn json_members_are_found_and_compared() {
    let value = sample();
    assert_eq!(value.get("number").unwrap().as_u64(), Some(u64::MAX));
    assert_eq!(value.get("number").unwrap().as_i64(), None);
    assert_eq!(Json::integer(-5).as_i64(), Some(-5));
    assert_eq!(Json::integer(-5).as_u64(), None);
    assert_eq!(Json::integer(5).as_u64(), Some(5));
    assert_eq!(Json::string("x").as_str(), Some("x"));
    assert_eq!(Json::Null.as_str(), None);
    assert!(value.get("missing").is_none());
    assert!(Json::string("x").get("missing").is_none());
    assert!(value.same(&value.duplicate()));
    assert!(!value.same(&Json::Null));
    let wider = Json::object1("a", Json::Null).with_member("b", Json::Bool(true));
    assert!(wider.same(&Json::object2("a", Json::Null, "b", Json::Bool(true))));
    assert!(same_opt(&Some(sample()), &Some(sample())));
    assert!(!same_opt(&Some(sample()), &None));
    assert!(same_opt_ref(Some(&value), Some(&sample())));
    assert!(same_opt_ref(None, None));
    assert!(same_opt_list(&Some(vec![sample()]), &Some(vec![sample()])));
    assert!(!same_opt_list(&Some(vec![sample()]), &Some(vec![])));
    assert!(!same_opt_list(&None, &Some(vec![])));
}

#[test]
fn pruning_keeps_everything_but_empty_objects() {
    assert_eq!(Json::Object(vec![]).prune(), None);
    assert_eq!(
        Json::object1("a", Json::object1("b", Json::Object(vec![]))).prune(),
        None
    );
    assert_eq!(sample().prune(), Some(sample()));
    assert_eq!(
        Json::strings(&["x".to_string()]).prune(),
        Some(Json::array(vec![Json::string("x")]))
    );
}

#[test]
fn json_values_that_differ_have_different_texts() {
    let values = vec![
        Json::Null,
        Json::Bool(true),
        Json::string("null"),
        Json::string("true"),
        Json::integer(1),
        Json::integer(-1),
        Json::integer(10),
        Json::string("1"),
        Json::string("1,10"),
        Json::string("\"]"),
        Json::array(vec![]),
        Json::array(vec![Json::integer(1), Json::integer(10)]),
        Json::array(vec![Json::integer(110)]),
        Json::array(vec![Json::array(vec![Json::integer(1)]), Json::integer(10)]),
        Json::object1("a", Json::string("b\",\"c\":\"d")),
        Json::object2("a", Json::string("b"), "c", Json::string("d")),
        Json::object1("a", Json::object1("c", Json::string("d"))),
    ];
    let texts: Vec<String> = values.iter().map(|value| value.to_text()).collect();
    for i in 0..texts.len() {
        for j in 0..i {
            assert_ne!(texts[i], texts[j]);
        }
    }
}

fn float(text: &str) -> Json {
    Json::Number(JsonNumber::Float(text.into()))
}

#[test]
fn zeros_compare_alike_and_keep_their_texts() {
    let (positive, negative) = (float("0.0"), float("-0.0"));
    assert!(positive.same(&negative));
    assert!(negative.same(&positive));
    assert!(Json::object1("a", negative.duplicate()).same(&Json::object1("a", positive.duplicate())));
    assert!(!positive.same(&float("0.5")));
    assert!(!float("-0.5").same(&float("0.5")));
    assert!(!positive.same(&Json::integer(0)));
    assert_eq!(positive.to_text(), "0.0");
    assert_eq!(negative.to_text(), "-0.0");

    let read: serde_json::Value = serde_json::from_str("[0.0,-0.0]").unwrap();
    assert_eq!(read[0], read[1]);
    assert_eq!(serde_json::to_string(&read).unwrap(), "[0.0,-0.0]");
}

fn pairs(members: &[(&str, &str)]) -> Vec<(String, String)> {
    members
        .iter()
        .map(|(key, value)| (key.to_string(), value.to_string()))
        .collect()
}

fn mapped(members: &[(String, String)]) -> BTreeMap<String, String> {
    members.iter().cloned().collect()
}

#[test]
fn pairs_in_key_order_compare_as_maps() {
    let lists = [
        pairs(&[]),
        pairs(&[("a", "1")]),
        pairs(&[("a", "2")]),
        pairs(&[("a", "1"), ("b", "1")]),
        pairs(&[("a", "1"), ("c", "1")]),
        pairs(&[("B", "1"), ("a", "1"), ("\u{e9}", "1")]),
    ];
    for left in &lists {
        assert!(left.iter().cloned().eq(mapped(left)), "{left:?} is in key order");
        for right in &lists {
            assert_eq!(same_pairs(left, right), mapped(left) == mapped(right));
        }
    }
}
