use localstore::number::is_number;
use localstore::Value;

fn text(s: &str) -> Value {
    Value::String(s.to_string())
}

fn number(s: &str) -> Value {
    Value::Number(s.to_string())
}

fn json(s: &str) -> Value {
    Value::Json(s.to_string())
}

#[test]
fn number_literals() {
    for literal in [
        "0", "-0", "7", "42", "-42", "1234567890", "0.5", "-0.5", "3.14159", "10.0", "1e5", "1E5",
        "1e+5", "1e-5", "-1.5e3", "0e0", "0.0e-0", "1.5E+300", "12345678901234567890123",
    ] {
        assert!(is_number(literal), "{:?} is a number literal", literal);
    }
}

#[test]
fn texts_that_are_no_number_literals() {
    for text in [
        "", "-", "+1", "01", "-01", "00", "1.", ".5", "-.5", "1.e5", "1e", "1e+", "1e-", "e5",
        "1e5.0", "1 ", " 1", "1,0", "0x10", "1_000", "NaN", "Infinity", "-Infinity", "1f", "--1",
        "1-", "1.2.3", "1e5e5", "x", "true", "null", "[1]", "\"1\"", "١٢٣", "1\n", "４２",
    ] {
        assert!(!is_number(text), "{:?} is no number literal", text);
    }
}

#[test]
fn number_literals_are_what_the_json_parser_takes_for_numbers() {
    let pieces = ["", "-", "0", "1", "9", "10", ".", ".5", "e", "E", "+", "e1", "e-2", "00"];
    for a in pieces {
        for b in pieces {
            for c in pieces {
                let text = format!("{}{}{}", a, b, c);
                let parsed = serde_json::from_str::<serde_json::Value>(&text);
                let taken = matches!(parsed, Ok(serde_json::Value::Number(_)));
                assert_eq!(is_number(&text), taken, "{:?}", text);
            }
        }
    }
}

#[test]
fn well_formed_values() {
    assert!(Value::Null.is_well_formed());
    assert!(text("").is_well_formed());
    assert!(text("42").is_well_formed());
    assert!(text("anything").is_well_formed());
    assert!(number("42").is_well_formed());
    assert!(number("-1.5e3").is_well_formed());
    assert!(json("true").is_well_formed());
    assert!(json("[1,2]").is_well_formed());
    assert!(json("{\"a\":1}").is_well_formed());
}

#[test]
fn values_that_are_not_well_formed() {
    assert!(!number("").is_well_formed());
    assert!(!number("abc").is_well_formed());
    assert!(!number("1.").is_well_formed());
    assert!(!json("").is_well_formed());
    assert!(!json("42").is_well_formed());
}

#[test]
fn null_is_stored_as_empty_text() {
    assert_eq!(Value::Null.stored_text(), "");
}

#[test]
fn string_is_stored_as_its_own_text() {
    assert_eq!(text("life long").stored_text(), "life long");
    assert_eq!(text("").stored_text(), "");
}

#[test]
fn number_is_stored_as_its_literal() {
    assert_eq!(number("42").stored_text(), "42");
    assert_eq!(number("-1.5e3").stored_text(), "-1.5e3");
}

#[test]
fn other_shapes_are_stored_as_their_json_text() {
    assert_eq!(json("[\"hola\",\"test\"]").stored_text(), "[\"hola\",\"test\"]");
    assert_eq!(json("true").stored_text(), "true");
    assert_eq!(json("{\"a\":1}").stored_text(), "{\"a\":1}");
}

#[test]
fn stored_text_is_read_back_by_its_looks() {
    assert_eq!(Value::from_stored_text(String::new()), Value::Null);
    assert_eq!(Value::from_stored_text("42".to_string()), number("42"));
    assert_eq!(Value::from_stored_text("-0.5e+7".to_string()), number("-0.5e+7"));
    assert_eq!(Value::from_stored_text("x".to_string()), text("x"));
    assert_eq!(Value::from_stored_text("42 ".to_string()), text("42 "));
    assert_eq!(Value::from_stored_text("true".to_string()), text("true"));
    assert_eq!(Value::from_stored_text("{\"a\":1}".to_string()), text("{\"a\":1}"));
}

#[test]
fn null_numbers_and_plain_strings_round_trip() {
    for value in [Value::Null, number("0"), number("42"), number("-1.5e3"), text("x"), text(" ")] {
        assert_eq!(Value::from_stored_text(value.stored_text()), value);
    }
}

#[test]
fn strings_that_look_like_another_shape_and_other_shapes_do_not_round_trip() {
    assert_eq!(Value::from_stored_text(text("").stored_text()), Value::Null);
    assert_eq!(Value::from_stored_text(text("42").stored_text()), number("42"));
    assert_eq!(Value::from_stored_text(json("[1]").stored_text()), text("[1]"));
    assert_eq!(Value::from_stored_text(json("true").stored_text()), text("true"));
}

#[test]
fn duplicate_equals_the_value() {
    for value in [Value::Null, text("a"), number("7"), json("false")] {
        assert_eq!(value.duplicate(), value);
    }
}
