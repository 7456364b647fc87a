use trader_client::json::{parse_json, JsonValue};

fn parse(s: &str) -> Option<JsonValue> {
    parse_json(s)
}

#[test]
fn parses_literals() {
    assert!(matches!(parse("null"), Some(JsonValue::Null)));
    assert!(matches!(parse("true"), Some(JsonValue::Bool(true))));
    assert!(matches!(parse("false"), Some(JsonValue::Bool(false))));
    assert!(matches!(parse("  null  "), Some(JsonValue::Null)));
}

#[test]
fn parses_integers() {
    assert!(matches!(parse("0"), Some(JsonValue::Int(0))));
    assert!(matches!(parse("-5"), Some(JsonValue::Int(-5))));
    assert!(matches!(
        parse("9223372036854775807"),
        Some(JsonValue::Int(9223372036854775807))
    ));
    assert!(matches!(
        parse("-9223372036854775808"),
        Some(JsonValue::Int(-9223372036854775808))
    ));
}

#[test]
fn rejects_numbers_no_i64_holds() {
    assert!(parse("9223372036854775808").is_none());
    assert!(parse("-9223372036854775809").is_none());
    assert!(parse("123456789012345678901234567890").is_none());
}

#[test]
fn rejects_fractions_exponents_and_leading_zeros() {
    assert!(parse("1.5").is_none());
    assert!(parse("1e3").is_none());
    assert!(parse("01").is_none());
    assert!(parse("-").is_none());
}

#[test]
fn parses_strings_with_escapes() {
    match parse("\"a\\n\\t\\\"\\\\b\\u0041\\u00e9\"") {
        Some(JsonValue::Str(s)) => assert_eq!(s, "a\n\t\"\\bAé"),
        _ => panic!("expected a string"),
    }
}

#[test]
fn rejects_bad_strings() {
    assert!(parse("\"unterminated").is_none());
    assert!(parse("\"bad \\x escape\"").is_none());
    assert!(parse("\"lone surrogate \\ud800\"").is_none());
    assert!(parse("\"raw control \u{1} char\"").is_none());
}

#[test]
fn parses_nested_structures() {
    let v = parse("{\"a\": [1, {\"b\": [true, null]}], \"c\": \"x\"}").unwrap();
    match v {
        JsonValue::Obj(members) => {
            assert_eq!(members.len(), 2);
            assert_eq!(members[0].0, "a");
            assert_eq!(members[1].0, "c");
            match &members[0].1 {
                JsonValue::Arr(items) => assert_eq!(items.len(), 2),
                _ => panic!("expected an array"),
            }
        }
        _ => panic!("expected an object"),
    }
}

#[test]
fn parses_empty_containers() {
    assert!(matches!(parse("[]"), Some(JsonValue::Arr(v)) if v.is_empty()));
    assert!(matches!(parse("{}"), Some(JsonValue::Obj(v)) if v.is_empty()));
    assert!(matches!(parse("[ ]"), Some(JsonValue::Arr(v)) if v.is_empty()));
}

#[test]
fn rejects_malformed_documents() {
    assert!(parse("").is_none());
    assert!(parse("{").is_none());
    assert!(parse("[1,]").is_none());
    assert!(parse("{\"a\":}").is_none());
    assert!(parse("{\"a\" 1}").is_none());
    assert!(parse("[1 2]").is_none());
    assert!(parse("1 2").is_none());
    assert!(parse("{} extra").is_none());
}

#[test]
fn agrees_with_a_serde_reader_on_written_escapes() {
    // The config writer's escaping is exactly what a serde-based
    // reader expects.
    let tricky = "line1\nline2\t\"quoted\" \\ \u{8}\u{c}\u{1f} é";
    let text = trader_client::config::write_default_config_file(
        &trader_client::config::ConfigData {
            token: String::from(tricky),
        },
    );
    let v: serde_json::Value = serde_json::from_str(&text).unwrap();
    assert_eq!(v.get("token").and_then(|t| t.as_str()), Some(tricky));
}
