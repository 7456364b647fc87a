use trader_client::config::{read_default_config_file, write_default_config_file, ConfigData};

fn round_trip(token: &str) {
    let data = ConfigData {
        token: String::from(token),
    };
    let text = write_default_config_file(&data);
    let back = read_default_config_file(Some(text.as_str()));
    assert!(back.is_some());
    assert_eq!(back.unwrap().token, token);
}

#[test]
fn verify_read_config_file() {
    // The text a serde-based writer produces for the same shape.
    let expected_config_data = ConfigData {
        token: String::from("TEST_READ_TOKEN"),
    };
    let mut obj = serde_json::Map::new();
    obj.insert(
        String::from("token"),
        serde_json::Value::String(expected_config_data.token.clone()),
    );
    let file_text = serde_json::to_string_pretty(&serde_json::Value::Object(obj)).unwrap();

    let actual_config_data = read_default_config_file(Some(file_text.as_str()));

    assert!(actual_config_data.is_some());
    assert_eq!(actual_config_data.unwrap(), expected_config_data);
}

#[test]
fn verify_write_config_file() {
    let test_config_data = ConfigData {
        token: String::from("TEST_WRITE_TOKEN"),
    };

    let written = write_default_config_file(&test_config_data);

    // A serde-based reader accepts the written file and sees the token.
    let final_cfg: Option<serde_json::Value> = serde_json::from_str(&written).ok();
    assert!(final_cfg.is_some());
    let value = final_cfg.unwrap();
    assert_eq!(
        value.get("token").and_then(|v| v.as_str()),
        Some("TEST_WRITE_TOKEN")
    );
}

#[test]
fn round_trip_plain_token() {
    round_trip("abc123TOKEN");
}

#[test]
fn round_trip_empty_token() {
    round_trip("");
}

#[test]
fn round_trip_whitespace_token() {
    round_trip("  a token\twith\nwhitespace  ");
}

#[test]
fn round_trip_unicode_token() {
    round_trip("žluťoučký kůň 🚀 トークン");
}

#[test]
fn round_trip_quotes_and_backslashes() {
    round_trip("he said \"hi\\there\" \\\\ \"");
}

#[test]
fn round_trip_control_characters() {
    round_trip("\u{1}\u{2}\u{8}\u{c}\u{1f}end");
}

#[test]
fn reading_twice_gives_identical_results() {
    let text = write_default_config_file(&ConfigData {
        token: String::from("STABLE"),
    });
    let first = read_default_config_file(Some(text.as_str()));
    let second = read_default_config_file(Some(text.as_str()));
    assert_eq!(first, second);
    assert_eq!(first.unwrap().token, "STABLE");
}

#[test]
fn missing_file_reads_as_no_data() {
    assert!(read_default_config_file(None).is_none());
}

#[test]
fn invalid_json_reads_as_no_data() {
    assert!(read_default_config_file(Some("{oops")).is_none());
    assert!(read_default_config_file(Some("")).is_none());
    assert!(read_default_config_file(Some("not json at all")).is_none());
}

#[test]
fn missing_token_field_reads_as_no_data() {
    assert!(read_default_config_file(Some("{\"other\": \"x\"}")).is_none());
    assert!(read_default_config_file(Some("{}")).is_none());
}

#[test]
fn wrong_token_type_reads_as_no_data() {
    assert!(read_default_config_file(Some("{\"token\": 5}")).is_none());
    assert!(read_default_config_file(Some("{\"token\": null}")).is_none());
}

#[test]
fn whitespace_variations_are_accepted() {
    let compact = "{\"token\":\"T\"}";
    let spread = "  {\n\t\"token\"  :\n  \"T\"\n}  ";
    assert_eq!(
        read_default_config_file(Some(compact)).unwrap().token,
        "T"
    );
    assert_eq!(read_default_config_file(Some(spread)).unwrap().token, "T");
}
