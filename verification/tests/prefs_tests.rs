use click_to_call::prefs::{decode_settings, encode_settings, settings_from_text};
use click_to_call::settings::Settings;

fn sample() -> Settings {
    Settings {
        domain: "pbx.example.com".to_string(),
        extension: "100".to_string(),
        key: "abc".to_string(),
        auto_answer: true,
    }
}

#[test]
fn saved_settings_load_back_unchanged() {
    let original = sample();
    let text = encode_settings(&original);
    let loaded = decode_settings(&text).expect("a saved record must load");
    assert_eq!(loaded, original);
}

#[test]
fn round_trip_keeps_special_characters() {
    let original = Settings {
        domain: "pbx.example.com".to_string(),
        extension: "a\"b\\c".to_string(),
        key: "tab\there\nnewline".to_string(),
        auto_answer: false,
    };
    let text = encode_settings(&original);
    let loaded = decode_settings(&text).expect("escaped record must load");
    assert_eq!(loaded, original);
}

#[test]
fn round_trip_keeps_empty_fields() {
    let original = Settings::empty();
    let text = encode_settings(&original);
    assert_eq!(
        text,
        "{\"domain\":\"\",\"extension\":\"\",\"key\":\"\",\"auto_answer\":false}"
    );
    let loaded = decode_settings(&text).expect("empty record must load");
    assert_eq!(loaded, original);
}

#[test]
fn encoded_text_is_plain_json() {
    let text = encode_settings(&sample());
    let value: serde_json::Value = serde_json::from_str(&text).expect("valid JSON");
    assert_eq!(value["domain"].as_str(), Some("pbx.example.com"));
    assert_eq!(value["extension"].as_str(), Some("100"));
    assert_eq!(value["key"].as_str(), Some("abc"));
    assert_eq!(value["auto_answer"].as_bool(), Some(true));
}

#[test]
fn escaped_fields_survive_a_json_reader() {
    let original = Settings {
        domain: "quote\"back\\slash".to_string(),
        extension: "ctrl\u{0001}char".to_string(),
        key: "".to_string(),
        auto_answer: false,
    };
    let text = encode_settings(&original);
    let value: serde_json::Value = serde_json::from_str(&text).expect("valid JSON");
    assert_eq!(value["domain"].as_str(), Some("quote\"back\\slash"));
    assert_eq!(value["extension"].as_str(), Some("ctrl\u{0001}char"));
}

#[test]
fn malformed_text_is_rejected() {
    assert_eq!(decode_settings(""), None);
    assert_eq!(decode_settings("{}"), None);
    assert_eq!(decode_settings("{\"domain\":\"x\""), None);
    assert_eq!(
        decode_settings("{\"domain\":\"a\",\"extension\":\"b\",\"key\":\"c\",\"auto_answer\":maybe}"),
        None
    );
    let text = encode_settings(&sample());
    let mut trailing = text.clone();
    trailing.push(' ');
    assert_eq!(decode_settings(&trailing), None);
}

#[test]
fn loading_substitutes_defaults_when_text_is_absent_or_broken() {
    assert_eq!(settings_from_text(None), Settings::empty());
    assert_eq!(settings_from_text(Some("not json at all")), Settings::empty());
    let text = encode_settings(&sample());
    assert_eq!(settings_from_text(Some(&text)), sample());
}

#[test]
fn round_trip_keeps_text_beyond_ascii() {
    let original = Settings {
        domain: "pbx.example.com".to_string(),
        extension: "büro-日本".to_string(),
        key: "clé".to_string(),
        auto_answer: true,
    };
    let text = encode_settings(&original);
    assert_eq!(decode_settings(&text), Some(original));
}
