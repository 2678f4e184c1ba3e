use ambience::load::{load_catalog, parse_hour_set, ConfigError};

fn value_of(text: &str) -> serde_json::Value {
    serde_json::from_str(text).unwrap()
}

const FULL_CONFIG: &str = r#"{
    "bell_sound": "bell.ogg",
    "weather_effects": {"rain": "we_r.ogg", "drizzle": "we_d.ogg", "thunderstorm": "we_t.ogg"},
    "sets": ["forest", "city"],
    "music": {"forest": {"day": "a.ogg", "night": {"rain": "r.ogg", "snow": "s.ogg"}}}
}"#;

#[test]
fn uniform_string_entry_fills_every_field() {
    let hs = parse_hour_set(&value_of(r#""a.ogg""#)).unwrap();
    assert_eq!(hs.none, "a.ogg");
    assert_eq!(hs.rain, "a.ogg");
    assert_eq!(hs.drizzle, "a.ogg");
    assert_eq!(hs.thunderstorm, "a.ogg");
    assert_eq!(hs.snow, "a.ogg");
}

#[test]
fn mapping_entry_fills_only_named_fields() {
    let hs = parse_hour_set(&value_of(r#"{"rain": "r.ogg", "snow": "s.ogg"}"#)).unwrap();
    assert_eq!(hs.rain, "r.ogg");
    assert_eq!(hs.snow, "s.ogg");
    assert_eq!(hs.none, "");
    assert_eq!(hs.drizzle, "");
    assert_eq!(hs.thunderstorm, "");
}

#[test]
fn mapping_entry_ignores_unrecognized_keys() {
    let hs = parse_hour_set(&value_of(r#"{"fog": "f.ogg", "drizzle": "d.ogg"}"#)).unwrap();
    assert_eq!(hs.drizzle, "d.ogg");
    assert_eq!(hs.none, "");
    assert_eq!(hs.rain, "");
    assert_eq!(hs.thunderstorm, "");
    assert_eq!(hs.snow, "");
}

#[test]
fn mapping_entry_rejects_non_string_value() {
    assert!(parse_hour_set(&value_of(r#"{"rain": 3}"#)).is_none());
}

#[test]
fn other_shapes_are_no_variant_set() {
    assert!(parse_hour_set(&value_of("3")).is_none());
    assert!(parse_hour_set(&value_of("null")).is_none());
    assert!(parse_hour_set(&value_of("true")).is_none());
    assert!(parse_hour_set(&value_of(r#"["a.ogg"]"#)).is_none());
}

#[test]
fn full_config_loads() {
    let c = load_catalog(FULL_CONFIG).unwrap();
    assert_eq!(c.bell_sound, "bell.ogg");
    assert_eq!(c.weather_effects.rain, "we_r.ogg");
    assert_eq!(c.weather_effects.drizzle, "we_d.ogg");
    assert_eq!(c.weather_effects.thunderstorm, "we_t.ogg");
    assert_eq!(c.sets, vec!["forest".to_string(), "city".to_string()]);
    assert_eq!(c.music.len(), 1);
    assert_eq!(c.music[0].0, "forest");
    assert_eq!(c.music[0].1.len(), 2);
}

#[test]
fn missing_sets_field_is_a_missing_field_error() {
    let text = r#"{
        "bell_sound": "bell.ogg",
        "weather_effects": {"rain": "r", "drizzle": "d", "thunderstorm": "t"},
        "music": {}
    }"#;
    match load_catalog(text) {
        Err(ConfigError::MissingField(f)) => assert_eq!(f, "sets"),
        other => panic!("expected a missing-field error, got {:?}", other),
    }
}

#[test]
fn missing_bell_sound_is_reported_first() {
    match load_catalog("{}") {
        Err(ConfigError::MissingField(f)) => assert_eq!(f, "bell_sound"),
        other => panic!("expected a missing-field error, got {:?}", other),
    }
}

#[test]
fn missing_effect_subfield_is_a_missing_field_error() {
    let text = r#"{
        "bell_sound": "bell.ogg",
        "weather_effects": {"rain": "r", "thunderstorm": "t"},
        "sets": [],
        "music": {}
    }"#;
    match load_catalog(text) {
        Err(ConfigError::MissingField(f)) => assert_eq!(f, "weather_effects.drizzle"),
        other => panic!("expected a missing-field error, got {:?}", other),
    }
}

#[test]
fn numeric_music_leaf_is_a_format_error_naming_the_path() {
    let text = r#"{
        "bell_sound": "bell.ogg",
        "weather_effects": {"rain": "r", "drizzle": "d", "thunderstorm": "t"},
        "sets": ["forest"],
        "music": {"forest": {"day": 3}}
    }"#;
    match load_catalog(text) {
        Err(ConfigError::Format(p)) => assert_eq!(p, "music.forest.day"),
        other => panic!("expected a format error, got {:?}", other),
    }
}

#[test]
fn malformed_json_is_a_format_error_at_the_document() {
    match load_catalog("this is not json") {
        Err(ConfigError::Format(p)) => assert_eq!(p, "document"),
        other => panic!("expected a format error, got {:?}", other),
    }
}

#[test]
fn non_object_document_is_a_format_error_at_the_document() {
    match load_catalog("[1, 2]") {
        Err(ConfigError::Format(p)) => assert_eq!(p, "document"),
        other => panic!("expected a format error, got {:?}", other),
    }
}

#[test]
fn non_string_set_name_is_a_format_error() {
    let text = r#"{
        "bell_sound": "bell.ogg",
        "weather_effects": {"rain": "r", "drizzle": "d", "thunderstorm": "t"},
        "sets": ["forest", 7],
        "music": {}
    }"#;
    match load_catalog(text) {
        Err(ConfigError::Format(p)) => assert_eq!(p, "sets"),
        other => panic!("expected a format error, got {:?}", other),
    }
}

#[test]
fn wrong_bell_sound_type_is_a_format_error() {
    let text = r#"{
        "bell_sound": 4,
        "weather_effects": {"rain": "r", "drizzle": "d", "thunderstorm": "t"},
        "sets": [],
        "music": {}
    }"#;
    match load_catalog(text) {
        Err(ConfigError::Format(p)) => assert_eq!(p, "bell_sound"),
        other => panic!("expected a format error, got {:?}", other),
    }
}

#[test]
fn non_mapping_music_set_is_a_format_error_naming_the_set() {
    let text = r#"{
        "bell_sound": "bell.ogg",
        "weather_effects": {"rain": "r", "drizzle": "d", "thunderstorm": "t"},
        "sets": ["forest"],
        "music": {"forest": "oops"}
    }"#;
    match load_catalog(text) {
        Err(ConfigError::Format(p)) => assert_eq!(p, "music.forest"),
        other => panic!("expected a format error, got {:?}", other),
    }
}
