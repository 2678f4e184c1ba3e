use ambience::catalog::ResolveError;
use ambience::load::load_catalog;
use ambience::weather::Weather;

fn reading(raining: u32, snowing: u32) -> Weather {
    Weather { cloud: 0, raining, snowing }
}

const FULL_CONFIG: &str = r#"{
    "bell_sound": "bell.ogg",
    "weather_effects": {"rain": "we_r.ogg", "drizzle": "we_d.ogg", "thunderstorm": "we_t.ogg"},
    "sets": ["forest", "city"],
    "music": {"forest": {"day": "a.ogg", "night": {"rain": "r.ogg", "snow": "s.ogg"}}}
}"#;

#[test]
fn uniform_variant_is_weather_independent() {
    let c = load_catalog(FULL_CONFIG).unwrap();
    let set = "forest".to_string();
    let hour = "day".to_string();
    assert_eq!(c.resolve(&set, &hour, &Weather::zero()).unwrap().as_str(), "a.ogg");
    assert_eq!(c.resolve(&set, &hour, &reading(0, 1)).unwrap().as_str(), "a.ogg");
    assert_eq!(c.resolve(&set, &hour, &reading(3, 3)).unwrap().as_str(), "a.ogg");
}

#[test]
fn mapping_variant_follows_precedence() {
    let c = load_catalog(FULL_CONFIG).unwrap();
    let set = "forest".to_string();
    let hour = "night".to_string();
    assert_eq!(c.resolve(&set, &hour, &reading(1, 0)).unwrap().as_str(), "r.ogg");
    assert_eq!(c.resolve(&set, &hour, &reading(0, 1)).unwrap().as_str(), "s.ogg");
    assert_eq!(c.resolve(&set, &hour, &reading(0, 0)).unwrap().as_str(), "");
}

#[test]
fn snow_takes_precedence_over_rain() {
    let c = load_catalog(FULL_CONFIG).unwrap();
    let r = c.resolve(&"forest".to_string(), &"night".to_string(), &reading(3, 1));
    assert_eq!(r.unwrap().as_str(), "s.ogg");
}

#[test]
fn unknown_set_and_hour_are_reported() {
    let c = load_catalog(FULL_CONFIG).unwrap();
    let r = c.resolve(&"desert".to_string(), &"day".to_string(), &Weather::zero());
    assert_eq!(r.unwrap_err(), ResolveError::UnknownSet);
    let r = c.resolve(&"forest".to_string(), &"dawn".to_string(), &Weather::zero());
    assert_eq!(r.unwrap_err(), ResolveError::UnknownHour);
}

#[test]
fn effect_sound_follows_its_own_precedence() {
    let c = load_catalog(FULL_CONFIG).unwrap();
    let e = &c.weather_effects;
    assert_eq!(e.effect_sound(&reading(3, 2)).unwrap().as_str(), "we_t.ogg");
    assert_eq!(e.effect_sound(&reading(2, 0)).unwrap().as_str(), "we_r.ogg");
    assert_eq!(e.effect_sound(&reading(1, 0)).unwrap().as_str(), "we_d.ogg");
    assert!(e.effect_sound(&Weather::zero()).is_none());
}

#[test]
fn sets_json_lists_the_names_in_order() {
    let c = load_catalog(FULL_CONFIG).unwrap();
    assert_eq!(c.sets_json(), r#"["forest","city"]"#);
}
