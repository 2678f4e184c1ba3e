use ambience::weather::{classify_weather_code, reading_or_zero, Weather};

#[test]
fn zero_reading_has_no_signal() {
    let w = Weather::zero();
    assert_eq!(w, Weather { cloud: 0, raining: 0, snowing: 0 });
    assert_eq!(Weather::default(), w);
}

#[test]
fn unavailable_weather_falls_back_to_the_zero_reading() {
    assert_eq!(reading_or_zero(None), Weather::zero());
    let w = Weather { cloud: 1, raining: 2, snowing: 0 };
    assert_eq!(reading_or_zero(Some(w)), w);
}

#[test]
fn rain_codes_classify_by_severity() {
    let w = classify_weather_code(511);
    assert_eq!(w, Weather { cloud: 2, raining: 1, snowing: 0 });
    let w = classify_weather_code(501);
    assert_eq!(w, Weather { cloud: 1, raining: 2, snowing: 0 });
    let w = classify_weather_code(502);
    assert_eq!(w, Weather { cloud: 1, raining: 3, snowing: 0 });
    let w = classify_weather_code(300);
    assert_eq!(w, Weather { cloud: 2, raining: 1, snowing: 0 });
    let w = classify_weather_code(230);
    assert_eq!(w, Weather { cloud: 2, raining: 1, snowing: 0 });
}

#[test]
fn snow_codes_classify_by_severity() {
    let w = classify_weather_code(612);
    assert_eq!(w, Weather { cloud: 2, raining: 0, snowing: 1 });
    let w = classify_weather_code(601);
    assert_eq!(w, Weather { cloud: 2, raining: 0, snowing: 2 });
    let w = classify_weather_code(622);
    assert_eq!(w, Weather { cloud: 2, raining: 0, snowing: 3 });
}

#[test]
fn cloud_level_has_a_base_set_and_family_override() {
    assert_eq!(classify_weather_code(804).cloud, 2);
    assert_eq!(classify_weather_code(800).cloud, 1);
    assert_eq!(classify_weather_code(200).cloud, 2);
    assert_eq!(classify_weather_code(301).cloud, 2);
    assert_eq!(classify_weather_code(615).cloud, 2);
    assert_eq!(classify_weather_code(700).cloud, 1);
}
