//! The configuration loader: turns a JSON configuration text into a
//! [`Collection`], or fails with the exact error the document owes.
//!
//! The whole behaviour is pinned by [`spec_load`], a mathematical function on
//! the ghost JSON model: `load_catalog` returns exactly what `spec_load` says
//! for the document the text parses to.

use vstd::prelude::*;
use vstd::string::StringExecFns;

use crate::catalog::Collection;
use crate::catalog::CollectionView;
use crate::catalog::HourSet;
use crate::catalog::HourSetView;
use crate::catalog::WeatherEffects;
use crate::catalog::WeatherEffectsView;
use crate::catalog::lemma_assoc_at;
use crate::catalog::spec_assoc;
use crate::json::Json;
use crate::json::JsonShape;
use crate::json::json_of_text;
use crate::json::json_of_value;
use crate::json::parse_document;
use crate::json::value_shape;

verus! {

/// Mathematical view of a [`ConfigError`].
pub enum ConfigErrorView {
    /// A value in the document has the wrong shape; the payload names the
    /// offending path (the path `"document"` names the document itself, for
    /// texts that are not JSON objects at all).
    Format(Seq<char>),
    /// A required field is absent; the payload names it.
    MissingField(Seq<char>),
}

/// Why a configuration document was rejected: a value of the wrong shape
/// (malformed JSON counts as such, under the path `"document"`), or a
/// required field that is absent. Both are fatal at startup: no partial
/// catalog is ever produced.
#[derive(Debug)]
pub enum ConfigError {
    Format(String),
    MissingField(String),
}

impl View for ConfigError {
    type V = ConfigErrorView;

    open spec fn view(&self) -> ConfigErrorView {
        match self {
            ConfigError::Format(p) => ConfigErrorView::Format(p@),
            ConfigError::MissingField(p) => ConfigErrorView::MissingField(p@),
        }
    }
}

/// The hour set view whose every field is the empty string.
pub open spec fn empty_hour_set_view() -> HourSetView {
    HourSetView {
        none: Seq::<char>::empty(),
        rain: Seq::<char>::empty(),
        drizzle: Seq::<char>::empty(),
        thunderstorm: Seq::<char>::empty(),
        snow: Seq::<char>::empty(),
    }
}

/// The hour set view whose every field is `s`.
pub open spec fn uniform_hour_set_view(s: Seq<char>) -> HourSetView {
    HourSetView { none: s, rain: s, drizzle: s, thunderstorm: s, snow: s }
}

/// One parsed mapping entry applied to an hour set under construction: a
/// recognized key replaces its field, an unrecognized key changes nothing.
pub open spec fn vs_apply(acc: HourSetView, key: Seq<char>, val: Seq<char>) -> HourSetView {
    if key == "rain"@ {
        HourSetView { none: acc.none, rain: val, drizzle: acc.drizzle, thunderstorm: acc.thunderstorm, snow: acc.snow }
    } else if key == "none"@ {
        HourSetView { none: val, rain: acc.rain, drizzle: acc.drizzle, thunderstorm: acc.thunderstorm, snow: acc.snow }
    } else if key == "thunderstorm"@ {
        HourSetView { none: acc.none, rain: acc.rain, drizzle: acc.drizzle, thunderstorm: val, snow: acc.snow }
    } else if key == "drizzle"@ {
        HourSetView { none: acc.none, rain: acc.rain, drizzle: val, thunderstorm: acc.thunderstorm, snow: acc.snow }
    } else if key == "snow"@ {
        HourSetView { none: acc.none, rain: acc.rain, drizzle: acc.drizzle, thunderstorm: acc.thunderstorm, snow: val }
    } else {
        acc
    }
}

/// Folds the entries of a mapping, from position `i` on, over an hour set
/// under construction. `None` when some entry's value is not a string.
pub open spec fn vs_fold(
    entries: Seq<(Seq<char>, Json)>,
    i: int,
    acc: HourSetView,
) -> Option<HourSetView>
    decreases entries.len() - i,
{
    if i < 0 || i >= entries.len() {
        Some(acc)
    } else {
        match entries[i].1 {
            Json::Str(s) => vs_fold(entries, i + 1, vs_apply(acc, entries[i].0, s)),
            _ => None,
        }
    }
}

/// What a configuration value owes as a variant set: a plain string gives
/// the uniform set; a mapping populates recognized fields, leaves absent
/// ones empty and ignores unrecognized keys; any other shape — or a mapping
/// value that is not a string — is rejected.
pub open spec fn spec_variant_set(j: Json) -> Option<HourSetView> {
    match j {
        Json::Str(s) => Some(uniform_hour_set_view(s)),
        Json::Obj(entries) => vs_fold(entries, 0, empty_hour_set_view()),
        _ => None,
    }
}

/// The effect sounds a `weather_effects` mapping owes: its three fields must
/// be present, as strings.
pub open spec fn spec_load_effects(entries: Seq<(Seq<char>, Json)>) -> Result<
    WeatherEffectsView,
    ConfigErrorView,
> {
    match spec_assoc(entries, "rain"@) {
        None => Err(ConfigErrorView::MissingField("weather_effects.rain"@)),
        Some(rj) => match rj {
            Json::Str(rain) => match spec_assoc(entries, "drizzle"@) {
                None => Err(ConfigErrorView::MissingField("weather_effects.drizzle"@)),
                Some(dj) => match dj {
                    Json::Str(drizzle) => match spec_assoc(entries, "thunderstorm"@) {
                        None => Err(ConfigErrorView::MissingField("weather_effects.thunderstorm"@)),
                        Some(tj) => match tj {
                            Json::Str(thunderstorm) => Ok(
                                WeatherEffectsView { rain, drizzle, thunderstorm },
                            ),
                            _ => Err(ConfigErrorView::Format("weather_effects.thunderstorm"@)),
                        },
                    },
                    _ => Err(ConfigErrorView::Format("weather_effects.drizzle"@)),
                },
            },
            _ => Err(ConfigErrorView::Format("weather_effects.rain"@)),
        },
    }
}

/// The set names a `sets` array owes, from position `i` on: every element
/// must be a string.
pub open spec fn spec_load_sets(elems: Seq<Json>, i: int) -> Option<Seq<Seq<char>>>
    decreases elems.len() - i,
{
    if i < 0 || i >= elems.len() {
        Some(Seq::<Seq<char>>::empty())
    } else {
        match elems[i] {
            Json::Str(s) => match spec_load_sets(elems, i + 1) {
                None => None,
                Some(rest) => Some(seq![s] + rest),
            },
            _ => None,
        }
    }
}

/// The hour mapping a music set owes, from position `j` on: every leaf must
/// be a valid variant-set value; an offending leaf is named by its path
/// `music.<set>.<hour>`.
pub open spec fn spec_load_hours(
    set_name: Seq<char>,
    entries: Seq<(Seq<char>, Json)>,
    j: int,
) -> Result<Seq<(Seq<char>, HourSetView)>, ConfigErrorView>
    decreases entries.len() - j,
{
    if j < 0 || j >= entries.len() {
        Ok(Seq::<(Seq<char>, HourSetView)>::empty())
    } else {
        match spec_variant_set(entries[j].1) {
            None => Err(ConfigErrorView::Format("music."@ + set_name + "."@ + entries[j].0)),
            Some(hs) => match spec_load_hours(set_name, entries, j + 1) {
                Err(e) => Err(e),
                Ok(rest) => Ok(seq![(entries[j].0, hs)] + rest),
            },
        }
    }
}

/// The music mapping a `music` object owes, from position `i` on: every
/// value must itself be a mapping from hour label to variant-set value.
pub open spec fn spec_load_music(entries: Seq<(Seq<char>, Json)>, i: int) -> Result<
    Seq<(Seq<char>, Seq<(Seq<char>, HourSetView)>)>,
    ConfigErrorView,
>
    decreases entries.len() - i,
{
    if i < 0 || i >= entries.len() {
        Ok(Seq::<(Seq<char>, Seq<(Seq<char>, HourSetView)>)>::empty())
    } else {
        match entries[i].1 {
            Json::Obj(hour_entries) => match spec_load_hours(entries[i].0, hour_entries, 0) {
                Err(e) => Err(e),
                Ok(hours) => match spec_load_music(entries, i + 1) {
                    Err(e) => Err(e),
                    Ok(rest) => Ok(seq![(entries[i].0, hours)] + rest),
                },
            },
            _ => Err(ConfigErrorView::Format("music."@ + entries[i].0)),
        }
    }
}

/// The catalog a document's top-level object owes. Fields are checked in a
/// fixed order — bell_sound, weather_effects, sets, music — so the first
/// offence decides the error.
pub open spec fn spec_load_obj(entries: Seq<(Seq<char>, Json)>) -> Result<
    CollectionView,
    ConfigErrorView,
> {
    match spec_assoc(entries, "bell_sound"@) {
        None => Err(ConfigErrorView::MissingField("bell_sound"@)),
        Some(bj) => match bj {
            Json::Str(bell_sound) => match spec_assoc(entries, "weather_effects"@) {
                None => Err(ConfigErrorView::MissingField("weather_effects"@)),
                Some(wj) => match wj {
                    Json::Obj(we_entries) => match spec_load_effects(we_entries) {
                        Err(e) => Err(e),
                        Ok(weather_effects) => match spec_assoc(entries, "sets"@) {
                            None => Err(ConfigErrorView::MissingField("sets"@)),
                            Some(sj) => match sj {
                                Json::Arr(set_elems) => match spec_load_sets(set_elems, 0) {
                                    None => Err(ConfigErrorView::Format("sets"@)),
                                    Some(sets) => match spec_assoc(entries, "music"@) {
                                        None => Err(ConfigErrorView::MissingField("music"@)),
                                        Some(mj) => match mj {
                                            Json::Obj(music_entries) => match spec_load_music(
                                                music_entries,
                                                0,
                                            ) {
                                                Err(e) => Err(e),
                                                Ok(music) => Ok(
                                                    CollectionView {
                                                        bell_sound,
                                                        weather_effects,
                                                        sets,
                                                        music,
                                                    },
                                                ),
                                            },
                                            _ => Err(ConfigErrorView::Format("music"@)),
                                        },
                                    },
                                },
                                _ => Err(ConfigErrorView::Format("sets"@)),
                            },
                        },
                    },
                    _ => Err(ConfigErrorView::Format("weather_effects"@)),
                },
            },
            _ => Err(ConfigErrorView::Format("bell_sound"@)),
        },
    }
}

/// The catalog (or error) a configuration text owes: a text that is not
/// well-formed JSON, or whose document is not an object, is a format error
/// at the document itself; otherwise the top-level object decides.
pub open spec fn spec_load(d: Option<Json>) -> Result<CollectionView, ConfigErrorView> {
    match d {
        None => Err(ConfigErrorView::Format("document"@)),
        Some(j) => match j {
            Json::Obj(entries) => spec_load_obj(entries),
            _ => Err(ConfigErrorView::Format("document"@)),
        },
    }
}

/// The ghost model of a vector of parsed object entries.
pub open spec fn entries_model(es: Seq<(String, serde_json::Value)>) -> Seq<(Seq<char>, Json)> {
    es.map_values(|p: (String, serde_json::Value)| (p.0@, json_of_value(p.1)))
}

/// Finds the first entry keyed by `key` in a parsed object's entries.
fn find_field<'a>(es: &'a Vec<(String, serde_json::Value)>, key: &String) -> (r: Option<
    &'a serde_json::Value,
>)
    ensures
        r is Some <==> spec_assoc(entries_model(es@), key@) is Some,
        r matches Some(v) ==> spec_assoc(entries_model(es@), key@) == Some(json_of_value(*v)),
{
    let ghost m = entries_model(es@);
    let mut i: usize = 0;
    while i < es.len()
        invariant
            i <= es@.len(),
            m == entries_model(es@),
            forall|k: int| 0 <= k < i ==> #[trigger] m[k].0 != key@,
        decreases es@.len() - i,
    {
        proof {
            assert(m[i as int].0 == es@[i as int].0@);
        }
        if es[i].0 == *key {
            proof {
                lemma_assoc_at(m, key@, i as int);
                assert(m[i as int].1 == json_of_value(es@[i as int].1));
            }
            return Some(&es[i].1);
        }
        i = i + 1;
    }
    proof {
        lemma_assoc_at(m, key@, i as int);
    }
    None
}

/// Parses one configuration value into a variant set: a plain string fills
/// every field with the same file name; a mapping of strings populates the
/// recognized condition keys and ignores unrecognized ones; any other shape
/// yields `None`.
pub fn parse_hour_set(v: &serde_json::Value) -> (r: Option<HourSet>)
    ensures
        r is Some <==> spec_variant_set(json_of_value(*v)) is Some,
        r matches Some(hs) ==> spec_variant_set(json_of_value(*v)) == Some(hs@),
{
    match value_shape(v) {
        JsonShape::Str(s) => Some(HourSet::uniform(&s)),
        JsonShape::Obj(es) => {
            let ghost m = entries_model(es@);
            let rain_key: String = "rain".to_owned();
            let none_key: String = "none".to_owned();
            let thunderstorm_key: String = "thunderstorm".to_owned();
            let drizzle_key: String = "drizzle".to_owned();
            let snow_key: String = "snow".to_owned();
            let mut acc = HourSet::empty();
            let mut i: usize = 0;
            while i < es.len()
                invariant
                    i <= es@.len(),
                    m == entries_model(es@),
                    json_of_value(*v) == Json::Obj(m),
                    rain_key@ == "rain"@,
                    none_key@ == "none"@,
                    thunderstorm_key@ == "thunderstorm"@,
                    drizzle_key@ == "drizzle"@,
                    snow_key@ == "snow"@,
                    vs_fold(m, 0, empty_hour_set_view()) == vs_fold(m, i as int, acc@),
                decreases es@.len() - i,
            {
                proof {
                    assert(m[i as int] == (es@[i as int].0@, json_of_value(es@[i as int].1)));
                }
                match value_shape(&es[i].1) {
                    JsonShape::Str(s) => {
                        let ghost before = acc@;
                        if es[i].0 == rain_key {
                            acc.rain = s;
                        } else if es[i].0 == none_key {
                            acc.none = s;
                        } else if es[i].0 == thunderstorm_key {
                            acc.thunderstorm = s;
                        } else if es[i].0 == drizzle_key {
                            acc.drizzle = s;
                        } else if es[i].0 == snow_key {
                            acc.snow = s;
                        }
                        proof {
                            assert(acc@ == vs_apply(before, m[i as int].0, m[i as int].1->Str_0));
                        }
                    },
                    _ => {
                        return None;
                    },
                }
                i = i + 1;
            }
            Some(acc)
        },
        _ => None,
    }
}

/// Parses a `weather_effects` mapping's entries into the three effect
/// sounds, mirroring [`spec_load_effects`].
fn load_effects(es: &Vec<(String, serde_json::Value)>) -> (r: Result<WeatherEffects, ConfigError>)
    ensures
        match r {
            Ok(we) => spec_load_effects(entries_model(es@)) == Ok::<
                WeatherEffectsView,
                ConfigErrorView,
            >(we@),
            Err(e) => spec_load_effects(entries_model(es@)) == Err::<
                WeatherEffectsView,
                ConfigErrorView,
            >(e@),
        },
{
    let rain = match find_field(es, &"rain".to_owned()) {
        None => {
            return Err(ConfigError::MissingField("weather_effects.rain".to_owned()));
        },
        Some(v) => match value_shape(v) {
            JsonShape::Str(s) => s,
            _ => {
                return Err(ConfigError::Format("weather_effects.rain".to_owned()));
            },
        },
    };
    let drizzle = match find_field(es, &"drizzle".to_owned()) {
        None => {
            return Err(ConfigError::MissingField("weather_effects.drizzle".to_owned()));
        },
        Some(v) => match value_shape(v) {
            JsonShape::Str(s) => s,
            _ => {
                return Err(ConfigError::Format("weather_effects.drizzle".to_owned()));
            },
        },
    };
    let thunderstorm = match find_field(es, &"thunderstorm".to_owned()) {
        None => {
            return Err(ConfigError::MissingField("weather_effects.thunderstorm".to_owned()));
        },
        Some(v) => match value_shape(v) {
            JsonShape::Str(s) => s,
            _ => {
                return Err(ConfigError::Format("weather_effects.thunderstorm".to_owned()));
            },
        },
    };
    Ok(WeatherEffects { rain, drizzle, thunderstorm })
}

/// Parses a `sets` array's elements into the ordered set names, mirroring
/// [`spec_load_sets`]: `None` when some element is not a string.
fn load_sets(elems: &Vec<serde_json::Value>) -> (r: Option<Vec<String>>)
    ensures
        ({
            let m = elems@.map_values(|x: serde_json::Value| json_of_value(x));
            match r {
                Some(names) => spec_load_sets(m, 0) == Some(names@.map_values(|s: String| s@)),
                None => spec_load_sets(m, 0) is None,
            }
        }),
{
    let ghost m = elems@.map_values(|x: serde_json::Value| json_of_value(x));
    let mut names: Vec<String> = Vec::new();
    let mut i: usize = 0;
    while i < elems.len()
        invariant
            i <= elems@.len(),
            m == elems@.map_values(|x: serde_json::Value| json_of_value(x)),
            (match spec_load_sets(m, i as int) {
                Some(rest) => spec_load_sets(m, 0) == Some(names@.map_values(|s: String| s@) + rest),
                None => spec_load_sets(m, 0) is None,
            }),
        decreases elems@.len() - i,
    {
        proof {
            assert(m[i as int] == json_of_value(elems@[i as int]));
        }
        match value_shape(&elems[i]) {
            JsonShape::Str(s) => {
                let ghost nv_old = names@.map_values(|x: String| x@);
                let ghost sv = s@;
                names.push(s);
                proof {
                    let nv_new = names@.map_values(|x: String| x@);
                    assert(nv_new =~= nv_old + seq![sv]);
                    if spec_load_sets(m, i + 1) is Some {
                        let rest = spec_load_sets(m, i + 1).unwrap();
                        assert(spec_load_sets(m, i as int) == Some(seq![sv] + rest));
                        assert(nv_old + (seq![sv] + rest) =~= nv_new + rest);
                    }
                }
            },
            _ => {
                return None;
            },
        }
        i = i + 1;
    }
    proof {
        assert(names@.map_values(|s: String| s@) + Seq::<Seq<char>>::empty() =~= names@.map_values(
            |s: String| s@,
        ));
    }
    Some(names)
}

/// The ghost model of a vector of parsed hour entries.
pub open spec fn hours_model(hs: Seq<(String, HourSet)>) -> Seq<(Seq<char>, HourSetView)> {
    hs.map_values(|h: (String, HourSet)| (h.0@, h.1@))
}

/// Parses one music set's hour mapping, mirroring [`spec_load_hours`]: every
/// leaf must be a valid variant-set value.
fn load_hours(set_name: &String, es: &Vec<(String, serde_json::Value)>) -> (r: Result<
    Vec<(String, HourSet)>,
    ConfigError,
>)
    ensures
        match r {
            Ok(hours) => spec_load_hours(set_name@, entries_model(es@), 0) == Ok::<
                Seq<(Seq<char>, HourSetView)>,
                ConfigErrorView,
            >(hours_model(hours@)),
            Err(e) => spec_load_hours(set_name@, entries_model(es@), 0) == Err::<
                Seq<(Seq<char>, HourSetView)>,
                ConfigErrorView,
            >(e@),
        },
{
    let ghost m = entries_model(es@);
    let mut hours: Vec<(String, HourSet)> = Vec::new();
    let mut j: usize = 0;
    while j < es.len()
        invariant
            j <= es@.len(),
            m == entries_model(es@),
            (match spec_load_hours(set_name@, m, j as int) {
                Ok(rest) => spec_load_hours(set_name@, m, 0) == Ok::<
                    Seq<(Seq<char>, HourSetView)>,
                    ConfigErrorView,
                >(hours_model(hours@) + rest),
                Err(e) => spec_load_hours(set_name@, m, 0) == Err::<
                    Seq<(Seq<char>, HourSetView)>,
                    ConfigErrorView,
                >(e),
            }),
        decreases es@.len() - j,
    {
        proof {
            assert(m[j as int] == (es@[j as int].0@, json_of_value(es@[j as int].1)));
        }
        match parse_hour_set(&es[j].1) {
            Some(hs) => {
                let ghost hv_old = hours_model(hours@);
                let ghost entry = (es@[j as int].0@, hs@);
                let label = es[j].0.clone();
                hours.push((label, hs));
                proof {
                    let hv_new = hours_model(hours@);
                    assert(hv_new =~= hv_old + seq![entry]);
                    if spec_load_hours(set_name@, m, j + 1) is Ok {
                        let rest = spec_load_hours(set_name@, m, j + 1)->Ok_0;
                        assert(spec_load_hours(set_name@, m, j as int) == Ok::<
                            Seq<(Seq<char>, HourSetView)>,
                            ConfigErrorView,
                        >(seq![entry] + rest));
                        assert(hv_old + (seq![entry] + rest) =~= hv_new + rest);
                    }
                }
            },
            None => {
                let mut path: String = "music.".to_owned();
                path.append(set_name.as_str());
                path.append(".");
                path.append(es[j].0.as_str());
                return Err(ConfigError::Format(path));
            },
        }
        j = j + 1;
    }
    proof {
        assert(hours_model(hours@) + Seq::<(Seq<char>, HourSetView)>::empty() =~= hours_model(
            hours@,
        ));
    }
    Ok(hours)
}

/// The ghost model of a vector of parsed music sets.
pub open spec fn music_model(ms: Seq<(String, Vec<(String, HourSet)>)>) -> Seq<
    (Seq<char>, Seq<(Seq<char>, HourSetView)>),
> {
    ms.map_values(|m: (String, Vec<(String, HourSet)>)| (m.0@, hours_model(m.1@)))
}

/// Parses the `music` object's entries, mirroring [`spec_load_music`]: every
/// value must itself be a mapping from hour label to variant-set value.
fn load_music(es: &Vec<(String, serde_json::Value)>) -> (r: Result<
    Vec<(String, Vec<(String, HourSet)>)>,
    ConfigError,
>)
    ensures
        match r {
            Ok(music) => spec_load_music(entries_model(es@), 0) == Ok::<
                Seq<(Seq<char>, Seq<(Seq<char>, HourSetView)>)>,
                ConfigErrorView,
            >(music_model(music@)),
            Err(e) => spec_load_music(entries_model(es@), 0) == Err::<
                Seq<(Seq<char>, Seq<(Seq<char>, HourSetView)>)>,
                ConfigErrorView,
            >(e@),
        },
{
    let ghost m = entries_model(es@);
    let mut music: Vec<(String, Vec<(String, HourSet)>)> = Vec::new();
    let mut i: usize = 0;
    while i < es.len()
        invariant
            i <= es@.len(),
            m == entries_model(es@),
            (match spec_load_music(m, i as int) {
                Ok(rest) => spec_load_music(m, 0) == Ok::<
                    Seq<(Seq<char>, Seq<(Seq<char>, HourSetView)>)>,
                    ConfigErrorView,
                >(music_model(music@) + rest),
                Err(e) => spec_load_music(m, 0) == Err::<
                    Seq<(Seq<char>, Seq<(Seq<char>, HourSetView)>)>,
                    ConfigErrorView,
                >(e),
            }),
        decreases es@.len() - i,
    {
        proof {
            assert(m[i as int] == (es@[i as int].0@, json_of_value(es@[i as int].1)));
        }
        match value_shape(&es[i].1) {
            JsonShape::Obj(hour_vec) => {
                match load_hours(&es[i].0, &hour_vec) {
                    Ok(hours) => {
                        let ghost mv_old = music_model(music@);
                        let ghost entry = (es@[i as int].0@, hours_model(hours@));
                        let name = es[i].0.clone();
                        music.push((name, hours));
                        proof {
                            let mv_new = music_model(music@);
                            assert(mv_new =~= mv_old + seq![entry]);
                            if spec_load_music(m, i + 1) is Ok {
                                let rest = spec_load_music(m, i + 1)->Ok_0;
                                assert(spec_load_music(m, i as int) == Ok::<
                                    Seq<(Seq<char>, Seq<(Seq<char>, HourSetView)>)>,
                                    ConfigErrorView,
                                >(seq![entry] + rest));
                                assert(mv_old + (seq![entry] + rest) =~= mv_new + rest);
                            }
                        }
                    },
                    Err(e) => {
                        return Err(e);
                    },
                }
            },
            _ => {
                let mut path: String = "music.".to_owned();
                path.append(es[i].0.as_str());
                return Err(ConfigError::Format(path));
            },
        }
        i = i + 1;
    }
    proof {
        assert(music_model(music@) + Seq::<(Seq<char>, Seq<(Seq<char>, HourSetView)>)>::empty()
            =~= music_model(music@));
    }
    Ok(music)
}

/// Parses a configuration text into the immutable catalog, or fails with the
/// exact error [`spec_load`] assigns to the document: a format error naming
/// the offending path, or a missing-field error naming the absent field.
/// Success is owed precisely to the documents `spec_load` accepts.
pub fn load_catalog(text: &str) -> (r: Result<Collection, ConfigError>)
    ensures
        match r {
            Ok(c) => spec_load(json_of_text(text@)) == Ok::<CollectionView, ConfigErrorView>(c@),
            Err(e) => spec_load(json_of_text(text@)) == Err::<CollectionView, ConfigErrorView>(
                e@,
            ),
        },
{
    let doc = match parse_document(text) {
        Some(v) => v,
        None => {
            return Err(ConfigError::Format("document".to_owned()));
        },
    };
    let es = match value_shape(&doc) {
        JsonShape::Obj(es) => es,
        _ => {
            return Err(ConfigError::Format("document".to_owned()));
        },
    };
    let ghost m = entries_model(es@);
    let bell_sound = match find_field(&es, &"bell_sound".to_owned()) {
        None => {
            return Err(ConfigError::MissingField("bell_sound".to_owned()));
        },
        Some(v) => match value_shape(v) {
            JsonShape::Str(s) => s,
            _ => {
                return Err(ConfigError::Format("bell_sound".to_owned()));
            },
        },
    };
    let weather_effects = match find_field(&es, &"weather_effects".to_owned()) {
        None => {
            return Err(ConfigError::MissingField("weather_effects".to_owned()));
        },
        Some(v) => match value_shape(v) {
            JsonShape::Obj(we_vec) => match load_effects(&we_vec) {
                Ok(we) => we,
                Err(e) => {
                    return Err(e);
                },
            },
            _ => {
                return Err(ConfigError::Format("weather_effects".to_owned()));
            },
        },
    };
    let sets = match find_field(&es, &"sets".to_owned()) {
        None => {
            return Err(ConfigError::MissingField("sets".to_owned()));
        },
        Some(v) => match value_shape(v) {
            JsonShape::Arr(elems) => match load_sets(&elems) {
                Some(names) => names,
                None => {
                    return Err(ConfigError::Format("sets".to_owned()));
                },
            },
            _ => {
                return Err(ConfigError::Format("sets".to_owned()));
            },
        },
    };
    let music = match find_field(&es, &"music".to_owned()) {
        None => {
            return Err(ConfigError::MissingField("music".to_owned()));
        },
        Some(v) => match value_shape(v) {
            JsonShape::Obj(ms) => match load_music(&ms) {
                Ok(music) => music,
                Err(e) => {
                    return Err(e);
                },
            },
            _ => {
                return Err(ConfigError::Format("music".to_owned()));
            },
        },
    };
    let ghost sets_v = sets@.map_values(|s: String| s@);
    let ghost music_v = music_model(music@);
    let c = Collection { bell_sound, weather_effects, sets, music };
    proof {
        assert(c@.sets =~~= sets_v);
        assert(c@.music =~~= music_v);
        assert(spec_load(json_of_text(text@)) == Ok::<CollectionView, ConfigErrorView>(c@));
    }
    Ok(c)
}

} // verus!
