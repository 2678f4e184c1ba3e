//! The parsed configuration: variant sets, weather effect sounds, and the
//! immutable collection that answers all sample lookups.

use vstd::prelude::*;

use crate::json::encode_names;
use crate::json::json_list_of;
use crate::weather::Weather;

verus! {

/// Mathematical view of an [`HourSet`]: one file name per weather condition.
pub struct HourSetView {
    pub none: Seq<char>,
    pub rain: Seq<char>,
    pub drizzle: Seq<char>,
    pub thunderstorm: Seq<char>,
    pub snow: Seq<char>,
}

/// The sample variants available for one (music set, hour) slot: one file
/// name per recognized weather condition. Every field is always present;
/// conditions a configuration does not mention hold the empty string.
#[derive(Debug)]
pub struct HourSet {
    pub none: String,
    pub rain: String,
    pub drizzle: String,
    pub thunderstorm: String,
    pub snow: String,
}

impl View for HourSet {
    type V = HourSetView;

    open spec fn view(&self) -> HourSetView {
        HourSetView {
            none: self.none@,
            rain: self.rain@,
            drizzle: self.drizzle@,
            thunderstorm: self.thunderstorm@,
            snow: self.snow@,
        }
    }
}

/// The sample an hour set yields for a reading: snow has the highest
/// precedence, then rain; with neither signal the unconditional sample.
pub open spec fn spec_sample(hs: HourSetView, w: Weather) -> Seq<char> {
    if w.snowing > 0 {
        hs.snow
    } else if w.raining > 0 {
        hs.rain
    } else {
        hs.none
    }
}

impl HourSet {
    /// An hour set whose every field is the empty string.
    pub fn empty() -> (hs: HourSet)
        ensures
            hs@ == (HourSetView {
                none: Seq::<char>::empty(),
                rain: Seq::<char>::empty(),
                drizzle: Seq::<char>::empty(),
                thunderstorm: Seq::<char>::empty(),
                snow: Seq::<char>::empty(),
            }),
    {
        HourSet {
            none: String::new(),
            rain: String::new(),
            drizzle: String::new(),
            thunderstorm: String::new(),
            snow: String::new(),
        }
    }

    /// An hour set that plays one sample unconditionally: every field holds
    /// the same file name.
    pub fn uniform(file: &String) -> (hs: HourSet)
        ensures
            hs@ == (HourSetView {
                none: file@,
                rain: file@,
                drizzle: file@,
                thunderstorm: file@,
                snow: file@,
            }),
    {
        HourSet {
            none: file.clone(),
            rain: file.clone(),
            drizzle: file.clone(),
            thunderstorm: file.clone(),
            snow: file.clone(),
        }
    }

    /// Selects the sample for a classified reading by the fixed precedence:
    /// snow, then rain, then the unconditional sample.
    pub fn get_sample(&self, weather: &Weather) -> (r: &String)
        ensures
            r@ == spec_sample(self@, *weather),
    {
        if weather.snowing > 0 {
            &self.snow
        } else if weather.raining > 0 {
            &self.rain
        } else {
            &self.none
        }
    }
}

/// Mathematical view of [`WeatherEffects`].
pub struct WeatherEffectsView {
    pub rain: Seq<char>,
    pub drizzle: Seq<char>,
    pub thunderstorm: Seq<char>,
}

/// Ambient effect sounds, one per rain-like severity band.
#[derive(Debug)]
pub struct WeatherEffects {
    pub rain: String,
    pub drizzle: String,
    pub thunderstorm: String,
}

impl View for WeatherEffects {
    type V = WeatherEffectsView;

    open spec fn view(&self) -> WeatherEffectsView {
        WeatherEffectsView { rain: self.rain@, drizzle: self.drizzle@, thunderstorm: self.thunderstorm@ }
    }
}

/// The effect sound owed to a reading: snow plays the thunderstorm effect,
/// heavy rain the rain effect, light rain the drizzle effect, else none.
pub open spec fn spec_effect(e: WeatherEffectsView, w: Weather) -> Option<Seq<char>> {
    if w.snowing > 0 {
        Some(e.thunderstorm)
    } else if w.raining > 1 {
        Some(e.rain)
    } else if w.raining > 0 {
        Some(e.drizzle)
    } else {
        None
    }
}

impl WeatherEffects {
    /// Selects the ambient effect sound for a reading, or `None` when no
    /// weather signal calls for one.
    pub fn effect_sound(&self, weather: &Weather) -> (r: Option<&String>)
        ensures
            match r {
                Some(s) => spec_effect(self@, *weather) == Some(s@),
                None => spec_effect(self@, *weather) is None,
            },
    {
        if weather.snowing > 0 {
            Some(&self.thunderstorm)
        } else if weather.raining > 1 {
            Some(&self.rain)
        } else if weather.raining > 0 {
            Some(&self.drizzle)
        } else {
            None
        }
    }
}

/// Mathematical view of a [`Collection`].
pub struct CollectionView {
    pub bell_sound: Seq<char>,
    pub weather_effects: WeatherEffectsView,
    pub sets: Seq<Seq<char>>,
    pub music: Seq<(Seq<char>, Seq<(Seq<char>, HourSetView)>)>,
}

/// The fully parsed configuration: bell sound, effect sounds, the ordered
/// music set names, and the two-level music mapping from set name to hour
/// label to variant set. Built once at startup and read-only thereafter.
#[derive(Debug)]
pub struct Collection {
    pub bell_sound: String,
    pub weather_effects: WeatherEffects,
    pub sets: Vec<String>,
    pub music: Vec<(String, Vec<(String, HourSet)>)>,
}

impl View for Collection {
    type V = CollectionView;

    open spec fn view(&self) -> CollectionView {
        CollectionView {
            bell_sound: self.bell_sound@,
            weather_effects: self.weather_effects@,
            sets: self.sets@.map_values(|s: String| s@),
            music: self.music@.map_values(
                |m: (String, Vec<(String, HourSet)>)|
                    (m.0@, m.1@.map_values(|h: (String, HourSet)| (h.0@, h.1@))),
            ),
        }
    }
}

/// Why a per-request lookup found nothing: the requested music set, or the
/// requested hour label within a known set, is absent from the catalog.
#[derive(Clone, Copy, Debug, PartialEq, Eq, Structural)]
pub enum ResolveError {
    UnknownSet,
    UnknownHour,
}

/// The first value keyed by `key` in an association sequence, if any.
pub open spec fn spec_assoc<T>(entries: Seq<(Seq<char>, T)>, key: Seq<char>) -> Option<T>
    decreases entries.len(),
{
    if entries.len() == 0 {
        None
    } else if entries[0].0 == key {
        Some(entries[0].1)
    } else {
        spec_assoc(entries.drop_first(), key)
    }
}

/// In an association sequence whose first `i` keys all differ from `key`,
/// the association either stops at position `i` or misses entirely.
pub proof fn lemma_assoc_at<T>(entries: Seq<(Seq<char>, T)>, key: Seq<char>, i: int)
    requires
        0 <= i <= entries.len(),
        forall|k: int| 0 <= k < i ==> entries[k].0 != key,
        i < entries.len() ==> entries[i].0 == key,
    ensures
        i < entries.len() ==> spec_assoc(entries, key) == Some(entries[i].1),
        i == entries.len() ==> spec_assoc(entries, key) is None,
    decreases entries.len(),
{
    if entries.len() == 0 {
    } else if entries[0].0 == key {
        assert(i == 0);
    } else {
        assert(forall|k: int| 0 <= k < entries.drop_first().len() ==> entries.drop_first()[k]
            == entries[k + 1]);
        lemma_assoc_at(entries.drop_first(), key, i - 1);
    }
}

/// The file name a collection owes to a (set, hour, reading) query.
pub open spec fn spec_resolve(
    c: CollectionView,
    set_name: Seq<char>,
    hour: Seq<char>,
    w: Weather,
) -> Result<Seq<char>, ResolveError> {
    match spec_assoc(c.music, set_name) {
        None => Err(ResolveError::UnknownSet),
        Some(hours) => match spec_assoc(hours, hour) {
            None => Err(ResolveError::UnknownHour),
            Some(hs) => Ok(spec_sample(hs, w)),
        },
    }
}

impl Collection {
    /// The JSON encoding of the ordered music set names, as served to
    /// clients asking which sets exist.
    pub fn sets_json(&self) -> (r: String)
        ensures
            r@ == json_list_of(self@.sets),
    {
        encode_names(&self.sets)
    }

    /// Looks up the variant set at `music[set_name][hour]` and selects its
    /// sample for the reading: `UnknownSet` when the set name is absent,
    /// `UnknownHour` when the hour label is absent for that set.
    pub fn resolve(&self, set_name: &String, hour: &String, weather: &Weather) -> (r: Result<
        &String,
        ResolveError,
    >)
        ensures
            match r {
                Ok(s) => spec_resolve(self@, set_name@, hour@, *weather) == Ok::<
                    Seq<char>,
                    ResolveError,
                >(s@),
                Err(e) => spec_resolve(self@, set_name@, hour@, *weather) == Err::<
                    Seq<char>,
                    ResolveError,
                >(e),
            },
    {
        let mut i: usize = 0;
        while i < self.music.len()
            invariant
                i <= self.music@.len(),
                self@.music.len() == self.music@.len(),
                forall|k: int| 0 <= k < i ==> #[trigger] self@.music[k].0 != set_name@,
            decreases self.music@.len() - i,
        {
            proof {
                assert(self@.music[i as int].0 == self.music@[i as int].0@);
            }
            if self.music[i].0 == *set_name {
                proof {
                    lemma_assoc_at(self@.music, set_name@, i as int);
                }
                let hours = &self.music[i].1;
                let ghost hours_v = self@.music[i as int].1;
                let mut j: usize = 0;
                while j < hours.len()
                    invariant
                        j <= hours@.len(),
                        hours_v == hours@.map_values(|h: (String, HourSet)| (h.0@, h.1@)),
                        spec_assoc(self@.music, set_name@) == Some(hours_v),
                        forall|k: int| 0 <= k < j ==> #[trigger] hours_v[k].0 != hour@,
                    decreases hours@.len() - j,
                {
                    proof {
                        assert(hours_v[j as int].0 == hours@[j as int].0@);
                    }
                    if hours[j].0 == *hour {
                        proof {
                            lemma_assoc_at(hours_v, hour@, j as int);
                            assert(hours_v[j as int].1 == hours@[j as int].1@);
                        }
                        return Ok(hours[j].1.get_sample(weather));
                    }
                    j = j + 1;
                }
                proof {
                    lemma_assoc_at(hours_v, hour@, j as int);
                }
                return Err(ResolveError::UnknownHour);
            }
            i = i + 1;
        }
        proof {
            lemma_assoc_at(self@.music, set_name@, i as int);
        }
        Err(ResolveError::UnknownSet)
    }
}

} // verus!
