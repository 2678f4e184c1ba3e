//! The library's stated laws: what the variant-set parser, the loader and
//! the resolver owe on whole classes of inputs, proved once and for all.

use vstd::prelude::*;

use crate::catalog::HourSetView;
use crate::catalog::spec_assoc;
use crate::catalog::spec_sample;
use crate::json::Json;
use crate::load::ConfigErrorView;
use crate::load::empty_hour_set_view;
use crate::load::spec_load;
use crate::load::spec_load_effects;
use crate::load::spec_load_hours;
use crate::load::spec_load_music;
use crate::load::spec_load_sets;
use crate::load::spec_variant_set;
use crate::load::uniform_hour_set_view;
use crate::load::vs_apply;
use crate::load::vs_fold;
use crate::weather::Weather;

verus! {

/// A string-valued configuration entry parses to the uniform variant set:
/// every field equals that string, whatever it is.
pub proof fn lemma_uniform_variant(s: Seq<char>)
    ensures
        spec_variant_set(Json::Str(s)) == Some(uniform_hour_set_view(s)),
        uniform_hour_set_view(s).none == s,
        uniform_hour_set_view(s).rain == s,
        uniform_hour_set_view(s).drizzle == s,
        uniform_hour_set_view(s).thunderstorm == s,
        uniform_hour_set_view(s).snow == s,
{
}

/// Every value of a mapping is a string.
pub open spec fn all_string_values(entries: Seq<(Seq<char>, Json)>) -> bool {
    forall|i: int| 0 <= i < entries.len() ==> #[trigger] entries[i].1 is Str
}

/// The string a mapping binds a key to — the last binding wins, as in the
/// parser's fold — or the empty string when the key is absent.
pub open spec fn mapping_field(entries: Seq<(Seq<char>, Json)>, key: Seq<char>) -> Seq<char>
    decreases entries.len(),
{
    if entries.len() == 0 {
        Seq::<char>::empty()
    } else if entries.last().0 == key {
        if entries.last().1 is Str {
            entries.last().1->Str_0
        } else {
            Seq::<char>::empty()
        }
    } else {
        mapping_field(entries.drop_last(), key)
    }
}

/// Peeling the last entry off the parser's left fold: folding all entries is
/// folding the front and then applying the last one.
proof fn lemma_vs_fold_snoc(entries: Seq<(Seq<char>, Json)>, i: int, acc: HourSetView)
    requires
        entries.len() > 0,
        0 <= i <= entries.len() - 1,
        entries.last().1 is Str,
    ensures
        vs_fold(entries, i, acc) == (match vs_fold(entries.drop_last(), i, acc) {
            Some(h) => Some(vs_apply(h, entries.last().0, entries.last().1->Str_0)),
            None => None::<HourSetView>,
        }),
    decreases entries.len() - i,
{
    let front = entries.drop_last();
    assert(forall|k: int| 0 <= k < front.len() ==> front[k] == entries[k]);
    if i == entries.len() - 1 {
        let applied = vs_apply(acc, entries[i as int].0, entries[i as int].1->Str_0);
        assert(vs_fold(entries, i, acc) == vs_fold(entries, i + 1, applied));
        assert(vs_fold(entries, i + 1, applied) == Some(applied));
        assert(vs_fold(front, i, acc) == Some(acc));
    } else {
        match entries[i].1 {
            Json::Str(s) => {
                let applied = vs_apply(acc, entries[i as int].0, s);
                lemma_vs_fold_snoc(entries, i + 1, applied);
                assert(vs_fold(entries, i, acc) == vs_fold(entries, i + 1, applied));
                assert(vs_fold(front, i, acc) == vs_fold(front, i + 1, applied));
            },
            _ => {
                assert(vs_fold(entries, i, acc) is None);
                assert(vs_fold(front, i, acc) is None);
            },
        }
    }
}

/// A mapping-valued configuration entry parses to the variant set whose
/// every field is exactly what the mapping binds the matching key to, and
/// the empty string where the key is absent: no cross-field leakage.
pub proof fn lemma_mapping_fields(entries: Seq<(Seq<char>, Json)>)
    requires
        all_string_values(entries),
    ensures
        spec_variant_set(Json::Obj(entries)) matches Some(hs) && hs.none == mapping_field(
            entries,
            "none"@,
        ) && hs.rain == mapping_field(entries, "rain"@) && hs.drizzle == mapping_field(
            entries,
            "drizzle"@,
        ) && hs.thunderstorm == mapping_field(entries, "thunderstorm"@) && hs.snow
            == mapping_field(entries, "snow"@),
    decreases entries.len(),
{
    reveal_strlit("none");
    reveal_strlit("rain");
    reveal_strlit("drizzle");
    reveal_strlit("thunderstorm");
    reveal_strlit("snow");
    assert("rain"@.len() == 4 && "none"@.len() == 4 && "snow"@.len() == 4);
    assert("drizzle"@.len() == 7 && "thunderstorm"@.len() == 12);
    assert("rain"@[0] == 'r' && "none"@[0] == 'n' && "snow"@[0] == 's');
    if entries.len() == 0 {
    } else {
        let front = entries.drop_last();
        assert(entries[entries.len() - 1].1 is Str);
        assert(forall|k: int| 0 <= k < front.len() ==> front[k] == entries[k]);
        assert(all_string_values(front));
        lemma_mapping_fields(front);
        lemma_vs_fold_snoc(entries, 0, empty_hour_set_view());
        let front_hs = spec_variant_set(Json::Obj(front)).unwrap();
        let hs = spec_variant_set(Json::Obj(entries)).unwrap();
        assert(hs == vs_apply(front_hs, entries.last().0, entries.last().1->Str_0));
        let lk = entries.last().0;
        let lv = entries.last().1->Str_0;
        assert(mapping_field(entries, "none"@) == (if lk == "none"@ {
            lv
        } else {
            mapping_field(front, "none"@)
        }));
        assert(mapping_field(entries, "rain"@) == (if lk == "rain"@ {
            lv
        } else {
            mapping_field(front, "rain"@)
        }));
        assert(mapping_field(entries, "drizzle"@) == (if lk == "drizzle"@ {
            lv
        } else {
            mapping_field(front, "drizzle"@)
        }));
        assert(mapping_field(entries, "thunderstorm"@) == (if lk == "thunderstorm"@ {
            lv
        } else {
            mapping_field(front, "thunderstorm"@)
        }));
        assert(mapping_field(entries, "snow"@) == (if lk == "snow"@ {
            lv
        } else {
            mapping_field(front, "snow"@)
        }));
    }
}

/// Any reading with a snow signal selects the snow sample, regardless of the
/// rain level.
pub proof fn lemma_snow_precedence(hs: HourSetView, w: Weather)
    requires
        w.snowing > 0,
    ensures
        spec_sample(hs, w) == hs.snow,
{
}

/// Any reading with rain but no snow selects the rain sample.
pub proof fn lemma_rain_precedence(hs: HourSetView, w: Weather)
    requires
        w.snowing == 0,
        w.raining > 0,
    ensures
        spec_sample(hs, w) == hs.rain,
{
}

/// Any reading without rain or snow — the zero reading in particular —
/// selects the unconditional sample.
pub proof fn lemma_no_signal_sample(hs: HourSetView, w: Weather)
    requires
        w.snowing == 0,
        w.raining == 0,
    ensures
        spec_sample(hs, w) == hs.none,
{
}

/// A document whose earlier fields are in order but whose `sets` field is
/// absent is rejected with the missing-field error naming `sets`.
pub proof fn lemma_missing_sets(entries: Seq<(Seq<char>, Json)>)
    requires
        spec_assoc(entries, "bell_sound"@) matches Some(b) && b is Str,
        spec_assoc(entries, "weather_effects"@) matches Some(w) && w is Obj && spec_load_effects(
            w->Obj_0,
        ) is Ok,
        spec_assoc(entries, "sets"@) is None,
    ensures
        spec_load(Some(Json::Obj(entries))) == Err::<
            crate::catalog::CollectionView,
            ConfigErrorView,
        >(ConfigErrorView::MissingField("sets"@)),
{
}

/// A value that is neither a string nor a mapping — a number, an array,
/// null or a boolean — is no variant set.
pub proof fn lemma_variant_set_rejects(j: Json)
    requires
        !(j is Str),
        !(j is Obj),
    ensures
        spec_variant_set(j) is None,
{
}

/// An hour mapping whose first offending leaf is not a valid variant-set
/// value — a number, say — is rejected with the format error naming that
/// leaf's path.
pub proof fn lemma_hours_bad_leaf(set_name: Seq<char>, hours: Seq<(Seq<char>, Json)>, j: int)
    requires
        0 <= j < hours.len(),
        forall|k: int| 0 <= k < j ==> #[trigger] spec_variant_set(hours[k].1) is Some,
        spec_variant_set(hours[j].1) is None,
    ensures
        spec_load_hours(set_name, hours, 0) == Err::<
            Seq<(Seq<char>, HourSetView)>,
            ConfigErrorView,
        >(ConfigErrorView::Format("music."@ + set_name + "."@ + hours[j].0)),
{
    lemma_hours_bad_leaf_from(set_name, hours, j, 0);
}

/// Helper for [`lemma_hours_bad_leaf`]: the same statement from position `i`
/// on, for induction.
proof fn lemma_hours_bad_leaf_from(
    set_name: Seq<char>,
    hours: Seq<(Seq<char>, Json)>,
    j: int,
    i: int,
)
    requires
        0 <= i <= j < hours.len(),
        forall|k: int| i <= k < j ==> #[trigger] spec_variant_set(hours[k].1) is Some,
        spec_variant_set(hours[j].1) is None,
    ensures
        spec_load_hours(set_name, hours, i) == Err::<
            Seq<(Seq<char>, HourSetView)>,
            ConfigErrorView,
        >(ConfigErrorView::Format("music."@ + set_name + "."@ + hours[j].0)),
    decreases j - i,
{
    if i < j {
        lemma_hours_bad_leaf_from(set_name, hours, j, i + 1);
    }
}

/// A document whose earlier fields are in order but whose `music` object
/// fails to parse is rejected with exactly the music mapping's error.
pub proof fn lemma_music_error_propagates(entries: Seq<(Seq<char>, Json)>, e: ConfigErrorView)
    requires
        spec_assoc(entries, "bell_sound"@) matches Some(b) && b is Str,
        spec_assoc(entries, "weather_effects"@) matches Some(w) && w is Obj && spec_load_effects(
            w->Obj_0,
        ) is Ok,
        spec_assoc(entries, "sets"@) matches Some(s) && s is Arr && spec_load_sets(
            s->Arr_0,
            0,
        ) is Some,
        spec_assoc(entries, "music"@) matches Some(m) && m is Obj,
        spec_load_music(spec_assoc(entries, "music"@).unwrap()->Obj_0, 0) == Err::<
            Seq<(Seq<char>, Seq<(Seq<char>, HourSetView)>)>,
            ConfigErrorView,
        >(e),
    ensures
        spec_load(Some(Json::Obj(entries))) == Err::<
            crate::catalog::CollectionView,
            ConfigErrorView,
        >(e),
{
}

} // verus!
