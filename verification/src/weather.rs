use vstd::prelude::*;
use vstd::string::*;

use crate::text::{
    all_digits, chars_of, digits_value, find_char, first_pos, is_digit, lemma_first_pos, parse_u32,
    parse_u32_spec,
};

verus! {

/// The French label of a WMO weather code.
pub open spec fn weather_label(code: i32) -> Seq<char> {
    if code == 0 {
        "Ensoleillé"@
    } else if 1 <= code <= 41 {
        "Nuageux"@
    } else if 42 <= code <= 48 {
        "Brouillard"@
    } else if 51 <= code <= 67 {
        "Pluie"@
    } else if 71 <= code <= 77 {
        "Neige"@
    } else if 80 <= code <= 86 {
        "Averses"@
    } else if 95 <= code <= 99 {
        "Orageux"@
    } else {
        "Inconnu"@
    }
}

/// The weather labels differ from one another, and so do the parts of the day.
proof fn lemma_labels_distinct()
    ensures
        "Ensoleillé"@ != "Nuageux"@,
        "Ensoleillé"@ != "Brouillard"@,
        "Ensoleillé"@ != "Pluie"@,
        "Ensoleillé"@ != "Neige"@,
        "Ensoleillé"@ != "Averses"@,
        "Ensoleillé"@ != "Orageux"@,
        "Ensoleillé"@ != "Inconnu"@,
        "Nuageux"@ != "Brouillard"@,
        "Nuageux"@ != "Pluie"@,
        "Nuageux"@ != "Neige"@,
        "Nuageux"@ != "Averses"@,
        "Nuageux"@ != "Orageux"@,
        "Nuageux"@ != "Inconnu"@,
        "Brouillard"@ != "Pluie"@,
        "Brouillard"@ != "Neige"@,
        "Brouillard"@ != "Averses"@,
        "Brouillard"@ != "Orageux"@,
        "Brouillard"@ != "Inconnu"@,
        "Pluie"@ != "Neige"@,
        "Pluie"@ != "Averses"@,
        "Pluie"@ != "Orageux"@,
        "Pluie"@ != "Inconnu"@,
        "Neige"@ != "Averses"@,
        "Neige"@ != "Orageux"@,
        "Neige"@ != "Inconnu"@,
        "Averses"@ != "Orageux"@,
        "Averses"@ != "Inconnu"@,
        "Orageux"@ != "Inconnu"@,
        "Matin"@ != "Après-midi"@,
        "Matin"@ != "Soir"@,
        "Matin"@ != "Nuit"@,
        "Après-midi"@ != "Soir"@,
        "Après-midi"@ != "Nuit"@,
        "Soir"@ != "Nuit"@,
{
    reveal_strlit("Ensoleillé");
    reveal_strlit("Nuageux");
    reveal_strlit("Brouillard");
    reveal_strlit("Pluie");
    reveal_strlit("Neige");
    reveal_strlit("Averses");
    reveal_strlit("Orageux");
    reveal_strlit("Inconnu");
    reveal_strlit("Matin");
    reveal_strlit("Après-midi");
    reveal_strlit("Soir");
    reveal_strlit("Nuit");
    assert("Ensoleillé"@.len() == 10 && "Brouillard"@.len() == 10 && "Après-midi"@.len() == 10);
    assert("Nuageux"@.len() == 7 && "Averses"@.len() == 7 && "Orageux"@.len() == 7 && "Inconnu"@.len() == 7);
    assert("Pluie"@.len() == 5 && "Neige"@.len() == 5 && "Matin"@.len() == 5);
    assert("Soir"@.len() == 4 && "Nuit"@.len() == 4);
    assert("Ensoleillé"@[0] != "Brouillard"@[0]);
    assert("Nuageux"@[0] != "Averses"@[0]);
    assert("Nuageux"@[0] != "Orageux"@[0]);
    assert("Nuageux"@[0] != "Inconnu"@[0]);
    assert("Averses"@[0] != "Orageux"@[0]);
    assert("Averses"@[0] != "Inconnu"@[0]);
    assert("Orageux"@[0] != "Inconnu"@[0]);
    assert("Pluie"@[0] != "Neige"@[0]);
    assert("Soir"@[0] != "Nuit"@[0]);
}

/// Each weather label covers one contiguous range of WMO codes, given by its bounds: a code
/// gets a label exactly when it lies in that label's range, and every code outside all the
/// ranges is unknown.
pub proof fn lemma_weather_code_ranges(code: i32)
    ensures
        weather_label(code) == "Ensoleillé"@ <==> code == 0,
        weather_label(code) == "Nuageux"@ <==> 1 <= code <= 41,
        weather_label(code) == "Brouillard"@ <==> 42 <= code <= 48,
        weather_label(code) == "Pluie"@ <==> 51 <= code <= 67,
        weather_label(code) == "Neige"@ <==> 71 <= code <= 77,
        weather_label(code) == "Averses"@ <==> 80 <= code <= 86,
        weather_label(code) == "Orageux"@ <==> 95 <= code <= 99,
        weather_label(code) == "Inconnu"@ <==> (code < 0 || 49 <= code <= 50 || 68 <= code <= 70
            || 78 <= code <= 79 || 87 <= code <= 94 || code > 99),
{
    lemma_labels_distinct();
}

/// Translates a WMO weather code into the label shown to users.
pub fn translate_weather_code(code: i32) -> (label: String)
    ensures
        label@ == weather_label(code),
{
    if code == 0 {
        String::from_str("Ensoleillé")
    } else if 1 <= code && code <= 41 {
        String::from_str("Nuageux")
    } else if 42 <= code && code <= 48 {
        String::from_str("Brouillard")
    } else if 51 <= code && code <= 67 {
        String::from_str("Pluie")
    } else if 71 <= code && code <= 77 {
        String::from_str("Neige")
    } else if 80 <= code && code <= 86 {
        String::from_str("Averses")
    } else if 95 <= code && code <= 99 {
        String::from_str("Orageux")
    } else {
        String::from_str("Inconnu")
    }
}

/// The hour field of an ISO timestamp such as `2024-01-01T06:00`: the text between the
/// first `T` and the next `T` (or the end), cut at the first `:`. `None` when there is no `T`.
pub open spec fn hour_field(t: Seq<char>) -> Option<Seq<char>> {
    let p = first_pos(t, 'T');
    if p < t.len() {
        let rest = t.subrange((p + 1) as int, t.len() as int);
        let seg = rest.take(first_pos(rest, 'T') as int);
        Some(seg.take(first_pos(seg, ':') as int))
    } else {
        None
    }
}

/// The hour read from a timestamp, 12 when it cannot be read.
pub open spec fn hour_of(t: Seq<char>) -> u32 {
    match hour_field(t) {
        Some(h) => match parse_u32_spec(h) {
            Some(v) => v,
            None => 12,
        },
        None => 12,
    }
}

/// The part of the day that an hour falls in.
pub open spec fn period_of_hour(h: u32) -> Seq<char> {
    if 6 <= h <= 11 {
        "Matin"@
    } else if 12 <= h <= 17 {
        "Après-midi"@
    } else if 18 <= h <= 21 {
        "Soir"@
    } else {
        "Nuit"@
    }
}

/// Each part of the day is one interval of hours, given by its bounds: morning from 6 to 11,
/// afternoon from 12 to 17, evening from 18 to 21, night for every other hour.
pub proof fn lemma_period_intervals(h: u32)
    ensures
        period_of_hour(h) == "Matin"@ <==> 6 <= h <= 11,
        period_of_hour(h) == "Après-midi"@ <==> 12 <= h <= 17,
        period_of_hour(h) == "Soir"@ <==> 18 <= h <= 21,
        period_of_hour(h) == "Nuit"@ <==> (h < 6 || h > 21),
{
    lemma_labels_distinct();
}

/// In a timestamp `<date>T<hour>:<rest>` whose date holds no `T` and whose hour holds neither
/// `T` nor `:`, the hour field is exactly `<hour>`, whatever follows it.
pub proof fn lemma_hour_field_shape(date: Seq<char>, hour: Seq<char>, rest: Seq<char>)
    requires
        forall|i: int| 0 <= i < date.len() ==> date[i] != 'T',
        forall|i: int| 0 <= i < hour.len() ==> hour[i] != 'T' && hour[i] != ':',
    ensures
        hour_field(date + seq!['T'] + hour + seq![':'] + rest) == Some(hour),
{
    let t = date + seq!['T'] + hour + seq![':'] + rest;
    let n = date.len() as int;
    assert forall|j: int| 0 <= j < n implies t[j] != 'T' by {
        assert(t[j] == date[j]);
    }
    assert(t[n] == 'T');
    lemma_first_pos(t, 'T', n);
    let r = t.subrange(n + 1, t.len() as int);
    assert(r =~= hour + seq![':'] + rest);
    let m = hour.len() as int;
    assert(r[m] == ':');
    let q = first_pos(r, 'T');
    crate::text::lemma_first_pos_bound(r, 'T');
    if q <= m {
        assert(r[q as int] == 'T');
        if q < m {
            assert(r[q as int] == hour[q as int]);
        }
        assert(false);
    }
    let seg = r.take(q as int);
    assert forall|j: int| 0 <= j < m implies seg[j] != ':' by {
        assert(seg[j] == hour[j]);
    }
    assert(seg[m] == ':');
    lemma_first_pos(seg, ':', m);
    assert(seg.take(m) =~= hour);
}

/// Two decimal digits read as a number give ten times the first plus the second.
pub proof fn lemma_parse_two_digits(a: char, b: char)
    requires
        is_digit(a),
        is_digit(b),
    ensures
        parse_u32_spec(seq![a, b]) == Some((((a as int) - ('0' as int)) * 10 + ((b as int) - ('0' as int))) as u32),
{
    let s = seq![a, b];
    assert(all_digits(s));
    assert(s.drop_last() =~= seq![a]);
    assert(seq![a].drop_last() =~= Seq::<char>::empty());
    assert(digits_value(Seq::<char>::empty()) == 0);
    assert(seq![a].last() == a);
    assert(s.last() == b);
    assert(digits_value(seq![a]) == (a as int) - ('0' as int));
    assert(digits_value(s) == ((a as int) - ('0' as int)) * 10 + ((b as int) - ('0' as int)));
}

/// The part of the day of a timestamp `<date>T<h1><h2>:<rest>` with a two-digit hour: the hour
/// read is the number those digits write, and the part of the day is the interval it lies in.
pub proof fn lemma_time_of_day_of_timestamp(date: Seq<char>, h1: char, h2: char, rest: Seq<char>)
    requires
        forall|i: int| 0 <= i < date.len() ==> date[i] != 'T',
        is_digit(h1),
        is_digit(h2),
    ensures
        ({
            let t = date + seq!['T', h1, h2, ':'] + rest;
            let h = ((h1 as int) - ('0' as int)) * 10 + ((h2 as int) - ('0' as int));
            &&& hour_of(t) == h
            &&& (period_of_hour(hour_of(t)) == "Matin"@ <==> 6 <= h <= 11)
            &&& (period_of_hour(hour_of(t)) == "Après-midi"@ <==> 12 <= h <= 17)
            &&& (period_of_hour(hour_of(t)) == "Soir"@ <==> 18 <= h <= 21)
            &&& (period_of_hour(hour_of(t)) == "Nuit"@ <==> (h < 6 || h > 21))
        }),
{
    let t = date + seq!['T', h1, h2, ':'] + rest;
    assert(t =~= date + seq!['T'] + seq![h1, h2] + seq![':'] + rest);
    lemma_hour_field_shape(date, seq![h1, h2], rest);
    lemma_parse_two_digits(h1, h2);
    lemma_period_intervals(hour_of(t));
}

/// A timestamp whose hour cannot be read counts as noon, so its part of the day is the
/// afternoon.
pub proof fn lemma_unreadable_hour(t: Seq<char>)
    requires
        hour_field(t) is None || parse_u32_spec(hour_field(t)->0) is None,
    ensures
        hour_of(t) == 12,
        period_of_hour(hour_of(t)) == "Après-midi"@,
{
}

/// The part of the day of an ISO timestamp; a timestamp whose hour cannot be read counts
/// as noon, so it never fails.
pub fn get_time_of_day(time_str: &str) -> (period: String)
    ensures
        period@ == period_of_hour(hour_of(time_str@)),
{
    let v = chars_of(time_str);
    let n = v.len();
    let ghost t = time_str@;
    assert(v@.subrange(0, n as int) =~= t);
    let p = find_char(&v, 0, n, 'T');
    let hour: u32 = if p == n {
        12
    } else {
        let q = find_char(&v, p + 1, n, 'T');
        let r = find_char(&v, p + 1, q, ':');
        proof {
            let rest = t.subrange((p + 1) as int, t.len() as int);
            assert(rest =~= v@.subrange(p + 1, n as int));
            let seg = rest.take(first_pos(rest, 'T') as int);
            assert(seg =~= v@.subrange(p + 1, q as int));
            assert(seg.take(first_pos(seg, ':') as int) =~= v@.subrange(p + 1, r as int));
        }
        match parse_u32(&v, p + 1, r) {
            Some(h) => h,
            None => 12,
        }
    };
    if 6 <= hour && hour <= 11 {
        String::from_str("Matin")
    } else if 12 <= hour && hour <= 17 {
        String::from_str("Après-midi")
    } else if 18 <= hour && hour <= 21 {
        String::from_str("Soir")
    } else {
        String::from_str("Nuit")
    }
}

/// The answer of the reverse-geocoding service.
pub struct GeoResponse {
    pub city: Option<String>,
    pub locality: Option<String>,
}

/// The place name shown for a position: the city when the service gave a non-empty one, else
/// the locality (small villages) when non-empty, else "Position locale"; also "Position locale"
/// when the service could not be reached or answered something unreadable (`None`).
pub open spec fn place_name(geo: Option<GeoResponse>) -> Seq<char> {
    match geo {
        Some(g) => if g.city matches Some(c) && c@.len() > 0 {
            g.city->0@
        } else if g.locality matches Some(l) && l@.len() > 0 {
            g.locality->0@
        } else {
            "Position locale"@
        },
        None => "Position locale"@,
    }
}

/// The place name of a reverse-geocoding answer (see `place_name`).
pub fn city_name(geo: Option<GeoResponse>) -> (name: String)
    ensures
        name@ == place_name(geo),
{
    if let Some(g) = geo {
        if let Some(c) = g.city {
            if !c.as_str().is_empty() {
                return c;
            }
        }
        if let Some(l) = g.locality {
            if !l.as_str().is_empty() {
                return l;
            }
        }
    }
    String::from_str("Position locale")
}

} // verus!
