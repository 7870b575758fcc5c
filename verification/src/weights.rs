use vstd::prelude::*;
use vstd::string::*;

use crate::text::str_eq;

verus! {

/// The genres recommended for a mood in a given weather and part of the day, each with
/// its multiplier in tenths (15 stands for 1.5).
pub open spec fn genre_weights_spec(mood: Seq<char>, condition: Seq<char>, period: Seq<char>) -> Seq<(Seq<char>, u32)> {
    let is_night = period == "Nuit"@ || period == "Soir"@;
    let is_rain = condition == "Pluie"@ || condition == "Averses"@;
    let is_storm = condition == "Orageux"@;
    let is_sun = condition == "Ensoleillé"@;
    let is_cloudy = condition == "Nuageux"@ || condition == "Brouillard"@;
    let is_snow = condition == "Neige"@;
    if mood == "joy"@ {
        if is_sun {
            seq![("comedie"@, 15u32), ("romance"@, 14u32), ("animation"@, 13u32), ("familial"@, 11u32)]
        } else if is_rain {
            seq![("comedie"@, 13u32), ("romance"@, 13u32), ("animation"@, 12u32)]
        } else if is_storm {
            seq![("comedie"@, 12u32), ("animation"@, 12u32), ("familial"@, 11u32)]
        } else if is_snow {
            seq![("animation"@, 14u32), ("familial"@, 14u32), ("comedie"@, 13u32)]
        } else {
            seq![("comedie"@, 13u32), ("animation"@, 12u32), ("familial"@, 12u32)]
        }
    } else if mood == "sad"@ {
        if is_rain {
            seq![("drame"@, 15u32), ("romance"@, 14u32), ("histoire"@, 12u32)]
        } else if is_storm {
            seq![("drame"@, 15u32), ("thriller"@, 12u32)]
        } else if is_sun {
            seq![("drame"@, 12u32), ("histoire"@, 13u32), ("romance"@, 11u32)]
        } else if is_snow {
            seq![("drame"@, 13u32), ("romance"@, 14u32), ("familial"@, 11u32)]
        } else {
            seq![("drame"@, 14u32), ("romance"@, 12u32), ("histoire"@, 11u32)]
        }
    } else if mood == "angry"@ {
        if is_storm {
            seq![("action"@, 15u32), ("thriller"@, 15u32), ("guerre"@, 14u32)]
        } else if is_rain {
            seq![("action"@, 14u32), ("thriller"@, 14u32), ("guerre"@, 13u32)]
        } else if is_sun {
            seq![("action"@, 14u32), ("aventure"@, 13u32), ("thriller"@, 12u32)]
        } else if is_snow {
            seq![("action"@, 13u32), ("thriller"@, 13u32), ("guerre"@, 12u32)]
        } else {
            seq![("action"@, 14u32), ("thriller"@, 13u32), ("guerre"@, 12u32)]
        }
    } else if mood == "calm"@ {
        if is_sun {
            seq![("documentaire"@, 14u32), ("animation"@, 13u32), ("familial"@, 13u32)]
        } else if is_cloudy {
            seq![("documentaire"@, 15u32), ("histoire"@, 14u32), ("romance"@, 12u32)]
        } else if is_rain {
            seq![("documentaire"@, 14u32), ("histoire"@, 13u32), ("drame"@, 12u32)]
        } else if is_snow {
            seq![("documentaire"@, 14u32), ("animation"@, 14u32), ("familial"@, 13u32)]
        } else {
            seq![("documentaire"@, 13u32), ("histoire"@, 13u32), ("animation"@, 12u32)]
        }
    } else if mood == "tired"@ {
        if is_rain {
            seq![("familial"@, 15u32), ("animation"@, 15u32), ("fantastique"@, 12u32)]
        } else if is_snow {
            seq![("familial"@, 15u32), ("animation"@, 15u32), ("comedie"@, 13u32)]
        } else if is_storm {
            seq![("animation"@, 14u32), ("familial"@, 14u32), ("comedie"@, 12u32)]
        } else if is_sun {
            seq![("animation"@, 13u32), ("comedie"@, 13u32), ("romance"@, 12u32)]
        } else {
            seq![("animation"@, 14u32), ("familial"@, 14u32), ("comedie"@, 12u32)]
        }
    } else if mood == "fear"@ {
        if is_sun {
            seq![("comedie"@, 15u32), ("familial"@, 14u32), ("romance"@, 13u32)]
        } else if is_night && is_storm {
            seq![("horreur"@, 13u32), ("thriller"@, 14u32)]
        } else if is_night {
            seq![("thriller"@, 13u32), ("horreur"@, 12u32), ("comedie"@, 11u32)]
        } else if is_rain {
            seq![("thriller"@, 12u32), ("comedie"@, 13u32), ("familial"@, 12u32)]
        } else if is_snow {
            seq![("familial"@, 14u32), ("animation"@, 13u32), ("comedie"@, 12u32)]
        } else {
            seq![("thriller"@, 12u32), ("comedie"@, 13u32), ("familial"@, 12u32)]
        }
    } else if mood == "adventure"@ {
        if is_sun {
            seq![("aventure"@, 15u32), ("fantastique"@, 15u32), ("science-fiction"@, 14u32), ("action"@, 13u32)]
        } else if is_rain {
            seq![("aventure"@, 14u32), ("fantastique"@, 13u32), ("science-fiction"@, 13u32)]
        } else if is_storm {
            seq![("action"@, 15u32), ("aventure"@, 14u32), ("guerre"@, 13u32)]
        } else if is_snow {
            seq![("aventure"@, 15u32), ("fantastique"@, 14u32), ("action"@, 13u32)]
        } else {
            seq![("aventure"@, 14u32), ("fantastique"@, 14u32), ("science-fiction"@, 13u32)]
        }
    } else if mood == "reflection"@ {
        if is_rain {
            seq![("documentaire"@, 15u32), ("drame"@, 15u32), ("science-fiction"@, 13u32)]
        } else if is_cloudy {
            seq![("documentaire"@, 15u32), ("histoire"@, 14u32), ("science-fiction"@, 13u32)]
        } else if is_sun {
            seq![("histoire"@, 13u32), ("documentaire"@, 13u32), ("drame"@, 12u32)]
        } else if is_snow {
            seq![("documentaire"@, 14u32), ("science-fiction"@, 14u32), ("histoire"@, 13u32)]
        } else if is_storm {
            seq![("drame"@, 14u32), ("thriller"@, 13u32), ("science-fiction"@, 13u32)]
        } else {
            seq![("documentaire"@, 14u32), ("histoire"@, 13u32), ("drame"@, 13u32)]
        }
    } else {
        seq![("comedie"@, 10u32), ("action"@, 10u32), ("drame"@, 10u32)]
    }
}

/// The view of a weight list: each genre by its characters.
pub open spec fn weights_view(w: Seq<(&'static str, u32)>) -> Seq<(Seq<char>, u32)> {
    w.map_values(|p: (&'static str, u32)| (p.0@, p.1))
}

/// The genres recommended for a mood (`joy`, `sad`, `angry`, `calm`, `tired`, `fear`,
/// `adventure`, `reflection`, anything else) in a weather condition and a part of the
/// day, with their multipliers in tenths.
pub fn get_genre_weights(mood: &str, condition: &str, period: &str) -> (weights: Vec<(&'static str, u32)>)
    ensures
        weights_view(weights@) == genre_weights_spec(mood@, condition@, period@),
{
    let is_night = str_eq(period, "Nuit") || str_eq(period, "Soir");
    let is_rain = str_eq(condition, "Pluie") || str_eq(condition, "Averses");
    let is_storm = str_eq(condition, "Orageux");
    let is_sun = str_eq(condition, "Ensoleillé");
    let is_cloudy = str_eq(condition, "Nuageux") || str_eq(condition, "Brouillard");
    let is_snow = str_eq(condition, "Neige");
    let weights = if str_eq(mood, "joy") {
        if is_sun {
            vec![("comedie", 15u32), ("romance", 14u32), ("animation", 13u32), ("familial", 11u32)]
        } else if is_rain {
            vec![("comedie", 13u32), ("romance", 13u32), ("animation", 12u32)]
        } else if is_storm {
            vec![("comedie", 12u32), ("animation", 12u32), ("familial", 11u32)]
        } else if is_snow {
            vec![("animation", 14u32), ("familial", 14u32), ("comedie", 13u32)]
        } else {
            vec![("comedie", 13u32), ("animation", 12u32), ("familial", 12u32)]
        }
    } else if str_eq(mood, "sad") {
        if is_rain {
            vec![("drame", 15u32), ("romance", 14u32), ("histoire", 12u32)]
        } else if is_storm {
            vec![("drame", 15u32), ("thriller", 12u32)]
        } else if is_sun {
            vec![("drame", 12u32), ("histoire", 13u32), ("romance", 11u32)]
        } else if is_snow {
            vec![("drame", 13u32), ("romance", 14u32), ("familial", 11u32)]
        } else {
            vec![("drame", 14u32), ("romance", 12u32), ("histoire", 11u32)]
        }
    } else if str_eq(mood, "angry") {
        if is_storm {
            vec![("action", 15u32), ("thriller", 15u32), ("guerre", 14u32)]
        } else if is_rain {
            vec![("action", 14u32), ("thriller", 14u32), ("guerre", 13u32)]
        } else if is_sun {
            vec![("action", 14u32), ("aventure", 13u32), ("thriller", 12u32)]
        } else if is_snow {
            vec![("action", 13u32), ("thriller", 13u32), ("guerre", 12u32)]
        } else {
            vec![("action", 14u32), ("thriller", 13u32), ("guerre", 12u32)]
        }
    } else if str_eq(mood, "calm") {
        if is_sun {
            vec![("documentaire", 14u32), ("animation", 13u32), ("familial", 13u32)]
        } else if is_cloudy {
            vec![("documentaire", 15u32), ("histoire", 14u32), ("romance", 12u32)]
        } else if is_rain {
            vec![("documentaire", 14u32), ("histoire", 13u32), ("drame", 12u32)]
        } else if is_snow {
            vec![("documentaire", 14u32), ("animation", 14u32), ("familial", 13u32)]
        } else {
            vec![("documentaire", 13u32), ("histoire", 13u32), ("animation", 12u32)]
        }
    } else if str_eq(mood, "tired") {
        if is_rain {
            vec![("familial", 15u32), ("animation", 15u32), ("fantastique", 12u32)]
        } else if is_snow {
            vec![("familial", 15u32), ("animation", 15u32), ("comedie", 13u32)]
        } else if is_storm {
            vec![("animation", 14u32), ("familial", 14u32), ("comedie", 12u32)]
        } else if is_sun {
            vec![("animation", 13u32), ("comedie", 13u32), ("romance", 12u32)]
        } else {
            vec![("animation", 14u32), ("familial", 14u32), ("comedie", 12u32)]
        }
    } else if str_eq(mood, "fear") {
        if is_sun {
            vec![("comedie", 15u32), ("familial", 14u32), ("romance", 13u32)]
        } else if is_night && is_storm {
            vec![("horreur", 13u32), ("thriller", 14u32)]
        } else if is_night {
            vec![("thriller", 13u32), ("horreur", 12u32), ("comedie", 11u32)]
        } else if is_rain {
            vec![("thriller", 12u32), ("comedie", 13u32), ("familial", 12u32)]
        } else if is_snow {
            vec![("familial", 14u32), ("animation", 13u32), ("comedie", 12u32)]
        } else {
            vec![("thriller", 12u32), ("comedie", 13u32), ("familial", 12u32)]
        }
    } else if str_eq(mood, "adventure") {
        if is_sun {
            vec![("aventure", 15u32), ("fantastique", 15u32), ("science-fiction", 14u32), ("action", 13u32)]
        } else if is_rain {
            vec![("aventure", 14u32), ("fantastique", 13u32), ("science-fiction", 13u32)]
        } else if is_storm {
            vec![("action", 15u32), ("aventure", 14u32), ("guerre", 13u32)]
        } else if is_snow {
            vec![("aventure", 15u32), ("fantastique", 14u32), ("action", 13u32)]
        } else {
            vec![("aventure", 14u32), ("fantastique", 14u32), ("science-fiction", 13u32)]
        }
    } else if str_eq(mood, "reflection") {
        if is_rain {
            vec![("documentaire", 15u32), ("drame", 15u32), ("science-fiction", 13u32)]
        } else if is_cloudy {
            vec![("documentaire", 15u32), ("histoire", 14u32), ("science-fiction", 13u32)]
        } else if is_sun {
            vec![("histoire", 13u32), ("documentaire", 13u32), ("drame", 12u32)]
        } else if is_snow {
            vec![("documentaire", 14u32), ("science-fiction", 14u32), ("histoire", 13u32)]
        } else if is_storm {
            vec![("drame", 14u32), ("thriller", 13u32), ("science-fiction", 13u32)]
        } else {
            vec![("documentaire", 14u32), ("histoire", 13u32), ("drame", 13u32)]
        }
    } else {
        vec![("comedie", 10u32), ("action", 10u32), ("drame", 10u32)]
    }
;
    assert(weights_view(weights@) =~= genre_weights_spec(mood@, condition@, period@));
    weights
}

/// Every mood, known or not, gets at least two genres, each with a multiplier between
/// 1.0 and 1.5; an unknown mood gets comedy, action and drama at 1.0.
pub proof fn lemma_genre_weights(mood: Seq<char>, condition: Seq<char>, period: Seq<char>)
    ensures
        genre_weights_spec(mood, condition, period).len() >= 2,
        forall|i: int| 0 <= i < genre_weights_spec(mood, condition, period).len()
            ==> 10 <= #[trigger] genre_weights_spec(mood, condition, period)[i].1 <= 15,
        mood != "joy"@ && mood != "sad"@ && mood != "angry"@ && mood != "calm"@ && mood != "tired"@
            && mood != "fear"@ && mood != "adventure"@ && mood != "reflection"@
            ==> genre_weights_spec(mood, condition, period) == seq![("comedie"@, 10u32), ("action"@, 10u32), ("drame"@, 10u32)],
{
}

/// The weather labels differ from one another, and so do the moods and the genres.
proof fn lemma_words_distinct()
    ensures
        "comedie"@ != "romance"@,
        "comedie"@ != "animation"@,
        "comedie"@ != "familial"@,
        "comedie"@ != "drame"@,
        "comedie"@ != "histoire"@,
        "comedie"@ != "thriller"@,
        "comedie"@ != "action"@,
        "comedie"@ != "aventure"@,
        "comedie"@ != "guerre"@,
        "comedie"@ != "documentaire"@,
        "comedie"@ != "fantastique"@,
        "comedie"@ != "science-fiction"@,
        "comedie"@ != "horreur"@,
        "romance"@ != "animation"@,
        "romance"@ != "familial"@,
        "romance"@ != "drame"@,
        "romance"@ != "histoire"@,
        "romance"@ != "thriller"@,
        "romance"@ != "action"@,
        "romance"@ != "aventure"@,
        "romance"@ != "guerre"@,
        "romance"@ != "documentaire"@,
        "romance"@ != "fantastique"@,
        "romance"@ != "science-fiction"@,
        "romance"@ != "horreur"@,
        "animation"@ != "familial"@,
        "animation"@ != "drame"@,
        "animation"@ != "histoire"@,
        "animation"@ != "thriller"@,
        "animation"@ != "action"@,
        "animation"@ != "aventure"@,
        "animation"@ != "guerre"@,
        "animation"@ != "documentaire"@,
        "animation"@ != "fantastique"@,
        "animation"@ != "science-fiction"@,
        "animation"@ != "horreur"@,
        "familial"@ != "drame"@,
        "familial"@ != "histoire"@,
        "familial"@ != "thriller"@,
        "familial"@ != "action"@,
        "familial"@ != "aventure"@,
        "familial"@ != "guerre"@,
        "familial"@ != "documentaire"@,
        "familial"@ != "fantastique"@,
        "familial"@ != "science-fiction"@,
        "familial"@ != "horreur"@,
        "drame"@ != "histoire"@,
        "drame"@ != "thriller"@,
        "drame"@ != "action"@,
        "drame"@ != "aventure"@,
        "drame"@ != "guerre"@,
        "drame"@ != "documentaire"@,
        "drame"@ != "fantastique"@,
        "drame"@ != "science-fiction"@,
        "drame"@ != "horreur"@,
        "histoire"@ != "thriller"@,
        "histoire"@ != "action"@,
        "histoire"@ != "aventure"@,
        "histoire"@ != "guerre"@,
        "histoire"@ != "documentaire"@,
        "histoire"@ != "fantastique"@,
        "histoire"@ != "science-fiction"@,
        "histoire"@ != "horreur"@,
        "thriller"@ != "action"@,
        "thriller"@ != "aventure"@,
        "thriller"@ != "guerre"@,
        "thriller"@ != "documentaire"@,
        "thriller"@ != "fantastique"@,
        "thriller"@ != "science-fiction"@,
        "thriller"@ != "horreur"@,
        "action"@ != "aventure"@,
        "action"@ != "guerre"@,
        "action"@ != "documentaire"@,
        "action"@ != "fantastique"@,
        "action"@ != "science-fiction"@,
        "action"@ != "horreur"@,
        "aventure"@ != "guerre"@,
        "aventure"@ != "documentaire"@,
        "aventure"@ != "fantastique"@,
        "aventure"@ != "science-fiction"@,
        "aventure"@ != "horreur"@,
        "guerre"@ != "documentaire"@,
        "guerre"@ != "fantastique"@,
        "guerre"@ != "science-fiction"@,
        "guerre"@ != "horreur"@,
        "documentaire"@ != "fantastique"@,
        "documentaire"@ != "science-fiction"@,
        "documentaire"@ != "horreur"@,
        "fantastique"@ != "science-fiction"@,
        "fantastique"@ != "horreur"@,
        "science-fiction"@ != "horreur"@,
        "Ensoleillé"@ != "Nuageux"@,
        "Ensoleillé"@ != "Brouillard"@,
        "Ensoleillé"@ != "Pluie"@,
        "Ensoleillé"@ != "Averses"@,
        "Ensoleillé"@ != "Neige"@,
        "Ensoleillé"@ != "Orageux"@,
        "Nuageux"@ != "Brouillard"@,
        "Nuageux"@ != "Pluie"@,
        "Nuageux"@ != "Averses"@,
        "Nuageux"@ != "Neige"@,
        "Nuageux"@ != "Orageux"@,
        "Brouillard"@ != "Pluie"@,
        "Brouillard"@ != "Averses"@,
        "Brouillard"@ != "Neige"@,
        "Brouillard"@ != "Orageux"@,
        "Pluie"@ != "Averses"@,
        "Pluie"@ != "Neige"@,
        "Pluie"@ != "Orageux"@,
        "Averses"@ != "Neige"@,
        "Averses"@ != "Orageux"@,
        "Neige"@ != "Orageux"@,
        "joy"@ != "sad"@,
        "joy"@ != "angry"@,
        "joy"@ != "calm"@,
        "joy"@ != "tired"@,
        "joy"@ != "fear"@,
        "joy"@ != "adventure"@,
        "joy"@ != "reflection"@,
        "sad"@ != "angry"@,
        "sad"@ != "calm"@,
        "sad"@ != "tired"@,
        "sad"@ != "fear"@,
        "sad"@ != "adventure"@,
        "sad"@ != "reflection"@,
        "angry"@ != "calm"@,
        "angry"@ != "tired"@,
        "angry"@ != "fear"@,
        "angry"@ != "adventure"@,
        "angry"@ != "reflection"@,
        "calm"@ != "tired"@,
        "calm"@ != "fear"@,
        "calm"@ != "adventure"@,
        "calm"@ != "reflection"@,
        "tired"@ != "fear"@,
        "tired"@ != "adventure"@,
        "tired"@ != "reflection"@,
        "fear"@ != "adventure"@,
        "fear"@ != "reflection"@,
        "adventure"@ != "reflection"@,

{
    reveal_strlit("Ensoleillé");
    reveal_strlit("Nuageux");
    reveal_strlit("Brouillard");
    reveal_strlit("Pluie");
    reveal_strlit("Averses");
    reveal_strlit("Neige");
    reveal_strlit("Orageux");
    reveal_strlit("joy");
    reveal_strlit("sad");
    reveal_strlit("angry");
    reveal_strlit("calm");
    reveal_strlit("tired");
    reveal_strlit("fear");
    reveal_strlit("adventure");
    reveal_strlit("reflection");
    assert("Ensoleillé"@.len() != "Nuageux"@.len());
    assert("Ensoleillé"@[0] != "Brouillard"@[0]);
    assert("Ensoleillé"@.len() != "Pluie"@.len());
    assert("Ensoleillé"@.len() != "Averses"@.len());
    assert("Ensoleillé"@.len() != "Neige"@.len());
    assert("Ensoleillé"@.len() != "Orageux"@.len());
    assert("Nuageux"@.len() != "Brouillard"@.len());
    assert("Nuageux"@.len() != "Pluie"@.len());
    assert("Nuageux"@[0] != "Averses"@[0]);
    assert("Nuageux"@.len() != "Neige"@.len());
    assert("Nuageux"@[0] != "Orageux"@[0]);
    assert("Brouillard"@.len() != "Pluie"@.len());
    assert("Brouillard"@.len() != "Averses"@.len());
    assert("Brouillard"@.len() != "Neige"@.len());
    assert("Brouillard"@.len() != "Orageux"@.len());
    assert("Pluie"@.len() != "Averses"@.len());
    assert("Pluie"@[0] != "Neige"@[0]);
    assert("Pluie"@.len() != "Orageux"@.len());
    assert("Averses"@.len() != "Neige"@.len());
    assert("Averses"@[0] != "Orageux"@[0]);
    assert("Neige"@.len() != "Orageux"@.len());
    assert("joy"@[0] != "sad"@[0]);
    assert("joy"@.len() != "angry"@.len());
    assert("joy"@.len() != "calm"@.len());
    assert("joy"@.len() != "tired"@.len());
    assert("joy"@.len() != "fear"@.len());
    assert("joy"@.len() != "adventure"@.len());
    assert("joy"@.len() != "reflection"@.len());
    assert("sad"@.len() != "angry"@.len());
    assert("sad"@.len() != "calm"@.len());
    assert("sad"@.len() != "tired"@.len());
    assert("sad"@.len() != "fear"@.len());
    assert("sad"@.len() != "adventure"@.len());
    assert("sad"@.len() != "reflection"@.len());
    assert("angry"@.len() != "calm"@.len());
    assert("angry"@[0] != "tired"@[0]);
    assert("angry"@.len() != "fear"@.len());
    assert("angry"@.len() != "adventure"@.len());
    assert("angry"@.len() != "reflection"@.len());
    assert("calm"@.len() != "tired"@.len());
    assert("calm"@[0] != "fear"@[0]);
    assert("calm"@.len() != "adventure"@.len());
    assert("calm"@.len() != "reflection"@.len());
    assert("tired"@.len() != "fear"@.len());
    assert("tired"@.len() != "adventure"@.len());
    assert("tired"@.len() != "reflection"@.len());
    assert("fear"@.len() != "adventure"@.len());
    assert("fear"@.len() != "reflection"@.len());
    assert("adventure"@.len() != "reflection"@.len());
    reveal_strlit("comedie");
    reveal_strlit("romance");
    reveal_strlit("animation");
    reveal_strlit("familial");
    reveal_strlit("drame");
    reveal_strlit("histoire");
    reveal_strlit("thriller");
    reveal_strlit("action");
    reveal_strlit("aventure");
    reveal_strlit("guerre");
    reveal_strlit("documentaire");
    reveal_strlit("fantastique");
    reveal_strlit("science-fiction");
    reveal_strlit("horreur");
    assert("comedie"@[0] != "romance"@[0]);
    assert("comedie"@.len() != "animation"@.len());
    assert("comedie"@.len() != "familial"@.len());
    assert("comedie"@.len() != "drame"@.len());
    assert("comedie"@.len() != "histoire"@.len());
    assert("comedie"@.len() != "thriller"@.len());
    assert("comedie"@.len() != "action"@.len());
    assert("comedie"@.len() != "aventure"@.len());
    assert("comedie"@.len() != "guerre"@.len());
    assert("comedie"@.len() != "documentaire"@.len());
    assert("comedie"@.len() != "fantastique"@.len());
    assert("comedie"@.len() != "science-fiction"@.len());
    assert("comedie"@[0] != "horreur"@[0]);
    assert("romance"@.len() != "animation"@.len());
    assert("romance"@.len() != "familial"@.len());
    assert("romance"@.len() != "drame"@.len());
    assert("romance"@.len() != "histoire"@.len());
    assert("romance"@.len() != "thriller"@.len());
    assert("romance"@.len() != "action"@.len());
    assert("romance"@.len() != "aventure"@.len());
    assert("romance"@.len() != "guerre"@.len());
    assert("romance"@.len() != "documentaire"@.len());
    assert("romance"@.len() != "fantastique"@.len());
    assert("romance"@.len() != "science-fiction"@.len());
    assert("romance"@[0] != "horreur"@[0]);
    assert("animation"@.len() != "familial"@.len());
    assert("animation"@.len() != "drame"@.len());
    assert("animation"@.len() != "histoire"@.len());
    assert("animation"@.len() != "thriller"@.len());
    assert("animation"@.len() != "action"@.len());
    assert("animation"@.len() != "aventure"@.len());
    assert("animation"@.len() != "guerre"@.len());
    assert("animation"@.len() != "documentaire"@.len());
    assert("animation"@.len() != "fantastique"@.len());
    assert("animation"@.len() != "science-fiction"@.len());
    assert("animation"@.len() != "horreur"@.len());
    assert("familial"@.len() != "drame"@.len());
    assert("familial"@[0] != "histoire"@[0]);
    assert("familial"@[0] != "thriller"@[0]);
    assert("familial"@.len() != "action"@.len());
    assert("familial"@[0] != "aventure"@[0]);
    assert("familial"@.len() != "guerre"@.len());
    assert("familial"@.len() != "documentaire"@.len());
    assert("familial"@.len() != "fantastique"@.len());
    assert("familial"@.len() != "science-fiction"@.len());
    assert("familial"@.len() != "horreur"@.len());
    assert("drame"@.len() != "histoire"@.len());
    assert("drame"@.len() != "thriller"@.len());
    assert("drame"@.len() != "action"@.len());
    assert("drame"@.len() != "aventure"@.len());
    assert("drame"@.len() != "guerre"@.len());
    assert("drame"@.len() != "documentaire"@.len());
    assert("drame"@.len() != "fantastique"@.len());
    assert("drame"@.len() != "science-fiction"@.len());
    assert("drame"@.len() != "horreur"@.len());
    assert("histoire"@[0] != "thriller"@[0]);
    assert("histoire"@.len() != "action"@.len());
    assert("histoire"@[0] != "aventure"@[0]);
    assert("histoire"@.len() != "guerre"@.len());
    assert("histoire"@.len() != "documentaire"@.len());
    assert("histoire"@.len() != "fantastique"@.len());
    assert("histoire"@.len() != "science-fiction"@.len());
    assert("histoire"@.len() != "horreur"@.len());
    assert("thriller"@.len() != "action"@.len());
    assert("thriller"@[0] != "aventure"@[0]);
    assert("thriller"@.len() != "guerre"@.len());
    assert("thriller"@.len() != "documentaire"@.len());
    assert("thriller"@.len() != "fantastique"@.len());
    assert("thriller"@.len() != "science-fiction"@.len());
    assert("thriller"@.len() != "horreur"@.len());
    assert("action"@.len() != "aventure"@.len());
    assert("action"@[0] != "guerre"@[0]);
    assert("action"@.len() != "documentaire"@.len());
    assert("action"@.len() != "fantastique"@.len());
    assert("action"@.len() != "science-fiction"@.len());
    assert("action"@.len() != "horreur"@.len());
    assert("aventure"@.len() != "guerre"@.len());
    assert("aventure"@.len() != "documentaire"@.len());
    assert("aventure"@.len() != "fantastique"@.len());
    assert("aventure"@.len() != "science-fiction"@.len());
    assert("aventure"@.len() != "horreur"@.len());
    assert("guerre"@.len() != "documentaire"@.len());
    assert("guerre"@.len() != "fantastique"@.len());
    assert("guerre"@.len() != "science-fiction"@.len());
    assert("guerre"@.len() != "horreur"@.len());
    assert("documentaire"@.len() != "fantastique"@.len());
    assert("documentaire"@.len() != "science-fiction"@.len());
    assert("documentaire"@.len() != "horreur"@.len());
    assert("fantastique"@.len() != "science-fiction"@.len());
    assert("fantastique"@.len() != "horreur"@.len());
    assert("science-fiction"@.len() != "horreur"@.len());
}

/// For the mood `joy`: joy favours comedy in every weather (first in sun, rain, storm and mild weather), at 1.5 in the sun; it never favours drama, thrillers, horror or war films.
/// Stated weather by weather from the recommendation table.
pub proof fn lemma_weights_joy(condition: Seq<char>, period: Seq<char>)
    ensures
        condition == "Ensoleillé"@ ==> genre_weights_spec("joy"@, condition, period) == seq![("comedie"@, 15u32), ("romance"@, 14u32), ("animation"@, 13u32), ("familial"@, 11u32)],
        condition == "Nuageux"@ ==> genre_weights_spec("joy"@, condition, period) == seq![("comedie"@, 13u32), ("animation"@, 12u32), ("familial"@, 12u32)],
        condition == "Brouillard"@ ==> genre_weights_spec("joy"@, condition, period) == seq![("comedie"@, 13u32), ("animation"@, 12u32), ("familial"@, 12u32)],
        condition == "Pluie"@ ==> genre_weights_spec("joy"@, condition, period) == seq![("comedie"@, 13u32), ("romance"@, 13u32), ("animation"@, 12u32)],
        condition == "Averses"@ ==> genre_weights_spec("joy"@, condition, period) == seq![("comedie"@, 13u32), ("romance"@, 13u32), ("animation"@, 12u32)],
        condition == "Neige"@ ==> genre_weights_spec("joy"@, condition, period) == seq![("animation"@, 14u32), ("familial"@, 14u32), ("comedie"@, 13u32)],
        condition == "Orageux"@ ==> genre_weights_spec("joy"@, condition, period) == seq![("comedie"@, 12u32), ("animation"@, 12u32), ("familial"@, 11u32)],
        condition != "Ensoleillé"@ && condition != "Nuageux"@ && condition != "Brouillard"@ && condition != "Pluie"@ && condition != "Averses"@ && condition != "Neige"@ && condition != "Orageux"@ ==> genre_weights_spec("joy"@, condition, period) == seq![("comedie"@, 13u32), ("animation"@, 12u32), ("familial"@, 12u32)],
        ({ let w = genre_weights_spec("joy"@, condition, period); exists|i: int| 0 <= i < w.len() && w[i].0 == "comedie"@ }),
        ({ let w = genre_weights_spec("joy"@, condition, period); forall|i: int| 0 <= i < w.len() ==> w[i].0 != "drame"@ && w[i].0 != "thriller"@ && w[i].0 != "horreur"@ && w[i].0 != "guerre"@ }),

{
    lemma_words_distinct();
    let w = genre_weights_spec("joy"@, condition, period);
    if condition == "Ensoleillé"@ {
        assert(w[0].0 == "comedie"@);
    } else if condition == "Nuageux"@ {
        assert(w[0].0 == "comedie"@);
    } else if condition == "Brouillard"@ {
        assert(w[0].0 == "comedie"@);
    } else if condition == "Pluie"@ {
        assert(w[0].0 == "comedie"@);
    } else if condition == "Averses"@ {
        assert(w[0].0 == "comedie"@);
    } else if condition == "Neige"@ {
        assert(w[2].0 == "comedie"@);
    } else if condition == "Orageux"@ {
        assert(w[0].0 == "comedie"@);
    } else {
        assert(w[0].0 == "comedie"@);
    }
}

/// For the mood `sad`: sadness favours drama first in every weather and never comedy; drama is at 1.5 in rain and storms.
/// Stated weather by weather from the recommendation table.
pub proof fn lemma_weights_sad(condition: Seq<char>, period: Seq<char>)
    ensures
        condition == "Ensoleillé"@ ==> genre_weights_spec("sad"@, condition, period) == seq![("drame"@, 12u32), ("histoire"@, 13u32), ("romance"@, 11u32)],
        condition == "Nuageux"@ ==> genre_weights_spec("sad"@, condition, period) == seq![("drame"@, 14u32), ("romance"@, 12u32), ("histoire"@, 11u32)],
        condition == "Brouillard"@ ==> genre_weights_spec("sad"@, condition, period) == seq![("drame"@, 14u32), ("romance"@, 12u32), ("histoire"@, 11u32)],
        condition == "Pluie"@ ==> genre_weights_spec("sad"@, condition, period) == seq![("drame"@, 15u32), ("romance"@, 14u32), ("histoire"@, 12u32)],
        condition == "Averses"@ ==> genre_weights_spec("sad"@, condition, period) == seq![("drame"@, 15u32), ("romance"@, 14u32), ("histoire"@, 12u32)],
        condition == "Neige"@ ==> genre_weights_spec("sad"@, condition, period) == seq![("drame"@, 13u32), ("romance"@, 14u32), ("familial"@, 11u32)],
        condition == "Orageux"@ ==> genre_weights_spec("sad"@, condition, period) == seq![("drame"@, 15u32), ("thriller"@, 12u32)],
        condition != "Ensoleillé"@ && condition != "Nuageux"@ && condition != "Brouillard"@ && condition != "Pluie"@ && condition != "Averses"@ && condition != "Neige"@ && condition != "Orageux"@ ==> genre_weights_spec("sad"@, condition, period) == seq![("drame"@, 14u32), ("romance"@, 12u32), ("histoire"@, 11u32)],
        ({ let w = genre_weights_spec("sad"@, condition, period); w[0].0 == "drame"@ }),
        ({ let w = genre_weights_spec("sad"@, condition, period); forall|i: int| 0 <= i < w.len() ==> w[i].0 != "comedie"@ }),

{
    lemma_words_distinct();
}

/// For the mood `angry`: anger favours action first in every weather, at 1.5 with thrillers in storms; it never favours comedy.
/// Stated weather by weather from the recommendation table.
pub proof fn lemma_weights_angry(condition: Seq<char>, period: Seq<char>)
    ensures
        condition == "Ensoleillé"@ ==> genre_weights_spec("angry"@, condition, period) == seq![("action"@, 14u32), ("aventure"@, 13u32), ("thriller"@, 12u32)],
        condition == "Nuageux"@ ==> genre_weights_spec("angry"@, condition, period) == seq![("action"@, 14u32), ("thriller"@, 13u32), ("guerre"@, 12u32)],
        condition == "Brouillard"@ ==> genre_weights_spec("angry"@, condition, period) == seq![("action"@, 14u32), ("thriller"@, 13u32), ("guerre"@, 12u32)],
        condition == "Pluie"@ ==> genre_weights_spec("angry"@, condition, period) == seq![("action"@, 14u32), ("thriller"@, 14u32), ("guerre"@, 13u32)],
        condition == "Averses"@ ==> genre_weights_spec("angry"@, condition, period) == seq![("action"@, 14u32), ("thriller"@, 14u32), ("guerre"@, 13u32)],
        condition == "Neige"@ ==> genre_weights_spec("angry"@, condition, period) == seq![("action"@, 13u32), ("thriller"@, 13u32), ("guerre"@, 12u32)],
        condition == "Orageux"@ ==> genre_weights_spec("angry"@, condition, period) == seq![("action"@, 15u32), ("thriller"@, 15u32), ("guerre"@, 14u32)],
        condition != "Ensoleillé"@ && condition != "Nuageux"@ && condition != "Brouillard"@ && condition != "Pluie"@ && condition != "Averses"@ && condition != "Neige"@ && condition != "Orageux"@ ==> genre_weights_spec("angry"@, condition, period) == seq![("action"@, 14u32), ("thriller"@, 13u32), ("guerre"@, 12u32)],
        ({ let w = genre_weights_spec("angry"@, condition, period); w[0].0 == "action"@ }),
        ({ let w = genre_weights_spec("angry"@, condition, period); forall|i: int| 0 <= i < w.len() ==> w[i].0 != "comedie"@ }),

{
    lemma_words_distinct();
}

/// For the mood `calm`: calm favours documentaries first in every weather, at 1.5 when cloudy; it never favours thrillers or horror.
/// Stated weather by weather from the recommendation table.
pub proof fn lemma_weights_calm(condition: Seq<char>, period: Seq<char>)
    ensures
        condition == "Ensoleillé"@ ==> genre_weights_spec("calm"@, condition, period) == seq![("documentaire"@, 14u32), ("animation"@, 13u32), ("familial"@, 13u32)],
        condition == "Nuageux"@ ==> genre_weights_spec("calm"@, condition, period) == seq![("documentaire"@, 15u32), ("histoire"@, 14u32), ("romance"@, 12u32)],
        condition == "Brouillard"@ ==> genre_weights_spec("calm"@, condition, period) == seq![("documentaire"@, 15u32), ("histoire"@, 14u32), ("romance"@, 12u32)],
        condition == "Pluie"@ ==> genre_weights_spec("calm"@, condition, period) == seq![("documentaire"@, 14u32), ("histoire"@, 13u32), ("drame"@, 12u32)],
        condition == "Averses"@ ==> genre_weights_spec("calm"@, condition, period) == seq![("documentaire"@, 14u32), ("histoire"@, 13u32), ("drame"@, 12u32)],
        condition == "Neige"@ ==> genre_weights_spec("calm"@, condition, period) == seq![("documentaire"@, 14u32), ("animation"@, 14u32), ("familial"@, 13u32)],
        condition == "Orageux"@ ==> genre_weights_spec("calm"@, condition, period) == seq![("documentaire"@, 13u32), ("histoire"@, 13u32), ("animation"@, 12u32)],
        condition != "Ensoleillé"@ && condition != "Nuageux"@ && condition != "Brouillard"@ && condition != "Pluie"@ && condition != "Averses"@ && condition != "Neige"@ && condition != "Orageux"@ ==> genre_weights_spec("calm"@, condition, period) == seq![("documentaire"@, 13u32), ("histoire"@, 13u32), ("animation"@, 12u32)],
        ({ let w = genre_weights_spec("calm"@, condition, period); w[0].0 == "documentaire"@ }),
        ({ let w = genre_weights_spec("calm"@, condition, period); forall|i: int| 0 <= i < w.len() ==> w[i].0 != "thriller"@ && w[i].0 != "horreur"@ }),

{
    lemma_words_distinct();
}

/// For the mood `tired`: tiredness favours animation in every weather, at 1.5 with family films in rain and snow; it never favours thrillers or horror.
/// Stated weather by weather from the recommendation table.
pub proof fn lemma_weights_tired(condition: Seq<char>, period: Seq<char>)
    ensures
        condition == "Ensoleillé"@ ==> genre_weights_spec("tired"@, condition, period) == seq![("animation"@, 13u32), ("comedie"@, 13u32), ("romance"@, 12u32)],
        condition == "Nuageux"@ ==> genre_weights_spec("tired"@, condition, period) == seq![("animation"@, 14u32), ("familial"@, 14u32), ("comedie"@, 12u32)],
        condition == "Brouillard"@ ==> genre_weights_spec("tired"@, condition, period) == seq![("animation"@, 14u32), ("familial"@, 14u32), ("comedie"@, 12u32)],
        condition == "Pluie"@ ==> genre_weights_spec("tired"@, condition, period) == seq![("familial"@, 15u32), ("animation"@, 15u32), ("fantastique"@, 12u32)],
        condition == "Averses"@ ==> genre_weights_spec("tired"@, condition, period) == seq![("familial"@, 15u32), ("animation"@, 15u32), ("fantastique"@, 12u32)],
        condition == "Neige"@ ==> genre_weights_spec("tired"@, condition, period) == seq![("familial"@, 15u32), ("animation"@, 15u32), ("comedie"@, 13u32)],
        condition == "Orageux"@ ==> genre_weights_spec("tired"@, condition, period) == seq![("animation"@, 14u32), ("familial"@, 14u32), ("comedie"@, 12u32)],
        condition != "Ensoleillé"@ && condition != "Nuageux"@ && condition != "Brouillard"@ && condition != "Pluie"@ && condition != "Averses"@ && condition != "Neige"@ && condition != "Orageux"@ ==> genre_weights_spec("tired"@, condition, period) == seq![("animation"@, 14u32), ("familial"@, 14u32), ("comedie"@, 12u32)],
        ({ let w = genre_weights_spec("tired"@, condition, period); exists|i: int| 0 <= i < w.len() && w[i].0 == "animation"@ }),
        ({ let w = genre_weights_spec("tired"@, condition, period); forall|i: int| 0 <= i < w.len() ==> w[i].0 != "thriller"@ && w[i].0 != "horreur"@ }),

{
    lemma_words_distinct();
    let w = genre_weights_spec("tired"@, condition, period);
    if condition == "Ensoleillé"@ {
        assert(w[0].0 == "animation"@);
    } else if condition == "Nuageux"@ {
        assert(w[0].0 == "animation"@);
    } else if condition == "Brouillard"@ {
        assert(w[0].0 == "animation"@);
    } else if condition == "Pluie"@ {
        assert(w[1].0 == "animation"@);
    } else if condition == "Averses"@ {
        assert(w[1].0 == "animation"@);
    } else if condition == "Neige"@ {
        assert(w[1].0 == "animation"@);
    } else if condition == "Orageux"@ {
        assert(w[0].0 == "animation"@);
    } else {
        assert(w[0].0 == "animation"@);
    }
}

/// For the mood `fear`: fear favours comedy first (at 1.5) in the sun; at night it favours thrillers and horror, horror first in a storm; elsewhere thrillers first.
/// Stated weather by weather from the recommendation table.
pub proof fn lemma_weights_fear(condition: Seq<char>, period: Seq<char>)
    ensures
        condition == "Ensoleillé"@ ==> genre_weights_spec("fear"@, condition, period) == seq![("comedie"@, 15u32), ("familial"@, 14u32), ("romance"@, 13u32)],
        condition == "Nuageux"@ && !(period == "Nuit"@ || period == "Soir"@) ==> genre_weights_spec("fear"@, condition, period) == seq![("thriller"@, 12u32), ("comedie"@, 13u32), ("familial"@, 12u32)],
        condition == "Nuageux"@ && (period == "Nuit"@ || period == "Soir"@) ==> genre_weights_spec("fear"@, condition, period) == seq![("thriller"@, 13u32), ("horreur"@, 12u32), ("comedie"@, 11u32)],
        condition == "Brouillard"@ && !(period == "Nuit"@ || period == "Soir"@) ==> genre_weights_spec("fear"@, condition, period) == seq![("thriller"@, 12u32), ("comedie"@, 13u32), ("familial"@, 12u32)],
        condition == "Brouillard"@ && (period == "Nuit"@ || period == "Soir"@) ==> genre_weights_spec("fear"@, condition, period) == seq![("thriller"@, 13u32), ("horreur"@, 12u32), ("comedie"@, 11u32)],
        condition == "Pluie"@ && !(period == "Nuit"@ || period == "Soir"@) ==> genre_weights_spec("fear"@, condition, period) == seq![("thriller"@, 12u32), ("comedie"@, 13u32), ("familial"@, 12u32)],
        condition == "Pluie"@ && (period == "Nuit"@ || period == "Soir"@) ==> genre_weights_spec("fear"@, condition, period) == seq![("thriller"@, 13u32), ("horreur"@, 12u32), ("comedie"@, 11u32)],
        condition == "Averses"@ && !(period == "Nuit"@ || period == "Soir"@) ==> genre_weights_spec("fear"@, condition, period) == seq![("thriller"@, 12u32), ("comedie"@, 13u32), ("familial"@, 12u32)],
        condition == "Averses"@ && (period == "Nuit"@ || period == "Soir"@) ==> genre_weights_spec("fear"@, condition, period) == seq![("thriller"@, 13u32), ("horreur"@, 12u32), ("comedie"@, 11u32)],
        condition == "Neige"@ && !(period == "Nuit"@ || period == "Soir"@) ==> genre_weights_spec("fear"@, condition, period) == seq![("familial"@, 14u32), ("animation"@, 13u32), ("comedie"@, 12u32)],
        condition == "Neige"@ && (period == "Nuit"@ || period == "Soir"@) ==> genre_weights_spec("fear"@, condition, period) == seq![("thriller"@, 13u32), ("horreur"@, 12u32), ("comedie"@, 11u32)],
        condition == "Orageux"@ && !(period == "Nuit"@ || period == "Soir"@) ==> genre_weights_spec("fear"@, condition, period) == seq![("thriller"@, 12u32), ("comedie"@, 13u32), ("familial"@, 12u32)],
        condition == "Orageux"@ && (period == "Nuit"@ || period == "Soir"@) ==> genre_weights_spec("fear"@, condition, period) == seq![("horreur"@, 13u32), ("thriller"@, 14u32)],
        condition != "Ensoleillé"@ && condition != "Nuageux"@ && condition != "Brouillard"@ && condition != "Pluie"@ && condition != "Averses"@ && condition != "Neige"@ && condition != "Orageux"@ && !(period == "Nuit"@ || period == "Soir"@) ==> genre_weights_spec("fear"@, condition, period) == seq![("thriller"@, 12u32), ("comedie"@, 13u32), ("familial"@, 12u32)],
        condition != "Ensoleillé"@ && condition != "Nuageux"@ && condition != "Brouillard"@ && condition != "Pluie"@ && condition != "Averses"@ && condition != "Neige"@ && condition != "Orageux"@ && (period == "Nuit"@ || period == "Soir"@) ==> genre_weights_spec("fear"@, condition, period) == seq![("thriller"@, 13u32), ("horreur"@, 12u32), ("comedie"@, 11u32)],

{
    lemma_words_distinct();
}

/// For the mood `adventure`: the adventure mood favours adventure films in every weather, first and at 1.5 in the sun and snow, after action in storms.
/// Stated weather by weather from the recommendation table.
pub proof fn lemma_weights_adventure(condition: Seq<char>, period: Seq<char>)
    ensures
        condition == "Ensoleillé"@ ==> genre_weights_spec("adventure"@, condition, period) == seq![("aventure"@, 15u32), ("fantastique"@, 15u32), ("science-fiction"@, 14u32), ("action"@, 13u32)],
        condition == "Nuageux"@ ==> genre_weights_spec("adventure"@, condition, period) == seq![("aventure"@, 14u32), ("fantastique"@, 14u32), ("science-fiction"@, 13u32)],
        condition == "Brouillard"@ ==> genre_weights_spec("adventure"@, condition, period) == seq![("aventure"@, 14u32), ("fantastique"@, 14u32), ("science-fiction"@, 13u32)],
        condition == "Pluie"@ ==> genre_weights_spec("adventure"@, condition, period) == seq![("aventure"@, 14u32), ("fantastique"@, 13u32), ("science-fiction"@, 13u32)],
        condition == "Averses"@ ==> genre_weights_spec("adventure"@, condition, period) == seq![("aventure"@, 14u32), ("fantastique"@, 13u32), ("science-fiction"@, 13u32)],
        condition == "Neige"@ ==> genre_weights_spec("adventure"@, condition, period) == seq![("aventure"@, 15u32), ("fantastique"@, 14u32), ("action"@, 13u32)],
        condition == "Orageux"@ ==> genre_weights_spec("adventure"@, condition, period) == seq![("action"@, 15u32), ("aventure"@, 14u32), ("guerre"@, 13u32)],
        condition != "Ensoleillé"@ && condition != "Nuageux"@ && condition != "Brouillard"@ && condition != "Pluie"@ && condition != "Averses"@ && condition != "Neige"@ && condition != "Orageux"@ ==> genre_weights_spec("adventure"@, condition, period) == seq![("aventure"@, 14u32), ("fantastique"@, 14u32), ("science-fiction"@, 13u32)],
        ({ let w = genre_weights_spec("adventure"@, condition, period); exists|i: int| 0 <= i < w.len() && w[i].0 == "aventure"@ }),

{
    lemma_words_distinct();
    let w = genre_weights_spec("adventure"@, condition, period);
    if condition == "Ensoleillé"@ {
        assert(w[0].0 == "aventure"@);
    } else if condition == "Nuageux"@ {
        assert(w[0].0 == "aventure"@);
    } else if condition == "Brouillard"@ {
        assert(w[0].0 == "aventure"@);
    } else if condition == "Pluie"@ {
        assert(w[0].0 == "aventure"@);
    } else if condition == "Averses"@ {
        assert(w[0].0 == "aventure"@);
    } else if condition == "Neige"@ {
        assert(w[0].0 == "aventure"@);
    } else if condition == "Orageux"@ {
        assert(w[1].0 == "aventure"@);
    } else {
        assert(w[0].0 == "aventure"@);
    }
}

/// For the mood `reflection`: reflection favours documentaries or drama in every weather, both at 1.5 in rain; it never favours comedy.
/// Stated weather by weather from the recommendation table.
pub proof fn lemma_weights_reflection(condition: Seq<char>, period: Seq<char>)
    ensures
        condition == "Ensoleillé"@ ==> genre_weights_spec("reflection"@, condition, period) == seq![("histoire"@, 13u32), ("documentaire"@, 13u32), ("drame"@, 12u32)],
        condition == "Nuageux"@ ==> genre_weights_spec("reflection"@, condition, period) == seq![("documentaire"@, 15u32), ("histoire"@, 14u32), ("science-fiction"@, 13u32)],
        condition == "Brouillard"@ ==> genre_weights_spec("reflection"@, condition, period) == seq![("documentaire"@, 15u32), ("histoire"@, 14u32), ("science-fiction"@, 13u32)],
        condition == "Pluie"@ ==> genre_weights_spec("reflection"@, condition, period) == seq![("documentaire"@, 15u32), ("drame"@, 15u32), ("science-fiction"@, 13u32)],
        condition == "Averses"@ ==> genre_weights_spec("reflection"@, condition, period) == seq![("documentaire"@, 15u32), ("drame"@, 15u32), ("science-fiction"@, 13u32)],
        condition == "Neige"@ ==> genre_weights_spec("reflection"@, condition, period) == seq![("documentaire"@, 14u32), ("science-fiction"@, 14u32), ("histoire"@, 13u32)],
        condition == "Orageux"@ ==> genre_weights_spec("reflection"@, condition, period) == seq![("drame"@, 14u32), ("thriller"@, 13u32), ("science-fiction"@, 13u32)],
        condition != "Ensoleillé"@ && condition != "Nuageux"@ && condition != "Brouillard"@ && condition != "Pluie"@ && condition != "Averses"@ && condition != "Neige"@ && condition != "Orageux"@ ==> genre_weights_spec("reflection"@, condition, period) == seq![("documentaire"@, 14u32), ("histoire"@, 13u32), ("drame"@, 13u32)],
        ({ let w = genre_weights_spec("reflection"@, condition, period); exists|i: int| 0 <= i < w.len() && (w[i].0 == "documentaire"@ || w[i].0 == "drame"@) }),
        ({ let w = genre_weights_spec("reflection"@, condition, period); forall|i: int| 0 <= i < w.len() ==> w[i].0 != "comedie"@ }),

{
    lemma_words_distinct();
    let w = genre_weights_spec("reflection"@, condition, period);
    if condition == "Ensoleillé"@ {
        assert(w[1].0 == "documentaire"@);
    } else if condition == "Nuageux"@ {
        assert(w[0].0 == "documentaire"@);
    } else if condition == "Brouillard"@ {
        assert(w[0].0 == "documentaire"@);
    } else if condition == "Pluie"@ {
        assert(w[0].0 == "documentaire"@);
    } else if condition == "Averses"@ {
        assert(w[0].0 == "documentaire"@);
    } else if condition == "Neige"@ {
        assert(w[0].0 == "documentaire"@);
    } else if condition == "Orageux"@ {
        assert(w[0].0 == "drame"@);
    } else {
        assert(w[0].0 == "documentaire"@);
    }
}

} // verus!
