use mood_movies::weather::{city_name, get_time_of_day, translate_weather_code, GeoResponse};

// --- translate_weather_code ---

#[test]
fn test_weather_code_ensoleille() {
    assert_eq!(translate_weather_code(0), "Ensoleillé");
}

#[test]
fn test_weather_code_nuageux() {
    assert_eq!(translate_weather_code(1), "Nuageux");
    assert_eq!(translate_weather_code(41), "Nuageux");
}

#[test]
fn test_weather_code_brouillard() {
    assert_eq!(translate_weather_code(45), "Brouillard");
}

#[test]
fn test_weather_code_pluie() {
    assert_eq!(translate_weather_code(51), "Pluie");
    assert_eq!(translate_weather_code(67), "Pluie");
}

#[test]
fn test_weather_code_neige() {
    assert_eq!(translate_weather_code(71), "Neige");
    assert_eq!(translate_weather_code(77), "Neige");
}

#[test]
fn test_weather_code_averses() {
    assert_eq!(translate_weather_code(80), "Averses");
    assert_eq!(translate_weather_code(86), "Averses");
}

#[test]
fn test_weather_code_orageux() {
    assert_eq!(translate_weather_code(95), "Orageux");
    assert_eq!(translate_weather_code(99), "Orageux");
}

#[test]
fn test_weather_code_inconnu() {
    assert_eq!(translate_weather_code(200), "Inconnu");
}

// --- get_time_of_day ---

#[test]
fn test_period_matin() {
    assert_eq!(get_time_of_day("2024-01-01T06:00"), "Matin");
    assert_eq!(get_time_of_day("2024-01-01T11:00"), "Matin");
}

#[test]
fn test_period_apres_midi() {
    assert_eq!(get_time_of_day("2024-01-01T12:00"), "Après-midi");
    assert_eq!(get_time_of_day("2024-01-01T17:00"), "Après-midi");
}

#[test]
fn test_period_soir() {
    assert_eq!(get_time_of_day("2024-01-01T18:00"), "Soir");
    assert_eq!(get_time_of_day("2024-01-01T21:00"), "Soir");
}

#[test]
fn test_period_nuit() {
    assert_eq!(get_time_of_day("2024-01-01T22:00"), "Nuit");
    assert_eq!(get_time_of_day("2024-01-01T05:00"), "Nuit");
}

#[test]
fn test_period_format_invalide() {
    // Doit retourner une valeur par défaut sans paniquer
    assert_eq!(get_time_of_day("format-invalide"), "Après-midi");
}

/// Scénario 1 : Codes météo limites — vérifier les bornes des plages
#[test]
fn test_bornes_codes_meteo() {
    // Borne basse de chaque plage
    assert_eq!(translate_weather_code(0), "Ensoleillé");
    assert_eq!(translate_weather_code(1), "Nuageux");
    assert_eq!(translate_weather_code(42), "Brouillard");
    assert_eq!(translate_weather_code(51), "Pluie");
    assert_eq!(translate_weather_code(71), "Neige");
    assert_eq!(translate_weather_code(80), "Averses");
    assert_eq!(translate_weather_code(95), "Orageux");

    // Borne haute de chaque plage
    assert_eq!(translate_weather_code(41), "Nuageux");
    assert_eq!(translate_weather_code(48), "Brouillard");
    assert_eq!(translate_weather_code(67), "Pluie");
    assert_eq!(translate_weather_code(77), "Neige");
    assert_eq!(translate_weather_code(86), "Averses");
    assert_eq!(translate_weather_code(99), "Orageux");
}

/// Scénario 2 : Codes météo hors plage → Inconnu
#[test]
fn test_codes_inconnus() {
    assert_eq!(translate_weather_code(-1), "Inconnu");
    assert_eq!(translate_weather_code(100), "Inconnu");
    assert_eq!(translate_weather_code(999), "Inconnu");
}

/// Scénario 3 : Périodes de la journée — vérifier les transitions d'heures
#[test]
fn test_transitions_periodes() {
    assert_eq!(get_time_of_day("2024-01-01T05:59"), "Nuit");
    assert_eq!(get_time_of_day("2024-01-01T06:00"), "Matin");
    assert_eq!(get_time_of_day("2024-01-01T11:59"), "Matin");
    assert_eq!(get_time_of_day("2024-01-01T12:00"), "Après-midi");
    assert_eq!(get_time_of_day("2024-01-01T17:59"), "Après-midi");
    assert_eq!(get_time_of_day("2024-01-01T18:00"), "Soir");
    assert_eq!(get_time_of_day("2024-01-01T21:59"), "Soir");
    assert_eq!(get_time_of_day("2024-01-01T22:00"), "Nuit");
}

/// Scénario 4 : Format de timestamp invalide → valeur par défaut sans panique
#[test]
fn test_timestamp_invalide() {
    assert_eq!(get_time_of_day(""), "Après-midi");
    assert_eq!(get_time_of_day("format-invalide"), "Après-midi");
    assert_eq!(get_time_of_day("T"), "Après-midi");
}

#[test]
fn weather_code_gaps_are_unknown() {
    assert_eq!(translate_weather_code(49), "Inconnu");
    assert_eq!(translate_weather_code(50), "Inconnu");
    assert_eq!(translate_weather_code(68), "Inconnu");
    assert_eq!(translate_weather_code(78), "Inconnu");
    assert_eq!(translate_weather_code(94), "Inconnu");
    assert_eq!(translate_weather_code(i32::MIN), "Inconnu");
}

#[test]
fn hour_parsing_follows_u32_parsing() {
    // A leading '+' is accepted, as by `str::parse::<u32>`.
    assert_eq!(get_time_of_day("2024-01-01T+7:00"), "Matin");
    // The hour ends at the next 'T' as well as at ':'.
    assert_eq!(get_time_of_day("2024-01-01T19T00"), "Soir");
    // Without ':' the whole field is the hour.
    assert_eq!(get_time_of_day("2024-01-01T23"), "Nuit");
    // A negative, empty or overflowing hour counts as noon.
    assert_eq!(get_time_of_day("2024-01-01T-3:00"), "Après-midi");
    assert_eq!(get_time_of_day("2024-01-01T:00"), "Après-midi");
    assert_eq!(get_time_of_day("2024-01-01T99999999999:00"), "Après-midi");
    assert_eq!(get_time_of_day("2024-01-01T4294967295:00"), "Nuit");
    // Leading zeros are digits like any other.
    assert_eq!(get_time_of_day("2024-01-01T0009:00"), "Matin");
}

#[test]
fn city_name_prefers_city_then_locality() {
    let geo = GeoResponse { city: Some("Valence".to_string()), locality: Some("Bourg".to_string()) };
    assert_eq!(city_name(Some(geo)), "Valence");
    let geo = GeoResponse { city: Some(String::new()), locality: Some("Bourg".to_string()) };
    assert_eq!(city_name(Some(geo)), "Bourg");
    let geo = GeoResponse { city: None, locality: Some(String::new()) };
    assert_eq!(city_name(Some(geo)), "Position locale");
    assert_eq!(city_name(None), "Position locale");
}
