use mood_movies::catalog::Catalog;
use mood_movies::movie::Movie;
use mood_movies::recommend::{compute_recommendations, compute_score, RecommendedMovie, WeatherData};
use mood_movies::weights::get_genre_weights;

/// A rating in thousandths of a point.
fn milli(rating: f32) -> u32 {
    (rating * 1000.0).round() as u32
}

/// A multiplier in tenths.
fn tenths(weight: f32) -> u32 {
    (weight * 10.0).round() as u32
}

/// A multiplier given in tenths, as a number.
fn weight(w: u32) -> f32 {
    w as f32 / 10.0
}

/// A film score given in ten-thousandths of a point, as a number.
fn points(score: u64) -> f32 {
    score as f32 / 10000.0
}

/// The relevance of a recommended film, between 0 and 1.
fn relative(r: &RecommendedMovie) -> f32 {
    if r.best == 0 {
        0.0
    } else {
        r.score as f32 / r.best as f32
    }
}

fn make_movie(id: u32, genres: &[&str], rating: f32) -> Movie {
    Movie {
        id,
        title: format!("Film {}", id),
        genres: genres.iter().map(|g| g.to_string()).collect(),
        rating: milli(rating),
        poster_path: None,
        overview: String::new(),
        release_date: None,
    }
}

fn make_catalog() -> Catalog {
    let mut catalog = Catalog::new();
    catalog.insert("comedie".to_string(), vec![
        make_movie(1, &["comedie"], 8.0),
        make_movie(2, &["comedie", "romance"], 7.5),
    ]);
    catalog.insert("action".to_string(), vec![
        make_movie(3, &["action", "thriller"], 8.5),
        make_movie(4, &["action"], 7.0),
    ]);
    catalog.insert("drame".to_string(), vec![
        make_movie(5, &["drame"], 9.0),
        make_movie(6, &["drame", "histoire"], 6.5),
    ]);
    catalog.insert("romance".to_string(), vec![
        make_movie(7, &["romance"], 7.8),
    ]);
    catalog.insert("thriller".to_string(), vec![
        make_movie(8, &["thriller"], 8.2),
    ]);
    catalog
}

fn score_of(result: &[RecommendedMovie], id: u32) -> f32 {
    result.iter().find(|r| r.id == id).map(relative).unwrap_or(0.0)
}

// --- get_genre_weights ---

#[test]
fn test_joy_soleil() {
    let weights = get_genre_weights("joy", "Ensoleillé", "Matin");
    assert!(weights.iter().any(|(g, w)| *g == "comedie" && weight(*w) == 1.5));
    assert!(weights.iter().any(|(g, w)| *g == "romance" && weight(*w) == 1.4));
}

#[test]
fn test_joy_pluie() {
    let weights = get_genre_weights("joy", "Pluie", "Après-midi");
    assert!(weights.iter().any(|(g, _)| *g == "comedie"));
    assert!(weights.iter().all(|(_, w)| weight(*w) <= 1.3));
}

#[test]
fn test_sad_pluie() {
    let weights = get_genre_weights("sad", "Pluie", "Soir");
    assert!(weights.iter().any(|(g, w)| *g == "drame" && weight(*w) == 1.5));
}

#[test]
fn test_angry_orageux() {
    let weights = get_genre_weights("angry", "Orageux", "Nuit");
    assert!(weights.iter().any(|(g, w)| *g == "action" && weight(*w) == 1.5));
    assert!(weights.iter().any(|(g, w)| *g == "thriller" && weight(*w) == 1.5));
}

#[test]
fn test_fear_nuit() {
    let weights = get_genre_weights("fear", "Nuageux", "Nuit");
    assert!(weights.iter().any(|(g, _)| *g == "horreur" || *g == "thriller"));
}

#[test]
fn test_fear_soleil() {
    let weights = get_genre_weights("fear", "Ensoleillé", "Matin");
    assert!(weights.iter().any(|(g, w)| *g == "comedie" && weight(*w) == 1.5));
}

#[test]
fn test_adventure_soleil() {
    let weights = get_genre_weights("adventure", "Ensoleillé", "Matin");
    assert!(weights.iter().any(|(g, w)| *g == "aventure" && weight(*w) == 1.5));
    assert!(weights.iter().any(|(g, w)| *g == "fantastique" && weight(*w) == 1.5));
}

#[test]
fn test_reflection_pluie() {
    let weights = get_genre_weights("reflection", "Pluie", "Soir");
    assert!(weights.iter().any(|(g, w)| *g == "documentaire" && weight(*w) == 1.5));
    assert!(weights.iter().any(|(g, w)| *g == "drame" && weight(*w) == 1.5));
}

#[test]
fn test_neige_tired() {
    let weights = get_genre_weights("tired", "Neige", "Soir");
    assert!(weights.iter().any(|(g, _)| *g == "familial"));
    assert!(weights.iter().any(|(g, _)| *g == "animation"));
}

#[test]
fn lib_test_humeur_inconnue() {
    let weights = get_genre_weights("unknown", "Pluie", "Soir");
    assert!(!weights.is_empty());
    assert!(weights.iter().all(|(_, w)| weight(*w) == 1.0));
}

#[test]
fn weights_fear_storm_at_night() {
    let weights = get_genre_weights("fear", "Orageux", "Soir");
    assert_eq!(weights, vec![("horreur", 13), ("thriller", 14)]);
    let weights = get_genre_weights("fear", "Orageux", "Matin");
    assert_eq!(weights, vec![("thriller", 12), ("comedie", 13), ("familial", 12)]);
}

#[test]
fn weights_calm_cloudy_and_fog() {
    let cloudy = get_genre_weights("calm", "Nuageux", "Matin");
    let fog = get_genre_weights("calm", "Brouillard", "Matin");
    assert_eq!(cloudy, vec![("documentaire", 15), ("histoire", 14), ("romance", 12)]);
    assert_eq!(cloudy, fog);
}

#[test]
fn weights_stay_between_one_and_one_and_a_half() {
    for mood in ["joy", "sad", "angry", "calm", "tired", "fear", "adventure", "reflection", "?"] {
        for condition in ["Ensoleillé", "Nuageux", "Brouillard", "Pluie", "Neige", "Averses", "Orageux", "Inconnu"] {
            for period in ["Matin", "Après-midi", "Soir", "Nuit"] {
                let weights = get_genre_weights(mood, condition, period);
                assert!(weights.len() >= 2);
                assert!(weights.iter().all(|(_, w)| (10..=15).contains(w)));
            }
        }
    }
}

// --- compute_score ---

#[test]
fn test_compute_score_genre_matching() {
    let movie = make_movie(1, &["comedie"], 7.5);
    let score = compute_score(&movie, "comedie", tenths(1.5));
    assert_eq!(points(score), 7.5 * 1.5);
}

#[test]
fn test_compute_score_genre_non_matching() {
    let movie = make_movie(2, &["Action"], 8.0);
    let score = compute_score(&movie, "comedie", tenths(1.5));
    assert_eq!(points(score), 8.0);
}

#[test]
fn test_compute_score_rating_zero() {
    let movie = make_movie(3, &["Drame"], 0.0);
    let score = compute_score(&movie, "drame", tenths(1.5));
    assert_eq!(points(score), 0.0);
}

#[test]
fn test_compute_score_multiplicateur_neutre() {
    let movie = make_movie(4, &["Horreur"], 6.0);
    let score = compute_score(&movie, "horreur", tenths(1.0));
    assert_eq!(points(score), 6.0);
}

#[test]
fn compute_score_ignores_case_and_matches_substrings() {
    let movie = make_movie(5, &["Science-Fiction", "Comédie"], 7.0);
    assert_eq!(compute_score(&movie, "FICTION", 14), 98000);
    assert_eq!(compute_score(&movie, "comédie", 12), 84000);
    assert_eq!(compute_score(&movie, "drame", 15), 70000);
}

// --- compute_recommendations ---

/// Scénario 1 : joy + soleil → comédie/romance dominent
#[test]
fn test_joy_soleil_comedie_en_tete() {
    let catalog = make_catalog();
    let weather = WeatherData { condition: "Ensoleillé".to_string(), period: "Matin".to_string() };

    let result = compute_recommendations(&["joy".to_string()], &weather, &catalog);

    assert!(!result.is_empty());
    let score_comedie = score_of(&result, 1);
    let score_drame = score_of(&result, 5);
    assert!(score_comedie > score_drame,
        "joy+soleil: comédie (score={:.3}) devrait battre drame (score={:.3})",
        score_comedie, score_drame);
}

/// Scénario 2 : angry + orage → action/thriller dominent
#[test]
fn test_angry_orageux_action_en_tete() {
    let catalog = make_catalog();
    let weather = WeatherData { condition: "Orageux".to_string(), period: "Soir".to_string() };

    let result = compute_recommendations(&["angry".to_string()], &weather, &catalog);

    assert!(!result.is_empty());
    let score_action = score_of(&result, 3);
    let score_comedie = score_of(&result, 1);
    assert!(score_action > score_comedie,
        "angry+orage: action (score={:.3}) devrait battre comedie (score={:.3})",
        score_action, score_comedie);
}

/// Scénario 3 : film multi-genre bénéficie de plusieurs boosts
#[test]
fn test_multi_genre_booste() {
    let catalog = make_catalog();
    let weather = WeatherData { condition: "Ensoleillé".to_string(), period: "Matin".to_string() };

    let result = compute_recommendations(&["joy".to_string()], &weather, &catalog);

    let score_multi = score_of(&result, 2);
    let score_action = score_of(&result, 4);
    assert!(score_multi > score_action,
        "Film multi-genre booste (score={:.3}) devrait battre action hors contexte (score={:.3})",
        score_multi, score_action);
}

/// Scénario 4 : multi-humeurs → diversité comédie + drame présents
#[test]
fn test_multi_humeurs_diversite() {
    let catalog = make_catalog();
    let weather = WeatherData { condition: "Nuageux".to_string(), period: "Après-midi".to_string() };

    let result = compute_recommendations(&["joy".to_string(), "sad".to_string()], &weather, &catalog);

    let ids: Vec<u32> = result.iter().map(|r| r.id).collect();
    let has_comedie = ids.iter().any(|id| [1, 2].contains(id));
    let has_drame = ids.iter().any(|id| [5, 6].contains(id));
    assert!(has_comedie && has_drame, "Multi-humeurs devrait inclure comédie et drame, ids: {:?}", ids);
}

/// Scénario 5 : max 4 films par genre respecté
#[test]
fn test_max_4_par_genre() {
    let mut catalog = Catalog::new();
    catalog.insert("action".to_string(), (1u32..=6).map(|i| make_movie(i, &["action"], 8.0)).collect());
    catalog.insert("comedie".to_string(), vec![make_movie(10, &["comedie"], 7.0)]);

    let weather = WeatherData { condition: "Orageux".to_string(), period: "Nuit".to_string() };

    let result = compute_recommendations(&["angry".to_string()], &weather, &catalog);

    let action_count = result.iter().filter(|r| r.id >= 1 && r.id <= 6).count();
    assert!(action_count <= 4, "Max 4 films par genre, mais on a {} films d'action", action_count);
}

/// Scénario 6 : catalogue vide → résultat vide sans panique
#[test]
fn test_catalogue_vide() {
    let result = compute_recommendations(
        &["joy".to_string()],
        &WeatherData { condition: "Ensoleillé".to_string(), period: "Matin".to_string() },
        &Catalog::new(),
    );
    assert!(result.is_empty());
}

/// Scénario 7 : scores normalisés entre 0.0 et 1.0
#[test]
fn test_scores_normalises() {
    let catalog = make_catalog();
    let weather = WeatherData { condition: "Ensoleillé".to_string(), period: "Matin".to_string() };

    let result = compute_recommendations(&["joy".to_string()], &weather, &catalog);

    for r in &result {
        let score = relative(r);
        assert!(score >= 0.0 && score <= 1.0, "Score hors bornes pour film {} : {}", r.id, score);
    }
}

/// Scénario 8 : film présent dans deux genres → apparaît une seule fois
#[test]
fn test_deduplication() {
    let mut catalog = Catalog::new();
    catalog.insert("action".to_string(), vec![make_movie(1, &["action", "thriller"], 8.0)]);
    catalog.insert("thriller".to_string(), vec![make_movie(1, &["action", "thriller"], 8.0)]);

    let weather = WeatherData { condition: "Orageux".to_string(), period: "Soir".to_string() };

    let result = compute_recommendations(&["angry".to_string()], &weather, &catalog);
    let count = result.iter().filter(|r| r.id == 1).count();
    assert_eq!(count, 1, "Film dupliqué dans le catalogue → doit apparaître une seule fois");
}

/// Scénario 9 : humeur inconnue → résultat non vide, scores valides
#[test]
fn integration_test_test_humeur_inconnue() {
    let catalog = make_catalog();
    let weather = WeatherData { condition: "Pluie".to_string(), period: "Soir".to_string() };

    let result = compute_recommendations(&["inconnu".to_string()], &weather, &catalog);

    assert!(!result.is_empty());
    for r in &result {
        let score = relative(r);
        assert!(score >= 0.0 && score <= 1.0, "Score hors bornes pour humeur inconnue, film {} : {}", r.id, score);
    }
}

#[test]
fn recommendation_exact_order_and_scores() {
    let catalog = make_catalog();
    let weather = WeatherData { condition: "Ensoleillé".to_string(), period: "Matin".to_string() };
    let result = compute_recommendations(&["joy".to_string()], &weather, &catalog);
    // comedie 1.5: film 1 = 12.0, film 2 = 11.25; romance 1.4: film 7 = 10.92;
    // others at 0.7: 5 = 6.3, 3 = 5.95, 8 = 5.74, 4 = 4.9, 6 = 4.55.
    let ids: Vec<u32> = result.iter().map(|r| r.id).collect();
    assert_eq!(ids, vec![1, 2, 7, 5, 3, 8, 4, 6]);
    let scores: Vec<u64> = result.iter().map(|r| r.score).collect();
    assert_eq!(scores, vec![120000, 112500, 109200, 63000, 59500, 57400, 49000, 45500]);
    assert!(result.iter().all(|r| r.best == 120000));
    assert_eq!(relative(&result[1]), 0.9375);
}

#[test]
fn recommendation_keeps_ten_films_at_most() {
    let mut catalog = Catalog::new();
    let genres = ["comedie", "action", "drame", "romance", "thriller", "guerre", "histoire"];
    let mut id = 0u32;
    for g in genres {
        let mut films = Vec::new();
        for _ in 0..5 {
            id += 1;
            films.push(make_movie(id, &[g], 5.0 + (id % 7) as f32 * 0.5));
        }
        catalog.insert(g.to_string(), films);
    }
    let weather = WeatherData { condition: "Pluie".to_string(), period: "Soir".to_string() };
    let result = compute_recommendations(&["sad".to_string(), "angry".to_string()], &weather, &catalog);
    assert_eq!(result.len(), 10);
    for w in result.windows(2) {
        assert!(w[0].score >= w[1].score);
    }
    assert!(result.iter().all(|r| r.best == result[0].score));
}

#[test]
fn recommendation_keeps_every_film_up_to_ten_when_genres_are_small() {
    let mut catalog = Catalog::new();
    catalog.insert("drame".to_string(), (1u32..=3).map(|i| make_movie(i, &["drame"], 6.0)).collect());
    catalog.insert("action".to_string(), (4u32..=6).map(|i| make_movie(i, &["action"], 7.0)).collect());
    let weather = WeatherData { condition: "Pluie".to_string(), period: "Soir".to_string() };
    let result = compute_recommendations(&["calm".to_string()], &weather, &catalog);
    assert_eq!(result.len(), 6);

    for (k, g) in ["guerre", "histoire", "romance"].iter().enumerate() {
        let base = 10 + 4 * k as u32;
        catalog.insert(g.to_string(), (base..base + 4).map(|i| make_movie(i, &[g], 5.0)).collect());
    }
    let result = compute_recommendations(&["calm".to_string()], &weather, &catalog);
    assert_eq!(result.len(), 10);
}

#[test]
fn recommendation_keeps_close_scores_apart() {
    let mut catalog = Catalog::new();
    catalog.insert("comedie".to_string(), vec![make_movie(1, &["comedie"], 10.0)]);
    catalog.insert("drame".to_string(), vec![make_movie(2, &["drame"], 2.146), make_movie(3, &["drame"], 2.145)]);
    let weather = WeatherData { condition: "Ensoleillé".to_string(), period: "Matin".to_string() };
    let result = compute_recommendations(&["joy".to_string()], &weather, &catalog);
    let ids: Vec<u32> = result.iter().map(|r| r.id).collect();
    assert_eq!(ids, vec![1, 2, 3]);
    assert!(result[1].score > result[2].score);
    assert!(relative(&result[1]) > relative(&result[2]));
}

#[test]
fn recommendation_ties_keep_catalogue_order() {
    let mut catalog = Catalog::new();
    catalog.insert("drame".to_string(), vec![make_movie(9, &["drame"], 5.0), make_movie(3, &["drame"], 5.0)]);
    let weather = WeatherData { condition: "Neige".to_string(), period: "Nuit".to_string() };
    let result = compute_recommendations(&[], &weather, &catalog);
    let ids: Vec<u32> = result.iter().map(|r| r.id).collect();
    assert_eq!(ids, vec![9, 3]);
    assert!(result.iter().all(|r| r.score == r.best && r.score == 35000));
}

#[test]
fn recommendation_principal_genre_is_first_group() {
    // Film 1 is first met in "action", so it counts towards the four action films.
    let mut catalog = Catalog::new();
    catalog.insert("action".to_string(), (1u32..=5).map(|i| make_movie(i, &["action"], 9.0 - i as f32 * 0.1)).collect());
    catalog.insert("thriller".to_string(), vec![make_movie(1, &["thriller"], 9.9)]);
    let weather = WeatherData { condition: "Orageux".to_string(), period: "Nuit".to_string() };
    let result = compute_recommendations(&["angry".to_string()], &weather, &catalog);
    let ids: Vec<u32> = result.iter().map(|r| r.id).collect();
    assert_eq!(ids, vec![1, 2, 3, 4]);
}

#[test]
fn catalog_insert_replaces_a_genre() {
    let mut catalog = Catalog::new();
    catalog.insert("drame".to_string(), vec![make_movie(1, &["drame"], 5.0)]);
    catalog.insert("action".to_string(), vec![make_movie(2, &["action"], 6.0)]);
    catalog.insert("drame".to_string(), vec![make_movie(3, &["drame"], 7.0)]);
    assert_eq!(catalog.len(), 2);
    let films = catalog.get("drame").unwrap();
    assert_eq!(films.len(), 1);
    assert_eq!(films[0].id, 3);
    assert_eq!(catalog.get("action").unwrap()[0].id, 2);
    assert!(catalog.get("guerre").is_none());
    assert_eq!(catalog.shelf(0).genre, "drame");
}
