use mood_movies::movie::{finalize_movies, movie_from_item, movies_from_page, poster_url, Movie, TmdbItem};

fn item(id: Option<u64>, title: Option<&str>, rating: Option<u32>) -> TmdbItem {
    TmdbItem {
        id,
        title: title.map(|t| t.to_string()),
        rating,
        poster_path: Some("/abc.jpg".to_string()),
        overview: Some("Une histoire.".to_string()),
        release_date: Some("2020-01-01".to_string()),
    }
}

fn film(id: u32) -> Movie {
    Movie {
        id,
        title: format!("Film {}", id),
        genres: vec!["Drame".to_string()],
        rating: 7000,
        poster_path: None,
        overview: String::new(),
        release_date: None,
    }
}

#[test]
fn poster_url_prefixes_the_path() {
    assert_eq!(poster_url("/abc.jpg"), "https://image.tmdb.org/t/p/w500/abc.jpg");
}

#[test]
fn movie_from_item_builds_the_film() {
    let m = movie_from_item(item(Some(42), Some("Titre"), Some(7523)), "Comédie").unwrap();
    assert_eq!(m.id, 42);
    assert_eq!(m.title, "Titre");
    assert_eq!(m.genres, vec!["Comédie".to_string()]);
    assert_eq!(m.rating, 7523);
    assert_eq!(m.poster_path.as_deref(), Some("https://image.tmdb.org/t/p/w500/abc.jpg"));
    assert_eq!(m.overview, "Une histoire.");
    assert_eq!(m.release_date.as_deref(), Some("2020-01-01"));
}

#[test]
fn movie_from_item_needs_id_title_and_rating() {
    assert!(movie_from_item(item(None, Some("Titre"), Some(1)), "Drame").is_none());
    assert!(movie_from_item(item(Some(1), None, Some(1)), "Drame").is_none());
    assert!(movie_from_item(item(Some(1), Some("Titre"), None), "Drame").is_none());
}

#[test]
fn movie_from_item_cuts_id_and_overview() {
    let mut it = item(Some((1u64 << 32) + 5), Some("Titre"), Some(1));
    it.overview = Some("é".repeat(150));
    it.poster_path = None;
    let m = movie_from_item(it, "Drame").unwrap();
    assert_eq!(m.id, 5);
    assert_eq!(m.overview.chars().count(), 100);
    assert!(m.poster_path.is_none());
    let mut it = item(Some(1), Some("Titre"), Some(1));
    it.overview = None;
    assert_eq!(movie_from_item(it, "Drame").unwrap().overview, "");
}

#[test]
fn movies_from_page_skips_incomplete_items() {
    let items = vec![item(Some(1), Some("A"), Some(1)), item(None, Some("B"), Some(2)), item(Some(3), Some("C"), Some(3))];
    let movies = movies_from_page(items, "Action");
    let ids: Vec<u32> = movies.iter().map(|m| m.id).collect();
    assert_eq!(ids, vec![1, 3]);
}

#[test]
fn finalize_drops_neighbouring_repeats_and_keeps_thirty() {
    let movies = vec![film(1), film(1), film(2), film(1), film(3), film(3)];
    let ids: Vec<u32> = finalize_movies(movies).iter().map(|m| m.id).collect();
    assert_eq!(ids, vec![1, 2, 1, 3]);

    let many: Vec<Movie> = (0..45).map(film).collect();
    let kept = finalize_movies(many);
    assert_eq!(kept.len(), 30);
    assert_eq!(kept[29].id, 29);
    assert!(finalize_movies(Vec::new()).is_empty());
}
