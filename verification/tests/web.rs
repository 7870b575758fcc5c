use mood_movies::catalog::Catalog;
use mood_movies::genres::{genre_table, movie_topic};
use mood_movies::recommend::any_contains;
use mood_movies::movie::Movie;
use mood_movies::topics::{classify_topic, genre_from_topic, Topic};
use mood_movies::web::{director_of, leading_actors, movie_details, names_present, resolve_recommended, CrewMember, TmdbDetails};

fn film(id: u32, title: &str) -> Movie {
    Movie {
        id,
        title: title.to_string(),
        genres: vec![],
        rating: 5000,
        poster_path: None,
        overview: String::new(),
        release_date: None,
    }
}

fn crew(job: Option<&str>, name: Option<&str>) -> CrewMember {
    CrewMember { job: job.map(|s| s.to_string()), name: name.map(|s| s.to_string()) }
}

#[test]
fn resolve_keeps_recommended_order_and_last_duplicate() {
    let mut catalog = Catalog::new();
    catalog.insert("drame".to_string(), vec![film(1, "a"), film(2, "b")]);
    catalog.insert("action".to_string(), vec![film(2, "c"), film(3, "d")]);
    let movies = resolve_recommended(&catalog, &vec![3, 9, 2, 1]);
    let titles: Vec<&str> = movies.iter().map(|m| m.title.as_str()).collect();
    assert_eq!(titles, vec!["d", "c", "a"]);
}

#[test]
fn director_is_the_first_director() {
    let c = vec![crew(Some("Writer"), Some("W")), crew(Some("Director"), Some("D1")), crew(Some("Director"), Some("D2"))];
    assert_eq!(director_of(&c).as_deref(), Some("D1"));
    let c = vec![crew(Some("Director"), None), crew(Some("Director"), Some("D2"))];
    assert_eq!(director_of(&c), None);
    let c = vec![crew(None, Some("X")), crew(Some("director"), Some("Y"))];
    assert_eq!(director_of(&c), None);
    assert_eq!(director_of(&vec![]), None);
}

#[test]
fn leading_actors_are_the_named_among_first_five() {
    let cast: Vec<Option<String>> = vec![Some("A"), None, Some("C"), Some("D"), Some("E"), Some("F")]
        .into_iter()
        .map(|n| n.map(|s| s.to_string()))
        .collect();
    assert_eq!(leading_actors(&cast), vec!["A", "C", "D", "E"]);
    assert_eq!(names_present(&cast), vec!["A", "C", "D", "E", "F"]);
}

#[test]
fn topics_are_sorted() {
    assert!(matches!(classify_topic("weather/current"), Topic::Weather));
    assert!(matches!(classify_topic("weather/location"), Topic::Location));
    assert!(matches!(classify_topic("mood/selected"), Topic::Mood));
    assert!(matches!(classify_topic("recommendations/result"), Topic::Recommendations));
    match classify_topic("movies/science-fiction") {
        Topic::Movies(g) => assert_eq!(g, "science-fiction"),
        _ => panic!("movies topic"),
    }
    assert!(matches!(classify_topic("movie/drame"), Topic::Other));
    assert!(matches!(classify_topic(""), Topic::Other));
}

#[test]
fn genre_from_topic_removes_every_occurrence() {
    assert_eq!(genre_from_topic("movies/drame"), "drame");
    assert_eq!(genre_from_topic("movies/movies/x"), "x");
    assert_eq!(genre_from_topic("a/movies/b"), "a/b");
    assert_eq!(genre_from_topic("moviesmovies/"), "movies");
    assert_eq!(genre_from_topic("drame"), "drame");
}

#[test]
fn movie_details_fills_defaults() {
    let d = TmdbDetails {
        title: None,
        genres: vec![Some("Drame".to_string()), None],
        rating: None,
        poster_path: Some("/p.jpg".to_string()),
        overview: None,
        release_date: Some("1999-09-09".to_string()),
        runtime: Some((1u64 << 32) + 95),
        crew: vec![crew(Some("Director"), Some("D"))],
        cast: vec![Some("A".to_string())],
    };
    let m = movie_details(7, d);
    assert_eq!(m.id, 7);
    assert_eq!(m.title, "");
    assert_eq!(m.genres, vec!["Drame"]);
    assert_eq!(m.rating, 0);
    assert_eq!(m.poster_path.as_deref(), Some("https://image.tmdb.org/t/p/w500/p.jpg"));
    assert_eq!(m.overview, "");
    assert_eq!(m.release_date.as_deref(), Some("1999-09-09"));
    assert_eq!(m.duration, Some(95));
    assert_eq!(m.director.as_deref(), Some("D"));
    assert_eq!(m.actors, vec!["A"]);
}

#[test]
fn genre_table_and_topics() {
    let table = genre_table();
    assert_eq!(table.len(), 14);
    assert_eq!(table[0], ("comedie", 35, "Comédie"));
    assert_eq!(table[11], ("science-fiction", 878, "Science-Fiction"));
    for (key, _, _) in &table {
        let topic = movie_topic(key);
        match classify_topic(&topic) {
            Topic::Movies(g) => assert_eq!(g, *key),
            _ => panic!("movie topic"),
        }
    }
}

#[test]
fn any_contains_finds_a_run() {
    let texts: Vec<Vec<char>> = vec!["action".chars().collect(), "science-fiction".chars().collect()];
    assert!(any_contains(&texts, &"fiction".chars().collect()));
    assert!(!any_contains(&texts, &"comedie".chars().collect()));
    assert!(any_contains(&texts, &Vec::new()));
    assert!(!any_contains(&Vec::new(), &Vec::new()));
}
