use vstd::prelude::*;
use vstd::string::*;

use crate::weights::genre_weights_spec;

verus! {

/// The genres of the catalogue: the key used in topics and in the weight table, the TMDb
/// genre id, and the label given to the films.
pub open spec fn genre_table_spec() -> Seq<(Seq<char>, u32, Seq<char>)> {
    seq![
        ("comedie"@, 35u32, "Comédie"@),
        ("romance"@, 10749u32, "Romance"@),
        ("animation"@, 16u32, "Animation"@),
        ("drame"@, 18u32, "Drame"@),
        ("action"@, 28u32, "Action"@),
        ("thriller"@, 53u32, "Thriller"@),
        ("guerre"@, 10752u32, "Guerre"@),
        ("horreur"@, 27u32, "Horreur"@),
        ("familial"@, 10751u32, "Familial"@),
        ("aventure"@, 12u32, "Aventure"@),
        ("fantastique"@, 14u32, "Fantastique"@),
        ("science-fiction"@, 878u32, "Science-Fiction"@),
        ("documentaire"@, 99u32, "Documentaire"@),
        ("histoire"@, 36u32, "Histoire"@),
    ]
}

/// The entries of the catalogue are told apart by each of their parts: no two entries share
/// a key, a TMDb genre id or a label, so each key is fetched with a genre of its own.
pub proof fn lemma_genre_table_distinct()
    ensures
        forall|i: int, j: int|
            0 <= i < j < genre_table_spec().len() ==> {
                &&& #[trigger] genre_table_spec()[i].0 != #[trigger] genre_table_spec()[j].0
                &&& genre_table_spec()[i].1 != genre_table_spec()[j].1
                &&& genre_table_spec()[i].2 != genre_table_spec()[j].2
            },
{
    reveal_strlit("comedie");
    reveal_strlit("romance");
    reveal_strlit("animation");
    reveal_strlit("drame");
    reveal_strlit("action");
    reveal_strlit("thriller");
    reveal_strlit("guerre");
    reveal_strlit("horreur");
    reveal_strlit("familial");
    reveal_strlit("aventure");
    reveal_strlit("fantastique");
    reveal_strlit("science-fiction");
    reveal_strlit("documentaire");
    reveal_strlit("histoire");
    assert("comedie"@.len() == 7);
    assert("romance"@.len() == 7);
    assert("animation"@.len() == 9);
    assert("drame"@.len() == 5);
    assert("action"@.len() == 6);
    assert("thriller"@.len() == 8);
    assert("guerre"@.len() == 6);
    assert("horreur"@.len() == 7);
    assert("familial"@.len() == 8);
    assert("aventure"@.len() == 8);
    assert("fantastique"@.len() == 11);
    assert("science-fiction"@.len() == 15);
    assert("documentaire"@.len() == 12);
    assert("histoire"@.len() == 8);
    assert("comedie"@[0] != "romance"@[0]);
    assert("comedie"@[0] != "horreur"@[0]);
    assert("romance"@[0] != "horreur"@[0]);
    assert("action"@[0] != "guerre"@[0]);
    assert("thriller"@[0] != "familial"@[0]);
    assert("thriller"@[0] != "aventure"@[0]);
    assert("thriller"@[0] != "histoire"@[0]);
    assert("familial"@[0] != "aventure"@[0]);
    assert("familial"@[0] != "histoire"@[0]);
    assert("aventure"@[0] != "histoire"@[0]);
    reveal_strlit("Comédie");
    reveal_strlit("Romance");
    reveal_strlit("Animation");
    reveal_strlit("Drame");
    reveal_strlit("Action");
    reveal_strlit("Thriller");
    reveal_strlit("Guerre");
    reveal_strlit("Horreur");
    reveal_strlit("Familial");
    reveal_strlit("Aventure");
    reveal_strlit("Fantastique");
    reveal_strlit("Science-Fiction");
    reveal_strlit("Documentaire");
    reveal_strlit("Histoire");
    assert("Comédie"@.len() == 7);
    assert("Romance"@.len() == 7);
    assert("Animation"@.len() == 9);
    assert("Drame"@.len() == 5);
    assert("Action"@.len() == 6);
    assert("Thriller"@.len() == 8);
    assert("Guerre"@.len() == 6);
    assert("Horreur"@.len() == 7);
    assert("Familial"@.len() == 8);
    assert("Aventure"@.len() == 8);
    assert("Fantastique"@.len() == 11);
    assert("Science-Fiction"@.len() == 15);
    assert("Documentaire"@.len() == 12);
    assert("Histoire"@.len() == 8);
    assert("Comédie"@[0] != "Romance"@[0]);
    assert("Comédie"@[0] != "Horreur"@[0]);
    assert("Romance"@[0] != "Horreur"@[0]);
    assert("Action"@[0] != "Guerre"@[0]);
    assert("Thriller"@[0] != "Familial"@[0]);
    assert("Thriller"@[0] != "Aventure"@[0]);
    assert("Thriller"@[0] != "Histoire"@[0]);
    assert("Familial"@[0] != "Aventure"@[0]);
    assert("Familial"@[0] != "Histoire"@[0]);
    assert("Aventure"@[0] != "Histoire"@[0]);
    let t = genre_table_spec();
    assert(t.len() == 14);
}

/// Each genre key of the catalogue is fetched with its TMDb genre id and published under its
/// label: comedy 35, romance 10749, animation 16, drama 18, action 28, thriller 53, war 10752,
/// horror 27, family 10751, adventure 12, fantasy 14, science fiction 878, documentary 99,
/// history 36.
pub proof fn lemma_genre_ids(k: int)
    requires
        0 <= k < genre_table_spec().len(),
    ensures
        genre_table_spec()[k].0 == "comedie"@ ==> genre_table_spec()[k].1 == 35 && genre_table_spec()[k].2 == "Comédie"@,
        genre_table_spec()[k].0 == "romance"@ ==> genre_table_spec()[k].1 == 10749 && genre_table_spec()[k].2 == "Romance"@,
        genre_table_spec()[k].0 == "animation"@ ==> genre_table_spec()[k].1 == 16 && genre_table_spec()[k].2 == "Animation"@,
        genre_table_spec()[k].0 == "drame"@ ==> genre_table_spec()[k].1 == 18 && genre_table_spec()[k].2 == "Drame"@,
        genre_table_spec()[k].0 == "action"@ ==> genre_table_spec()[k].1 == 28 && genre_table_spec()[k].2 == "Action"@,
        genre_table_spec()[k].0 == "thriller"@ ==> genre_table_spec()[k].1 == 53 && genre_table_spec()[k].2 == "Thriller"@,
        genre_table_spec()[k].0 == "guerre"@ ==> genre_table_spec()[k].1 == 10752 && genre_table_spec()[k].2 == "Guerre"@,
        genre_table_spec()[k].0 == "horreur"@ ==> genre_table_spec()[k].1 == 27 && genre_table_spec()[k].2 == "Horreur"@,
        genre_table_spec()[k].0 == "familial"@ ==> genre_table_spec()[k].1 == 10751 && genre_table_spec()[k].2 == "Familial"@,
        genre_table_spec()[k].0 == "aventure"@ ==> genre_table_spec()[k].1 == 12 && genre_table_spec()[k].2 == "Aventure"@,
        genre_table_spec()[k].0 == "fantastique"@ ==> genre_table_spec()[k].1 == 14 && genre_table_spec()[k].2 == "Fantastique"@,
        genre_table_spec()[k].0 == "science-fiction"@ ==> genre_table_spec()[k].1 == 878 && genre_table_spec()[k].2 == "Science-Fiction"@,
        genre_table_spec()[k].0 == "documentaire"@ ==> genre_table_spec()[k].1 == 99 && genre_table_spec()[k].2 == "Documentaire"@,
        genre_table_spec()[k].0 == "histoire"@ ==> genre_table_spec()[k].1 == 36 && genre_table_spec()[k].2 == "Histoire"@,
{
    lemma_genre_table_distinct();
    assert(genre_table_spec()[0].0 == "comedie"@);
    assert(genre_table_spec()[1].0 == "romance"@);
    assert(genre_table_spec()[2].0 == "animation"@);
    assert(genre_table_spec()[3].0 == "drame"@);
    assert(genre_table_spec()[4].0 == "action"@);
    assert(genre_table_spec()[5].0 == "thriller"@);
    assert(genre_table_spec()[6].0 == "guerre"@);
    assert(genre_table_spec()[7].0 == "horreur"@);
    assert(genre_table_spec()[8].0 == "familial"@);
    assert(genre_table_spec()[9].0 == "aventure"@);
    assert(genre_table_spec()[10].0 == "fantastique"@);
    assert(genre_table_spec()[11].0 == "science-fiction"@);
    assert(genre_table_spec()[12].0 == "documentaire"@);
    assert(genre_table_spec()[13].0 == "histoire"@);
}

/// The view of a genre table: each text by its characters.
pub open spec fn table_view(t: Seq<(&'static str, u32, &'static str)>) -> Seq<(Seq<char>, u32, Seq<char>)> {
    t.map_values(|e: (&'static str, u32, &'static str)| (e.0@, e.1, e.2@))
}

/// The genres of the catalogue, in the order they are fetched.
pub fn genre_table() -> (table: Vec<(&'static str, u32, &'static str)>)
    ensures
        table_view(table@) == genre_table_spec(),
{
    let table = vec![
        ("comedie", 35u32, "Comédie"),
        ("romance", 10749u32, "Romance"),
        ("animation", 16u32, "Animation"),
        ("drame", 18u32, "Drame"),
        ("action", 28u32, "Action"),
        ("thriller", 53u32, "Thriller"),
        ("guerre", 10752u32, "Guerre"),
        ("horreur", 27u32, "Horreur"),
        ("familial", 10751u32, "Familial"),
        ("aventure", 12u32, "Aventure"),
        ("fantastique", 14u32, "Fantastique"),
        ("science-fiction", 878u32, "Science-Fiction"),
        ("documentaire", 99u32, "Documentaire"),
        ("histoire", 36u32, "Histoire"),
    ];
    assert(table_view(table@) =~= genre_table_spec());
    table
}

/// The key is one of the catalogue's genres.
pub open spec fn is_table_genre(g: Seq<char>) -> bool {
    exists|k: int| 0 <= k < genre_table_spec().len() && #[trigger] genre_table_spec()[k].0 == g
}

proof fn lemma_table_genre(g: Seq<char>)
    requires
        g == "comedie"@ || g == "romance"@ || g == "animation"@ || g == "drame"@ || g == "action"@ || g == "thriller"@ || g == "guerre"@ || g == "horreur"@ || g == "familial"@ || g == "aventure"@ || g == "fantastique"@ || g == "science-fiction"@ || g == "documentaire"@ || g == "histoire"@,
    ensures
        is_table_genre(g),
{
    if g == "comedie"@ {
        assert(genre_table_spec()[0].0 == g);
    }     else if g == "romance"@ {
        assert(genre_table_spec()[1].0 == g);
    }     else if g == "animation"@ {
        assert(genre_table_spec()[2].0 == g);
    }     else if g == "drame"@ {
        assert(genre_table_spec()[3].0 == g);
    }     else if g == "action"@ {
        assert(genre_table_spec()[4].0 == g);
    }     else if g == "thriller"@ {
        assert(genre_table_spec()[5].0 == g);
    }     else if g == "guerre"@ {
        assert(genre_table_spec()[6].0 == g);
    }     else if g == "horreur"@ {
        assert(genre_table_spec()[7].0 == g);
    }     else if g == "familial"@ {
        assert(genre_table_spec()[8].0 == g);
    }     else if g == "aventure"@ {
        assert(genre_table_spec()[9].0 == g);
    }     else if g == "fantastique"@ {
        assert(genre_table_spec()[10].0 == g);
    }     else if g == "science-fiction"@ {
        assert(genre_table_spec()[11].0 == g);
    }     else if g == "documentaire"@ {
        assert(genre_table_spec()[12].0 == g);
    }     else if g == "histoire"@ {
        assert(genre_table_spec()[13].0 == g);
    }
}

/// Every genre that a mood favours, in any weather, is a genre of the catalogue, so the
/// films it boosts can be fetched.
pub proof fn lemma_weights_use_table_genres(mood: Seq<char>, condition: Seq<char>, period: Seq<char>)
    ensures
        forall|i: int| 0 <= i < genre_weights_spec(mood, condition, period).len()
            ==> is_table_genre(#[trigger] genre_weights_spec(mood, condition, period)[i].0),
{
    let ws = genre_weights_spec(mood, condition, period);
    assert forall|i: int| 0 <= i < ws.len() implies is_table_genre(#[trigger] ws[i].0) by {
        let g = ws[i].0;
        assert(g == "comedie"@ || g == "romance"@ || g == "animation"@ || g == "drame"@ || g == "action"@ || g == "thriller"@ || g == "guerre"@ || g == "horreur"@ || g == "familial"@ || g == "aventure"@ || g == "fantastique"@ || g == "science-fiction"@ || g == "documentaire"@ || g == "histoire"@);
        lemma_table_genre(g);
    }
}

/// The MQTT topic of a genre's films.
pub fn movie_topic(key: &str) -> (topic: String)
    ensures
        topic@ == "movies/"@ + key@,
{
    let mut topic = String::from_str("movies/");
    topic.append(key);
    topic
}

} // verus!
