use vstd::prelude::*;

use crate::catalog::{lookup, Catalog, Shelf};
use crate::movie::Movie;
use crate::text::{chars_of, contains_chars, contains_seq, lowercase, to_lowercase};
use crate::weights::{genre_weights_spec, get_genre_weights, weights_view};

verus! {

/// The weather as the recommender sees it: a condition label and a part of the day.
pub struct WeatherData {
    pub condition: String,
    pub period: String,
}

/// A recommended film. `score` is its relevance in ten-thousandths of a rating point (a
/// rating in thousandths times a multiplier in tenths); `best` is the score of the best film
/// of the recommendation, so that `score / best` is its relevance between 0 and 1.
#[derive(Clone, Copy, Debug)]
pub struct RecommendedMovie {
    pub id: u32,
    pub score: u64,
    pub best: u64,
}

/// A film id being ranked: the group in which it was first found (its principal genre) and
/// its score in ten-thousandths of a rating point (rating in thousandths times a multiplier
/// in tenths).
#[derive(Clone, Copy, Debug)]
pub struct Candidate {
    pub id: u32,
    pub genre: usize,
    pub score: u64,
}

/// Most films in a recommendation.
pub const MAX_RESULTS: usize = 10;

/// Most films of one principal genre in a recommendation.
pub const MAX_PER_GENRE: usize = 4;

/// Multiplier, in tenths, of every film that no mood favours.
pub const BASE_WEIGHT: u64 = 7;

pub open spec fn has_id(c: Seq<Candidate>, id: u32) -> bool {
    exists|i: int| 0 <= i < c.len() && c[i].id == id
}

/// Adds the films of one group that were not met before, with their base score.
pub open spec fn seed_movies(c: Seq<Candidate>, genre: usize, ms: Seq<Movie>) -> Seq<Candidate>
    decreases ms.len(),
{
    if ms.len() == 0 {
        c
    } else {
        let prev = seed_movies(c, genre, ms.drop_last());
        let m = ms.last();
        if has_id(prev, m.id) {
            prev
        } else {
            prev.push(Candidate { id: m.id, genre, score: (m.rating * BASE_WEIGHT) as u64 })
        }
    }
}

/// Every film id of the catalogue once, in the order first met, with the group it was first
/// met in and its base score (rating times 0.7) from that first meeting.
pub open spec fn seed(shelves: Seq<Shelf>) -> Seq<Candidate>
    decreases shelves.len(),
{
    if shelves.len() == 0 {
        Seq::empty()
    } else {
        seed_movies(seed(shelves.drop_last()), (shelves.len() - 1) as usize, shelves.last().movies@)
    }
}

/// Raises the score of film `id` to `v` when `v` is higher.
pub open spec fn bump(c: Seq<Candidate>, id: u32, v: u64) -> Seq<Candidate> {
    Seq::new(
        c.len(),
        |i: int|
            if c[i].id == id && v > c[i].score {
                Candidate { id: c[i].id, genre: c[i].genre, score: v }
            } else {
                c[i]
            },
    )
}

/// Raises each film of `ms` to its rating times `w`.
pub open spec fn boost_movies(c: Seq<Candidate>, ms: Seq<Movie>, w: u32) -> Seq<Candidate>
    decreases ms.len(),
{
    if ms.len() == 0 {
        c
    } else {
        bump(boost_movies(c, ms.drop_last(), w), ms.last().id, (ms.last().rating * w) as u64)
    }
}

/// Applies each weighted genre to the films of its group, if the catalogue has one.
pub open spec fn boost_weights(c: Seq<Candidate>, ws: Seq<(Seq<char>, u32)>, shelves: Seq<Shelf>) -> Seq<Candidate>
    decreases ws.len(),
{
    if ws.len() == 0 {
        c
    } else {
        let prev = boost_weights(c, ws.drop_last(), shelves);
        match lookup(shelves, ws.last().0) {
            Some(k) => boost_movies(prev, shelves[k].movies@, ws.last().1),
            None => prev,
        }
    }
}

/// Applies the genre weights of each mood.
pub open spec fn boost_moods(
    c: Seq<Candidate>,
    moods: Seq<Seq<char>>,
    condition: Seq<char>,
    period: Seq<char>,
    shelves: Seq<Shelf>,
) -> Seq<Candidate>
    decreases moods.len(),
{
    if moods.len() == 0 {
        c
    } else {
        boost_weights(
            boost_moods(c, moods.drop_last(), condition, period, shelves),
            genre_weights_spec(moods.last(), condition, period),
            shelves,
        )
    }
}

/// Every film of the catalogue with its final score.
pub open spec fn scored(moods: Seq<Seq<char>>, condition: Seq<char>, period: Seq<char>, shelves: Seq<Shelf>) -> Seq<Candidate> {
    boost_moods(seed(shelves), moods, condition, period, shelves)
}

/// The films scoring at least `s`, in order.
pub open spec fn at_least(r: Seq<Candidate>, s: u64) -> Seq<Candidate>
    decreases r.len(),
{
    if r.len() == 0 {
        r
    } else {
        let p = at_least(r.drop_last(), s);
        if r.last().score >= s {
            p.push(r.last())
        } else {
            p
        }
    }
}

/// The films scoring less than `s`, in order.
pub open spec fn below(r: Seq<Candidate>, s: u64) -> Seq<Candidate>
    decreases r.len(),
{
    if r.len() == 0 {
        r
    } else {
        let p = below(r.drop_last(), s);
        if r.last().score < s {
            p.push(r.last())
        } else {
            p
        }
    }
}

/// The films by decreasing score; films of equal score keep their order.
pub open spec fn rank(c: Seq<Candidate>) -> Seq<Candidate>
    decreases c.len(),
{
    if c.len() == 0 {
        c
    } else {
        let r = rank(c.drop_last());
        let x = c.last();
        at_least(r, x.score) + seq![x] + below(r, x.score)
    }
}

/// How many films of principal genre `g` there are.
pub open spec fn genre_count(r: Seq<Candidate>, g: usize) -> nat
    decreases r.len(),
{
    if r.len() == 0 {
        0
    } else {
        genre_count(r.drop_last(), g) + if r.last().genre == g {
            1nat
        } else {
            0nat
        }
    }
}

/// Walks the ranked films and keeps each one while fewer than 10 are kept and fewer than 4
/// of its principal genre are.
pub open spec fn select(s: Seq<Candidate>) -> Seq<Candidate>
    decreases s.len(),
{
    if s.len() == 0 {
        s
    } else {
        let r = select(s.drop_last());
        let x = s.last();
        if r.len() < MAX_RESULTS && genre_count(r, x.genre) < MAX_PER_GENRE {
            r.push(x)
        } else {
            r
        }
    }
}

/// The kept films with their scores, each next to the score of the first one.
pub open spec fn normalize(r: Seq<Candidate>) -> Seq<RecommendedMovie> {
    Seq::new(r.len(), |i: int| RecommendedMovie { id: r[i].id, score: r[i].score, best: r[0].score })
}

/// The recommendation for some moods in some weather from a catalogue.
pub open spec fn recommend(moods: Seq<Seq<char>>, condition: Seq<char>, period: Seq<char>, shelves: Seq<Shelf>) -> Seq<RecommendedMovie> {
    normalize(select(rank(scored(moods, condition, period, shelves))))
}

pub proof fn lemma_u32_product(a: u32, b: u32)
    ensures
        0 <= (a as int) * (b as int) <= u64::MAX,
{
    assert(0 <= (a as int) * (b as int) <= 0xffff_ffffint * 0xffff_ffffint) by (nonlinear_arith)
        requires
            a <= 0xffff_ffff,
            b <= 0xffff_ffff,
    ;
}

fn has_id_exec(c: &Vec<Candidate>, id: u32) -> (r: bool)
    ensures
        r == has_id(c@, id),
{
    let n = c.len();
    let mut i: usize = 0;
    while i < n
        invariant
            n == c@.len(),
            i <= n,
            forall|j: int| 0 <= j < i ==> c@[j].id != id,
        decreases n - i,
    {
        if c[i].id == id {
            return true;
        }
        i = i + 1;
    }
    false
}

fn seed_candidates(catalog: &Catalog) -> (c: Vec<Candidate>)
    ensures
        c@ == seed(catalog.shelves()),
{
    let n = catalog.len();
    let mut c: Vec<Candidate> = Vec::new();
    let mut si: usize = 0;
    while si < n
        invariant
            n == catalog.shelves().len(),
            si <= n,
            c@ == seed(catalog.shelves().take(si as int)),
        decreases n - si,
    {
        let shelf = catalog.shelf(si);
        let ghost before = c@;
        let m = shelf.movies.len();
        let mut mi: usize = 0;
        while mi < m
            invariant
                m == shelf.movies@.len(),
                mi <= m,
                c@ == seed_movies(before, si, shelf.movies@.take(mi as int)),
            decreases m - mi,
        {
            let mv = &shelf.movies[mi];
            proof {
                let t = shelf.movies@.take(mi + 1);
                assert(t.drop_last() =~= shelf.movies@.take(mi as int));
                assert(t.last() == *mv);
            }
            if !has_id_exec(&c, mv.id) {
                c.push(Candidate { id: mv.id, genre: si, score: (mv.rating as u64) * BASE_WEIGHT });
            }
            mi = mi + 1;
        }
        proof {
            let t = catalog.shelves().take(si + 1);
            assert(t.drop_last() =~= catalog.shelves().take(si as int));
            assert(t.last() == *shelf);
            assert(shelf.movies@.take(m as int) =~= shelf.movies@);
        }
        si = si + 1;
    }
    assert(catalog.shelves().take(n as int) =~= catalog.shelves());
    c
}

fn bump_exec(c: &mut Vec<Candidate>, id: u32, v: u64)
    ensures
        final(c)@ == bump(old(c)@, id, v),
{
    let ghost c0 = c@;
    let n = c.len();
    let mut i: usize = 0;
    while i < n
        invariant
            n == c0.len(),
            c@.len() == n,
            i <= n,
            forall|j: int| 0 <= j < i ==> c@[j] == bump(c0, id, v)[j],
            forall|j: int| i <= j < n ==> c@[j] == c0[j],
        decreases n - i,
    {
        let x = c[i];
        if x.id == id && v > x.score {
            c.set(i, Candidate { id: x.id, genre: x.genre, score: v });
        }
        i = i + 1;
    }
    assert(c@ =~= bump(c0, id, v));
}

fn boost_movies_exec(c: &mut Vec<Candidate>, ms: &Vec<Movie>, w: u32)
    ensures
        final(c)@ == boost_movies(old(c)@, ms@, w),
{
    let ghost c0 = c@;
    let n = ms.len();
    let mut i: usize = 0;
    while i < n
        invariant
            n == ms@.len(),
            i <= n,
            c@ == boost_movies(c0, ms@.take(i as int), w),
        decreases n - i,
    {
        let m = &ms[i];
        proof {
            let t = ms@.take(i + 1);
            assert(t.drop_last() =~= ms@.take(i as int));
            assert(t.last() == *m);
        }
        proof {
            lemma_u32_product(m.rating, w);
        }
        bump_exec(c, m.id, (m.rating as u64) * (w as u64));
        i = i + 1;
    }
    assert(ms@.take(n as int) =~= ms@);
}

fn boost_weights_exec(c: &mut Vec<Candidate>, ws: &Vec<(&'static str, u32)>, catalog: &Catalog)
    ensures
        final(c)@ == boost_weights(old(c)@, weights_view(ws@), catalog.shelves()),
{
    let ghost c0 = c@;
    let ghost wv = weights_view(ws@);
    let n = ws.len();
    let mut i: usize = 0;
    while i < n
        invariant
            n == ws@.len(),
            wv == weights_view(ws@),
            i <= n,
            c@ == boost_weights(c0, wv.take(i as int), catalog.shelves()),
        decreases n - i,
    {
        let (g, w) = ws[i];
        proof {
            let t = wv.take(i + 1);
            assert(t.drop_last() =~= wv.take(i as int));
            assert(t.last() == (g@, w));
        }
        match catalog.position(g) {
            Some(k) => {
                proof {
                    crate::catalog::lemma_lookup(catalog.shelves(), g@);
                }
                boost_movies_exec(c, &catalog.shelf(k).movies, w);
            },
            None => {},
        }
        i = i + 1;
    }
    assert(wv.take(n as int) =~= wv);
}

fn filter_into(r: &Vec<Candidate>, s: u64, keep_high: bool, out: &mut Vec<Candidate>)
    ensures
        final(out)@ == old(out)@ + (if keep_high {
            at_least(r@, s)
        } else {
            below(r@, s)
        }),
{
    let ghost o0 = out@;
    let n = r.len();
    let mut j: usize = 0;
    while j < n
        invariant
            n == r@.len(),
            j <= n,
            out@ == o0 + (if keep_high {
                at_least(r@.take(j as int), s)
            } else {
                below(r@.take(j as int), s)
            }),
        decreases n - j,
    {
        let x = r[j];
        proof {
            let t = r@.take(j + 1);
            assert(t.drop_last() =~= r@.take(j as int));
            assert(t.last() == x);
        }
        if (keep_high && x.score >= s) || (!keep_high && x.score < s) {
            out.push(x);
        }
        proof {
            let t = r@.take(j + 1);
            if keep_high {
                assert(out@ =~= o0 + at_least(t, s));
            } else {
                assert(out@ =~= o0 + below(t, s));
            }
        }
        j = j + 1;
    }
    assert(r@.take(n as int) =~= r@);
}

fn rank_exec(c: &Vec<Candidate>) -> (r: Vec<Candidate>)
    ensures
        r@ == rank(c@),
{
    let n = c.len();
    let mut r: Vec<Candidate> = Vec::new();
    let mut i: usize = 0;
    while i < n
        invariant
            n == c@.len(),
            i <= n,
            r@ == rank(c@.take(i as int)),
        decreases n - i,
    {
        let x = c[i];
        let mut next: Vec<Candidate> = Vec::new();
        filter_into(&r, x.score, true, &mut next);
        next.push(x);
        filter_into(&r, x.score, false, &mut next);
        proof {
            let t = c@.take(i + 1);
            assert(t.drop_last() =~= c@.take(i as int));
            assert(t.last() == x);
            assert(next@ =~= rank(t));
        }
        r = next;
        i = i + 1;
    }
    assert(c@.take(n as int) =~= c@);
    r
}

fn count_genre(r: &Vec<Candidate>, g: usize) -> (k: usize)
    ensures
        k == genre_count(r@, g),
{
    let n = r.len();
    let mut k: usize = 0;
    let mut j: usize = 0;
    while j < n
        invariant
            n == r@.len(),
            j <= n,
            k <= j,
            k == genre_count(r@.take(j as int), g),
        decreases n - j,
    {
        proof {
            let t = r@.take(j + 1);
            assert(t.drop_last() =~= r@.take(j as int));
            assert(t.last() == r@[j as int]);
        }
        if r[j].genre == g {
            k = k + 1;
        }
        j = j + 1;
    }
    assert(r@.take(n as int) =~= r@);
    k
}

fn select_exec(s: &Vec<Candidate>) -> (r: Vec<Candidate>)
    ensures
        r@ == select(s@),
{
    let n = s.len();
    let mut r: Vec<Candidate> = Vec::new();
    let mut i: usize = 0;
    while i < n
        invariant
            n == s@.len(),
            i <= n,
            r@ == select(s@.take(i as int)),
        decreases n - i,
    {
        let x = s[i];
        proof {
            let t = s@.take(i + 1);
            assert(t.drop_last() =~= s@.take(i as int));
            assert(t.last() == x);
        }
        if r.len() < MAX_RESULTS && count_genre(&r, x.genre) < MAX_PER_GENRE {
            r.push(x);
        }
        i = i + 1;
    }
    assert(s@.take(n as int) =~= s@);
    r
}

fn normalize_exec(r: &Vec<Candidate>) -> (out: Vec<RecommendedMovie>)
    ensures
        out@ == normalize(r@),
{
    let n = r.len();
    let mut out: Vec<RecommendedMovie> = Vec::new();
    if n == 0 {
        assert(out@ =~= normalize(r@));
        return out;
    }
    let top = r[0].score;
    let mut i: usize = 0;
    while i < n
        invariant
            n == r@.len(),
            n > 0,
            top == r@[0].score,
            i <= n,
            out@.len() == i,
            forall|j: int| 0 <= j < i ==> #[trigger] out@[j] == normalize(r@)[j],
        decreases n - i,
    {
        let x = r[i];
        out.push(RecommendedMovie { id: x.id, score: x.score, best: top });
        i = i + 1;
    }
    assert(out@ =~= normalize(r@));
    out
}

/// Recommends up to 10 films for some moods in some weather.
///
/// Every film of the catalogue starts at its rating times 0.7 (taken where the film is first
/// met); each mood's weighted genres raise the films of their group to rating times the
/// multiplier when that is higher. Films are then taken by decreasing score, at most 4 per
/// principal genre (the group a film is first met in), and each is given with its score and
/// the best score.
pub fn compute_recommendations(moods: &[String], weather: &WeatherData, catalog: &Catalog) -> (result: Vec<RecommendedMovie>)
    ensures
        result@ == recommend(
            moods@.map_values(|m: String| m@),
            weather.condition@,
            weather.period@,
            catalog.shelves(),
        ),
{
    let mut c = seed_candidates(catalog);
    let ghost c0 = c@;
    let ghost mv = moods@.map_values(|m: String| m@);
    let n = moods.len();
    let mut i: usize = 0;
    while i < n
        invariant
            n == moods@.len(),
            mv == moods@.map_values(|m: String| m@),
            i <= n,
            c@ == boost_moods(c0, mv.take(i as int), weather.condition@, weather.period@, catalog.shelves()),
        decreases n - i,
    {
        let ws = get_genre_weights(moods[i].as_str(), weather.condition.as_str(), weather.period.as_str());
        boost_weights_exec(&mut c, &ws, catalog);
        proof {
            let t = mv.take(i + 1);
            assert(t.drop_last() =~= mv.take(i as int));
            assert(t.last() == moods@[i as int]@);
        }
        i = i + 1;
    }
    assert(mv.take(n as int) =~= mv);
    let ranked = rank_exec(&c);
    let chosen = select_exec(&ranked);
    normalize_exec(&chosen)
}

/// Whether some text of `texts` contains `wanted` as a run of consecutive characters.
pub fn any_contains(texts: &Vec<Vec<char>>, wanted: &Vec<char>) -> (r: bool)
    ensures
        r == exists|i: int| 0 <= i < texts@.len() && contains_seq(#[trigger] texts@[i]@, wanted@),
{
    let n = texts.len();
    let mut i: usize = 0;
    while i < n
        invariant
            n == texts@.len(),
            i <= n,
            forall|j: int| 0 <= j < i ==> !contains_seq(#[trigger] texts@[j]@, wanted@),
        decreases n - i,
    {
        if contains_chars(&texts[i], wanted) {
            return true;
        }
        i = i + 1;
    }
    false
}

/// Some genre of the film contains `genre`, both taken in lower case.
pub open spec fn genre_matches(genres: Seq<String>, genre: Seq<char>) -> bool {
    exists|i: int| 0 <= i < genres.len() && contains_seq(lowercase(#[trigger] genres[i]@), lowercase(genre))
}

/// The score of a film for a genre: its rating times `weight` (in tenths) when one of its
/// genres contains `genre` ignoring case, else its rating alone. The score is in
/// ten-thousandths of a point (rating in thousandths times a multiplier in tenths).
pub fn compute_score(movie: &Movie, genre: &str, weight: u32) -> (score: u64)
    ensures
        score == if genre_matches(movie.genres@, genre@) {
            movie.rating * weight
        } else {
            movie.rating * 10
        },
{
    let wanted = to_lowercase(genre);
    let wanted = chars_of(wanted.as_str());
    let n = movie.genres.len();
    let mut lowered: Vec<Vec<char>> = Vec::new();
    let mut i: usize = 0;
    while i < n
        invariant
            n == movie.genres@.len(),
            i <= n,
            lowered@.len() == i,
            forall|j: int| 0 <= j < i ==> #[trigger] lowered@[j]@ == lowercase(movie.genres@[j]@),
        decreases n - i,
    {
        let g = to_lowercase(movie.genres[i].as_str());
        lowered.push(chars_of(g.as_str()));
        i = i + 1;
    }
    let found = any_contains(&lowered, &wanted);
    proof {
        if found {
            let k = choose|k: int| 0 <= k < lowered@.len() && contains_seq(#[trigger] lowered@[k]@, wanted@);
            assert(contains_seq(lowercase(movie.genres@[k]@), lowercase(genre@)));
        } else {
            assert forall|k: int| 0 <= k < movie.genres@.len() implies !contains_seq(lowercase(#[trigger] movie.genres@[k]@), lowercase(genre@)) by {
                assert(lowered@[k]@ == lowercase(movie.genres@[k]@));
            }
        }
    }
    if found {
        proof {
            lemma_u32_product(movie.rating, weight);
        }
        return (movie.rating as u64) * (weight as u64);
    }
    (movie.rating as u64) * 10
}

} // verus!
