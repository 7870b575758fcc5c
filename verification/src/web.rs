use vstd::prelude::*;

use crate::catalog::{Catalog, Shelf};
use crate::movie::{opt_view, poster_base, poster_url, same_movie, Movie};
use crate::text::str_eq;

verus! {

/// All films of the catalogue, group after group.
pub open spec fn all_movies(shelves: Seq<Shelf>) -> Seq<Movie>
    decreases shelves.len(),
{
    if shelves.len() == 0 {
        Seq::empty()
    } else {
        all_movies(shelves.drop_last()) + shelves.last().movies@
    }
}

/// Position of the last film with `id` among `flat`, as a map built from them keeps it.
pub open spec fn last_with_id(flat: Seq<Movie>, id: u32) -> Option<int>
    decreases flat.len(),
{
    if flat.len() == 0 {
        None
    } else if flat.last().id == id {
        Some(flat.len() - 1)
    } else {
        last_with_id(flat.drop_last(), id)
    }
}

/// Positions in `flat` of the recommended ids that it holds, in the recommended order.
pub open spec fn resolved_positions(flat: Seq<Movie>, ids: Seq<u32>) -> Seq<int>
    decreases ids.len(),
{
    if ids.len() == 0 {
        Seq::empty()
    } else {
        let p = resolved_positions(flat, ids.drop_last());
        match last_with_id(flat, ids.last()) {
            Some(k) => p.push(k),
            None => p,
        }
    }
}

proof fn lemma_last_with_id(flat: Seq<Movie>, id: u32)
    ensures
        match last_with_id(flat, id) {
            Some(k) => 0 <= k < flat.len() && flat[k].id == id,
            None => forall|j: int| 0 <= j < flat.len() ==> flat[j].id != id,
        },
    decreases flat.len(),
{
    if flat.len() > 0 {
        let d = flat.drop_last();
        lemma_last_with_id(d, id);
        assert(forall|j: int| 0 <= j < d.len() ==> d[j] == flat[j]);
    }
}

fn flatten(catalog: &Catalog) -> (flat: Vec<&Movie>)
    ensures
        flat@.len() == all_movies(catalog.shelves()).len(),
        forall|k: int| 0 <= k < flat@.len() ==> *#[trigger] flat@[k] == all_movies(catalog.shelves())[k],
{
    let n = catalog.len();
    let mut flat: Vec<&Movie> = Vec::new();
    let mut si: usize = 0;
    while si < n
        invariant
            n == catalog.shelves().len(),
            si <= n,
            flat@.len() == all_movies(catalog.shelves().take(si as int)).len(),
            forall|k: int| 0 <= k < flat@.len() ==> *#[trigger] flat@[k] == all_movies(catalog.shelves().take(si as int))[k],
        decreases n - si,
    {
        let shelf = catalog.shelf(si);
        let ghost before = all_movies(catalog.shelves().take(si as int));
        let m = shelf.movies.len();
        let mut mi: usize = 0;
        while mi < m
            invariant
                m == shelf.movies@.len(),
                mi <= m,
                flat@.len() == before.len() + mi,
                forall|k: int| 0 <= k < flat@.len() ==> *#[trigger] flat@[k] == (before + shelf.movies@)[k],
            decreases m - mi,
        {
            flat.push(&shelf.movies[mi]);
            mi = mi + 1;
        }
        proof {
            let t = catalog.shelves().take(si + 1);
            assert(t.drop_last() =~= catalog.shelves().take(si as int));
            assert(t.last() == *shelf);
        }
        si = si + 1;
    }
    assert(catalog.shelves().take(n as int) =~= catalog.shelves());
    flat
}

/// The films of a recommendation, in its order: for each id the last film of the catalogue
/// with that id; ids that the catalogue lacks are skipped.
pub fn resolve_recommended(catalog: &Catalog, ids: &Vec<u32>) -> (movies: Vec<Movie>)
    ensures
        movies@.len() == resolved_positions(all_movies(catalog.shelves()), ids@).len(),
        forall|k: int| #![trigger movies@[k]] 0 <= k < movies@.len() ==> same_movie(
            movies@[k],
            all_movies(catalog.shelves())[resolved_positions(all_movies(catalog.shelves()), ids@)[k]],
        ),
{
    let ghost all = all_movies(catalog.shelves());
    let flat = flatten(catalog);
    let n = ids.len();
    let mut out: Vec<Movie> = Vec::new();
    let mut i: usize = 0;
    while i < n
        invariant
            n == ids@.len(),
            i <= n,
            all == all_movies(catalog.shelves()),
            flat@.len() == all.len(),
            forall|k: int| 0 <= k < flat@.len() ==> *#[trigger] flat@[k] == all[k],
            out@.len() == resolved_positions(all, ids@.take(i as int)).len(),
            forall|k: int| #![trigger out@[k]] 0 <= k < out@.len()
                ==> same_movie(out@[k], all[resolved_positions(all, ids@.take(i as int))[k]]),
            forall|k: int| 0 <= k < resolved_positions(all, ids@.take(i as int)).len()
                ==> 0 <= #[trigger] resolved_positions(all, ids@.take(i as int))[k] < all.len(),
        decreases n - i,
    {
        let id = ids[i];
        let m = flat.len();
        let mut j: usize = m;
        assert(all.take(m as int) =~= all);
        while j > 0 && flat[j - 1].id != id
            invariant
                j <= m,
                m == flat@.len(),
                m == all.len(),
                forall|k: int| 0 <= k < flat@.len() ==> *#[trigger] flat@[k] == all[k],
                last_with_id(all, id) == last_with_id(all.take(j as int), id),
            decreases j,
        {
            proof {
                let t = all.take(j as int);
                assert(t.drop_last() =~= all.take(j - 1));
                assert(t.last() == all[j - 1]);
            }
            j = j - 1;
        }
        proof {
            let ti = ids@.take(i + 1);
            assert(ti.drop_last() =~= ids@.take(i as int));
            assert(ti.last() == id);
            if j > 0 {
                let t = all.take(j as int);
                assert(t.last() == all[j - 1]);
                assert(last_with_id(all, id) == Some(j - 1));
            } else {
                assert(all.take(0).len() == 0);
            }
        }
        if j > 0 {
            out.push(flat[j - 1].duplicate());
        }
        i = i + 1;
    }
    proof {
        assert(ids@.take(n as int) =~= ids@);
    }
    out
}

/// One member of a film's crew: their job and name, when given as text.
pub struct CrewMember {
    pub job: Option<String>,
    pub name: Option<String>,
}

/// Position of the first crew member whose job is `Director`, or the crew's size.
pub open spec fn first_director(crew: Seq<CrewMember>) -> int
    decreases crew.len(),
{
    if crew.len() == 0 {
        0
    } else if crew[0].job matches Some(j) && j@ == "Director"@ {
        0
    } else {
        1 + first_director(crew.drop_first())
    }
}

/// The director found is the first crew member whose job is `Director`: every member before
/// has another job or none, and when no member is a director the position is the crew's size.
pub proof fn lemma_first_director(crew: Seq<CrewMember>)
    ensures
        0 <= first_director(crew) <= crew.len(),
        first_director(crew) < crew.len() ==> (crew[first_director(crew)].job matches Some(j) && j@ == "Director"@),
        forall|i: int| 0 <= i < first_director(crew) ==> !(#[trigger] crew[i].job matches Some(j) && j@ == "Director"@),
    decreases crew.len(),
{
    if crew.len() > 0 && !(crew[0].job matches Some(j) && j@ == "Director"@) {
        let t = crew.drop_first();
        lemma_first_director(t);
        assert forall|i: int| 0 <= i < first_director(crew) implies !(#[trigger] crew[i].job matches Some(j) && j@ == "Director"@) by {
            if i > 0 {
                assert(crew[i] == t[i - 1]);
            }
        }
        if first_director(crew) < crew.len() {
            assert(crew[first_director(crew)] == t[first_director(t)]);
        }
    }
}

/// The name of the film's director: the name of the first crew member whose job is
/// `Director`, if that member has a name.
pub fn director_of(crew: &Vec<CrewMember>) -> (name: Option<String>)
    ensures
        first_director(crew@) < crew@.len() ==> match crew@[first_director(crew@)].name {
            Some(n) => name matches Some(r) && r@ == n@,
            None => name is None,
        },
        first_director(crew@) >= crew@.len() ==> name is None,
{
    let n = crew.len();
    let mut i: usize = 0;
    assert(crew@.skip(0) =~= crew@);
    while i < n
        invariant
            n == crew@.len(),
            i <= n,
            first_director(crew@) == i + first_director(crew@.skip(i as int)),
        decreases n - i,
    {
        let is_director = match &crew[i].job {
            Some(j) => str_eq(j.as_str(), "Director"),
            None => false,
        };
        proof {
            let s = crew@.skip(i as int);
            assert(s[0] == crew@[i as int]);
            assert(s.drop_first() =~= crew@.skip(i + 1));
        }
        if is_director {
            return match &crew[i].name {
                Some(nm) => Some(nm.clone()),
                None => None,
            };
        }
        i = i + 1;
    }
    assert(crew@.skip(n as int).len() == 0);
    None
}

/// The names that are present, in order.
pub open spec fn present_names(v: Seq<Option<String>>) -> Seq<Seq<char>>
    decreases v.len(),
{
    if v.len() == 0 {
        Seq::empty()
    } else {
        let p = present_names(v.drop_last());
        match v.last() {
            Some(s) => p.push(s@),
            None => p,
        }
    }
}

/// The names that are present, in order (genre names of a film's details).
pub fn names_present(v: &Vec<Option<String>>) -> (names: Vec<String>)
    ensures
        names@.map_values(|s: String| s@) == present_names(v@),
{
    let n = v.len();
    let mut out: Vec<String> = Vec::new();
    let mut i: usize = 0;
    while i < n
        invariant
            n == v@.len(),
            i <= n,
            out@.map_values(|s: String| s@) == present_names(v@.take(i as int)),
        decreases n - i,
    {
        proof {
            let t = v@.take(i + 1);
            assert(t.drop_last() =~= v@.take(i as int));
            assert(t.last() == v@[i as int]);
        }
        let ghost before = out@;
        match &v[i] {
            Some(s) => {
                out.push(s.clone());
                assert(out@.map_values(|s: String| s@) =~= before.map_values(|s: String| s@).push(s@));
            },
            None => {},
        }
        i = i + 1;
    }
    assert(v@.take(n as int) =~= v@);
    out
}

/// Most actors listed for a film.
pub const MAX_ACTORS: usize = 5;

/// The names among the first five members of the cast.
pub fn leading_actors(cast: &Vec<Option<String>>) -> (names: Vec<String>)
    ensures
        names@.map_values(|s: String| s@) == present_names(
            if cast@.len() <= 5 {
                cast@
            } else {
                cast@.take(5)
            },
        ),
{
    let n = cast.len();
    let k = if n <= MAX_ACTORS {
        n
    } else {
        MAX_ACTORS
    };
    let mut out: Vec<String> = Vec::new();
    let mut i: usize = 0;
    while i < k
        invariant
            n == cast@.len(),
            k <= n,
            k == (if n <= MAX_ACTORS { n } else { MAX_ACTORS }),
            i <= k,
            out@.map_values(|s: String| s@) == present_names(cast@.take(i as int)),
        decreases k - i,
    {
        proof {
            let t = cast@.take(i + 1);
            assert(t.drop_last() =~= cast@.take(i as int));
            assert(t.last() == cast@[i as int]);
        }
        let ghost before = out@;
        match &cast[i] {
            Some(s) => {
                out.push(s.clone());
                assert(out@.map_values(|s: String| s@) =~= before.map_values(|s: String| s@).push(s@));
            },
            None => {},
        }
        i = i + 1;
    }
    assert(cast@.take(n as int) =~= cast@);
    out
}

/// What a film's TMDb details and credits give, each field when present with its type
/// (`rating` is the vote average in thousandths of a point; lists are empty when absent).
pub struct TmdbDetails {
    pub title: Option<String>,
    pub genres: Vec<Option<String>>,
    pub rating: Option<u32>,
    pub poster_path: Option<String>,
    pub overview: Option<String>,
    pub release_date: Option<String>,
    pub runtime: Option<u64>,
    pub crew: Vec<CrewMember>,
    pub cast: Vec<Option<String>>,
}

/// The details of a film shown by the web page (`rating` in thousandths of a point,
/// `duration` in minutes).
pub struct MovieDetails {
    pub id: u32,
    pub title: String,
    pub genres: Vec<String>,
    pub rating: u32,
    pub poster_path: Option<String>,
    pub overview: String,
    pub release_date: Option<String>,
    pub duration: Option<u32>,
    pub director: Option<String>,
    pub actors: Vec<String>,
}

/// A text, or the empty text when absent.
pub open spec fn text_or_empty(o: Option<String>) -> Seq<char> {
    match o {
        Some(s) => s@,
        None => Seq::empty(),
    }
}

fn take_text(o: Option<String>) -> (s: String)
    ensures
        s@ == text_or_empty(o),
{
    match o {
        Some(s) => s,
        None => String::new(),
    }
}

/// The details of film `id`: missing title and overview become empty, a missing rating 0,
/// the poster path a full link, the runtime is cut to 32 bits, the genres are the names
/// given, the director and actors as `director_of` and `leading_actors` choose them.
pub fn movie_details(id: u32, d: TmdbDetails) -> (m: MovieDetails)
    ensures
        m.id == id,
        m.title@ == text_or_empty(d.title),
        m.genres@.map_values(|s: String| s@) == present_names(d.genres@),
        m.rating == match d.rating {
            Some(r) => r,
            None => 0,
        },
        opt_view(m.poster_path) == match d.poster_path {
            Some(p) => Some(poster_base() + p@),
            None => None,
        },
        m.overview@ == text_or_empty(d.overview),
        opt_view(m.release_date) == opt_view(d.release_date),
        m.duration == match d.runtime {
            Some(r) => Some(r as u32),
            None => None,
        },
        first_director(d.crew@) < d.crew@.len() ==> match d.crew@[first_director(d.crew@)].name {
            Some(n) => m.director matches Some(r) && r@ == n@,
            None => m.director is None,
        },
        first_director(d.crew@) >= d.crew@.len() ==> m.director is None,
        m.actors@.map_values(|s: String| s@) == present_names(
            if d.cast@.len() <= 5 {
                d.cast@
            } else {
                d.cast@.take(5)
            },
        ),
{
    let TmdbDetails { title, genres, rating, poster_path, overview, release_date, runtime, crew, cast } = d;
    let poster_path = match poster_path {
        Some(p) => Some(poster_url(p.as_str())),
        None => None,
    };
    let rating = match rating {
        Some(r) => r,
        None => 0,
    };
    let duration = match runtime {
        Some(r) => Some(r as u32),
        None => None,
    };
    MovieDetails {
        id,
        title: take_text(title),
        genres: names_present(&genres),
        rating,
        poster_path,
        overview: take_text(overview),
        release_date,
        duration,
        director: director_of(&crew),
        actors: leading_actors(&cast),
    }
}

} // verus!
