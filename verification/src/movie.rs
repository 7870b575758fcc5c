use vstd::prelude::*;
use vstd::string::*;

verus! {

/// A film of the catalogue. `rating` is the TMDb vote average in thousandths of a point
/// (7.5 is 7500).
#[derive(Clone, Debug)]
pub struct Movie {
    pub id: u32,
    pub title: String,
    pub genres: Vec<String>,
    pub rating: u32,
    pub poster_path: Option<String>,
    pub overview: String,
    pub release_date: Option<String>,
}

/// The films published for one genre, with their count.
#[derive(Clone, Debug)]
pub struct MovieCatalog {
    pub movies: Vec<Movie>,
    pub total: usize,
}

/// The characters of an optional text.
pub open spec fn opt_view(o: Option<String>) -> Option<Seq<char>> {
    match o {
        Some(s) => Some(s@),
        None => None,
    }
}

/// Two films hold the same data.
pub open spec fn same_movie(a: Movie, b: Movie) -> bool {
    &&& a.id == b.id
    &&& a.title@ == b.title@
    &&& a.genres@.map_values(|g: String| g@) == b.genres@.map_values(|g: String| g@)
    &&& a.rating == b.rating
    &&& opt_view(a.poster_path) == opt_view(b.poster_path)
    &&& a.overview@ == b.overview@
    &&& opt_view(a.release_date) == opt_view(b.release_date)
}

fn copy_text(s: &Option<String>) -> (r: Option<String>)
    ensures
        opt_view(r) == opt_view(*s),
{
    match s {
        Some(t) => Some(t.clone()),
        None => None,
    }
}

fn copy_texts(v: &Vec<String>) -> (r: Vec<String>)
    ensures
        r@.map_values(|g: String| g@) == v@.map_values(|g: String| g@),
{
    let mut r: Vec<String> = Vec::new();
    let mut i: usize = 0;
    while i < v.len()
        invariant
            i <= v@.len(),
            r@.len() == i,
            forall|j: int| 0 <= j < i ==> #[trigger] r@[j]@ == v@[j]@,
        decreases v@.len() - i,
    {
        r.push(v[i].clone());
        i = i + 1;
    }
    assert(r@.map_values(|g: String| g@) =~= v@.map_values(|g: String| g@));
    r
}

impl Movie {
    /// A copy of the film holding the same data.
    pub fn duplicate(&self) -> (r: Movie)
        ensures
            same_movie(r, *self),
    {
        Movie {
            id: self.id,
            title: self.title.clone(),
            genres: copy_texts(&self.genres),
            rating: self.rating,
            poster_path: copy_text(&self.poster_path),
            overview: self.overview.clone(),
            release_date: copy_text(&self.release_date),
        }
    }
}

/// The fields of one film of a TMDb discovery page, as far as they are present with the
/// expected type (`rating` is the vote average in thousandths of a point).
pub struct TmdbItem {
    pub id: Option<u64>,
    pub title: Option<String>,
    pub rating: Option<u32>,
    pub poster_path: Option<String>,
    pub overview: Option<String>,
    pub release_date: Option<String>,
}

/// Base of the poster links.
pub open spec fn poster_base() -> Seq<char> {
    "https://image.tmdb.org/t/p/w500"@
}

/// Most characters of an overview.
pub const OVERVIEW_CHARS: usize = 100;

/// Most films kept per genre.
pub const MAX_MOVIES: usize = 30;

/// The full link of a poster path.
pub fn poster_url(path: &str) -> (url: String)
    ensures
        url@ == poster_base() + path@,
{
    let mut url = String::from_str("https://image.tmdb.org/t/p/w500");
    url.append(path);
    url
}

/// The first 100 characters of an overview, empty when there is none.
pub open spec fn short_overview(o: Option<String>) -> Seq<char> {
    let s = match o {
        Some(t) => t@,
        None => Seq::empty(),
    };
    if s.len() <= OVERVIEW_CHARS {
        s
    } else {
        s.take(OVERVIEW_CHARS as int)
    }
}

/// An item can become a film: it has an id, a title and a rating.
pub open spec fn convertible(item: TmdbItem) -> bool {
    item.id is Some && item.title is Some && item.rating is Some
}

/// `m` is the film made from `item` in the genre `label`: the id cut to 32 bits, the
/// label as only genre, the poster path as a full link, the overview cut to 100 characters.
pub open spec fn movie_of_item(m: Movie, item: TmdbItem, label: Seq<char>) -> bool {
    &&& m.id == item.id->0 as u32
    &&& m.title@ == item.title->0@
    &&& m.genres@.map_values(|g: String| g@) == seq![label]
    &&& m.rating == item.rating->0
    &&& opt_view(m.poster_path) == match item.poster_path {
        Some(p) => Some(poster_base() + p@),
        None => None,
    }
    &&& m.overview@ == short_overview(item.overview)
    &&& opt_view(m.release_date) == opt_view(item.release_date)
}

/// The film of a TMDb item, or `None` when its id, title or rating is missing.
pub fn movie_from_item(item: TmdbItem, label: &str) -> (m: Option<Movie>)
    ensures
        m is Some <==> convertible(item),
        m matches Some(mv) ==> movie_of_item(mv, item, label@),
{
    let TmdbItem { id, title, rating, poster_path, overview, release_date } = item;
    let id = match id {
        Some(v) => v,
        None => return None,
    };
    let title = match title {
        Some(t) => t,
        None => return None,
    };
    let rating = match rating {
        Some(r) => r,
        None => return None,
    };
    let poster_path = match poster_path {
        Some(p) => Some(poster_url(p.as_str())),
        None => None,
    };
    let text: String = match overview {
        Some(o) => o,
        None => String::new(),
    };
    let n = text.as_str().unicode_len();
    let k = if n <= OVERVIEW_CHARS {
        n
    } else {
        OVERVIEW_CHARS
    };
    let short = text.as_str().substring_char(0, k);
    let overview = String::from_str(short);
    proof {
        if n <= OVERVIEW_CHARS {
            assert(text@.subrange(0, k as int) =~= text@);
        }
    }
    let mut genres: Vec<String> = Vec::new();
    genres.push(String::from_str(label));
    assert(genres@.map_values(|g: String| g@) =~= seq![label@]);
    Some(Movie { id: id as u32, title, genres, rating, poster_path, overview, release_date })
}

/// The items that can become films, in order.
pub open spec fn convertible_items(items: Seq<TmdbItem>) -> Seq<TmdbItem>
    decreases items.len(),
{
    if items.len() == 0 {
        items
    } else {
        let p = convertible_items(items.drop_last());
        if convertible(items.last()) {
            p.push(items.last())
        } else {
            p
        }
    }
}

/// The films of a page of TMDb items, skipping the items that cannot become films.
pub fn movies_from_page(items: Vec<TmdbItem>, label: &str) -> (movies: Vec<Movie>)
    ensures
        movies@.len() == convertible_items(items@).len(),
        forall|k: int| #![trigger movies@[k]] 0 <= k < movies@.len()
            ==> movie_of_item(movies@[k], convertible_items(items@)[k], label@),
{
    let ghost s = items@;
    let mut rest = items;
    let mut out: Vec<Movie> = Vec::new();
    let ghost mut k: int = 0;
    while rest.len() > 0
        invariant
            0 <= k <= s.len(),
            rest@ == s.subrange(k, s.len() as int),
            out@.len() == convertible_items(s.take(k)).len(),
            forall|j: int| #![trigger out@[j]] 0 <= j < out@.len()
                ==> movie_of_item(out@[j], convertible_items(s.take(k))[j], label@),
        decreases rest@.len(),
    {
        let item = rest.remove(0);
        proof {
            let t = s.take(k + 1);
            assert(t.drop_last() =~= s.take(k));
            assert(item == s[k]);
            assert(t.last() == item);
        }
        match movie_from_item(item, label) {
            Some(m) => {
                out.push(m);
            },
            None => {},
        }
        proof {
            k = k + 1;
            assert(rest@ =~= s.subrange(k, s.len() as int));
        }
    }
    assert(s.take(k) =~= s);
    out
}

/// Drops each film whose id is that of the film kept just before it, as
/// `Vec::dedup_by_key` on the id.
pub open spec fn dedup_ids(s: Seq<Movie>) -> Seq<Movie>
    decreases s.len(),
{
    if s.len() == 0 {
        s
    } else {
        let d = dedup_ids(s.drop_last());
        if d.len() > 0 && d.last().id == s.last().id {
            d
        } else {
            d.push(s.last())
        }
    }
}

proof fn lemma_dedup_ids(s: Seq<Movie>)
    ensures
        dedup_ids(s).len() <= s.len(),
        forall|i: int| 0 <= i < dedup_ids(s).len() - 1 ==> #[trigger] dedup_ids(s)[i].id != dedup_ids(s)[i + 1].id,
        forall|i: int| 0 <= i < dedup_ids(s).len() ==> s.contains(#[trigger] dedup_ids(s)[i]),
        s.len() > 0 ==> dedup_ids(s).len() > 0 && dedup_ids(s)[0] == s[0],
    decreases s.len(),
{
    if s.len() > 0 {
        let t = s.drop_last();
        lemma_dedup_ids(t);
        let d = dedup_ids(t);
        assert forall|i: int| 0 <= i < d.len() implies s.contains(#[trigger] d[i]) by {
            let k = choose|k: int| 0 <= k < t.len() && t[k] == d[i];
            assert(s[k] == d[i]);
        }
        assert(s[s.len() - 1] == s.last());
        if t.len() > 0 {
            assert(t[0] == s[0]);
        }
    }
}

/// Once finalized, a genre holds at most 30 films, no film has the same id as the one
/// before it, every film comes from the input, and the first film of the input is kept.
pub proof fn lemma_finalized(s: Seq<Movie>)
    ensures
        finalized(s).len() <= 30,
        forall|i: int| 0 <= i < finalized(s).len() - 1 ==> #[trigger] finalized(s)[i].id != finalized(s)[i + 1].id,
        forall|i: int| 0 <= i < finalized(s).len() ==> s.contains(#[trigger] finalized(s)[i]),
        s.len() > 0 ==> finalized(s).len() > 0 && finalized(s)[0] == s[0],
{
    lemma_dedup_ids(s);
    let d = dedup_ids(s);
    if d.len() > MAX_MOVIES {
        let f = d.take(MAX_MOVIES as int);
        assert forall|i: int| 0 <= i < f.len() - 1 implies #[trigger] f[i].id != f[i + 1].id by {
            assert(f[i] == d[i] && f[i + 1] == d[i + 1]);
        }
        assert forall|i: int| 0 <= i < f.len() implies s.contains(#[trigger] f[i]) by {
            assert(f[i] == d[i]);
        }
    }
}

/// When no two neighbouring films share an id, finalizing drops nothing but the films past
/// the first 30.
pub proof fn lemma_finalized_keeps_distinct(s: Seq<Movie>)
    requires
        forall|i: int| 0 <= i < s.len() - 1 ==> #[trigger] s[i].id != s[i + 1].id,
    ensures
        finalized(s) == (if s.len() <= 30 { s } else { s.take(30) }),
{
    lemma_dedup_keeps(s);
}

proof fn lemma_dedup_keeps(s: Seq<Movie>)
    requires
        forall|i: int| 0 <= i < s.len() - 1 ==> #[trigger] s[i].id != s[i + 1].id,
    ensures
        dedup_ids(s) == s,
    decreases s.len(),
{
    if s.len() > 0 {
        let t = s.drop_last();
        assert forall|i: int| 0 <= i < t.len() - 1 implies #[trigger] t[i].id != t[i + 1].id by {
            assert(t[i] == s[i] && t[i + 1] == s[i + 1]);
        }
        lemma_dedup_keeps(t);
        if t.len() > 0 {
            assert(t.last() == s[s.len() - 2]);
            assert(s[s.len() - 2].id != s[s.len() - 1].id);
        }
        assert(t.push(s.last()) =~= s);
    }
}

/// The films of a genre once repeated neighbours are dropped, at most the first 30.
pub open spec fn finalized(s: Seq<Movie>) -> Seq<Movie> {
    let d = dedup_ids(s);
    if d.len() <= MAX_MOVIES {
        d
    } else {
        d.take(MAX_MOVIES as int)
    }
}

/// Drops repeated neighbouring films and keeps the first 30.
pub fn finalize_movies(movies: Vec<Movie>) -> (r: Vec<Movie>)
    ensures
        r@ == finalized(movies@),
{
    let ghost s = movies@;
    let mut rest = movies;
    let mut out: Vec<Movie> = Vec::new();
    let ghost mut k: int = 0;
    while rest.len() > 0
        invariant
            0 <= k <= s.len(),
            rest@ == s.subrange(k, s.len() as int),
            out@ == dedup_ids(s.take(k)),
        decreases rest@.len(),
    {
        let m = rest.remove(0);
        proof {
            let t = s.take(k + 1);
            assert(t.drop_last() =~= s.take(k));
            assert(m == s[k]);
            assert(t.last() == m);
        }
        let n = out.len();
        if n == 0 || out[n - 1].id != m.id {
            out.push(m);
        }
        proof {
            k = k + 1;
            assert(rest@ =~= s.subrange(k, s.len() as int));
        }
    }
    assert(s.take(k) =~= s);
    out.truncate(MAX_MOVIES);
    out
}

} // verus!
