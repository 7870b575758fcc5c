use vstd::prelude::*;

use crate::catalog::{lookup, Shelf};
use crate::movie::Movie;
use crate::recommend::{bump, normalize, recommend, scored, at_least, below, boost_moods, boost_movies, boost_weights, genre_count, has_id, rank, seed, seed_movies, select, Candidate, MAX_PER_GENRE, MAX_RESULTS};
use crate::weights::genre_weights_spec;

verus! {

/// No film id occurs twice.
pub open spec fn ids_distinct(s: Seq<Candidate>) -> bool {
    forall|i: int, j: int| 0 <= i < j < s.len() ==> #[trigger] s[i].id != #[trigger] s[j].id
}

/// Scores never increase along the sequence.
pub open spec fn sorted_desc(s: Seq<Candidate>) -> bool {
    forall|i: int, j: int| 0 <= i < j < s.len() ==> #[trigger] s[i].score >= #[trigger] s[j].score
}

/// Same films, in the same places, with the same principal genres.
pub open spec fn same_keys(a: Seq<Candidate>, b: Seq<Candidate>) -> bool {
    &&& a.len() == b.len()
    &&& forall|i: int| #![trigger a[i]] 0 <= i < a.len() ==> a[i].id == b[i].id && a[i].genre == b[i].genre
}

/// The id occurs among the films of the catalogue.
pub open spec fn in_catalog(shelves: Seq<Shelf>, id: u32) -> bool {
    exists|k: int, j: int|
        0 <= k < shelves.len() && 0 <= j < shelves[k].movies@.len() && #[trigger] shelves[k].movies@[j].id == id
}

proof fn lemma_parts(r: Seq<Candidate>, s: u64)
    ensures
        at_least(r, s).len() + below(r, s).len() == r.len(),
        forall|i: int| #![trigger at_least(r, s)[i]] 0 <= i < at_least(r, s).len() ==> at_least(r, s)[i].score >= s && r.contains(at_least(r, s)[i]),
        forall|i: int| #![trigger below(r, s)[i]] 0 <= i < below(r, s).len() ==> below(r, s)[i].score < s && r.contains(below(r, s)[i]),
        ids_distinct(r) ==> ids_distinct(at_least(r, s)) && ids_distinct(below(r, s)),
        sorted_desc(r) ==> sorted_desc(at_least(r, s)) && sorted_desc(below(r, s)),
    decreases r.len(),
{
    if r.len() > 0 {
        let d = r.drop_last();
        lemma_parts(d, s);
        let a = at_least(d, s);
        let b = below(d, s);
        assert forall|i: int| 0 <= i < a.len() implies r.contains(#[trigger] a[i]) by {
            assert(d.contains(a[i]));
            let k = choose|k: int| 0 <= k < d.len() && d[k] == a[i];
            assert(r[k] == a[i]);
        }
        assert forall|i: int| 0 <= i < b.len() implies r.contains(#[trigger] b[i]) by {
            assert(d.contains(b[i]));
            let k = choose|k: int| 0 <= k < d.len() && d[k] == b[i];
            assert(r[k] == b[i]);
        }
        assert(r.contains(r.last())) by {
            assert(r[r.len() - 1] == r.last());
        }
        if ids_distinct(r) {
            assert(ids_distinct(d));
            assert forall|i: int| 0 <= i < a.len() implies #[trigger] a[i].id != r.last().id by {
                let k = choose|k: int| 0 <= k < d.len() && d[k] == a[i];
                assert(r[k] == d[k]);
            }
            assert forall|i: int| 0 <= i < b.len() implies #[trigger] b[i].id != r.last().id by {
                let k = choose|k: int| 0 <= k < d.len() && d[k] == b[i];
                assert(r[k] == d[k]);
            }
        }
        if sorted_desc(r) {
            assert(sorted_desc(d));
            assert forall|i: int| 0 <= i < a.len() implies #[trigger] a[i].score >= r.last().score by {
                let k = choose|k: int| 0 <= k < d.len() && d[k] == a[i];
                assert(r[k] == d[k]);
            }
            assert forall|i: int| 0 <= i < b.len() implies #[trigger] b[i].score >= r.last().score by {
                let k = choose|k: int| 0 <= k < d.len() && d[k] == b[i];
                assert(r[k] == d[k]);
            }
        }
    }
}

/// Ranking keeps the films, gives them by decreasing score, and keeps ids distinct.
pub proof fn lemma_rank(c: Seq<Candidate>)
    ensures
        rank(c).len() == c.len(),
        forall|i: int| 0 <= i < rank(c).len() ==> c.contains(#[trigger] rank(c)[i]),
        sorted_desc(rank(c)),
        ids_distinct(c) ==> ids_distinct(rank(c)),
    decreases c.len(),
{
    if c.len() > 0 {
        let d = c.drop_last();
        lemma_rank(d);
        let r = rank(d);
        let x = c.last();
        lemma_parts(r, x.score);
        let a = at_least(r, x.score);
        let b = below(r, x.score);
        let out = a + seq![x] + b;
        assert(rank(c) == out);
        assert forall|i: int| 0 <= i < out.len() implies c.contains(#[trigger] out[i]) by {
            if i < a.len() {
                assert(r.contains(a[i]));
                let k = choose|k: int| 0 <= k < r.len() && r[k] == a[i];
                assert(d.contains(r[k]));
                let m = choose|m: int| 0 <= m < d.len() && d[m] == r[k];
                assert(c[m] == out[i]);
            } else if i == a.len() {
                assert(c[c.len() - 1] == out[i]);
            } else {
                let bi = i - a.len() - 1;
                assert(out[i] == b[bi]);
                assert(r.contains(b[bi]));
                let k = choose|k: int| 0 <= k < r.len() && r[k] == b[bi];
                assert(d.contains(r[k]));
                let m = choose|m: int| 0 <= m < d.len() && d[m] == r[k];
                assert(c[m] == out[i]);
            }
        }
        assert forall|i: int, j: int| 0 <= i < j < out.len() implies #[trigger] out[i].score >= #[trigger] out[j].score by {
            if j < a.len() {
                assert(out[i] == a[i] && out[j] == a[j]);
            } else if i > a.len() {
                assert(out[i] == b[i - a.len() - 1] && out[j] == b[j - a.len() - 1]);
            } else if i < a.len() {
                assert(out[i] == a[i]);
                if j > a.len() {
                    assert(out[j] == b[j - a.len() - 1]);
                }
            } else {
                assert(out[j] == b[j - a.len() - 1]);
            }
        }
        if ids_distinct(c) {
            assert(ids_distinct(d));
            assert forall|i: int, j: int| 0 <= i < j < out.len() implies #[trigger] out[i].id != #[trigger] out[j].id by {
                // Every film other than x comes from r, and x's id differs from all of d.
                assert forall|e: Candidate| #[trigger] r.contains(e) implies e.id != x.id by {
                    let k = choose|k: int| 0 <= k < r.len() && r[k] == e;
                    assert(d.contains(r[k]));
                    let m = choose|m: int| 0 <= m < d.len() && d[m] == r[k];
                    assert(c[m] == e);
                    assert(c[c.len() - 1] == x);
                }
                if j < a.len() {
                    assert(out[i] == a[i] && out[j] == a[j]);
                } else if i > a.len() {
                    assert(out[i] == b[i - a.len() - 1] && out[j] == b[j - a.len() - 1]);
                } else if i == a.len() {
                    assert(out[j] == b[j - a.len() - 1]);
                    assert(r.contains(b[j - a.len() - 1]));
                } else if j == a.len() {
                    assert(out[i] == a[i]);
                    assert(r.contains(a[i]));
                } else {
                    let ea = a[i];
                    let eb = b[j - a.len() - 1];
                    assert(out[i] == ea && out[j] == eb);
                    assert(r.contains(ea) && r.contains(eb));
                    let p = choose|p: int| 0 <= p < r.len() && r[p] == ea;
                    let q = choose|q: int| 0 <= q < r.len() && r[q] == eb;
                    assert(ea.score >= x.score && eb.score < x.score);
                    assert(p != q);
                    if p < q {
                        assert(r[p].id != r[q].id);
                    } else {
                        assert(r[q].id != r[p].id);
                    }
                }
            }
        }
    }
}

proof fn lemma_genre_count_push(r: Seq<Candidate>, x: Candidate, g: usize)
    ensures
        genre_count(r.push(x), g) == genre_count(r, g) + if x.genre == g {
            1nat
        } else {
            0nat
        },
{
    assert(r.push(x).drop_last() =~= r);
}

/// The walk keeps at most 10 films, at most 4 per principal genre, in the ranked order.
pub proof fn lemma_select(s: Seq<Candidate>)
    ensures
        select(s).len() <= 10,
        forall|g: usize| #[trigger] genre_count(select(s), g) <= 4,
        forall|i: int| 0 <= i < select(s).len() ==> s.contains(#[trigger] select(s)[i]),
        ids_distinct(s) ==> ids_distinct(select(s)),
        sorted_desc(s) ==> sorted_desc(select(s)),
        s.len() > 0 ==> select(s).len() > 0,
    decreases s.len(),
{
    if s.len() > 0 {
        let d = s.drop_last();
        lemma_select(d);
        let r = select(d);
        let x = s.last();
        assert forall|e: Candidate| #[trigger] r.contains(e) implies s.contains(e) && exists|m: int|
            0 <= m < d.len() && d[m] == e && s[m] == e by {
            let k = choose|k: int| 0 <= k < r.len() && r[k] == e;
            assert(d.contains(r[k]));
            let m = choose|m: int| 0 <= m < d.len() && d[m] == e;
            assert(s[m] == e);
        }
        if r.len() < MAX_RESULTS && genre_count(r, x.genre) < MAX_PER_GENRE {
            let out = r.push(x);
            assert forall|g: usize| #[trigger] genre_count(out, g) <= MAX_PER_GENRE by {
                lemma_genre_count_push(r, x, g);
            }
            assert forall|i: int| 0 <= i < out.len() implies s.contains(#[trigger] out[i]) by {
                if i < r.len() {
                    assert(r.contains(r[i]));
                } else {
                    assert(s[s.len() - 1] == x);
                }
            }
            if ids_distinct(s) {
                assert forall|i: int, j: int| 0 <= i < j < out.len() implies #[trigger] out[i].id != #[trigger] out[j].id by {
                    if j == r.len() {
                        assert(r.contains(r[i]));
                        let m = choose|m: int| 0 <= m < d.len() && d[m] == r[i] && s[m] == r[i];
                        assert(s[s.len() - 1] == x);
                    }
                }
            }
            if sorted_desc(s) {
                assert forall|i: int, j: int| 0 <= i < j < out.len() implies #[trigger] out[i].score >= #[trigger] out[j].score by {
                    if j == r.len() {
                        assert(r.contains(r[i]));
                        let m = choose|m: int| 0 <= m < d.len() && d[m] == r[i] && s[m] == r[i];
                        assert(s[s.len() - 1] == x);
                    }
                }
            }
        }
    }
}

/// A catalogue holding a film gives at least one candidate, and only its films' ids are candidates.
proof fn lemma_seed_movies(c: Seq<Candidate>, genre: usize, ms: Seq<Movie>)
    ensures
        seed_movies(c, genre, ms).len() >= c.len(),
        forall|i: int| 0 <= i < c.len() ==> #[trigger] seed_movies(c, genre, ms)[i] == c[i],
        forall|i: int| #![trigger seed_movies(c, genre, ms)[i]] c.len() <= i < seed_movies(c, genre, ms).len() ==>
            seed_movies(c, genre, ms)[i].genre == genre
            && exists|j: int| 0 <= j < ms.len() && ms[j].id == seed_movies(c, genre, ms)[i].id,
        forall|j: int| 0 <= j < ms.len() ==> has_id(seed_movies(c, genre, ms), #[trigger] ms[j].id),
        ids_distinct(c) ==> ids_distinct(seed_movies(c, genre, ms)),
    decreases ms.len(),
{
    if ms.len() > 0 {
        let d = ms.drop_last();
        lemma_seed_movies(c, genre, d);
        let prev = seed_movies(c, genre, d);
        let m = ms.last();
        assert forall|j: int| 0 <= j < ms.len() implies has_id(seed_movies(c, genre, ms), #[trigger] ms[j].id) by {
            if j < d.len() {
                assert(d[j] == ms[j]);
                assert(has_id(prev, d[j].id));
                let k = choose|k: int| 0 <= k < prev.len() && prev[k].id == d[j].id;
                assert(seed_movies(c, genre, ms)[k] == prev[k]);
            } else {
                if !has_id(prev, m.id) {
                    assert(seed_movies(c, genre, ms)[prev.len() as int].id == m.id);
                }
            }
        }
        let out = seed_movies(c, genre, ms);
        assert forall|i: int| #![trigger out[i]] c.len() <= i < out.len() implies out[i].genre == genre
            && exists|j: int| 0 <= j < ms.len() && ms[j].id == out[i].id by {
            if i < prev.len() {
                assert(out[i] == prev[i]);
                assert(prev[i].genre == genre);
                let j = choose|j: int| 0 <= j < d.len() && d[j].id == prev[i].id;
                assert(ms[j].id == d[j].id);
            } else {
                assert(ms[ms.len() - 1] == m);
            }
        }
    }
}

/// Film `id` is first met in group `k` at place `j` of the catalogue: it is there, no earlier
/// group holds it, and no earlier place of group `k`.
pub open spec fn first_met(shelves: Seq<Shelf>, id: u32, k: int, j: int) -> bool {
    &&& 0 <= k < shelves.len()
    &&& 0 <= j < shelves[k].movies@.len()
    &&& shelves[k].movies@[j].id == id
    &&& forall|k2: int, j2: int| 0 <= k2 < k && 0 <= j2 < shelves[k2].movies@.len()
        ==> #[trigger] shelves[k2].movies@[j2].id != id
    &&& forall|j2: int| 0 <= j2 < j ==> #[trigger] shelves[k].movies@[j2].id != id
}

/// Film `c` carries the principal genre and the base score of the first place where the
/// catalogue holds it: that place is in group `c.genre`, and `c.score` is the rating found
/// there times 0.7 (in tenths).
pub open spec fn first_meeting(shelves: Seq<Shelf>, c: Candidate) -> bool {
    exists|j: int| #[trigger] first_met(shelves, c.id, c.genre as int, j)
        && c.score == shelves[c.genre as int].movies@[j].rating * 7
}

/// The films that a group adds are new, each with the rating of its first place in the group
/// times 0.7 as its score.
proof fn lemma_seed_movies_first(c: Seq<Candidate>, genre: usize, ms: Seq<Movie>)
    ensures
        forall|i: int| #![trigger seed_movies(c, genre, ms)[i]] c.len() <= i < seed_movies(c, genre, ms).len() ==>
            !has_id(c, seed_movies(c, genre, ms)[i].id)
            && exists|j: int| 0 <= j < ms.len() && #[trigger] ms[j].id == seed_movies(c, genre, ms)[i].id
                && seed_movies(c, genre, ms)[i].score == ms[j].rating * 7
                && forall|j2: int| 0 <= j2 < j ==> #[trigger] ms[j2].id != seed_movies(c, genre, ms)[i].id,
    decreases ms.len(),
{
    if ms.len() > 0 {
        let d = ms.drop_last();
        lemma_seed_movies_first(c, genre, d);
        lemma_seed_movies(c, genre, d);
        let prev = seed_movies(c, genre, d);
        let m = ms.last();
        let out = seed_movies(c, genre, ms);
        assert forall|i: int| #![trigger out[i]] c.len() <= i < out.len() implies
            !has_id(c, out[i].id)
            && exists|j: int| 0 <= j < ms.len() && #[trigger] ms[j].id == out[i].id
                && out[i].score == ms[j].rating * 7
                && forall|j2: int| 0 <= j2 < j ==> #[trigger] ms[j2].id != out[i].id by {
            if i < prev.len() {
                assert(out[i] == prev[i]);
                let j = choose|j: int| 0 <= j < d.len() && #[trigger] d[j].id == prev[i].id
                    && prev[i].score == d[j].rating * 7
                    && forall|j2: int| 0 <= j2 < j ==> #[trigger] d[j2].id != prev[i].id;
                assert(ms[j] == d[j]);
                assert forall|j2: int| 0 <= j2 < j implies #[trigger] ms[j2].id != out[i].id by {
                    assert(ms[j2] == d[j2]);
                }
            } else {
                let j = ms.len() - 1;
                assert(ms[j] == m);
                assert(out[i].id == m.id);
                if has_id(c, m.id) {
                    let p = choose|p: int| 0 <= p < c.len() && c[p].id == m.id;
                    assert(prev[p] == c[p]);
                    assert(has_id(prev, m.id));
                }
                assert forall|j2: int| 0 <= j2 < j implies #[trigger] ms[j2].id != out[i].id by {
                    assert(ms[j2] == d[j2]);
                    assert(has_id(prev, d[j2].id));
                }
            }
        }
    }
}

/// The films being ranked are the distinct film ids of the catalogue: no id twice, each one
/// from the catalogue, and every film of the catalogue among them; each starts with the
/// principal genre and the base score (rating times 0.7) of the first place where the
/// catalogue holds it.
pub proof fn lemma_seed(shelves: Seq<Shelf>)
    ensures
        ids_distinct(seed(shelves)),
        forall|i: int| #![trigger seed(shelves)[i]] 0 <= i < seed(shelves).len() ==> in_catalog(shelves, seed(shelves)[i].id),
        forall|k: int, j: int| 0 <= k < shelves.len() && 0 <= j < shelves[k].movies@.len()
            ==> has_id(seed(shelves), #[trigger] shelves[k].movies@[j].id),
        shelves.len() <= usize::MAX ==> forall|i: int| 0 <= i < seed(shelves).len()
            ==> #[trigger] first_meeting(shelves, seed(shelves)[i]),
    decreases shelves.len(),
{
    if shelves.len() > 0 {
        let d = shelves.drop_last();
        lemma_seed(d);
        let prev = seed(d);
        let g = (shelves.len() - 1) as usize;
        let ms = shelves.last().movies@;
        lemma_seed_movies(prev, g, ms);
        lemma_seed_movies_first(prev, g, ms);
        let out = seed(shelves);
        if shelves.len() <= usize::MAX {
            assert forall|i: int| 0 <= i < seed(shelves).len() implies #[trigger] first_meeting(shelves, seed(shelves)[i]) by {
                if i < prev.len() {
                    assert(out[i] == prev[i]);
                    assert(first_meeting(d, prev[i]));
                    let j = choose|j: int| #[trigger] first_met(d, prev[i].id, prev[i].genre as int, j)
                        && prev[i].score == d[prev[i].genre as int].movies@[j].rating * 7;
                    let k = prev[i].genre as int;
                    assert(shelves[k] == d[k]);
                    assert forall|k2: int, j2: int| 0 <= k2 < k && 0 <= j2 < shelves[k2].movies@.len()
                        implies #[trigger] shelves[k2].movies@[j2].id != out[i].id by {
                        assert(shelves[k2] == d[k2]);
                        assert(d[k2].movies@[j2].id != prev[i].id);
                    }
                    assert(first_met(shelves, out[i].id, k, j));
                } else {
                    assert(out[i].genre == g);
                    let k = g as int;
                    assert(k == shelves.len() - 1);
                    assert(shelves[k] == shelves.last());
                    let j = choose|j: int| 0 <= j < ms.len() && #[trigger] ms[j].id == out[i].id
                        && out[i].score == ms[j].rating * 7
                        && forall|j2: int| 0 <= j2 < j ==> #[trigger] ms[j2].id != out[i].id;
                    assert forall|k2: int, j2: int| 0 <= k2 < k && 0 <= j2 < shelves[k2].movies@.len()
                        implies #[trigger] shelves[k2].movies@[j2].id != out[i].id by {
                        assert(shelves[k2] == d[k2]);
                        if d[k2].movies@[j2].id == out[i].id {
                            assert(has_id(prev, d[k2].movies@[j2].id));
                        }
                    }
                    assert(first_met(shelves, out[i].id, k, j));
                }
            }
        }
        assert forall|i: int| #![trigger out[i]] 0 <= i < out.len() implies in_catalog(shelves, out[i].id) by {
            if i < prev.len() {
                assert(out[i] == prev[i]);
                assert(in_catalog(d, prev[i].id));
                let (k, j) = choose|k: int, j: int|
                    0 <= k < d.len() && 0 <= j < d[k].movies@.len() && #[trigger] d[k].movies@[j].id == prev[i].id;
                assert(shelves[k] == d[k]);
            } else {
                assert(out[i].genre == g);
                let j = choose|j: int| 0 <= j < ms.len() && ms[j].id == out[i].id;
                assert(shelves[shelves.len() - 1].movies@[j].id == out[i].id);
            }
        }
        assert forall|k: int, j: int| 0 <= k < shelves.len() && 0 <= j < shelves[k].movies@.len()
            implies has_id(out, #[trigger] shelves[k].movies@[j].id) by {
            if k < d.len() {
                assert(shelves[k] == d[k]);
                assert(has_id(prev, d[k].movies@[j].id));
                let p = choose|p: int| 0 <= p < prev.len() && prev[p].id == d[k].movies@[j].id;
                assert(out[p] == prev[p]);
            } else {
                assert(ms[j] == shelves[k].movies@[j]);
            }
        }
    }
}

proof fn lemma_boost_movies_keys(c: Seq<Candidate>, ms: Seq<Movie>, w: u32)
    ensures
        same_keys(boost_movies(c, ms, w), c),
    decreases ms.len(),
{
    if ms.len() > 0 {
        lemma_boost_movies_keys(c, ms.drop_last(), w);
    }
}

proof fn lemma_boost_weights_keys(c: Seq<Candidate>, ws: Seq<(Seq<char>, u32)>, shelves: Seq<Shelf>)
    ensures
        same_keys(boost_weights(c, ws, shelves), c),
    decreases ws.len(),
{
    if ws.len() > 0 {
        let prev = boost_weights(c, ws.drop_last(), shelves);
        lemma_boost_weights_keys(c, ws.drop_last(), shelves);
        match crate::catalog::lookup(shelves, ws.last().0) {
            Some(k) => lemma_boost_movies_keys(prev, shelves[k].movies@, ws.last().1),
            None => {},
        }
    }
}

proof fn lemma_boost_moods_keys(
    c: Seq<Candidate>,
    moods: Seq<Seq<char>>,
    condition: Seq<char>,
    period: Seq<char>,
    shelves: Seq<Shelf>,
)
    ensures
        same_keys(boost_moods(c, moods, condition, period, shelves), c),
    decreases moods.len(),
{
    if moods.len() > 0 {
        lemma_boost_moods_keys(c, moods.drop_last(), condition, period, shelves);
        lemma_boost_weights_keys(
            boost_moods(c, moods.drop_last(), condition, period, shelves),
            genre_weights_spec(moods.last(), condition, period),
            shelves,
        );
    }
}

proof fn lemma_genre_count_add(a: Seq<Candidate>, b: Seq<Candidate>, g: usize)
    ensures
        genre_count(a + b, g) == genre_count(a, g) + genre_count(b, g),
    decreases b.len(),
{
    if b.len() > 0 {
        lemma_genre_count_add(a, b.drop_last(), g);
        assert((a + b).drop_last() =~= a + b.drop_last());
        assert((a + b).last() == b.last());
    } else {
        assert(a + b =~= a);
    }
}

proof fn lemma_genre_count_parts(r: Seq<Candidate>, s: u64, g: usize)
    ensures
        genre_count(at_least(r, s), g) + genre_count(below(r, s), g) == genre_count(r, g),
    decreases r.len(),
{
    if r.len() > 0 {
        let d = r.drop_last();
        lemma_genre_count_parts(d, s, g);
        lemma_genre_count_push(at_least(d, s), r.last(), g);
        lemma_genre_count_push(below(d, s), r.last(), g);
    }
}

/// Ranking keeps the number of films of each principal genre.
pub proof fn lemma_rank_genre_count(c: Seq<Candidate>, g: usize)
    ensures
        genre_count(rank(c), g) == genre_count(c, g),
    decreases c.len(),
{
    if c.len() > 0 {
        let d = c.drop_last();
        lemma_rank_genre_count(d, g);
        let r = rank(d);
        let x = c.last();
        let a = at_least(r, x.score);
        let b = below(r, x.score);
        lemma_genre_count_parts(r, x.score, g);
        lemma_genre_count_add(a + seq![x], b, g);
        lemma_genre_count_add(a, seq![x], g);
        assert(seq![x] =~= Seq::<Candidate>::empty().push(x));
        lemma_genre_count_push(Seq::<Candidate>::empty(), x, g);
    }
}

proof fn lemma_genre_count_same_keys(a: Seq<Candidate>, b: Seq<Candidate>, g: usize)
    requires
        same_keys(a, b),
    ensures
        genre_count(a, g) == genre_count(b, g),
    decreases a.len(),
{
    if a.len() > 0 {
        let n = a.len() - 1;
        assert(a[n].genre == b[n].genre);
        assert(same_keys(a.drop_last(), b.drop_last())) by {
            assert forall|i: int| #![trigger a.drop_last()[i]] 0 <= i < a.drop_last().len() implies a.drop_last()[i].id
                == b.drop_last()[i].id && a.drop_last()[i].genre == b.drop_last()[i].genre by {
                assert(a[i].id == b[i].id && a[i].genre == b[i].genre);
            }
        }
        lemma_genre_count_same_keys(a.drop_last(), b.drop_last(), g);
    }
}

proof fn lemma_select_prefix(s: Seq<Candidate>, k: int, j: int)
    requires
        0 <= k <= j <= s.len(),
    ensures
        select(s.take(k)).len() <= select(s.take(j)).len(),
        forall|p: int| 0 <= p < select(s.take(k)).len() ==> #[trigger] select(s.take(j))[p] == select(s.take(k))[p],
        forall|p: int| select(s.take(k)).len() <= p < select(s.take(j)).len() ==>
            exists|q: int| k <= q < j && #[trigger] select(s.take(j))[p] == s[q],
    decreases j - k,
{
    if j > k {
        lemma_select_prefix(s, k, j - 1);
        let t = s.take(j);
        assert(t.drop_last() =~= s.take(j - 1));
        assert(t.last() == s[j - 1]);
        let a = select(s.take(k));
        let b0 = select(s.take(j - 1));
        let b = select(t);
        assert forall|p: int| a.len() <= p < b.len() implies exists|q: int| k <= q < j && #[trigger] b[p] == s[q] by {
            if p < b0.len() {
                assert(b[p] == b0[p]);
                let q = choose|q: int| k <= q < j - 1 && #[trigger] b0[p] == s[q];
                assert(b[p] == s[q]);
            } else {
                assert(b[p] == s[j - 1]);
            }
        }
    } else {
        assert(s.take(k) == s.take(j));
    }
}

/// The walk is maximal and decides each ranked film on the films ranked before it: the
/// films kept among the first `k` ranked ones start the films kept among all of them, and
/// the film at rank `k` is kept (added right after them) exactly when fewer than 10 films
/// and fewer than 4 films of its own principal genre were kept before it; otherwise it is
/// skipped and the walk goes on. When ranked films are distinct, a film is in the result
/// exactly when that holds.
pub proof fn lemma_select_maximal(s: Seq<Candidate>)
    ensures
        forall|k: int| #![trigger select(s.take(k))] 0 <= k <= s.len() ==>
            select(s.take(k)).len() <= select(s).len()
            && select(s).take(select(s.take(k)).len() as int) == select(s.take(k)),
        forall|k: int| #![trigger select(s.take(k + 1))] 0 <= k < s.len() ==>
            if select(s.take(k)).len() < 10 && genre_count(select(s.take(k)), s[k].genre) < 4 {
                select(s.take(k + 1)) == select(s.take(k)).push(s[k])
            } else {
                select(s.take(k + 1)) == select(s.take(k))
            },
        ids_distinct(s) ==> forall|k: int| #![trigger s[k]] 0 <= k < s.len() ==>
            (select(s).contains(s[k]) <==> (select(s.take(k)).len() < 10
                && genre_count(select(s.take(k)), s[k].genre) < 4)),
{
    assert(s.take(s.len() as int) =~= s);
    assert forall|k: int| #![trigger select(s.take(k))] 0 <= k <= s.len() implies
        select(s.take(k)).len() <= select(s).len()
        && select(s).take(select(s.take(k)).len() as int) == select(s.take(k)) by {
        lemma_select_prefix(s, k, s.len() as int);
        assert(select(s).take(select(s.take(k)).len() as int) =~= select(s.take(k)));
    }
    assert forall|k: int| #![trigger select(s.take(k + 1))] 0 <= k < s.len() implies
        if select(s.take(k)).len() < MAX_RESULTS && genre_count(select(s.take(k)), s[k].genre) < MAX_PER_GENRE {
            select(s.take(k + 1)) == select(s.take(k)).push(s[k])
        } else {
            select(s.take(k + 1)) == select(s.take(k))
        } by {
        let t = s.take(k + 1);
        assert(t.drop_last() =~= s.take(k));
        assert(t.last() == s[k]);
    }
    if ids_distinct(s) {
        assert forall|k: int| #![trigger s[k]] 0 <= k < s.len() implies
            (select(s).contains(s[k]) <==> (select(s.take(k)).len() < MAX_RESULTS
                && genre_count(select(s.take(k)), s[k].genre) < MAX_PER_GENRE)) by {
            let a = select(s.take(k));
            let t = s.take(k + 1);
            assert(t.drop_last() =~= s.take(k));
            assert(t.last() == s[k]);
            lemma_select_prefix(s, k + 1, s.len() as int);
            lemma_select_prefix(s, 0, k);
            assert(s.take(0) =~= Seq::<Candidate>::empty());
            let b = select(t);
            let f = select(s);
            if a.len() < MAX_RESULTS && genre_count(a, s[k].genre) < MAX_PER_GENRE {
                assert(f[a.len() as int] == b[a.len() as int]);
            } else {
                assert(b == a);
                if f.contains(s[k]) {
                    let p = choose|p: int| 0 <= p < f.len() && f[p] == s[k];
                    if p < a.len() {
                        assert(f[p] == a[p]);
                        let q = choose|q: int| 0 <= q < k && #[trigger] a[p] == s[q];
                        assert(s[q].id != s[k].id);
                    } else {
                        let q = choose|q: int| k + 1 <= q < s.len() && #[trigger] f[p] == s[q];
                        assert(s[k].id != s[q].id);
                    }
                }
            }
        }
    }
}

/// In every recommendation, a ranked film is recommended exactly when, among the films
/// ranked before it, fewer than 10 were recommended and fewer than 4 of its own principal
/// genre: a genre that is full only skips its own films.
pub proof fn lemma_recommendation_maximal(
    moods: Seq<Seq<char>>,
    condition: Seq<char>,
    period: Seq<char>,
    shelves: Seq<Shelf>,
)
    ensures
        forall|k: int| #![trigger rank(scored(moods, condition, period, shelves))[k]]
            0 <= k < rank(scored(moods, condition, period, shelves)).len() ==> (
            select(rank(scored(moods, condition, period, shelves))).contains(rank(scored(moods, condition, period, shelves))[k])
            <==> (select(rank(scored(moods, condition, period, shelves)).take(k)).len() < 10
                && genre_count(select(rank(scored(moods, condition, period, shelves)).take(k)),
                    rank(scored(moods, condition, period, shelves))[k].genre) < 4)),
{
    let c0 = seed(shelves);
    let c = scored(moods, condition, period, shelves);
    lemma_seed(shelves);
    lemma_boost_moods_keys(c0, moods, condition, period, shelves);
    assert(ids_distinct(c)) by {
        assert forall|i: int, j: int| 0 <= i < j < c.len() implies #[trigger] c[i].id != #[trigger] c[j].id by {
            assert(c0[i].id != c0[j].id);
        }
    }
    lemma_rank(c);
    lemma_select_maximal(rank(c));
}

/// The walk never keeps more films of a genre than it is given, and when no principal
/// genre has more than 4 films it keeps the first 10 (or all of them when fewer).
pub proof fn lemma_select_len(s: Seq<Candidate>)
    ensures
        forall|g: usize| #[trigger] genre_count(select(s), g) <= genre_count(s, g),
        (forall|g: usize| #[trigger] genre_count(s, g) <= 4) ==> select(s).len() == if s.len()
            <= 10 {
            s.len()
        } else {
            10 as nat
        },
    decreases s.len(),
{
    if s.len() > 0 {
        let d = s.drop_last();
        let x = s.last();
        lemma_select_len(d);
        let r = select(d);
        assert forall|g: usize| #[trigger] genre_count(d, g) <= genre_count(s, g) by {
            assert(s.drop_last() == d);
        }
        assert forall|g: usize| #[trigger] genre_count(select(s), g) <= genre_count(s, g) by {
            lemma_genre_count_push(r, x, g);
            assert(s.drop_last() == d);
        }
        if forall|g: usize| #[trigger] genre_count(s, g) <= MAX_PER_GENRE {
            assert(genre_count(d, x.genre) + 1 == genre_count(s, x.genre));
            assert(genre_count(r, x.genre) <= genre_count(d, x.genre));
        }
    }
}

/// Laws of every recommendation:
/// - it holds at most 10 films, at most 4 of any principal genre, and no film twice;
/// - each film comes with its own final score (so a strictly higher final score is a
///   strictly higher returned score) and with the best score, which is the first film's;
///   scores never increase and never exceed the best one;
/// - it only holds films of the catalogue;
/// - an empty catalogue gives an empty recommendation, and a catalogue holding a film gives
///   a recommendation with at least one film, whatever the moods and the weather;
/// - when no principal genre has more than 4 distinct films, it holds 10 films, or every
///   film of the catalogue when there are fewer (so at least 5 when there are 5).
pub proof fn lemma_recommendation_laws(
    moods: Seq<Seq<char>>,
    condition: Seq<char>,
    period: Seq<char>,
    shelves: Seq<Shelf>,
)
    ensures
        recommend(moods, condition, period, shelves).len() <= 10,
        forall|g: usize| #[trigger] genre_count(select(rank(scored(moods, condition, period, shelves))), g) <= 4,
        forall|i: int| #![trigger recommend(moods, condition, period, shelves)[i]]
            0 <= i < recommend(moods, condition, period, shelves).len() ==>
            recommend(moods, condition, period, shelves)[i].id == select(rank(scored(moods, condition, period, shelves)))[i].id
            && recommend(moods, condition, period, shelves)[i].score == select(rank(scored(moods, condition, period, shelves)))[i].score
            && recommend(moods, condition, period, shelves)[i].best == recommend(moods, condition, period, shelves)[0].score
            && recommend(moods, condition, period, shelves)[i].score <= recommend(moods, condition, period, shelves)[i].best
            && in_catalog(shelves, recommend(moods, condition, period, shelves)[i].id)
            && exists|k: int| 0 <= k < scored(moods, condition, period, shelves).len()
                && #[trigger] scored(moods, condition, period, shelves)[k] == select(rank(scored(moods, condition, period, shelves)))[i],
        forall|i: int, j: int| 0 <= i < recommend(moods, condition, period, shelves).len()
            && 0 <= j < recommend(moods, condition, period, shelves).len() ==>
            (select(rank(scored(moods, condition, period, shelves)))[i].score > select(rank(scored(moods, condition, period, shelves)))[j].score
            ==> #[trigger] recommend(moods, condition, period, shelves)[i].score > #[trigger] recommend(moods, condition, period, shelves)[j].score),
        forall|i: int, j: int| 0 <= i < j < recommend(moods, condition, period, shelves).len() ==>
            #[trigger] recommend(moods, condition, period, shelves)[i].id != #[trigger] recommend(moods, condition, period, shelves)[j].id
            && recommend(moods, condition, period, shelves)[i].score >= recommend(moods, condition, period, shelves)[j].score,
        shelves.len() == 0 ==> recommend(moods, condition, period, shelves).len() == 0,
        (exists|k: int| 0 <= k < shelves.len() && #[trigger] shelves[k].movies@.len() > 0)
            ==> recommend(moods, condition, period, shelves).len() > 0,
        (forall|g: usize| #[trigger] genre_count(seed(shelves), g) <= 4)
            ==> recommend(moods, condition, period, shelves).len() == if seed(shelves).len() <= 10 {
                seed(shelves).len()
            } else {
                10 as nat
            },
{
    let c0 = seed(shelves);
    let c = scored(moods, condition, period, shelves);
    lemma_seed(shelves);
    lemma_boost_moods_keys(c0, moods, condition, period, shelves);
    assert(ids_distinct(c)) by {
        assert forall|i: int, j: int| 0 <= i < j < c.len() implies #[trigger] c[i].id != #[trigger] c[j].id by {
            assert(c0[i].id != c0[j].id);
        }
    }
    lemma_rank(c);
    let r = rank(c);
    lemma_select(r);
    lemma_select_len(r);
    let s = select(r);
    let out = normalize(s);
    assert(out == recommend(moods, condition, period, shelves));
    assert forall|i: int| #![trigger out[i]] 0 <= i < out.len() implies out[i].score <= out[i].best
        && in_catalog(shelves, out[i].id)
        && exists|k: int| 0 <= k < c.len() && #[trigger] c[k] == s[i] by {
        if i > 0 {
            assert(s[0].score >= s[i].score);
        }
        assert(r.contains(s[i]));
        let p = choose|p: int| 0 <= p < r.len() && r[p] == s[i];
        assert(c.contains(r[p]));
        let q = choose|q: int| 0 <= q < c.len() && c[q] == r[p];
        assert(c0[q].id == c[q].id);
        assert(in_catalog(shelves, c0[q].id));
    }
    if shelves.len() == 0 {
        assert(c0.len() == 0);
    }
    if exists|k: int| 0 <= k < shelves.len() && #[trigger] shelves[k].movies@.len() > 0 {
        let k = choose|k: int| 0 <= k < shelves.len() && #[trigger] shelves[k].movies@.len() > 0;
        assert(has_id(c0, shelves[k].movies@[0].id));
    }
    if forall|g: usize| #[trigger] genre_count(c0, g) <= MAX_PER_GENRE {
        assert forall|g: usize| #[trigger] genre_count(r, g) <= MAX_PER_GENRE by {
            lemma_genre_count_same_keys(c, c0, g);
            lemma_rank_genre_count(c, g);
        }
    }
}

/// A film of `ms` with this id scores `v` at multiplier `w`.
pub open spec fn film_boost(ms: Seq<Movie>, w: u32, id: u32, v: int) -> bool {
    exists|j: int| 0 <= j < ms.len() && #[trigger] ms[j].id == id && v == ms[j].rating * w
}

/// `s` is at least the score of every film of `ms` with this id at multiplier `w`.
pub open spec fn above_film_boosts(ms: Seq<Movie>, w: u32, id: u32, s: int) -> bool {
    forall|j: int| 0 <= j < ms.len() && #[trigger] ms[j].id == id ==> s >= ms[j].rating * w
}

/// The group of genre `g` holds a film with this id scoring `v` at multiplier `w`.
pub open spec fn genre_boost(shelves: Seq<Shelf>, g: Seq<char>, w: u32, id: u32, v: int) -> bool {
    match lookup(shelves, g) {
        Some(k) => film_boost(shelves[k].movies@, w, id, v),
        None => false,
    }
}

/// `s` is at least every score that the group of genre `g` gives this id at multiplier `w`.
pub open spec fn above_genre_boosts(shelves: Seq<Shelf>, g: Seq<char>, w: u32, id: u32, s: int) -> bool {
    match lookup(shelves, g) {
        Some(k) => above_film_boosts(shelves[k].movies@, w, id, s),
        None => true,
    }
}

/// Some weighted genre of `ws` gives this id the score `v`.
pub open spec fn weights_boost(ws: Seq<(Seq<char>, u32)>, shelves: Seq<Shelf>, id: u32, v: int) -> bool {
    exists|wi: int| 0 <= wi < ws.len() && genre_boost(shelves, #[trigger] ws[wi].0, ws[wi].1, id, v)
}

/// `s` is at least every score that a weighted genre of `ws` gives this id.
pub open spec fn above_weights_boosts(ws: Seq<(Seq<char>, u32)>, shelves: Seq<Shelf>, id: u32, s: int) -> bool {
    forall|wi: int| 0 <= wi < ws.len() ==> above_genre_boosts(shelves, #[trigger] ws[wi].0, ws[wi].1, id, s)
}

/// Some mood gives this id the score `v`.
pub open spec fn mood_boost(
    moods: Seq<Seq<char>>,
    condition: Seq<char>,
    period: Seq<char>,
    shelves: Seq<Shelf>,
    id: u32,
    v: int,
) -> bool {
    exists|mi: int| 0 <= mi < moods.len() && weights_boost(genre_weights_spec(#[trigger] moods[mi], condition, period), shelves, id, v)
}

/// `s` is at least every score that a mood gives this id.
pub open spec fn above_mood_boosts(
    moods: Seq<Seq<char>>,
    condition: Seq<char>,
    period: Seq<char>,
    shelves: Seq<Shelf>,
    id: u32,
    s: int,
) -> bool {
    forall|mi: int| 0 <= mi < moods.len() ==> above_weights_boosts(genre_weights_spec(#[trigger] moods[mi], condition, period), shelves, id, s)
}

proof fn lemma_boost_movies_max(c: Seq<Candidate>, ms: Seq<Movie>, w: u32)
    ensures
        forall|i: int| #![trigger boost_movies(c, ms, w)[i]] 0 <= i < c.len() ==> {
            let r = boost_movies(c, ms, w)[i];
            &&& r.score >= c[i].score
            &&& above_film_boosts(ms, w, c[i].id, r.score as int)
            &&& (r.score == c[i].score || film_boost(ms, w, c[i].id, r.score as int))
        },
    decreases ms.len(),
{
    lemma_boost_movies_keys(c, ms, w);
    if ms.len() > 0 {
        let d = ms.drop_last();
        lemma_boost_movies_max(c, d, w);
        lemma_boost_movies_keys(c, d, w);
        let prev = boost_movies(c, d, w);
        let m = ms.last();
        crate::recommend::lemma_u32_product(m.rating, w);
        let v = (m.rating * w) as u64;
        let out = boost_movies(c, ms, w);
        assert(out == bump(prev, m.id, v));
        assert forall|i: int| #![trigger out[i]] 0 <= i < c.len() implies {
            &&& out[i].score >= c[i].score
            &&& above_film_boosts(ms, w, c[i].id, out[i].score as int)
            &&& (out[i].score == c[i].score || film_boost(ms, w, c[i].id, out[i].score as int))
        } by {
            let p = prev[i];
            assert(p.id == c[i].id);
            assert forall|j: int| 0 <= j < ms.len() && #[trigger] ms[j].id == c[i].id implies out[i].score >= ms[j].rating * w by {
                if j < d.len() {
                    assert(d[j] == ms[j]);
                    assert(above_film_boosts(d, w, c[i].id, p.score as int));
                    assert(d[j].id == c[i].id);
                } else {
                    assert(ms[j] == m);
                }
            }
            if out[i].score != c[i].score {
                if out[i].score == p.score {
                    assert(film_boost(d, w, c[i].id, p.score as int));
                    let j = choose|j: int| 0 <= j < d.len() && #[trigger] d[j].id == c[i].id && p.score == d[j].rating * w;
                    assert(ms[j] == d[j]);
                } else {
                    assert(ms[ms.len() - 1] == m);
                }
            }
        }
    }
}

proof fn lemma_boost_weights_max(c: Seq<Candidate>, ws: Seq<(Seq<char>, u32)>, shelves: Seq<Shelf>)
    ensures
        forall|i: int| #![trigger boost_weights(c, ws, shelves)[i]] 0 <= i < c.len() ==> {
            let r = boost_weights(c, ws, shelves)[i];
            &&& r.score >= c[i].score
            &&& above_weights_boosts(ws, shelves, c[i].id, r.score as int)
            &&& (r.score == c[i].score || weights_boost(ws, shelves, c[i].id, r.score as int))
        },
    decreases ws.len(),
{
    lemma_boost_weights_keys(c, ws, shelves);
    if ws.len() > 0 {
        let d = ws.drop_last();
        lemma_boost_weights_max(c, d, shelves);
        lemma_boost_weights_keys(c, d, shelves);
        let prev = boost_weights(c, d, shelves);
        let (g, w) = ws.last();
        let out = boost_weights(c, ws, shelves);
        match lookup(shelves, g) {
            Some(k) => {
                let ms = shelves[k].movies@;
                lemma_boost_movies_max(prev, ms, w);
                assert(out == boost_movies(prev, ms, w));
            },
            None => {
                assert(out == prev);
            },
        }
        assert forall|i: int| #![trigger out[i]] 0 <= i < c.len() implies {
            &&& out[i].score >= c[i].score
            &&& above_weights_boosts(ws, shelves, c[i].id, out[i].score as int)
            &&& (out[i].score == c[i].score || weights_boost(ws, shelves, c[i].id, out[i].score as int))
        } by {
            let p = prev[i];
            assert(p.id == c[i].id);
            let lasti = ws.len() - 1;
            assert(ws[lasti] == (g, w));
            match lookup(shelves, g) {
                Some(k) => {
                    assert(out[i] == boost_movies(prev, shelves[k].movies@, w)[i]);
                },
                None => {},
            }
            assert forall|wi: int| 0 <= wi < ws.len() implies above_genre_boosts(shelves, #[trigger] ws[wi].0, ws[wi].1, c[i].id, out[i].score as int) by {
                if wi < d.len() {
                    assert(d[wi] == ws[wi]);
                    assert(above_genre_boosts(shelves, d[wi].0, d[wi].1, c[i].id, p.score as int));
                    match lookup(shelves, ws[wi].0) {
                        Some(k2) => {
                            let ms2 = shelves[k2].movies@;
                            assert forall|j: int| 0 <= j < ms2.len() && #[trigger] ms2[j].id == c[i].id implies out[i].score >= ms2[j].rating * ws[wi].1 by {
                                assert(p.score >= ms2[j].rating * ws[wi].1);
                            }
                        },
                        None => {},
                    }
                }
            }
            if out[i].score != c[i].score {
                if out[i].score == p.score {
                    let wi = choose|wi: int| 0 <= wi < d.len() && genre_boost(shelves, #[trigger] d[wi].0, d[wi].1, c[i].id, p.score as int);
                    assert(ws[wi] == d[wi]);
                } else {
                    match lookup(shelves, g) {
                        Some(k) => {
                            assert(genre_boost(shelves, ws[lasti].0, ws[lasti].1, c[i].id, out[i].score as int));
                        },
                        None => {},
                    }
                }
            }
        }
    }
}

proof fn lemma_boost_moods_max(
    c: Seq<Candidate>,
    moods: Seq<Seq<char>>,
    condition: Seq<char>,
    period: Seq<char>,
    shelves: Seq<Shelf>,
)
    ensures
        forall|i: int| #![trigger boost_moods(c, moods, condition, period, shelves)[i]] 0 <= i < c.len() ==> {
            let r = boost_moods(c, moods, condition, period, shelves)[i];
            &&& r.score >= c[i].score
            &&& above_mood_boosts(moods, condition, period, shelves, c[i].id, r.score as int)
            &&& (r.score == c[i].score || mood_boost(moods, condition, period, shelves, c[i].id, r.score as int))
        },
    decreases moods.len(),
{
    lemma_boost_moods_keys(c, moods, condition, period, shelves);
    if moods.len() > 0 {
        let d = moods.drop_last();
        lemma_boost_moods_max(c, d, condition, period, shelves);
        lemma_boost_moods_keys(c, d, condition, period, shelves);
        let prev = boost_moods(c, d, condition, period, shelves);
        let ws = genre_weights_spec(moods.last(), condition, period);
        lemma_boost_weights_max(prev, ws, shelves);
        let out = boost_moods(c, moods, condition, period, shelves);
        assert(out == boost_weights(prev, ws, shelves));
        assert forall|i: int| #![trigger out[i]] 0 <= i < c.len() implies {
            &&& out[i].score >= c[i].score
            &&& above_mood_boosts(moods, condition, period, shelves, c[i].id, out[i].score as int)
            &&& (out[i].score == c[i].score || mood_boost(moods, condition, period, shelves, c[i].id, out[i].score as int))
        } by {
            let p = prev[i];
            assert(p.id == c[i].id);
            assert(out[i] == boost_weights(prev, ws, shelves)[i]);
            let lasti = moods.len() - 1;
            assert(moods[lasti] == moods.last());
            assert forall|mi: int| 0 <= mi < moods.len() implies above_weights_boosts(genre_weights_spec(#[trigger] moods[mi], condition, period), shelves, c[i].id, out[i].score as int) by {
                if mi < d.len() {
                    assert(d[mi] == moods[mi]);
                    let wsm = genre_weights_spec(moods[mi], condition, period);
                    assert(above_weights_boosts(wsm, shelves, c[i].id, p.score as int));
                    assert forall|wi: int| 0 <= wi < wsm.len() implies above_genre_boosts(shelves, #[trigger] wsm[wi].0, wsm[wi].1, c[i].id, out[i].score as int) by {
                        assert(above_genre_boosts(shelves, wsm[wi].0, wsm[wi].1, c[i].id, p.score as int));
                        match lookup(shelves, wsm[wi].0) {
                            Some(k2) => {
                                let ms2 = shelves[k2].movies@;
                                assert forall|j: int| 0 <= j < ms2.len() && #[trigger] ms2[j].id == c[i].id implies out[i].score >= ms2[j].rating * wsm[wi].1 by {
                                    assert(p.score >= ms2[j].rating * wsm[wi].1);
                                }
                            },
                            None => {},
                        }
                    }
                }
            }
            if out[i].score != c[i].score {
                if out[i].score == p.score {
                    let mi = choose|mi: int| 0 <= mi < d.len() && weights_boost(genre_weights_spec(#[trigger] d[mi], condition, period), shelves, c[i].id, p.score as int);
                    assert(moods[mi] == d[mi]);
                } else {
                    assert(weights_boost(ws, shelves, c[i].id, out[i].score as int));
                }
            }
        }
    }
}

/// The final score of every film is the highest of its base score (its rating at first
/// meeting times 0.7) and of the scores that the moods' weighted genres give it (the rating
/// of a film with its id in the group of that genre, times the genre's multiplier): it is
/// at least each of them and equal to one of them.
pub proof fn lemma_scores_are_maxima(moods: Seq<Seq<char>>, condition: Seq<char>, period: Seq<char>, shelves: Seq<Shelf>)
    ensures
        scored(moods, condition, period, shelves).len() == seed(shelves).len(),
        forall|i: int| #![trigger scored(moods, condition, period, shelves)[i]] 0 <= i < seed(shelves).len() ==> {
            let f = scored(moods, condition, period, shelves)[i];
            let b = seed(shelves)[i];
            &&& f.id == b.id && f.genre == b.genre
            &&& f.score >= b.score
            &&& above_mood_boosts(moods, condition, period, shelves, f.id, f.score as int)
            &&& (f.score == b.score || mood_boost(moods, condition, period, shelves, f.id, f.score as int))
        },
{
    lemma_boost_moods_keys(seed(shelves), moods, condition, period, shelves);
    lemma_boost_moods_max(seed(shelves), moods, condition, period, shelves);
}

} // verus!
