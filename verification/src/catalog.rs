use vstd::prelude::*;

use crate::movie::Movie;
use crate::text::str_eq;

verus! {

/// The films of one genre.
pub struct Shelf {
    pub genre: String,
    pub movies: Vec<Movie>,
}

/// Index of the first shelf of `genre`, if any.
pub open spec fn lookup(shelves: Seq<Shelf>, genre: Seq<char>) -> Option<int>
    decreases shelves.len(),
{
    if shelves.len() == 0 {
        None
    } else {
        match lookup(shelves.drop_last(), genre) {
            Some(i) => Some(i),
            None => if shelves.last().genre@ == genre {
                Some(shelves.len() - 1)
            } else {
                None
            },
        }
    }
}

/// No genre has two shelves.
pub open spec fn genres_distinct(shelves: Seq<Shelf>) -> bool {
    forall|i: int, j: int|
        0 <= i < j < shelves.len() ==> #[trigger] shelves[i].genre@ != #[trigger] shelves[j].genre@
}

/// `lookup` finds the shelf of a genre exactly when there is one.
pub proof fn lemma_lookup(shelves: Seq<Shelf>, genre: Seq<char>)
    ensures
        match lookup(shelves, genre) {
            Some(i) => 0 <= i < shelves.len() && shelves[i].genre@ == genre
                && forall|j: int| 0 <= j < i ==> shelves[j].genre@ != genre,
            None => forall|j: int| 0 <= j < shelves.len() ==> shelves[j].genre@ != genre,
        },
    decreases shelves.len(),
{
    if shelves.len() > 0 {
        let d = shelves.drop_last();
        lemma_lookup(d, genre);
        assert(forall|j: int| 0 <= j < d.len() ==> d[j] == shelves[j]);
    }
}

/// `lookup` gives the one shelf of a genre, when genres are distinct.
pub proof fn lemma_lookup_unique(shelves: Seq<Shelf>, genre: Seq<char>, k: int)
    requires
        genres_distinct(shelves),
        0 <= k < shelves.len(),
        shelves[k].genre@ == genre,
    ensures
        lookup(shelves, genre) == Some(k),
{
    lemma_lookup(shelves, genre);
    match lookup(shelves, genre) {
        Some(i) => {
            if i < k {
                assert(shelves[i].genre@ != shelves[k].genre@);
            }
        },
        None => {},
    }
}

/// The groups after setting the films of `genre`: a genre already present keeps its place
/// and gets the new films; a new genre comes last.
pub open spec fn inserted(shelves: Seq<Shelf>, genre: String, movies: Vec<Movie>) -> Seq<Shelf> {
    match lookup(shelves, genre@) {
        Some(i) => shelves.update(i, Shelf { genre, movies }),
        None => shelves.push(Shelf { genre, movies }),
    }
}

/// Reading a genre after setting it gives the films just set; every other genre reads as
/// before; genres stay distinct.
pub proof fn lemma_insert_then_lookup(shelves: Seq<Shelf>, genre: String, movies: Vec<Movie>, other: Seq<char>)
    requires
        genres_distinct(shelves),
    ensures
        genres_distinct(inserted(shelves, genre, movies)),
        lookup(inserted(shelves, genre, movies), genre@) matches Some(k)
            && inserted(shelves, genre, movies)[k].movies == movies,
        other != genre@ ==> lookup(inserted(shelves, genre, movies), other) == lookup(shelves, other),
        other != genre@ ==> (lookup(shelves, other) matches Some(k) ==> inserted(shelves, genre, movies)[k]
            == shelves[k]),
{
    let after = inserted(shelves, genre, movies);
    lemma_lookup(shelves, genre@);
    lemma_lookup(shelves, other);
    assert(genres_distinct(after)) by {
        assert forall|a: int, b: int| 0 <= a < b < after.len() implies #[trigger] after[a].genre@
            != #[trigger] after[b].genre@ by {
            if b == shelves.len() {
            } else {
                assert(shelves[a].genre@ != shelves[b].genre@);
            }
        }
    }
    let k = match lookup(shelves, genre@) {
        Some(i) => i,
        None => shelves.len() as int,
    };
    assert(after[k].genre@ == genre@);
    lemma_lookup_unique(after, genre@, k);
    if other != genre@ {
        lemma_lookup(after, other);
        match lookup(shelves, other) {
            Some(j) => {
                assert(after[j] == shelves[j]);
                lemma_lookup_unique(after, other, j);
            },
            None => {
                match lookup(after, other) {
                    Some(j) => {
                        assert(after[j] == shelves[j]);
                    },
                    None => {},
                }
            },
        }
    }
}

/// Films grouped by genre, at most one group per genre. It stands for a map from genre to
/// films; the order of its groups is the order in which genres were first inserted.
pub struct Catalog {
    shelves: Vec<Shelf>,
}

impl Catalog {
    /// The groups of the catalogue, in order.
    pub closed spec fn shelves(self) -> Seq<Shelf> {
        self.shelves@
    }

    /// No genre has two groups; every catalogue keeps this.
    #[verifier::type_invariant]
    pub open spec fn wf(self) -> bool {
        genres_distinct(self.shelves())
    }

    /// An empty catalogue.
    pub fn new() -> (c: Catalog)
        ensures
            c.shelves() == Seq::<Shelf>::empty(),
    {
        Catalog { shelves: Vec::new() }
    }

    /// Number of genres.
    pub fn len(&self) -> (n: usize)
        ensures
            n == self.shelves().len(),
    {
        self.shelves.len()
    }

    /// The genre and films of the group at `i`.
    pub fn shelf(&self, i: usize) -> (s: &Shelf)
        requires
            i < self.shelves().len(),
        ensures
            *s == self.shelves()[i as int],
    {
        &self.shelves[i]
    }

    /// Position of the group of `genre`, if any.
    pub fn position(&self, genre: &str) -> (r: Option<usize>)
        ensures
            r matches Some(i) ==> lookup(self.shelves(), genre@) == Some(i as int),
            r is None ==> lookup(self.shelves(), genre@) is None,
    {
        let n = self.shelves.len();
        let mut i: usize = 0;
        while i < n
            invariant
                n == self.shelves@.len(),
                i <= n,
                lookup(self.shelves@.take(i as int), genre@) is None,
            decreases n - i,
        {
            let ghost t = self.shelves@.take(i + 1);
            assert(t.drop_last() =~= self.shelves@.take(i as int));
            if str_eq(self.shelves[i].genre.as_str(), genre) {
                proof {
                    assert(lookup(t, genre@) == Some(i as int));
                    lemma_lookup(t, genre@);
                    lemma_lookup(self.shelves@, genre@);
                    match lookup(self.shelves@, genre@) {
                        Some(k) => {
                            if k > i {
                                assert(self.shelves@[i as int].genre@ == genre@);
                            } else if k < i {
                                assert(t[k] == self.shelves@[k]);
                            }
                        },
                        None => {
                            assert(self.shelves@[i as int].genre@ == genre@);
                        },
                    }
                }
                return Some(i);
            }
            i = i + 1;
        }
        proof {
            assert(self.shelves@.take(n as int) =~= self.shelves@);
        }
        None
    }

    /// The films of `genre`, as `HashMap::get`.
    pub fn get(&self, genre: &str) -> (r: Option<&Vec<Movie>>)
        ensures
            match lookup(self.shelves(), genre@) {
                Some(i) => r == Some(&self.shelves()[i].movies),
                None => r is None,
            },
    {
        proof {
            lemma_lookup(self.shelves@, genre@);
        }
        match self.position(genre) {
            Some(i) => Some(&self.shelves[i].movies),
            None => None,
        }
    }

    /// Sets the films of `genre`, as `HashMap::insert`: a genre already present keeps its
    /// place and gets the new films; a new genre comes last.
    pub fn insert(&mut self, genre: String, movies: Vec<Movie>)
        ensures
            final(self).shelves() == inserted(old(self).shelves(), genre, movies),
    {
        proof {
            use_type_invariant(&*self);
        }
        match self.position(genre.as_str()) {
            Some(i) => {
                let ghost before = self.shelves@;
                let mut shelves: Vec<Shelf> = Vec::new();
                std::mem::swap(&mut shelves, &mut self.shelves);
                proof {
                    lemma_lookup(before, genre@);
                }
                shelves.set(i, Shelf { genre, movies });
                proof {
                    assert forall|a: int, b: int|
                        0 <= a < b < shelves@.len() implies #[trigger] shelves@[a].genre@
                        != #[trigger] shelves@[b].genre@ by {
                        if a != i && b != i {
                            assert(before[a].genre@ != before[b].genre@);
                        } else if a == i {
                            assert(before[a].genre@ != before[b].genre@);
                        } else {
                            assert(before[a].genre@ != before[b].genre@);
                        }
                    }
                }
                self.shelves = shelves;
            },
            None => {
                let ghost before = self.shelves@;
                let mut shelves: Vec<Shelf> = Vec::new();
                std::mem::swap(&mut shelves, &mut self.shelves);
                proof {
                    lemma_lookup(before, genre@);
                }
                shelves.push(Shelf { genre, movies });
                self.shelves = shelves;
            },
        }
    }
}

} // verus!
