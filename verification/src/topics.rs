use vstd::prelude::*;
use vstd::string::*;

use crate::text::{chars_of, contains_seq, occurs_at, str_eq};

verus! {

/// The MQTT topics that the services exchange.
pub enum Topic {
    /// `weather/current`: the current weather.
    Weather,
    /// `weather/location`: a new position to watch.
    Location,
    /// `mood/selected`: the moods chosen by the user.
    Mood,
    /// `recommendations/result`: a computed recommendation.
    Recommendations,
    /// `movies/<genre>`: the films of a genre, with the genre's name.
    Movies(String),
    /// Any other topic.
    Other,
}

/// `s` begins with `p`.
pub open spec fn starts_with(s: Seq<char>, p: Seq<char>) -> bool {
    p.len() <= s.len() && s.take(p.len() as int) == p
}

/// `s` with every occurrence of `pat` removed, scanning from the left as `str::replace`
/// with an empty replacement does.
pub open spec fn remove_all(s: Seq<char>, pat: Seq<char>) -> Seq<char>
    decreases s.len(),
{
    if pat.len() == 0 || s.len() < pat.len() {
        s
    } else if s.take(pat.len() as int) == pat {
        remove_all(s.skip(pat.len() as int), pat)
    } else {
        seq![s[0]] + remove_all(s.drop_first(), pat)
    }
}

/// The genre named by a film topic: the topic without any `movies/`.
pub fn genre_from_topic(topic: &str) -> (genre: String)
    ensures
        genre@ == remove_all(topic@, "movies/"@),
{
    let s = chars_of(topic);
    let pat = chars_of("movies/");
    let n = s.len();
    let m = pat.len();
    let ghost full = topic@;
    let ghost p = pat@;
    proof {
        reveal_strlit("movies/");
    }
    let mut out = String::new();
    let mut seg: usize = 0;
    let mut i: usize = 0;
    assert(full.skip(0) =~= full);
    while m <= n - i
        invariant
            n == s@.len(),
            full == topic@,
            s@ == full,
            pat@ == p,
            p == "movies/"@,
            m == p.len(),
            m == 7,
            seg <= i <= n,
            out@ + full.subrange(seg as int, i as int) + remove_all(full.skip(i as int), p) == remove_all(full, p),
        decreases n - i,
    {
        let ghost rest = full.skip(i as int);
        if occurs_at(&s, &pat, i) {
            let ghost before = out@;
            let piece = topic.substring_char(seg, i);
            out.append(piece);
            proof {
                assert(rest.take(m as int) =~= full.subrange(i as int, i + m));
                assert(rest.skip(m as int) =~= full.skip(i + m));
                assert(remove_all(rest, p) == remove_all(full.skip(i + m), p));
                assert(out@ + full.subrange(i + m, i + m) + remove_all(full.skip(i + m), p)
                    =~= before + full.subrange(seg as int, i as int) + remove_all(rest, p));
            }
            i = i + m;
            seg = i;
        } else {
            proof {
                assert(rest.take(m as int) =~= full.subrange(i as int, i + m));
                assert(rest.drop_first() =~= full.skip(i + 1));
                assert(rest[0] == full[i as int]);
                assert(remove_all(rest, p) == seq![full[i as int]] + remove_all(full.skip(i + 1), p));
                assert(full.subrange(seg as int, i + 1) + remove_all(full.skip(i + 1), p)
                    =~= full.subrange(seg as int, i as int) + remove_all(rest, p));
                assert(out@ + full.subrange(seg as int, i + 1) + remove_all(full.skip(i + 1), p)
                    =~= out@ + (full.subrange(seg as int, i + 1) + remove_all(full.skip(i + 1), p)));
                assert(out@ + full.subrange(seg as int, i as int) + remove_all(rest, p)
                    =~= out@ + (full.subrange(seg as int, i as int) + remove_all(rest, p)));
            }
            i = i + 1;
        }
    }
    let ghost before = out@;
    let piece = topic.substring_char(seg, n);
    out.append(piece);
    proof {
        let rest = full.skip(i as int);
        assert(remove_all(rest, p) == rest);
        assert(before + full.subrange(seg as int, i as int) + rest =~= before + full.subrange(seg as int, n as int));
    }
    out
}

/// Removing a pattern that does not occur leaves a text unchanged.
proof fn lemma_remove_absent(s: Seq<char>, pat: Seq<char>)
    requires
        pat.len() > 0,
        !contains_seq(s, pat),
    ensures
        remove_all(s, pat) == s,
    decreases s.len(),
{
    if s.len() >= pat.len() {
        assert(s.take(pat.len() as int) != pat) by {
            if s.take(pat.len() as int) == pat {
                assert(s.subrange(0, 0 + pat.len() as int) =~= pat);
            }
        }
        let t = s.drop_first();
        assert(!contains_seq(t, pat)) by {
            if contains_seq(t, pat) {
                let i = choose|i: int| 0 <= i && i + pat.len() <= t.len() && #[trigger] t.subrange(i, i + pat.len()) == pat;
                assert(s.subrange(i + 1, i + 1 + pat.len()) =~= t.subrange(i, i + pat.len()));
            }
        }
        lemma_remove_absent(t, pat);
        assert(seq![s[0]] + t =~= s);
    }
}

/// The film topic of a genre names that genre back: `movies/<key>` is none of the fixed
/// topics, it begins with `movies/`, and removing `movies/` from it gives `key` again,
/// whenever the key does not itself hold `movies/`.
pub proof fn lemma_movie_topic_round_trip(key: Seq<char>)
    requires
        !contains_seq(key, "movies/"@),
    ensures
        "movies/"@ + key != "weather/current"@,
        "movies/"@ + key != "weather/location"@,
        "movies/"@ + key != "mood/selected"@,
        "movies/"@ + key != "recommendations/result"@,
        starts_with("movies/"@ + key, "movies/"@),
        remove_all("movies/"@ + key, "movies/"@) == key,
{
    reveal_strlit("movies/");
    reveal_strlit("weather/current");
    reveal_strlit("weather/location");
    reveal_strlit("mood/selected");
    reveal_strlit("recommendations/result");
    let p = "movies/"@;
    let t = p + key;
    assert(t[0] == 'm' && t[2] == 'v');
    assert("weather/current"@[0] == 'w');
    assert("weather/location"@[0] == 'w');
    assert("mood/selected"@[2] == 'o');
    assert("recommendations/result"@[0] == 'r');
    assert(t.take(p.len() as int) =~= p);
    assert(t.skip(p.len() as int) =~= key);
    lemma_remove_absent(key, p);
}

/// Sorts a topic. Exact names are tried first, in the order of the variants; a topic that
/// begins with `movies/` names a genre.
pub fn classify_topic(topic: &str) -> (t: Topic)
    ensures
        t is Weather <==> topic@ == "weather/current"@,
        t is Location <==> topic@ != "weather/current"@ && topic@ == "weather/location"@,
        t is Mood <==> topic@ != "weather/current"@ && topic@ != "weather/location"@ && topic@
            == "mood/selected"@,
        t is Recommendations <==> topic@ != "weather/current"@ && topic@ != "weather/location"@
            && topic@ != "mood/selected"@ && topic@ == "recommendations/result"@,
        t is Movies <==> topic@ != "weather/current"@ && topic@ != "weather/location"@ && topic@
            != "mood/selected"@ && topic@ != "recommendations/result"@ && starts_with(topic@, "movies/"@),
        t matches Topic::Movies(g) ==> g@ == remove_all(topic@, "movies/"@),
{
    if str_eq(topic, "weather/current") {
        Topic::Weather
    } else if str_eq(topic, "weather/location") {
        Topic::Location
    } else if str_eq(topic, "mood/selected") {
        Topic::Mood
    } else if str_eq(topic, "recommendations/result") {
        Topic::Recommendations
    } else {
        let s = chars_of(topic);
        let pat = chars_of("movies/");
        if pat.len() <= s.len() && occurs_at(&s, &pat, 0) {
            proof {
                assert(s@.subrange(0, pat@.len() as int) =~= s@.take(pat@.len() as int));
            }
            Topic::Movies(genre_from_topic(topic))
        } else {
            proof {
                if pat@.len() <= s@.len() {
                    assert(s@.subrange(0, pat@.len() as int) =~= s@.take(pat@.len() as int));
                }
            }
            Topic::Other
        }
    }
}

} // verus!
