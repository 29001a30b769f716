//! Suggestions for interactive input: the candidates that contain what was
//! typed, ignoring case.
use vstd::prelude::*;

use crate::models::character::Character;
use crate::models::show::{Relationship, Show};
use crate::models::show_collection::ShowCollection;

verus! {

/// How many suggestions are offered at most.
pub const MAX_SUGGESTIONS: usize = 5;

/// The lowercase form of a string, as `str::to_lowercase` computes it.
pub uninterp spec fn lower_of(s: Seq<char>) -> Seq<char>;

/// Relies on `str::to_lowercase`: the result depends on the characters alone.
#[verifier::external_body]
fn lowercase(s: &str) -> (r: String)
    ensures
        r@ == lower_of(s@),
{
    s.to_lowercase()
}

/// `pattern` occurs in `text` as a contiguous run of characters.
pub open spec fn occurs_in(pattern: Seq<char>, text: Seq<char>) -> bool {
    exists|i: int| 0 <= i <= text.len() - pattern.len() && #[trigger] text.subrange(i, i + pattern.len()) == pattern
}

/// Relies on `str::contains` with a `&str` pattern: whether `pattern` occurs
/// in `text`.
#[verifier::external_body]
fn contains_text(text: &str, pattern: &str) -> (r: bool)
    ensures
        r == occurs_in(pattern@, text@),
{
    text.contains(pattern)
}

/// The candidates whose folded form contains `folded_query`, in order.
pub open spec fn matches_of(
    candidates: Seq<Seq<char>>,
    folded: Seq<Seq<char>>,
    folded_query: Seq<char>,
) -> Seq<Seq<char>>
    decreases candidates.len(),
{
    if candidates.len() == 0 {
        Seq::empty()
    } else {
        let rest = matches_of(candidates.drop_last(), folded.drop_last(), folded_query);
        if occurs_in(folded_query, folded.last()) {
            rest.push(candidates.last())
        } else {
            rest
        }
    }
}

/// At most the first `MAX_SUGGESTIONS` items of `s`.
pub open spec fn at_most_max(s: Seq<Seq<char>>) -> Seq<Seq<char>> {
    if s.len() <= MAX_SUGGESTIONS {
        s
    } else {
        s.take(MAX_SUGGESTIONS as int)
    }
}

/// The suggestions for `query` among `candidates`: the first
/// `MAX_SUGGESTIONS` candidates that contain `query`, ignoring case.
pub open spec fn suggestions_of(candidates: Seq<Seq<char>>, query: Seq<char>) -> Seq<Seq<char>> {
    at_most_max(matches_of(candidates, candidates.map_values(|c: Seq<char>| lower_of(c)), lower_of(query)))
}

/// The characters of each string.
pub open spec fn texts(v: Seq<String>) -> Seq<Seq<char>> {
    v.map_values(|s: String| s@)
}

/// The characters of each string slice.
pub open spec fn str_texts(v: Seq<&str>) -> Seq<Seq<char>> {
    v.map_values(|s: &str| s@)
}

/// Keeps, in order and at most `MAX_SUGGESTIONS` of them, the candidates whose
/// folded form (the same index of `folded`) contains `folded_query`.
pub fn select_matches(candidates: &Vec<&str>, folded: &Vec<String>, folded_query: &str) -> (r: Vec<String>)
    requires
        folded@.len() == candidates@.len(),
    ensures
        texts(r@) == at_most_max(matches_of(str_texts(candidates@), texts(folded@), folded_query@)),
{
    let ghost cands = str_texts(candidates@);
    let ghost folds = texts(folded@);
    let mut r: Vec<String> = Vec::new();
    for i in 0..candidates.len()
        invariant
            folded@.len() == candidates@.len(),
            cands == str_texts(candidates@),
            folds == texts(folded@),
            texts(r@) == at_most_max(matches_of(cands.take(i as int), folds.take(i as int), folded_query@)),
    {
        assert(cands.take(i + 1).drop_last() == cands.take(i as int));
        assert(folds.take(i + 1).drop_last() == folds.take(i as int));
        let ghost prev = matches_of(cands.take(i as int), folds.take(i as int), folded_query@);
        if contains_text(folded[i].as_str(), folded_query) {
            if r.len() < MAX_SUGGESTIONS {
                r.push(candidates[i].to_owned());
                assert(texts(r@) == at_most_max(prev).push(cands[i as int]));
            }
            proof {
                if prev.len() >= MAX_SUGGESTIONS {
                    assert(prev.push(cands[i as int]).take(MAX_SUGGESTIONS as int) == prev.take(
                        MAX_SUGGESTIONS as int,
                    ));
                }
            }
        }
    }
    assert(cands.take(candidates@.len() as int) == cands);
    assert(folds.take(candidates@.len() as int) == folds);
    r
}

/// The suggestions for `input` among `candidates`: the first
/// `MAX_SUGGESTIONS` candidates that contain `input`, ignoring case.
pub fn suggestions(candidates: &Vec<&str>, input: &str) -> (r: Vec<String>)
    ensures
        texts(r@) == suggestions_of(str_texts(candidates@), input@),
{
    let folded_query = lowercase(input);
    let mut folded: Vec<String> = Vec::new();
    for i in 0..candidates.len()
        invariant
            folded@.len() == i,
            forall|j: int| 0 <= j < i ==> (#[trigger] folded@[j])@ == lower_of(candidates@[j]@),
    {
        folded.push(lowercase(candidates[i]));
    }
    assert(texts(folded@) == str_texts(candidates@).map_values(|c: Seq<char>| lower_of(c)));
    select_matches(candidates, &folded, folded_query.as_str())
}

/// Suggestions among the names of the shows of `show_collection`.
pub fn show_suggestor(show_collection: &ShowCollection, input: &str) -> (r: Vec<String>)
    ensures
        texts(r@) == suggestions_of(show_collection.shows@.map_values(|s: Show| s.name@), input@),
{
    let names = show_collection.get_show_names();
    assert(str_texts(names@) == show_collection.shows@.map_values(|s: Show| s.name@));
    suggestions(&names, input)
}

/// Suggestions among the names of the characters of `show`.
pub fn character_suggestor(show: &Show, input: &str) -> (r: Vec<String>)
    ensures
        texts(r@) == suggestions_of(show.characters@.map_values(|c: Character| c.name@), input@),
{
    let mut names: Vec<&str> = Vec::new();
    for i in 0..show.characters.len()
        invariant
            names@.len() == i,
            forall|j: int| 0 <= j < i ==> (#[trigger] names@[j])@ == show.characters@[j].name@,
    {
        names.push(show.characters[i].name.as_str());
    }
    assert(str_texts(names@) == show.characters@.map_values(|c: Character| c.name@));
    suggestions(&names, input)
}

/// Suggestions among the kinds of the relationships of `show`.
pub fn relationship_suggestor(show: &Show, input: &str) -> (r: Vec<String>)
    ensures
        texts(r@) == suggestions_of(show.relationships@.map_values(|x: Relationship| x.kind@), input@),
{
    let mut kinds: Vec<&str> = Vec::new();
    for i in 0..show.relationships.len()
        invariant
            kinds@.len() == i,
            forall|j: int| 0 <= j < i ==> (#[trigger] kinds@[j])@ == show.relationships@[j].kind@,
    {
        kinds.push(show.relationships[i].kind.as_str());
    }
    assert(str_texts(kinds@) == show.relationships@.map_values(|x: Relationship| x.kind@));
    suggestions(&kinds, input)
}

/// Where a selection list should start: the index of the first option equal
/// to `current`, or 0 when there is none.
pub fn starting_cursor(options: &Vec<&str>, current: &str) -> (r: usize)
    ensures
        (exists|i: int| 0 <= i < options@.len() && options@[i]@ == current@) ==> {
            &&& r < options@.len()
            &&& options@[r as int]@ == current@
            &&& forall|j: int| 0 <= j < r ==> options@[j]@ != current@
        },
        (forall|i: int| 0 <= i < options@.len() ==> options@[i]@ != current@) ==> r == 0,
{
    let wanted = current.to_owned();
    let mut i: usize = 0;
    while i < options.len()
        invariant
            i <= options@.len(),
            wanted@ == current@,
            forall|j: int| 0 <= j < i ==> options@[j]@ != current@,
        decreases options@.len() - i,
    {
        let option = options[i].to_owned();
        if option == wanted {
            return i;
        }
        i += 1;
    }
    0
}

} // verus!
