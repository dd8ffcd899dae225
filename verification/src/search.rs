//! Search over the snippets of the store: which of them a query finds, and
//! what the list shows of them.

use crate::snippet::{CodeSnippet, SnippetView};
use crate::text::{contains_text, is_substring, lemma_empty_is_substring, lowercase, texts_of};
use vstd::prelude::*;

verus! {

/// The query occurs in the name or in one of the tags, all of them taken
/// as they are.
pub open spec fn text_matches(name: Seq<char>, tags: Seq<Seq<char>>, query: Seq<char>) -> bool {
    is_substring(query, name) || exists|t: int|
        0 <= t < tags.len() && is_substring(query, #[trigger] tags[t])
}

/// The lowercase forms of the tags.
pub open spec fn lowered(tags: Seq<Seq<char>>) -> Seq<Seq<char>> {
    Seq::new(tags.len(), |t: int| lowercase(tags[t]))
}

/// The query finds the snippet: in lowercase, it occurs in the name or in
/// one of the tags.
pub open spec fn snippet_matches(snippet: SnippetView, query: Seq<char>) -> bool {
    text_matches(lowercase(snippet.name), lowered(snippet.tags), lowercase(query))
}

/// The views of the snippets, in their order.
pub open spec fn views_of(snippets: Seq<CodeSnippet>) -> Seq<SnippetView> {
    Seq::new(snippets.len(), |i: int| snippets[i]@)
}

/// What the query finds among the first `count` snippets: position in
/// the store and identifier of each match, in the order of the store.
pub open spec fn found_among(snippets: Seq<SnippetView>, query: Seq<char>, count: int) -> Seq<
    (usize, usize),
>
    decreases count,
{
    if count <= 0 {
        Seq::empty()
    } else {
        let before = found_among(snippets, query, count - 1);
        if snippet_matches(snippets[count - 1], query) {
            before.push(((count - 1) as usize, snippets[count - 1].idx))
        } else {
            before
        }
    }
}

/// What the query finds in the store.
pub open spec fn search_result(snippets: Seq<SnippetView>, query: Seq<char>) -> Seq<
    (usize, usize),
> {
    found_among(snippets, query, snippets.len() as int)
}

/// Every snippet of the store, by position and identifier.
pub open spec fn listing(snippets: Seq<SnippetView>) -> Seq<(usize, usize)> {
    Seq::new(snippets.len(), |i: int| (i as usize, snippets[i].idx))
}

/// Whether `query` occurs in `name` or in one of `tags`, character for
/// character.
pub fn matches_text(name: &str, tags: &Vec<String>, query: &str) -> (found: bool)
    ensures
        found == text_matches(name@, texts_of(tags@), query@),
{
    if contains_text(name, query) {
        return true;
    }
    let mut t: usize = 0;
    while t < tags.len()
        invariant
            t <= tags@.len(),
            forall|k: int| 0 <= k < t ==> !is_substring(query@, #[trigger] texts_of(tags@)[k]),
        decreases tags@.len() - t,
    {
        if contains_text(tags[t].as_str(), query) {
            assert(is_substring(query@, texts_of(tags@)[t as int]));
            return true;
        }
        t += 1;
    }
    false
}

/// Whether a query, given in lowercase, finds the snippet.
pub fn snippet_found(snippet: &CodeSnippet, query_lower: &str) -> (found: bool)
    ensures
        found == text_matches(lowercase(snippet@.name), lowered(snippet@.tags), query_lower@),
{
    let name_lower = snippet.name.as_str().to_lowercase();
    let mut tags_lower: Vec<String> = Vec::new();
    let mut t: usize = 0;
    while t < snippet.tags.len()
        invariant
            t <= snippet.tags@.len(),
            texts_of(tags_lower@) == lowered(snippet@.tags).take(t as int),
        decreases snippet.tags@.len() - t,
    {
        let tag_lower = snippet.tags[t].as_str().to_lowercase();
        let ghost before = texts_of(tags_lower@);
        let ghost lowered_tag = tag_lower@;
        tags_lower.push(tag_lower);
        assert(texts_of(tags_lower@) =~= before.push(lowered_tag));
        t += 1;
    }
    assert(lowered(snippet@.tags).take(t as int) =~= lowered(snippet@.tags));
    matches_text(name_lower.as_str(), &tags_lower, query_lower)
}

/// Searches the store: position and identifier of every snippet in whose
/// name or tags the query occurs, without regard to case, in the order of
/// the store. The empty query finds every snippet.
pub fn search_snippets(snippets: &Vec<CodeSnippet>, input: &str) -> (found: Vec<(usize, usize)>)
    ensures
        found@ == search_result(views_of(snippets@), input@),
        input@.len() == 0 ==> found@ == listing(views_of(snippets@)),
{
    let query_lower = input.to_lowercase();
    let ghost views = views_of(snippets@);
    let mut found: Vec<(usize, usize)> = Vec::new();
    let mut i: usize = 0;
    while i < snippets.len()
        invariant
            i <= snippets@.len(),
            views == views_of(snippets@),
            query_lower@ == lowercase(input@),
            input@.len() == 0 ==> query_lower@.len() == 0,
            found@ == found_among(views, input@, i as int),
            input@.len() == 0 ==> found@ == listing(views).take(i as int),
        decreases snippets@.len() - i,
    {
        let hit = snippet_found(&snippets[i], query_lower.as_str());
        proof {
            if input@.len() == 0 {
                assert(query_lower@ =~= Seq::<char>::empty());
                lemma_empty_is_substring(lowercase(views[i as int].name));
            }
        }
        if hit {
            found.push((i, snippets[i].idx));
        }
        i += 1;
    }
    found
}

/// The result of a search is exact. Every entry is the position and the
/// identifier of a snippet that the query finds; the positions rise, so no
/// snippet is listed twice, however many of its tags hold the query; and
/// every snippet that the query finds, by its name or by any tag, is
/// listed.
pub proof fn lemma_search_exact(snippets: Seq<SnippetView>, query: Seq<char>, count: int)
    requires
        0 <= count <= snippets.len() <= usize::MAX,
    ensures
        found_among(snippets, query, count).len() <= count,
        forall|k: int|
            0 <= k < found_among(snippets, query, count).len() ==> {
                let entry = #[trigger] found_among(snippets, query, count)[k];
                &&& entry.0 < count
                &&& entry.1 == snippets[entry.0 as int].idx
                &&& snippet_matches(snippets[entry.0 as int], query)
            },
        forall|j: int, k: int|
            0 <= j < k < found_among(snippets, query, count).len() ==> found_among(
                snippets,
                query,
                count,
            )[j].0 < found_among(snippets, query, count)[k].0,
        forall|i: int|
            0 <= i < count && snippet_matches(#[trigger] snippets[i], query) ==> found_among(
                snippets,
                query,
                count,
            ).contains((i as usize, snippets[i].idx)),
    decreases count,
{
    if count > 0 {
        lemma_search_exact(snippets, query, count - 1);
        let before = found_among(snippets, query, count - 1);
        let all = found_among(snippets, query, count);
        assert forall|i: int| 0 <= i < count && snippet_matches(#[trigger] snippets[i], query) implies all.contains(
            (i as usize, snippets[i].idx),
        ) by {
            if i < count - 1 {
                let k = choose|k: int|
                    0 <= k < before.len() && before[k] == (i as usize, snippets[i].idx);
                assert(all[k] == before[k]);
            } else {
                assert(all[all.len() - 1] == (i as usize, snippets[i].idx));
            }
        }
    }
}

/// Whether a query finds a snippet depends on the lowercase forms of the
/// query, the name and the tags alone.
pub proof fn lemma_match_ignores_case(
    snippet: SnippetView,
    other: SnippetView,
    query: Seq<char>,
    other_query: Seq<char>,
)
    requires
        lowercase(snippet.name) == lowercase(other.name),
        snippet.tags.len() == other.tags.len(),
        forall|t: int|
            0 <= t < snippet.tags.len() ==> lowercase(snippet.tags[t]) == lowercase(
                other.tags[t],
            ),
        lowercase(query) == lowercase(other_query),
    ensures
        snippet_matches(snippet, query) == snippet_matches(other, other_query),
{
    assert(lowered(snippet.tags) =~= lowered(other.tags));
}

/// A search does not tell queries apart that have the same lowercase
/// form.
pub proof fn lemma_search_ignores_case(
    snippets: Seq<SnippetView>,
    query: Seq<char>,
    other: Seq<char>,
    count: int,
)
    requires
        lowercase(query) == lowercase(other),
    ensures
        found_among(snippets, query, count) == found_among(snippets, other, count),
    decreases count,
{
    if count > 0 {
        lemma_search_ignores_case(snippets, query, other, count - 1);
    }
}

/// One of the snippets has the identifier.
pub open spec fn has_idx(snippets: Seq<SnippetView>, idx: usize) -> bool {
    exists|j: int| 0 <= j < snippets.len() && (#[trigger] snippets[j]).idx == idx
}

/// The snippets without those whose identifier an earlier one has.
pub open spec fn without_repeats(snippets: Seq<SnippetView>) -> Seq<SnippetView>
    decreases snippets.len(),
{
    if snippets.len() == 0 {
        Seq::empty()
    } else {
        let before = without_repeats(snippets.drop_last());
        if has_idx(before, snippets.last().idx) {
            before
        } else {
            before.push(snippets.last())
        }
    }
}

/// The snippets at the positions that a search found.
pub open spec fn picked(snippets: Seq<SnippetView>, found: Seq<(usize, usize)>) -> Seq<
    SnippetView,
> {
    Seq::new(found.len(), |k: int| snippets[found[k].0 as int])
}

/// What the list shows of a search: the snippets found, each identifier
/// once.
pub open spec fn shown(snippets: Seq<SnippetView>, found: Seq<(usize, usize)>) -> Seq<
    SnippetView,
> {
    without_repeats(picked(snippets, found))
}

/// What is left after the repeats are gone holds every identifier of the
/// snippets and none twice, and only snippets of the sequence.
pub proof fn lemma_without_repeats(snippets: Seq<SnippetView>)
    ensures
        without_repeats(snippets).len() <= snippets.len(),
        forall|i: int, j: int|
            0 <= i < j < without_repeats(snippets).len() ==> without_repeats(snippets)[i].idx
                != without_repeats(snippets)[j].idx,
        forall|idx: usize| has_idx(without_repeats(snippets), idx) == has_idx(snippets, idx),
        forall|k: int|
            0 <= k < without_repeats(snippets).len() ==> snippets.contains(
                #[trigger] without_repeats(snippets)[k],
            ),
    decreases snippets.len(),
{
    if snippets.len() > 0 {
        let shorter = snippets.drop_last();
        lemma_without_repeats(shorter);
        let before = without_repeats(shorter);
        let all = without_repeats(snippets);
        assert forall|idx: usize| has_idx(all, idx) == has_idx(snippets, idx) by {
            if has_idx(snippets, idx) {
                let w = choose|w: int| 0 <= w < snippets.len() && (#[trigger] snippets[w]).idx == idx;
                if w < shorter.len() {
                    assert(shorter[w].idx == idx);
                    assert(has_idx(shorter, idx));
                    let j = choose|j: int| 0 <= j < before.len() && (#[trigger] before[j]).idx == idx;
                    assert(all[j].idx == idx);
                } else if !has_idx(before, idx) {
                    assert(all[all.len() - 1].idx == idx);
                }
            }
        }
    }
}

/// Where no two snippets have the same identifier, nothing is a repeat.
pub proof fn lemma_distinct_has_no_repeats(snippets: Seq<SnippetView>)
    requires
        forall|i: int, j: int|
            0 <= i < j < snippets.len() ==> snippets[i].idx != snippets[j].idx,
    ensures
        without_repeats(snippets) == snippets,
    decreases snippets.len(),
{
    if snippets.len() > 0 {
        let shorter = snippets.drop_last();
        lemma_distinct_has_no_repeats(shorter);
    }
}

/// In a store whose identifiers are all different the list shows exactly
/// the snippets that the query finds: each of them once, at the place
/// that its position in the store gives it.
pub proof fn lemma_shown_is_exact(snippets: Seq<SnippetView>, query: Seq<char>)
    requires
        snippets.len() <= usize::MAX,
        forall|i: int, j: int|
            0 <= i < j < snippets.len() ==> snippets[i].idx != snippets[j].idx,
    ensures
        shown(snippets, search_result(snippets, query)) == picked(
            snippets,
            search_result(snippets, query),
        ),
{
    let found = search_result(snippets, query);
    lemma_search_exact(snippets, query, snippets.len() as int);
    lemma_distinct_has_no_repeats(picked(snippets, found));
}

fn holds_idx(items: &Vec<CodeSnippet>, idx: usize) -> (held: bool)
    ensures
        held == has_idx(views_of(items@), idx),
{
    let mut j: usize = 0;
    while j < items.len()
        invariant
            j <= items@.len(),
            forall|w: int| 0 <= w < j ==> (#[trigger] views_of(items@)[w]).idx != idx,
        decreases items@.len() - j,
    {
        if items[j].idx == idx {
            assert(views_of(items@)[j as int].idx == idx);
            return true;
        }
        j += 1;
    }
    false
}

/// Copies of the snippets at the positions found, each identifier once.
pub(crate) fn collect_found(snippets: &Vec<CodeSnippet>, found: &Vec<(usize, usize)>) -> (items: Vec<
    CodeSnippet,
>)
    requires
        forall|k: int| 0 <= k < found@.len() ==> found@[k].0 < snippets@.len(),
    ensures
        views_of(items@) == shown(views_of(snippets@), found@),
{
    let ghost views = views_of(snippets@);
    let mut items: Vec<CodeSnippet> = Vec::new();
    let mut k: usize = 0;
    while k < found.len()
        invariant
            k <= found@.len(),
            views == views_of(snippets@),
            forall|w: int| 0 <= w < found@.len() ==> found@[w].0 < snippets@.len(),
            views_of(items@) == without_repeats(picked(views, found@).take(k as int)),
        decreases found@.len() - k,
    {
        let position: usize = found[k].0;
        let ghost done = picked(views, found@).take(k as int);
        let ghost grown = picked(views, found@).take(k + 1);
        assert(grown.drop_last() =~= done);
        if !holds_idx(&items, snippets[position].idx) {
            let copy = snippets[position].clone();
            items.push(copy);
        }
        k += 1;
    }
    assert(picked(views, found@).take(k as int) =~= picked(views, found@));
    items
}

} // verus!
