use vstd::prelude::*;
use bloodhound::Index;

verus! {

/// bloodhound's `Index`: the files found under a root, built once by a
/// filesystem walk and only searched afterwards.
#[verifier::external_type_specification]
#[verifier::external_body]
pub struct ExIndex(Index);

/// What an index holds, in build order: each entry's path and the text that
/// queries are matched against (the path itself, lowercased when the index
/// was built case-insensitively).
pub uninterp spec fn index_entries(index: Index) -> Seq<(Seq<char>, Seq<char>)>;

/// What `str::to_lowercase` makes of a string.
pub uninterp spec fn lower_of(s: Seq<char>) -> Seq<char>;

/// The space-separated terms of a query, empty ones included.
pub open spec fn split_terms(q: Seq<char>) -> Seq<Seq<char>>
    decreases q.len(),
{
    if q.len() == 0 {
        seq![Seq::<char>::empty()]
    } else {
        let rest = split_terms(q.drop_first());
        if q[0] == ' ' {
            seq![Seq::<char>::empty()] + rest
        } else {
            rest.update(0, seq![q[0]] + rest[0])
        }
    }
}

/// The query holds at least one character that is not a space.
pub open spec fn has_term(q: Seq<char>) -> bool {
    exists|i: int| 0 <= i < q.len() && q[i] != ' '
}

/// `t` starts at some character position of `text`.
pub open spec fn occurs_in(t: Seq<char>, text: Seq<char>) -> bool {
    exists|k: int| 0 <= k < text.len() && k + t.len() <= text.len() && #[trigger] text.subrange(k, k + t.len()) == t
}

/// An entry's text matches a query when the query has a non-empty term and
/// each of its terms occurs in the text.
pub open spec fn query_matches(q: Seq<char>, text: Seq<char>) -> bool {
    &&& has_term(q)
    &&& forall|j: int| 0 <= j < split_terms(q).len() ==> occurs_in(#[trigger] split_terms(q)[j], text)
}

/// The paths of the entries whose text matches `q`, in build order.
pub open spec fn matching_paths(entries: Seq<(Seq<char>, Seq<char>)>, q: Seq<char>) -> Seq<Seq<char>> {
    entries.filter(|e: (Seq<char>, Seq<char>)| query_matches(q, e.1)).map_values(|e: (Seq<char>, Seq<char>)| e.0)
}

/// What a search of `entries` for `q` with at most `limit` results may give:
/// as many matching paths as the limit allows, each taken from a distinct
/// matching entry (the ranking by score decides which ones and in what order).
pub open spec fn find_outcome(
    entries: Seq<(Seq<char>, Seq<char>)>,
    q: Seq<char>,
    limit: usize,
    found: Seq<Seq<char>>,
) -> bool {
    let m = matching_paths(entries, q);
    &&& found.len() == if limit < m.len() { limit as int } else { m.len() as int }
    &&& found.to_multiset().subset_of(m.to_multiset())
}

/// The text of each string, in order.
pub open spec fn texts(v: Seq<String>) -> Seq<Seq<char>> {
    v.map_values(|s: String| s@)
}

/// Relies on bloodhound's `Index::find`, which runs `fragment::matching::find`
/// over the entries' texts: an entry scores above zero exactly when
/// `query_matches` holds, the scored entries are sorted by score and cut to
/// `limit`. Each path comes back as the string it was indexed from.
#[verifier::external_body]
pub(crate) fn index_find(index: &Index, q: &str, limit: usize) -> (r: Vec<String>)
    ensures
        find_outcome(index_entries(*index), q@, limit, texts(r@)),
{
    index.find(q, limit).into_iter().map(|p| p.to_string_lossy().into_owned()).collect()
}

/// Relies on `str::to_lowercase`.
#[verifier::external_body]
pub(crate) fn lowercase(s: &str) -> (r: String)
    ensures
        r@ == lower_of(s@),
{
    s.to_lowercase()
}

/// A query without a non-space character matches no entry: the empty query
/// gives no results, whatever the index holds.
pub proof fn lemma_blank_query_matches_nothing(entries: Seq<(Seq<char>, Seq<char>)>, q: Seq<char>)
    requires
        !has_term(q),
    ensures
        matching_paths(entries, q).len() == 0,
        matching_paths(entries, Seq::<char>::empty()).len() == 0,
{
    broadcast use vstd::seq_lib::group_filter_ensures;
    let f = entries.filter(|e: (Seq<char>, Seq<char>)| query_matches(q, e.1));
    let g = entries.filter(|e: (Seq<char>, Seq<char>)| query_matches(Seq::<char>::empty(), e.1));
    if f.len() > 0 {
        assert(query_matches(q, f[0].1));
    }
    if g.len() > 0 {
        assert(query_matches(Seq::<char>::empty(), g[0].1));
    }
}

/// Every path that a search gives comes from an entry whose text matches the
/// query: there are no false positives.
pub proof fn lemma_found_paths_match(
    entries: Seq<(Seq<char>, Seq<char>)>,
    q: Seq<char>,
    limit: usize,
    found: Seq<Seq<char>>,
    i: int,
)
    requires
        find_outcome(entries, q, limit, found),
        0 <= i < found.len(),
    ensures
        exists|j: int| 0 <= j < entries.len() && entries[j].0 == found[i] && query_matches(q, entries[j].1),
{
    broadcast use vstd::seq_lib::group_filter_ensures, vstd::seq_lib::group_to_multiset_ensures;
    let pred = |e: (Seq<char>, Seq<char>)| query_matches(q, e.1);
    let f = entries.filter(pred);
    let m = matching_paths(entries, q);
    assert(found.contains(found[i]));
    assert(found.to_multiset().count(found[i]) > 0);
    assert(m.to_multiset().count(found[i]) > 0);
    assert(m.contains(found[i]));
    let k = choose|k: int| 0 <= k < m.len() && m[k] == found[i];
    assert(f.contains(f[k]));
    entries.lemma_filter_contains_rev(pred, f[k]);
    let j = choose|j: int| 0 <= j < entries.len() && entries[j] == f[k];
    assert(entries[j].0 == found[i]);
}

/// A search gives at most `limit` paths, and two searches of the same
/// entries for the same query give as many paths.
pub proof fn lemma_find_len_stable(
    entries: Seq<(Seq<char>, Seq<char>)>,
    q: Seq<char>,
    limit: usize,
    found1: Seq<Seq<char>>,
    found2: Seq<Seq<char>>,
)
    requires
        find_outcome(entries, q, limit, found1),
        find_outcome(entries, q, limit, found2),
    ensures
        found1.len() <= limit,
        found1.len() == found2.len(),
{
}

} // verus!
