use vstd::prelude::*;
use bloodhound::Index;
use crate::index::{texts, find_outcome, index_entries, index_find, lemma_found_paths_match, lower_of, lowercase, matching_paths, query_matches};
use crate::selectable_vec::SelectableVec;

verus! {

/// A result entry: a path, either found in the index or taken literally from
/// the query.
pub struct DisplayablePath(pub String);

impl View for DisplayablePath {
    type V = Seq<char>;

    open spec fn view(&self) -> Seq<char> {
        self.0@
    }
}

impl DisplayablePath {
    /// The path as text.
    pub fn to_string(&self) -> (r: String)
        ensures
            r@ == self@,
    {
        self.0.clone()
    }
}

/// The knobs of a search-and-select mode.
pub struct SearchSelectConfig {
    pub max_results: usize,
}

/// The index of an open mode: still being built under the given root, or
/// complete.
pub enum OpenModeIndex {
    Complete(Index),
    Indexing(String),
}

/// The results of a search from the paths it found: those paths in order,
/// or, when there are none, the query itself taken as a path.
pub open spec fn results_for(query: Seq<char>, found: Seq<Seq<char>>) -> Seq<Seq<char>> {
    if found.len() == 0 {
        seq![query]
    } else {
        found
    }
}

/// The path of each entry, in order.
pub open spec fn paths_of(v: Seq<DisplayablePath>) -> Seq<Seq<char>> {
    v.map_values(|d: DisplayablePath| d@)
}

/// The paths that a list of results shows.
pub open spec fn shown(list: SelectableVec<DisplayablePath>) -> Seq<Seq<char>> {
    paths_of(list.items())
}

/// Turns the paths a search found into a result list with its first entry
/// selected; with nothing found, the list holds the query as a literal path.
pub fn results_from_matches(query: &String, found: Vec<String>) -> (r: SelectableVec<DisplayablePath>)
    ensures
        r.wf(),
        shown(r) == results_for(query@, texts(found@)),
        r.selected() == Some(0nat),
{
    let ghost fv = texts(found@);
    if found.len() == 0 {
        let v = vec![DisplayablePath(query.clone())];
        let r = SelectableVec::new(v);
        assert(shown(r) =~= results_for(query@, fv));
        r
    } else {
        let mut out: Vec<DisplayablePath> = Vec::new();
        let mut i: usize = 0;
        while i < found.len()
            invariant
                0 <= i <= found.len(),
                fv == texts(found@),
                out@.len() == i,
                paths_of(out@) =~= fv.subrange(0, i as int),
            decreases found.len() - i,
        {
            let s = found[i].clone();
            assert(s@ == fv[i as int]);
            let ghost prev = out@;
            out.push(DisplayablePath(s));
            assert(out@ == prev.push(DisplayablePath(s)));
            assert(paths_of(prev) =~= fv.subrange(0, i as int));
            assert forall|j: int| 0 <= j <= i implies #[trigger] paths_of(out@)[j] == fv.subrange(0, i + 1)[j] by {
                if j < i {
                    assert(paths_of(prev)[j] == fv.subrange(0, i as int)[j]);
                }
            }
            assert(paths_of(out@) =~= fv.subrange(0, i + 1));
            i = i + 1;
        }
        assert(fv.subrange(0, found.len() as int) =~= fv);
        let r = SelectableVec::new(out);
        r
    }
}

/// The "open file" mode: a query, an index that a background task builds,
/// and the results of the last search.
///
/// A root that cannot be read gives a complete but empty index: every search
/// then offers the query itself as a path.
pub struct OpenMode {
    insert: bool,
    input: String,
    index: OpenModeIndex,
    results: SelectableVec<DisplayablePath>,
    config: SearchSelectConfig,
}

impl OpenMode {
    /// The query text.
    pub closed spec fn query_text(&self) -> Seq<char> {
        self.input@
    }

    /// Whether the query is being typed.
    pub closed spec fn inserting(&self) -> bool {
        self.insert
    }

    /// The state of the index.
    pub closed spec fn index_state(&self) -> OpenModeIndex {
        self.index
    }

    /// The results of the last search.
    pub closed spec fn result_list(&self) -> SelectableVec<DisplayablePath> {
        self.results
    }

    /// The most results a search keeps from the index.
    pub closed spec fn max_results(&self) -> usize {
        self.config.max_results
    }

    /// The result list keeps its selection inside its entries.
    pub open spec fn wf(&self) -> bool {
        self.result_list().wf()
    }

    /// What a search leaves as results, whatever the ranking picked: nothing
    /// while indexing; else the matches of the lowercased query, or the
    /// query itself when there are none.
    pub open spec fn searched(&self, list: SelectableVec<DisplayablePath>) -> bool {
        match self.index_state() {
            OpenModeIndex::Indexing(_) => list.items().len() == 0,
            OpenModeIndex::Complete(idx) => exists|found: Seq<Seq<char>>|
                find_outcome(index_entries(idx), lower_of(self.query_text()), self.max_results(), found)
                    && #[trigger] results_for(self.query_text(), found) == shown(list),
        }
    }

    /// A mode whose index is still being built under `path`, with an empty
    /// query and no results. The caller starts the indexing task.
    pub fn new(path: String, config: SearchSelectConfig) -> (r: OpenMode)
        ensures
            r.wf(),
            r.inserting(),
            r.query_text() == Seq::<char>::empty(),
            r.index_state() == OpenModeIndex::Indexing(path),
            r.result_list().items().len() == 0,
            r.max_results() == config.max_results,
    {
        OpenMode {
            insert: true,
            input: String::new(),
            index: OpenModeIndex::Indexing(path),
            results: SelectableVec::new(Vec::new()),
            config,
        }
    }

    /// Hands over the finished index. Only the first delivery counts: once
    /// the index is complete, a later one is dropped and nothing changes.
    pub fn set_index(&mut self, index: Index)
        ensures
            final(self).inserting() == old(self).inserting(),
            final(self).query_text() == old(self).query_text(),
            final(self).result_list() == old(self).result_list(),
            final(self).max_results() == old(self).max_results(),
            final(self).index_state() == match old(self).index_state() {
                OpenModeIndex::Indexing(_) => OpenModeIndex::Complete(index),
                OpenModeIndex::Complete(idx) => OpenModeIndex::Complete(idx),
            },
    {
        if let OpenModeIndex::Indexing(_) = self.index {
            self.index = OpenModeIndex::Complete(index);
        }
    }

    fn paths(&self) -> (r: SelectableVec<DisplayablePath>)
        ensures
            r.wf(),
            self.searched(r),
            r.selected() == if r.items().len() == 0 {
                None::<nat>
            } else {
                Some(0nat)
            },
    {
        match &self.index {
            OpenModeIndex::Complete(idx) => {
                let q = lowercase(self.input.as_str());
                let found = index_find(idx, q.as_str(), self.config.max_results);
                let ghost fv = texts(found@);
                let r = results_from_matches(&self.input, found);
                assert(results_for(self.query_text(), fv) == shown(r));
                r
            },
            OpenModeIndex::Indexing(_) => SelectableVec::new(Vec::new()),
        }
    }

    /// Recomputes the results from the query and the index; the first
    /// result, if any, becomes the selection.
    pub fn search(&mut self)
        ensures
            final(self).wf(),
            final(self).inserting() == old(self).inserting(),
            final(self).query_text() == old(self).query_text(),
            final(self).index_state() == old(self).index_state(),
            final(self).max_results() == old(self).max_results(),
            old(self).searched(final(self).result_list()),
            final(self).result_list().selected() == if final(self).result_list().items().len() == 0 {
                None::<nat>
            } else {
                Some(0nat)
            },
    {
        self.results = self.paths();
    }

    /// The editable query. Editing it does not search again: the caller
    /// calls `search` when it is done.
    pub fn query(&mut self) -> (r: &mut String)
        ensures
            r@ == old(self).query_text(),
            final(self).query_text() == final(r)@,
            final(self).inserting() == old(self).inserting(),
            final(self).index_state() == old(self).index_state(),
            final(self).result_list() == old(self).result_list(),
            final(self).max_results() == old(self).max_results(),
    {
        &mut self.input
    }

    /// Whether the query is being typed.
    pub fn insert_mode(&self) -> (r: bool)
        ensures
            r == self.inserting(),
    {
        self.insert
    }

    pub fn set_insert_mode(&mut self, insert_mode: bool)
        ensures
            final(self).inserting() == insert_mode,
            final(self).query_text() == old(self).query_text(),
            final(self).index_state() == old(self).index_state(),
            final(self).result_list() == old(self).result_list(),
            final(self).max_results() == old(self).max_results(),
    {
        self.insert = insert_mode;
    }

    /// The results of the last search, in order.
    pub fn results(&self) -> (r: &Vec<DisplayablePath>)
        ensures
            r@ == self.result_list().items(),
    {
        self.results.iter()
    }

    /// The selected result, if any.
    pub fn selection(&self) -> (r: Option<&DisplayablePath>)
        ensures
            r == match self.result_list().selected() {
                Some(i) => Some(&self.result_list().items()[i as int]),
                None => None::<&DisplayablePath>,
            },
    {
        self.results.selection()
    }

    /// The position of the selected result, if any.
    pub fn selected_index(&self) -> (r: Option<usize>)
        ensures
            r == match self.result_list().selected() {
                Some(i) => Some(i as usize),
                None => None::<usize>,
            },
    {
        self.results.selected_index()
    }

    /// Moves the selection one result up, staying on the first one.
    pub fn select_previous(&mut self)
        ensures
            old(self).wf() ==> final(self).wf(),
            final(self).query_text() == old(self).query_text(),
            final(self).inserting() == old(self).inserting(),
            final(self).index_state() == old(self).index_state(),
            final(self).max_results() == old(self).max_results(),
            final(self).result_list().items() == old(self).result_list().items(),
            final(self).result_list().selected() == match old(self).result_list().selected() {
                Some(i) => if i > 0 {
                    Some((i - 1) as nat)
                } else {
                    Some(i)
                },
                None => None::<nat>,
            },
    {
        self.results.select_previous();
    }

    /// Moves the selection one result down, staying on the last one.
    pub fn select_next(&mut self)
        ensures
            old(self).wf() ==> final(self).wf(),
            final(self).query_text() == old(self).query_text(),
            final(self).inserting() == old(self).inserting(),
            final(self).index_state() == old(self).index_state(),
            final(self).max_results() == old(self).max_results(),
            final(self).result_list().items() == old(self).result_list().items(),
            final(self).result_list().selected() == match old(self).result_list().selected() {
                Some(i) => if i + 1 < old(self).result_list().items().len() {
                    Some((i + 1) as nat)
                } else {
                    Some(i)
                },
                None => None::<nat>,
            },
    {
        self.results.select_next();
    }

    /// The mode's knobs.
    pub fn config(&self) -> (r: &SearchSelectConfig)
        ensures
            r.max_results == self.max_results(),
    {
        &self.config
    }

    /// The mode's name.
    pub fn to_string(&self) -> (r: String)
        ensures
            r@ == "OPEN"@,
    {
        String::from_str("OPEN")
    }

    /// A status line for the current state, in this order: the root being
    /// indexed; a prompt while the query is empty; a notice when the last
    /// search left no results. The notice reflects the results as they stand:
    /// since a search of a complete index always leaves at least the literal
    /// query, it shows only when the query was edited after a search made
    /// while indexing, and before the next search.
    pub fn message(&self) -> (r: Option<String>)
        ensures
            match self.index_state() {
                OpenModeIndex::Indexing(p) => r is Some && r->Some_0@ == "Indexing "@ + p@,
                OpenModeIndex::Complete(_) => if self.query_text().len() == 0 {
                    r is Some && r->Some_0@ == "Enter a search query to start."@
                } else if self.result_list().items().len() == 0 {
                    r is Some && r->Some_0@ == "No matching entries found."@
                } else {
                    r is None
                },
            },
    {
        match &self.index {
            OpenModeIndex::Indexing(path) => {
                let mut m = String::from_str("Indexing ");
                m.append(path.as_str());
                Some(m)
            },
            OpenModeIndex::Complete(_) => {
                if self.input.as_str().is_empty() {
                    Some(String::from_str("Enter a search query to start."))
                } else if self.results.len() == 0 {
                    Some(String::from_str("No matching entries found."))
                } else {
                    None
                }
            },
        }
    }
}

/// A search while the index is still being built leaves no results,
/// whatever the query.
pub proof fn lemma_search_while_indexing(mode: OpenMode, list: SelectableVec<DisplayablePath>)
    requires
        mode.index_state() is Indexing,
        mode.searched(list),
    ensures
        list.items().len() == 0,
{
}

/// A search of a complete index in which nothing matches the query leaves
/// exactly one result: the query itself, taken as a path.
pub proof fn lemma_no_match_gives_literal(mode: OpenMode, list: SelectableVec<DisplayablePath>)
    requires
        mode.index_state() is Complete,
        matching_paths(index_entries(mode.index_state()->Complete_0), lower_of(mode.query_text())).len() == 0,
        mode.searched(list),
    ensures
        shown(list) == seq![mode.query_text()],
{
    let entries = index_entries(mode.index_state()->Complete_0);
    let found = choose|found: Seq<Seq<char>>|
        find_outcome(entries, lower_of(mode.query_text()), mode.max_results(), found)
            && #[trigger] results_for(mode.query_text(), found) == shown(list);
    assert(found.len() == 0);
}

/// Unless a search of a complete index falls back on the literal query
/// (nothing matched, or no result is allowed), each result it leaves is the
/// path of an index entry that matches the lowercased query, and there are at
/// most `max_results` of them.
pub proof fn lemma_search_shows_only_matches(mode: OpenMode, list: SelectableVec<DisplayablePath>, i: int)
    requires
        mode.index_state() is Complete,
        matching_paths(index_entries(mode.index_state()->Complete_0), lower_of(mode.query_text())).len() > 0,
        mode.max_results() > 0,
        mode.searched(list),
        0 <= i < shown(list).len(),
    ensures
        shown(list).len() <= mode.max_results(),
        exists|j: int|
            0 <= j < index_entries(mode.index_state()->Complete_0).len()
                && (#[trigger] index_entries(mode.index_state()->Complete_0)[j]).0 == shown(list)[i]
                && query_matches(lower_of(mode.query_text()), index_entries(mode.index_state()->Complete_0)[j].1),
{
    let entries = index_entries(mode.index_state()->Complete_0);
    let q = lower_of(mode.query_text());
    let found = choose|found: Seq<Seq<char>>|
        find_outcome(entries, q, mode.max_results(), found)
            && #[trigger] results_for(mode.query_text(), found) == shown(list);
    assert(found.len() > 0);
    lemma_found_paths_match(entries, q, mode.max_results(), found, i);
}

} // verus!
