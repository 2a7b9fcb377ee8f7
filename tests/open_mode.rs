use amp_open::{results_from_matches, DisplayablePath, OpenMode, SearchSelectConfig};
use bloodhound::{ExclusionPattern, Index};
use std::path::PathBuf;

fn config(max_results: usize) -> SearchSelectConfig {
    SearchSelectConfig { max_results }
}

fn shown(mode: &OpenMode) -> Vec<String> {
    mode.results().iter().map(|p| p.to_string()).collect()
}

fn set_query(mode: &mut OpenMode, text: &str) {
    let query = mode.query();
    query.clear();
    query.push_str(text);
}

// Indexes the library's own source directory, leaving out the open mode's
// file: lib.rs, index.rs and selectable_vec.rs remain.
fn sample_index() -> Index {
    let mut index = Index::new(PathBuf::from("src"));
    index.populate(Some(vec![ExclusionPattern::new("*open_mode.rs").unwrap()]), false);
    index
}

#[test]
fn new_mode_is_indexing_with_empty_query() {
    let mut mode = OpenMode::new(String::from("/projects/amp"), config(5));
    assert!(mode.insert_mode());
    assert_eq!(mode.query().as_str(), "");
    assert_eq!(mode.results().len(), 0);
    assert_eq!(mode.selected_index(), None);
    assert_eq!(mode.config().max_results, 5);
    assert_eq!(mode.message(), Some(String::from("Indexing /projects/amp")));
}

#[test]
fn search_while_indexing_yields_nothing() {
    for text in ["", "main", "zzz_no_such_path", "  "] {
        let mut mode = OpenMode::new(String::from("/root"), config(5));
        set_query(&mut mode, text);
        mode.search();
        assert_eq!(mode.results().len(), 0);
        assert!(mode.selection().is_none());
        assert_eq!(mode.message(), Some(String::from("Indexing /root")));
    }
}

#[test]
fn unmatched_query_yields_literal_path() {
    let mut mode = OpenMode::new(String::from("/nowhere"), config(5));
    mode.set_index(Index::new(PathBuf::from("/nowhere")));
    set_query(&mut mode, "zzz_no_such_path");
    mode.search();
    assert_eq!(shown(&mode), vec![String::from("zzz_no_such_path")]);
    assert_eq!(mode.selected_index(), Some(0));
    assert_eq!(mode.selection().map(|p| p.to_string()), Some(String::from("zzz_no_such_path")));
    assert_eq!(mode.message(), None);
}

#[test]
fn excluded_files_never_show_and_query_finds_match() {
    let mut mode = OpenMode::new(String::from("src_scenario"), config(10));
    mode.set_index(sample_index());
    set_query(&mut mode, "lib");
    mode.search();
    assert_eq!(shown(&mode), vec![String::from("lib.rs")]);

    set_query(&mut mode, "rs");
    mode.search();
    let results = shown(&mode);
    assert_eq!(results.len(), 3);
    assert!(results.contains(&String::from("lib.rs")));
    assert!(results.contains(&String::from("index.rs")));
    assert!(results.contains(&String::from("selectable_vec.rs")));

    for text in ["open", "mode", "rs", "."] {
        set_query(&mut mode, text);
        mode.search();
        assert!(!shown(&mode).contains(&String::from("open_mode.rs")));
    }
}

#[test]
fn query_is_lowercased_before_matching() {
    let mut mode = OpenMode::new(String::from("src_case"), config(10));
    mode.set_index(sample_index());
    set_query(&mut mode, "LIB");
    mode.search();
    assert_eq!(shown(&mode), vec![String::from("lib.rs")]);
}

#[test]
fn empty_query_finds_nothing_and_falls_back() {
    let mut mode = OpenMode::new(String::from("src_empty"), config(10));
    mode.set_index(sample_index());
    mode.search();
    assert_eq!(shown(&mode), vec![String::new()]);
    assert_eq!(mode.message(), Some(String::from("Enter a search query to start.")));
}

#[test]
fn results_never_exceed_limit() {
    let mut mode = OpenMode::new(String::from("src_limit"), config(1));
    mode.set_index(sample_index());
    set_query(&mut mode, "rs");
    mode.search();
    let first = shown(&mode);
    assert_eq!(first.len(), 1);
    mode.search();
    assert_eq!(shown(&mode).len(), 1);
}

#[test]
fn all_terms_must_occur() {
    let mut mode = OpenMode::new(String::from("src_terms"), config(10));
    mode.set_index(sample_index());
    set_query(&mut mode, "sel vec");
    mode.search();
    assert_eq!(shown(&mode), vec![String::from("selectable_vec.rs")]);
    set_query(&mut mode, "lib index");
    mode.search();
    assert_eq!(shown(&mode), vec![String::from("lib index")]);
}

#[test]
fn second_index_delivery_is_ignored() {
    let mut mode = OpenMode::new(String::from("src_twice"), config(10));
    mode.set_index(Index::new(PathBuf::from("src")));
    mode.set_index(sample_index());
    set_query(&mut mode, "lib");
    mode.search();
    assert_eq!(shown(&mode), vec![String::from("lib")]);
    assert_eq!(mode.message(), None);
}

#[test]
fn navigation_stays_within_results() {
    let mut mode = OpenMode::new(String::from("src_nav"), config(10));
    mode.set_index(sample_index());
    set_query(&mut mode, "rs");
    mode.search();
    assert_eq!(mode.selected_index(), Some(0));
    mode.select_next();
    mode.select_next();
    assert_eq!(mode.selected_index(), Some(2));
    mode.select_next();
    assert_eq!(mode.selected_index(), Some(2));
    mode.select_previous();
    mode.select_previous();
    mode.select_previous();
    assert_eq!(mode.selected_index(), Some(0));
    set_query(&mut mode, "lib");
    mode.search();
    assert_eq!(mode.selected_index(), Some(0));
}

#[test]
fn no_match_notice_before_search() {
    let mut mode = OpenMode::new(String::from("/nowhere"), config(5));
    set_query(&mut mode, "abc");
    mode.search();
    mode.set_index(Index::new(PathBuf::from("/nowhere")));
    assert_eq!(mode.message(), Some(String::from("No matching entries found.")));
    mode.search();
    assert_eq!(mode.message(), None);
}

#[test]
fn insert_mode_can_be_toggled() {
    let mut mode = OpenMode::new(String::from("/r"), config(5));
    mode.set_insert_mode(false);
    assert!(!mode.insert_mode());
    mode.set_insert_mode(true);
    assert!(mode.insert_mode());
}

#[test]
fn mode_name_is_open() {
    let mode = OpenMode::new(String::from("/r"), config(5));
    assert_eq!(mode.to_string(), "OPEN");
}

#[test]
fn matches_become_results_in_order() {
    let found = vec![String::from("b.rs"), String::from("a.rs")];
    let list = results_from_matches(&String::from("q"), found);
    let paths: Vec<String> = list.iter().iter().map(|p| p.to_string()).collect();
    assert_eq!(paths, vec![String::from("b.rs"), String::from("a.rs")]);
    assert_eq!(list.selected_index(), Some(0));
}

#[test]
fn no_matches_become_literal_query() {
    let list = results_from_matches(&String::from("new/file.rs"), Vec::new());
    assert_eq!(list.len(), 1);
    assert_eq!(list.selection().map(|p| p.to_string()), Some(String::from("new/file.rs")));
}

#[test]
fn displayable_path_text() {
    let p = DisplayablePath(String::from("src/lib.rs"));
    assert_eq!(p.to_string(), "src/lib.rs");
}
