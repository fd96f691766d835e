use vorto::books::{canonical_key_of, sort_books_canonically, UNKNOWN_BOOK_KEY};
use vorto::model::SearchResult;
use vorto::search::filter_search_results;

fn s(x: &str) -> String {
    x.to_string()
}

fn hit(book: &str, chapter: u32, verse: u32, text: &str) -> SearchResult {
    SearchResult { book: s(book), chapter, verse, text: s(text) }
}

#[test]
fn canonical_keys() {
    assert_eq!(canonical_key_of("Genesis"), 0);
    assert_eq!(canonical_key_of("Exodus"), 1);
    assert_eq!(canonical_key_of("Malachi"), 38);
    assert_eq!(canonical_key_of("Matthew"), 39);
    assert_eq!(canonical_key_of("Revelation"), 65);
    assert_eq!(canonical_key_of("1 Maccabees"), UNKNOWN_BOOK_KEY);
    assert_eq!(canonical_key_of("genesis"), UNKNOWN_BOOK_KEY);
}

#[test]
fn books_sorted_canonically_and_stably() {
    let books = vec![s("Revelation"), s("Tobit"), s("Genesis"), s("John"), s("Judith"), s("Exodus")];
    let sorted = sort_books_canonically(books);
    assert_eq!(sorted, vec![s("Genesis"), s("Exodus"), s("John"), s("Revelation"), s("Tobit"), s("Judith")]);
}

#[test]
fn sorting_empty_and_sorted_lists() {
    assert!(sort_books_canonically(vec![]).is_empty());
    let ordered = vec![s("Genesis"), s("Exodus"), s("Leviticus")];
    assert_eq!(sort_books_canonically(ordered.clone()), ordered);
}

#[test]
fn regex_hits_are_case_insensitive() {
    let rows = vec![hit("John", 3, 16, "For God so LOVED the world"), hit("Genesis", 1, 1, "In the beginning")];
    let found = filter_search_results("l.ve", rows.clone());
    assert_eq!(found.len(), 1);
    assert_eq!(found[0].book, "John");
    // "l.ve" is no substring of either text: only a regex finds the hit.
    assert!(filter_search_results("L.VE", rows.clone()).len() == 1);
    assert!(filter_search_results("beginning$", rows).len() == 1);
}

#[test]
fn search_uses_case_insensitive_regex() {
    let rows = vec![
        hit("Genesis", 1, 1, "In the beginning God created"),
        hit("John", 3, 16, "For God so loved the world"),
        hit("John", 11, 35, "Jesus wept."),
    ];
    let found = filter_search_results("GOD", rows.clone());
    assert_eq!(found.len(), 2);
    assert_eq!(found[0].book, "Genesis");
    assert_eq!(found[1].verse, 16);
    let found = filter_search_results("^jesus", rows.clone());
    assert_eq!(found.len(), 1);
    assert_eq!(found[0].chapter, 11);
    let found = filter_search_results("w(orld|ept)", rows);
    assert_eq!(found.len(), 2);
}

#[test]
fn invalid_regex_falls_back_to_substring() {
    let rows = vec![hit("Psalms", 1, 1, "Blessed [is] the man"), hit("Psalms", 1, 2, "But his delight")];
    let found = filter_search_results("[IS", rows.clone());
    assert_eq!(found.len(), 1);
    assert_eq!(found[0].verse, 1);
    assert!(filter_search_results("(nothing", rows).is_empty());
}

#[test]
fn empty_query_keeps_everything() {
    let rows = vec![hit("Ruth", 1, 1, "a"), hit("Ruth", 1, 2, "")];
    assert_eq!(filter_search_results("", rows).len(), 2);
}

#[test]
fn substring_fallback_lowercases_unicode() {
    let rows = vec![hit("Revelation", 1, 1, "[ÅPENBARINGEN] Jesu Kristi"), hit("Revelation", 1, 2, "vitnet")];
    // "[åpen" does not compile (unclosed class), so the lowercased texts are searched.
    let found = filter_search_results("[åpen", rows.clone());
    assert_eq!(found.len(), 1);
    assert_eq!(found[0].verse, 1);
    assert_eq!(filter_search_results("[ÅPEN", rows).len(), 1);
}

#[test]
fn keep_decision_from_call_results() {
    assert!(vorto::search::decide_keep(true, true, "", "x"));
    assert!(!vorto::search::decide_keep(true, false, "abc", "b"));
    assert!(vorto::search::decide_keep(false, false, "in the beginning", "begin"));
    assert!(!vorto::search::decide_keep(false, true, "in the beginning", "end of"));
    assert!(vorto::search::decide_keep(false, false, "anything", ""));
}
