use linefilter::matcher::Mode;
use linefilter::matcher::contains_query;
use linefilter::matcher::search;

fn store(lines: &[&str]) -> Vec<String> {
    lines.iter().map(|s| s.to_string()).collect()
}

#[test]
fn literal_returns_matching_lines_in_order() {
    let lines = store(&["apple", "banana", "cherry"]);
    assert_eq!(search(&lines, "a", Mode::Literal), vec![0, 1]);
    assert_eq!(search(&lines, "an", Mode::Literal), vec![1]);
    assert_eq!(search(&lines, "err", Mode::Literal), vec![2]);
}

#[test]
fn literal_empty_query_matches_all() {
    let lines = store(&["apple", "banana", "cherry"]);
    assert_eq!(search(&lines, "", Mode::Literal), vec![0, 1, 2]);
}

#[test]
fn literal_no_match_gives_empty_set() {
    let lines = store(&["apple", "banana", "cherry"]);
    assert_eq!(search(&lines, "z", Mode::Literal), Vec::<usize>::new());
}

#[test]
fn literal_is_case_sensitive() {
    let lines = store(&["Apple", "apple"]);
    assert_eq!(search(&lines, "A", Mode::Literal), vec![0]);
}

#[test]
fn pattern_searches_anywhere_unanchored() {
    let lines = store(&["cat", "car", "dog"]);
    assert_eq!(search(&lines, "^ca", Mode::Pattern), vec![0, 1]);
    assert_eq!(search(&lines, "o", Mode::Pattern), vec![2]);
    assert_eq!(search(&lines, "a.", Mode::Pattern), vec![0, 1]);
}

#[test]
fn pattern_invalid_gives_empty_set() {
    let lines = store(&["cat", "car", "dog"]);
    assert_eq!(search(&lines, "(", Mode::Pattern), Vec::<usize>::new());
    assert_eq!(search(&lines, "[", Mode::Pattern), Vec::<usize>::new());
}

#[test]
fn pattern_empty_query_matches_all() {
    let lines = store(&["cat", "car", "dog"]);
    assert_eq!(search(&lines, "", Mode::Pattern), vec![0, 1, 2]);
}

#[test]
fn refiltering_unchanged_inputs_is_identical() {
    let lines = store(&["apple", "banana", "cherry"]);
    let first = search(&lines, "an", Mode::Literal);
    let second = search(&lines, "an", Mode::Literal);
    assert_eq!(first, second);
    let first = search(&lines, "a.", Mode::Pattern);
    let second = search(&lines, "a.", Mode::Pattern);
    assert_eq!(first, second);
}

#[test]
fn contains_query_finds_substrings() {
    assert!(contains_query("banana", "an"));
    assert!(contains_query("banana", "banana"));
    assert!(contains_query("banana", ""));
    assert!(!contains_query("banana", "z"));
    assert!(!contains_query("an", "banana"));
}

#[test]
fn contains_query_handles_multibyte_characters() {
    assert!(contains_query("caf\u{e9} noir", "f\u{e9} n"));
    assert!(!contains_query("cafe", "\u{e9}"));
}
