use linefilter::engine::Command;
use linefilter::engine::Outcome;
use linefilter::engine::Session;
use linefilter::engine::clamp;
use linefilter::matcher::Mode;

/// The texts of the current filtered set, read back through the frame;
/// width 0 leaves even the highlighted row unpadded.
fn filtered_texts(s: &Session) -> Vec<String> {
    s.render_rows(0).into_iter().map(|row| row.text).collect()
}

#[test]
fn scenario_typing_narrows_then_confirms() {
    let mut s = Session::new("apple\nbanana\ncherry", Mode::Literal);
    assert!(s.apply(Command::AppendChar('a')).is_none());
    assert_eq!(filtered_texts(&s), vec!["apple", "banana"]);
    assert!(s.apply(Command::AppendChar('n')).is_none());
    assert_eq!(s.query_str(), "an");
    assert_eq!(filtered_texts(&s), vec!["banana"]);
    let out = s.apply(Command::Confirm);
    assert_eq!(out, Some(Outcome::Selected("banana".to_string())));
}

#[test]
fn scenario_confirm_on_empty_set_selects_nothing() {
    let mut s = Session::new("apple\nbanana\ncherry", Mode::Literal);
    assert!(s.apply(Command::AppendChar('z')).is_none());
    assert_eq!(s.filtered_len(), 0);
    assert_eq!(s.apply(Command::Confirm), Some(Outcome::NoSelection));
}

#[test]
fn scenario_pattern_mode_move_down_confirms_second_line() {
    let mut s = Session::new("cat\ncar\ndog", Mode::Literal);
    assert!(s.apply(Command::ToggleMode).is_none());
    assert_eq!(s.mode(), Mode::Pattern);
    for c in "^ca".chars() {
        assert!(s.apply(Command::AppendChar(c)).is_none());
    }
    assert_eq!(filtered_texts(&s), vec!["cat", "car"]);
    assert!(s.apply(Command::MoveDown).is_none());
    assert_eq!(s.selection(), 1);
    assert_eq!(s.apply(Command::Confirm), Some(Outcome::Selected("car".to_string())));
}

#[test]
fn scenario_invalid_pattern_empties_any_document() {
    for text in ["cat\ncar\ndog", "((((\n(((", ""] {
        let mut s = Session::new(text, Mode::Pattern);
        assert!(s.apply(Command::AppendChar('(')).is_none());
        assert_eq!(s.filtered_len(), 0, "document {:?}", text);
    }
}

#[test]
fn scenario_cancel_always_selects_nothing() {
    let mut s = Session::new("apple\nbanana\ncherry", Mode::Literal);
    assert!(s.apply(Command::AppendChar('a')).is_none());
    assert!(s.apply(Command::MoveDown).is_none());
    assert_eq!(s.apply(Command::Cancel), Some(Outcome::NoSelection));

    let mut fresh = Session::new("apple", Mode::Literal);
    assert_eq!(fresh.apply(Command::Cancel), Some(Outcome::NoSelection));
}

#[test]
fn scenario_backspace_on_empty_query_is_a_no_op() {
    let mut s = Session::new("apple\nbanana\ncherry", Mode::Literal);
    assert!(s.apply(Command::RemoveLastChar).is_none());
    assert_eq!(s.query_str(), "");
    assert_eq!(s.filtered_len(), 3);
    assert_eq!(filtered_texts(&s), vec!["apple", "banana", "cherry"]);
}

#[test]
fn backspace_restores_the_wider_set() {
    let mut s = Session::new("apple\nbanana\ncherry", Mode::Literal);
    s.apply(Command::AppendChar('a'));
    s.apply(Command::AppendChar('n'));
    assert_eq!(s.filtered_len(), 1);
    s.apply(Command::RemoveLastChar);
    assert_eq!(s.query_str(), "a");
    assert_eq!(s.filtered_len(), 2);
}

#[test]
fn selection_is_clamped_when_the_set_shrinks() {
    let mut s = Session::new("aa\nbb\nab", Mode::Literal);
    s.apply(Command::MoveDown);
    s.apply(Command::MoveDown);
    assert_eq!(s.selection(), 2);
    s.apply(Command::AppendChar('a'));
    assert_eq!(s.filtered_len(), 2);
    assert_eq!(s.selection(), 1);
    assert_eq!(s.apply(Command::Confirm), Some(Outcome::Selected("ab".to_string())));
}

#[test]
fn selection_keeps_its_place_when_the_set_grows() {
    let mut s = Session::new("aa\nbb\nab", Mode::Literal);
    s.apply(Command::AppendChar('a'));
    s.apply(Command::MoveDown);
    assert_eq!(s.selection(), 1);
    s.apply(Command::RemoveLastChar);
    assert_eq!(s.filtered_len(), 3);
    assert_eq!(s.selection(), 1);
}

#[test]
fn movement_stops_at_both_ends() {
    let mut s = Session::new("a\nb", Mode::Literal);
    assert!(s.apply(Command::MoveUp).is_none());
    assert_eq!(s.selection(), 0);
    s.apply(Command::MoveDown);
    s.apply(Command::MoveDown);
    assert_eq!(s.selection(), 1);
}

#[test]
fn toggle_refilters_the_same_query_under_the_new_mode() {
    let mut s = Session::new("a.c\nabc", Mode::Literal);
    for c in "a.c".chars() {
        s.apply(Command::AppendChar(c));
    }
    assert_eq!(filtered_texts(&s), vec!["a.c"]);
    s.apply(Command::ToggleMode);
    assert_eq!(s.query_str(), "a.c");
    assert_eq!(filtered_texts(&s), vec!["a.c", "abc"]);
    s.apply(Command::ToggleMode);
    assert_eq!(s.mode(), Mode::Literal);
    assert_eq!(filtered_texts(&s), vec!["a.c"]);
}

#[test]
fn ignore_changes_nothing() {
    let mut s = Session::new("apple\nbanana", Mode::Literal);
    s.apply(Command::AppendChar('a'));
    let before = (s.query_str().to_string(), s.filtered_len(), s.selection());
    assert!(s.apply(Command::Ignore).is_none());
    let after = (s.query_str().to_string(), s.filtered_len(), s.selection());
    assert_eq!(before, after);
}

#[test]
fn empty_pattern_query_matches_every_line() {
    let s = Session::new("one\ntwo", Mode::Pattern);
    assert_eq!(s.filtered_len(), 2);
}

#[test]
fn clamp_pulls_down_and_never_up() {
    assert_eq!(clamp(5, 3), 2);
    assert_eq!(clamp(2, 3), 2);
    assert_eq!(clamp(0, 3), 0);
    assert_eq!(clamp(7, 0), 7);
}
