use linefilter::engine::Command;
use linefilter::engine::Session;
use linefilter::input::KeyInput;
use linefilter::input::translate_key;
use linefilter::matcher::Mode;
use linefilter::render::pad_to_width;

#[test]
fn prompt_row_holds_the_query() {
    let mut s = Session::new("apple", Mode::Literal);
    assert_eq!(s.prompt_row(), "QUERY> ");
    s.apply(Command::AppendChar('a'));
    s.apply(Command::AppendChar('p'));
    assert_eq!(s.prompt_row(), "QUERY> ap");
}

#[test]
fn only_the_selected_row_is_highlighted_and_padded() {
    let mut s = Session::new("apple\nbanana\ncherry", Mode::Literal);
    s.apply(Command::MoveDown);
    let rows = s.render_rows(10);
    assert_eq!(rows.len(), 3);
    assert_eq!(rows[0].text, "apple");
    assert!(!rows[0].highlighted);
    assert_eq!(rows[1].text, "banana    ");
    assert!(rows[1].highlighted);
    assert_eq!(rows[2].text, "cherry");
    assert!(!rows[2].highlighted);
}

#[test]
fn padding_never_truncates() {
    assert_eq!(pad_to_width("abc", 5), "abc  ");
    assert_eq!(pad_to_width("abc", 3), "abc");
    assert_eq!(pad_to_width("abcdef", 2), "abcdef");
    assert_eq!(pad_to_width("", 3), "   ");
}

#[test]
fn every_key_maps_to_its_command() {
    assert_eq!(translate_key(KeyInput::Escape), Command::Cancel);
    assert_eq!(translate_key(KeyInput::Enter), Command::Confirm);
    assert_eq!(translate_key(KeyInput::Backspace), Command::RemoveLastChar);
    assert_eq!(translate_key(KeyInput::Up), Command::MoveUp);
    assert_eq!(translate_key(KeyInput::Ctrl('p')), Command::MoveUp);
    assert_eq!(translate_key(KeyInput::Down), Command::MoveDown);
    assert_eq!(translate_key(KeyInput::Ctrl('n')), Command::MoveDown);
    assert_eq!(translate_key(KeyInput::Ctrl('r')), Command::ToggleMode);
    assert_eq!(translate_key(KeyInput::Ctrl('x')), Command::Ignore);
    assert_eq!(translate_key(KeyInput::Char('q')), Command::AppendChar('q'));
    assert_eq!(translate_key(KeyInput::Other), Command::Ignore);
}

#[test]
fn read_all_returns_the_whole_source() {
    let data = b"apple\nbanana";
    let got = linefilter::read_all(&data[..]).unwrap();
    assert_eq!(got, "apple\nbanana");
}
