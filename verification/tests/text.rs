use agentic::text::{
    ends_with, from_chars, i64_to_string, starts_with, str_eq, to_chars, u64_to_string,
    usize_to_string, TextField,
};

#[test]
fn text_field_edits_at_the_caret() {
    let mut f = TextField::from_initial("héllo".to_owned());
    assert_eq!(f.caret_byte(), "héllo".len());
    f.move_left();
    f.move_left();
    f.insert_char('X');
    assert_eq!(f.as_str(), "helXlo".replace('e', "é").as_str());
    f.backspace();
    assert_eq!(f.as_str(), "héllo");
    f.move_home();
    assert_eq!(f.caret_byte(), 0);
    f.delete_forward();
    assert_eq!(f.as_str(), "éllo");
    f.move_end();
    assert_eq!(f.caret_byte(), "éllo".len());
    f.move_right();
    assert_eq!(f.caret_byte(), "éllo".len());
    f.clear();
    assert!(f.is_empty());
    assert_eq!(f.byte_len(), 0);
}

#[test]
fn backspace_at_start_and_delete_at_end_do_nothing() {
    let mut f = TextField::from_initial("ab".to_owned());
    f.delete_forward();
    assert_eq!(f.as_str(), "ab");
    f.move_home();
    f.backspace();
    assert_eq!(f.as_str(), "ab");
    f.move_left();
    assert_eq!(f.caret_byte(), 0);
}

#[test]
fn backspace_undoes_insert_on_concrete_text() {
    let mut f = TextField::from_initial("one two".to_owned());
    f.move_left();
    f.move_left();
    f.move_left();
    let before = f.caret_byte();
    f.insert_char('ß');
    f.backspace();
    assert_eq!(f.as_str(), "one two");
    assert_eq!(f.caret_byte(), before);
}

#[test]
fn move_right_undoes_move_left() {
    let mut f = TextField::from_initial("abc".to_owned());
    f.move_left();
    let at = f.caret_byte();
    f.move_left();
    f.move_right();
    assert_eq!(f.caret_byte(), at);
}

#[test]
fn string_comparisons() {
    assert!(str_eq("abc", "abc"));
    assert!(!str_eq("abc", "abd"));
    assert!(starts_with(".env.local", ".env."));
    assert!(!starts_with(".en", ".env"));
    assert!(ends_with("server.pem", ".pem"));
    assert!(!ends_with("pem", ".pem"));
    assert_eq!(from_chars(&to_chars("añb")), "añb");
    assert_eq!(to_chars("añb").len(), 3);
}

#[test]
fn decimal_rendering() {
    assert_eq!(u64_to_string(0), "0");
    assert_eq!(u64_to_string(1234567890), "1234567890");
    assert_eq!(u64_to_string(u64::MAX), u64::MAX.to_string());
    assert_eq!(usize_to_string(42), "42");
    assert_eq!(i64_to_string(-17), "-17");
    assert_eq!(i64_to_string(i64::MIN), i64::MIN.to_string());
    assert_eq!(i64_to_string(5), "5");
}

#[test]
fn caret_stays_within_the_text() {
    let mut f = TextField::from_initial("ab".to_owned());
    assert_eq!(f.caret(), 2);
    f.move_right();
    assert_eq!(f.caret(), 2);
    f.move_left();
    f.backspace();
    assert_eq!(f.caret(), 0);
    assert_eq!(f.as_str(), "b");
    f.move_end();
    assert_eq!(f.caret(), 1);
}
