use agentic::layout::{caret_xy, wrap_chars};

#[test]
fn caret_and_wrap_agree_after_newline() {
    let text = "hello\nworld";
    let (x, y) = caret_xy(text, 80);
    let lines = wrap_chars(text, 80);
    assert_eq!((x, y), (5, 1));
    assert_eq!(lines, vec!["hello".to_owned(), "world".to_owned()]);
}

#[test]
fn caret_and_wrap_agree_after_char_wrap() {
    let text = "aaaaabbbbbcccc";
    let (x, y) = caret_xy(text, 5);
    let lines = wrap_chars(text, 5);
    assert_eq!(
        lines,
        vec!["aaaaa".to_owned(), "bbbbb".to_owned(), "cccc".to_owned()]
    );
    assert_eq!((x, y), (4, 2));
}

#[test]
fn caret_at_exact_wrap_boundary() {
    let text = "aaaaabbbbb";
    let (x, y) = caret_xy(text, 5);
    let lines = wrap_chars(text, 5);
    assert_eq!(lines, vec!["aaaaa".to_owned(), "bbbbb".to_owned()]);
    assert_eq!((x, y), (0, 2));
}

#[test]
fn empty_text_has_caret_at_origin_and_one_line() {
    assert_eq!(caret_xy("", 10), (0, 0));
    assert_eq!(wrap_chars("", 10), vec![String::new()]);
}

#[test]
fn trailing_newline_moves_caret_to_next_row() {
    assert_eq!(caret_xy("ab\n", 10), (0, 1));
    assert_eq!(wrap_chars("ab\n", 10), vec!["ab".to_owned(), String::new()]);
}
