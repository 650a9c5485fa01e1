use agentic::edit::{replace_all_counted, replace_first_occurrence};
use agentic::file_tools::{
    check_delete_directory, check_edit_args, check_write_size, count_lines,
    delete_directory_output, delete_file_output, edit_outcome, effective_max_results,
    read_output, target_path, write_output, EditFileArgs, ReadFileArgs, SearchMatch,
    MAX_WRITE_BYTES,
};
use agentic::guard::ToolError;
use agentic::search::{check_search_query, lines_of, list_output, search_output, search_text};

fn message<T>(r: Result<T, ToolError>) -> String {
    match r {
        Ok(_) => panic!("expected an error"),
        Err(e) => e.message(),
    }
}

fn edit_args(old: &str, new: &str, replace_all: Option<bool>) -> EditFileArgs {
    EditFileArgs {
        path: "file.txt".to_owned(),
        old: old.to_owned(),
        new: new.to_owned(),
        replace_all,
    }
}

#[test]
fn edit_outcome_requires_single_match_by_default() {
    let err = message(edit_outcome(&edit_args("one", "two", None), "file.txt".to_owned(), "one one"));
    assert!(err.contains("expected exactly one match"));
    assert_eq!(err, "expected exactly one match, found 2");
    assert_eq!(
        message(edit_outcome(&edit_args("zzz", "two", None), "file.txt".to_owned(), "one one")),
        "expected exactly one match, found 0"
    );
}

#[test]
fn edit_outcome_replaces_one_or_all() {
    let (out, text) = edit_outcome(&edit_args("one", "two", None), "f.txt".to_owned(), "one three")
        .ok()
        .expect("single match");
    assert_eq!(text, "two three");
    assert_eq!(out.replacements, 1);
    assert_eq!(out.bytes, 9);
    assert_eq!(out.summary, "Updated f.txt with 1 replacement");
    let (out, text) = edit_outcome(&edit_args("one", "2", Some(true)), "f.txt".to_owned(), "one one")
        .ok()
        .expect("all matches");
    assert_eq!(text, "2 2");
    assert_eq!(out.replacements, 2);
    assert_eq!(out.summary, "Updated f.txt with 2 replacements");
    assert_eq!(
        message(edit_outcome(&edit_args("x", "y", Some(true)), "f.txt".to_owned(), "abc")),
        "old text was not found"
    );
    assert_eq!(message(check_edit_args(&edit_args("", "y", None))), "old text must not be empty");
    assert_eq!(
        message(edit_outcome(&edit_args("", "y", None), "f.txt".to_owned(), "abc")),
        "old text must not be empty"
    );
}

#[test]
fn replacements_match_std() {
    assert_eq!(replace_all_counted("aaa", "aa", "b"), ("ba".to_owned(), 1));
    assert_eq!(replace_all_counted("abcabc", "bc", "X"), ("aXaX".to_owned(), 2));
    assert_eq!(replace_first_occurrence("abcabc", "bc", "X"), "aXabc");
    assert_eq!(replace_first_occurrence("abc", "z", "X"), "abc");
    assert_eq!("abcabc".replacen("bc", "X", 1), replace_first_occurrence("abcabc", "bc", "X"));
}

#[test]
fn read_output_counts_lines_and_cuts_at_limit() {
    let args = ReadFileArgs { path: "file.txt".to_owned(), max_bytes: None };
    let out = read_output(&args, "file.txt".to_owned(), b"hello\nworld\n".to_vec())
        .ok()
        .expect("utf-8");
    assert_eq!(out.content, "hello\nworld\n");
    assert_eq!(out.lines, 2);
    assert!(out.summary.contains("Read 2 lines"));
    assert_eq!(out.summary, "Read 2 lines from file.txt");
    assert!(!out.truncated);
    assert_eq!(out.bytes, 12);
    let short = ReadFileArgs { path: "file.txt".to_owned(), max_bytes: Some(5) };
    let out = read_output(&short, "file.txt".to_owned(), b"hello\nworld\n".to_vec())
        .ok()
        .expect("utf-8");
    assert_eq!(out.content, "hello");
    assert!(out.truncated);
    assert_eq!(
        message(read_output(&args, "file.txt".to_owned(), vec![0xff, 0xfe])),
        "'file.txt' is not valid UTF-8"
    );
}

#[test]
fn line_counts_follow_str_lines() {
    assert_eq!(count_lines(""), 0);
    assert_eq!(count_lines("a"), 1);
    assert_eq!(count_lines("a\n"), 1);
    assert_eq!(count_lines("a\nb"), 2);
    assert_eq!(count_lines("\n\n"), 2);
    assert_eq!(lines_of("a\r\nb\n"), vec!["a".to_owned(), "b".to_owned()]);
    assert_eq!(lines_of(""), Vec::<String>::new());
}

#[test]
fn write_and_delete_reports() {
    let w = write_output("a.txt".to_owned(), 5, false);
    assert_eq!(w.summary, "Created a.txt (5 bytes)");
    let w = write_output("a.txt".to_owned(), 7, true);
    assert_eq!(w.summary, "Updated a.txt (7 bytes)");
    assert!(check_write_size("small").is_ok());
    let big = "x".repeat(MAX_WRITE_BYTES + 1);
    assert_eq!(message(check_write_size(&big)), "content is too large; limit is 524288 bytes");
    let d = delete_file_output("a.txt".to_owned());
    assert!(d.deleted);
    assert_eq!(d.summary, "Deleted a.txt");
    assert_eq!(message(check_delete_directory(".")), "refusing to delete the workspace root");
    assert!(check_delete_directory("empty").is_ok());
    let d = delete_directory_output("empty".to_owned());
    assert!(d.deleted);
    assert_eq!(d.summary, "Deleted empty directory empty");
}

#[test]
fn result_caps_and_targets() {
    assert_eq!(effective_max_results(None), 200);
    assert_eq!(effective_max_results(Some(5)), 5);
    assert_eq!(effective_max_results(Some(5000)), 1000);
    assert_eq!(target_path(&None), ".");
    assert_eq!(target_path(&Some("src".to_owned())), "src");
}

#[test]
fn search_finds_matching_lines_up_to_the_cap() {
    let mut matches: Vec<SearchMatch> = Vec::new();
    search_text("a.rs", "fn a() {}\nlet x = 1;\nfn b() {}\r\n", "fn", 10, &mut matches);
    assert_eq!(matches.len(), 2);
    assert_eq!(matches[0].line, 1);
    assert_eq!(matches[0].text, "fn a() {}");
    assert_eq!(matches[1].line, 3);
    assert_eq!(matches[1].text, "fn b() {}");
    assert_eq!(matches[1].path, "a.rs");
    search_text("b.rs", "fn c\nfn d\n", "fn", 3, &mut matches);
    assert_eq!(matches.len(), 3);
    assert_eq!(matches[2].path, "b.rs");
    let long = "q".repeat(300);
    let mut more: Vec<SearchMatch> = Vec::new();
    search_text("c.txt", &long, "q", 10, &mut more);
    assert_eq!(more[0].text.chars().count(), 240);
    let out = search_output("fn".to_owned(), matches, 3);
    assert!(out.truncated);
    assert_eq!(out.summary, "Found 3 matches for 'fn'");
    assert_eq!(message(check_search_query("")), "query must not be empty");
}

#[test]
fn listing_sorts_files() {
    let out = list_output(
        ".".to_owned(),
        vec!["b.txt".to_owned(), "a/c.txt".to_owned(), "a.txt".to_owned()],
        3,
    );
    assert_eq!(out.files, vec!["a.txt".to_owned(), "a/c.txt".to_owned(), "b.txt".to_owned()]);
    assert!(out.truncated);
    assert_eq!(out.summary, "Listed 3 files");
}

#[test]
fn read_gives_back_what_was_written() {
    let content = "héllo\nwörld – ok";
    let args = ReadFileArgs { path: "w.txt".to_owned(), max_bytes: None };
    let out = read_output(&args, "w.txt".to_owned(), content.as_bytes().to_vec())
        .ok()
        .expect("utf-8");
    assert_eq!(out.content, content);
    assert_eq!(out.bytes, content.len());
    assert!(!out.truncated);
    let written = write_output("w.txt".to_owned(), content.len(), false);
    assert_eq!(written.bytes, out.bytes);
}
