use agentic::guard::{
    check_path, components_of, join_path, nearest_existing_parent, parent_components,
    path_to_slash_string, split_str, trim_str, validate_relative_path, within, ToolError,
    WorkspaceGuard, WriteProbe,
};

fn root_of(dir: &tempfile::TempDir) -> String {
    dir.path().to_str().expect("utf-8 temp path").to_owned()
}

fn fresh_probe(root: &str) -> WriteProbe {
    WriteProbe {
        parent_exists: true,
        parent_canonical: Ok(root.to_owned()),
        target_canonical: None,
    }
}

fn error_text<T>(r: Result<T, ToolError>) -> String {
    match r {
        Ok(_) => panic!("expected an error"),
        Err(e) => e.message(),
    }
}

#[test]
fn guard_rejects_absolute_and_parent_paths() {
    let dir = tempfile::tempdir().unwrap();
    let root = root_of(&dir);
    let guard = WorkspaceGuard::new(Ok(root.clone())).ok().expect("guard");
    assert!(guard.resolve_for_write("/tmp/file", fresh_probe(&root)).is_err());
    assert!(guard.resolve_for_write("../file", fresh_probe(&root)).is_err());
}

#[test]
fn guard_rejects_sensitive_paths() {
    let dir = tempfile::tempdir().unwrap();
    let root = root_of(&dir);
    let guard = WorkspaceGuard::new(Ok(root.clone())).ok().expect("guard");
    assert!(guard.resolve_for_write(".env", fresh_probe(&root)).is_err());
    assert!(guard.resolve_for_write(".git/config", fresh_probe(&root)).is_err());
}

#[test]
fn guard_error_messages_name_the_reason() {
    assert_eq!(error_text(validate_relative_path("")), "path must not be empty");
    assert_eq!(error_text(validate_relative_path("   ")), "path must not be empty");
    assert_eq!(error_text(validate_relative_path("/etc/passwd")), "absolute paths are not allowed");
    assert_eq!(
        error_text(validate_relative_path("a/../b")),
        "parent directory paths are not allowed"
    );
    assert_eq!(error_text(check_path("src/.git/x")), "'.git' is not accessible to tools");
    assert_eq!(error_text(check_path("target")), "'target' is not accessible to tools");
    assert_eq!(
        error_text(check_path("keys/server.pem")),
        "'server.pem' is sensitive and cannot be accessed"
    );
    assert_eq!(
        error_text(check_path(".env.local")),
        "'.env.local' is sensitive and cannot be accessed"
    );
}

#[test]
fn checked_paths_keep_named_components() {
    let comps = check_path("./src//main.rs").ok().expect("allowed");
    assert_eq!(comps, vec!["src".to_owned(), "main.rs".to_owned()]);
    assert_eq!(components_of("a/./b/"), vec!["a".to_owned(), "b".to_owned()]);
    assert_eq!(split_str("a//b", '/'), vec!["a".to_owned(), String::new(), "b".to_owned()]);
    assert_eq!(trim_str("  x y \n"), "x y");
}

#[test]
fn within_compares_whole_components() {
    assert!(within("/work", "/work/a.txt"));
    assert!(within("/work", "/work"));
    assert!(!within("/work", "/workshop/a.txt"));
    assert!(!within("/work", "work/a.txt"));
    assert!(!within("/work/a", "/work"));
}

#[test]
fn joins_and_shows_relative_paths() {
    let rel = vec!["src".to_owned(), "lib.rs".to_owned()];
    assert_eq!(join_path("/work", &rel), "/work/src/lib.rs");
    assert_eq!(join_path("/work/", &rel), "/work/src/lib.rs");
    assert_eq!(join_path("/work", &Vec::new()), "/work/.");
    assert_eq!(path_to_slash_string(&rel), "src/lib.rs");
    assert_eq!(path_to_slash_string(&Vec::new()), ".");
    assert_eq!(parent_components(&rel), vec!["src".to_owned()]);
    assert_eq!(parent_components(&Vec::new()), Vec::<String>::new());
}

#[test]
fn nearest_parent_stops_at_first_missing_directory() {
    let parent = vec!["a".to_owned(), "b".to_owned(), "c".to_owned()];
    assert_eq!(nearest_existing_parent("/w", &parent, &vec![true, false, true]), "/w/a");
    assert_eq!(nearest_existing_parent("/w", &parent, &vec![true, true, true]), "/w/a/b/c");
    assert_eq!(nearest_existing_parent("/w", &parent, &vec![false, true, true]), "/w");
}

#[test]
fn write_resolution_reports_escapes_and_io_failures() {
    let guard = WorkspaceGuard::new(Ok("/w".to_owned())).ok().expect("guard");
    let ok = guard.resolve_for_write("notes/a.txt", fresh_probe("/w")).ok().expect("inside");
    assert_eq!(ok.full_path(), "/w/notes/a.txt");
    assert_eq!(ok.relative_display(), "notes/a.txt");
    let escaped = WriteProbe {
        parent_exists: true,
        parent_canonical: Ok("/elsewhere".to_owned()),
        target_canonical: None,
    };
    assert_eq!(
        error_text(guard.resolve_for_write("notes/a.txt", escaped)),
        "path escapes workspace root"
    );
    let missing = WriteProbe {
        parent_exists: false,
        parent_canonical: Err("gone".to_owned()),
        target_canonical: None,
    };
    assert_eq!(
        error_text(guard.resolve_for_write("notes/a.txt", missing)),
        "canonicalize nearest parent directory failed: gone"
    );
    let target_out = WriteProbe {
        parent_exists: true,
        parent_canonical: Ok("/w/notes".to_owned()),
        target_canonical: Some(Ok("/tmp/link".to_owned())),
    };
    assert_eq!(
        error_text(guard.resolve_for_write("notes/a.txt", target_out)),
        "path escapes workspace root"
    );
    assert_eq!(
        error_text(WorkspaceGuard::new(Err("no such dir".to_owned()))),
        "canonicalize workspace root failed: no such dir"
    );
}

#[test]
fn existing_file_and_directory_checks() {
    let guard = WorkspaceGuard::new(Ok("/w".to_owned())).ok().expect("guard");
    let file = guard
        .resolve_existing_file("a.txt", Ok("/w/a.txt".to_owned()), true)
        .ok()
        .expect("file");
    assert_eq!(file.full_path(), "/w/a.txt");
    assert_eq!(
        error_text(guard.resolve_existing_file("d", Ok("/w/d".to_owned()), false)),
        "'d' is not a file"
    );
    assert_eq!(
        error_text(guard.resolve_existing_dir("a.txt", Ok("/w/a.txt".to_owned()), false)),
        "'a.txt' is not a directory"
    );
    assert_eq!(
        error_text(guard.resolve_existing("outside/secret.txt", Ok("/o/secret.txt".to_owned()))),
        "path escapes workspace root"
    );
    assert_eq!(
        error_text(guard.resolve_existing("x", Err("missing".to_owned()))),
        "canonicalize path failed: missing"
    );
}
