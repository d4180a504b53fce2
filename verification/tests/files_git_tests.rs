use gforce_node::config::PathStyle;
use gforce_node::files::{check_within_sandbox, entry_label, is_within, requested_path, sort_names, FileError};

const U: PathStyle = PathStyle::Unix;
const W: PathStyle = PathStyle::Windows;
use gforce_node::git::{checkout, clone, pull};

#[test]
fn requested_paths() {
    assert_eq!(requested_path(U, "test.txt", "/tmp/sandbox"), "/tmp/sandbox/test.txt");
    assert_eq!(requested_path(U, "../../../etc/passwd", "/tmp/sandbox"), "/tmp/sandbox/../../../etc/passwd");
    assert_eq!(requested_path(U, "/etc/passwd", "/tmp/sandbox"), "/etc/passwd");
}

#[test]
fn traversal_is_detected_on_canonical_paths() {
    assert_eq!(check_within_sandbox(U, "/tmp/sandbox/test.txt".to_string(), "/tmp/sandbox").unwrap(), "/tmp/sandbox/test.txt");
    assert!(check_within_sandbox(U, "/tmp/sandbox".to_string(), "/tmp/sandbox").is_ok());
    match check_within_sandbox(U, "/etc/passwd".to_string(), "/tmp/sandbox") {
        Err(FileError::PathTraversal { path, sandbox }) => {
            assert_eq!(path, "/etc/passwd");
            assert_eq!(sandbox, "/tmp/sandbox");
        }
        other => panic!("unexpected {:?}", other),
    }
    assert!(check_within_sandbox(U, "/tmp/sandbox2/x".to_string(), "/tmp/sandbox").is_err());
}

#[test]
fn component_prefix() {
    assert!(is_within(U, "/a/b/c", "/a/b"));
    assert!(!is_within(U, "/a/bc", "/a/b"));
    assert!(is_within(U, "/a/b", "/"));
    assert!(!is_within(U, "/a", "/a/b"));
}

#[test]
fn entry_labels() {
    assert_eq!(entry_label("src", true), "src/");
    assert_eq!(entry_label("a.txt", false), "a.txt");
}

#[test]
fn git_invocations() {
    let c = clone("https://h/r.git", "/w/r", None);
    assert_eq!(c.command, "git clone https://h/r.git /w/r");
    assert_eq!((c.cwd, c.timeout_seconds), (None, 600));
    let c = clone("https://h/r.git", "/w/r", Some("dev"));
    assert_eq!(c.command, "git clone -b dev https://h/r.git /w/r");
    let p = pull("/w/r");
    assert_eq!((p.command.as_str(), p.cwd.as_deref(), p.timeout_seconds), ("git pull", Some("/w/r"), 120));
    let k = checkout("/w/r", "main");
    assert_eq!((k.command.as_str(), k.cwd.as_deref(), k.timeout_seconds), ("git checkout main", Some("/w/r"), 30));
}

#[test]
fn within_is_transitive_on_examples() {
    assert!(is_within(U, "/srv/sandbox/job/out.txt", "/srv/sandbox/job"));
    assert!(is_within(U, "/srv/sandbox/job", "/srv/sandbox"));
    assert!(is_within(U, "/srv/sandbox/job/out.txt", "/srv/sandbox"));
    assert!(is_within(U, "/srv/sandbox", "/srv/sandbox"));
}

#[test]
fn windows_paths() {
    assert_eq!(requested_path(W, "out\\a.txt", "C:\\sandbox"), "C:\\sandbox\\out\\a.txt");
    assert_eq!(requested_path(W, "D:\\x", "C:\\sandbox"), "D:\\x");
    assert_eq!(requested_path(W, "\\x", "C:\\sandbox"), "C:\\x");
    assert_eq!(requested_path(W, "/x", "c:/sandbox"), "c:/x");
    assert_eq!(requested_path(W, "\\x", "\\\\srv\\share\\sb"), "\\x");
    assert_eq!(requested_path(W, "\\\\srv\\share\\x", "C:\\sandbox"), "\\\\srv\\share\\x");
    assert_eq!(requested_path(W, "D:x", "C:\\sandbox"), "D:x");
    assert_eq!(requested_path(W, "x", "C:"), "C:x");
    assert_eq!(requested_path(U, "/x", "/sandbox"), "/x");
    assert_eq!(requested_path(U, "\\x", "/sandbox"), "/sandbox/\\x");
    assert!(is_within(W, "\\\\?\\C:\\sandbox\\a.txt", "\\\\?\\C:\\sandbox"));
    assert!(!is_within(W, "\\\\?\\C:\\sandbox2\\a.txt", "\\\\?\\C:\\sandbox"));
    assert!(!is_within(U, "/sandbox\\a", "/sandbox"));
    assert!(check_within_sandbox(W, "C:\\sandbox\\a".to_string(), "C:\\sandbox").is_ok());
}

#[test]
fn sorted_listing() {
    let names: Vec<String> = ["b.txt", "a/", "B", "a", "é", "a"].iter().map(|s| s.to_string()).collect();
    let mut expected = names.clone();
    expected.sort();
    assert_eq!(sort_names(names), expected);
    assert_eq!(sort_names(vec![]), Vec::<String>::new());
}
