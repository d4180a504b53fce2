use gforce_node::shell::{finish_command, is_command_allowed, CommandError, CommandResult, WaitOutcome};

fn list(items: &[&str]) -> Vec<String> {
    items.iter().map(|s| s.to_string()).collect()
}

#[test]
fn unrestricted_allows_anything() {
    assert!(is_command_allowed("rm -rf /tmp/x", &[], true));
}

#[test]
fn empty_allowlist_refuses_everything() {
    assert!(!is_command_allowed("git status", &[], false));
    assert!(!is_command_allowed("", &[], false));
}

#[test]
fn first_word_matches_prefix() {
    let allowed = list(&["git", "npm"]);
    assert!(is_command_allowed("git status", &allowed, false));
    assert!(is_command_allowed("  \t npm install", &allowed, false));
    assert!(!is_command_allowed("rm -rf /", &allowed, false));
    assert!(!is_command_allowed("echo git", &allowed, false));
}

#[test]
fn basename_of_full_path_matches() {
    let allowed = list(&["git"]);
    assert!(is_command_allowed("/usr/bin/git pull", &allowed, false));
    assert!(!is_command_allowed("/usr/bin/rm -f x", &allowed, false));
}

#[test]
fn prefix_match_is_textual() {
    let allowed = list(&["git"]);
    assert!(is_command_allowed("gitk --all", &allowed, false));
    let allowed = list(&["python"]);
    assert!(is_command_allowed("python3 -V", &allowed, false));
}

#[test]
fn unicode_whitespace_separates_words() {
    let allowed = list(&["ls"]);
    assert!(is_command_allowed("\u{3000}ls\u{a0}-la", &allowed, false));
    assert!(!is_command_allowed("lsx", &list(&["ls -la"]), false));
}

#[test]
fn blank_command_with_empty_entry() {
    assert!(is_command_allowed("   ", &list(&[""]), false));
    assert!(!is_command_allowed("   ", &list(&["git"]), false));
}

#[test]
fn command_result_from_exit() {
    let r = CommandResult::from_exit(Some(2), 15);
    assert_eq!((r.exit_code, r.duration_ms), (2, 15));
    let r = CommandResult::from_exit(None, 7);
    assert_eq!((r.exit_code, r.duration_ms), (-1, 7));
}

#[test]
fn finishing_commands() {
    let r = finish_command(WaitOutcome::Exited(Some(0)), 40, 300).unwrap();
    assert_eq!((r.exit_code, r.duration_ms), (0, 40));
    let r = finish_command(WaitOutcome::Exited(None), 41, 300).unwrap();
    assert_eq!(r.exit_code, -1);
    match finish_command(WaitOutcome::TimedOut, 30000, 30) {
        Err(CommandError::TimedOut(t)) => assert_eq!(t, 30),
        other => panic!("unexpected {:?}", other),
    }
    match finish_command(WaitOutcome::WaitFailed("io".to_string()), 1, 30) {
        Err(CommandError::Wait(m)) => assert_eq!(m, "io"),
        other => panic!("unexpected {:?}", other),
    }
}

#[test]
fn adding_entries_keeps_permissions() {
    let small = list(&["git"]);
    let big = list(&["git", "npm", "make"]);
    for cmd in ["git status", "/usr/bin/git log", "gitk", "npm i", "rm x"] {
        if is_command_allowed(cmd, &small, false) {
            assert!(is_command_allowed(cmd, &big, false));
        }
    }
    assert!(is_command_allowed("npm i", &big, false));
    assert!(!is_command_allowed("npm i", &small, false));
}
