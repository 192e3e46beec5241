use vibe_git::watcher::DebounceState;
use vibe_git::watcher::DEBOUNCE_INTERVAL_MS;
use vibe_git::watcher::is_git_path;

#[test]
fn debounce_interval_is_one_second() {
    assert_eq!(DEBOUNCE_INTERVAL_MS, 1000);
}

#[test]
fn debounce_fires_only_after_interval() {
    let mut state = DebounceState::new(1000);
    assert!(!state.note_event("src/a.rs", 1100));
    assert!(!state.note_event("src/b.rs", 1999));
    assert!(state.note_event("src/c.rs", 2000));
    // The interval restarts at the snapshot just fired.
    assert!(!state.note_event("src/d.rs", 2500));
    assert!(state.note_event("src/e.rs", 3000));
}

#[test]
fn debounce_burst_within_interval_fires_once() {
    let mut state = DebounceState::new(0);
    let mut fired: usize = 0;
    for t in [5000u64, 5001, 5100, 5400, 5999] {
        if state.note_event("src/lib.rs", t) {
            fired += 1;
        }
    }
    assert_eq!(fired, 1);
}

#[test]
fn git_metadata_paths_never_fire() {
    let mut state = DebounceState::new(0);
    assert!(!state.note_event("/repo/.git/index", 1_000_000));
    assert!(!state.note_event(".git/objects/aa/bb", 1_000_000));
    // The state is untouched, so a real change still fires immediately.
    assert!(state.note_event("/repo/src/main.rs", 1_000_000));
}

#[test]
fn git_path_detection() {
    assert!(is_git_path("/repo/.git/index"));
    assert!(is_git_path(".git"));
    assert!(is_git_path(".git/config"));
    assert!(is_git_path("a/.git/b"));
    assert!(is_git_path("a\\.git\\b"));
    assert!(!is_git_path("src/main.rs"));
    assert!(!is_git_path("gitless/git.rs"));
    assert!(!is_git_path(""));
}

#[test]
fn only_whole_metadata_components_are_excluded() {
    // Ordinary files whose names merely contain the text are watched work.
    assert!(!is_git_path(".gitignore"));
    assert!(!is_git_path("/repo/.gitignore"));
    assert!(!is_git_path("a/.github/workflows/ci.yml"));
    assert!(!is_git_path("notes/my.gitfacts.md"));
    assert!(!is_git_path("repo.git"));
}
