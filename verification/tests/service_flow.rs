use vibe_git::service::StopVibingRequest;
use vibe_git::service::VibeGitService;

fn init_repo_with_head(path: &std::path::Path, head: &str) {
    let mut opts = git2::RepositoryInitOptions::new();
    opts.initial_head(head);
    let repo = git2::Repository::init_opts(path, &opts).unwrap();
    let mut config = repo.config().unwrap();
    config.set_str("user.email", "test@example.com").unwrap();
    config.set_str("user.name", "Test User").unwrap();
    let sig = repo.signature().unwrap();
    let tree_id = repo.index().unwrap().write_tree().unwrap();
    let tree = repo.find_tree(tree_id).unwrap();
    repo.commit(Some("HEAD"), &sig, &sig, "init", &tree, &[]).unwrap();
}

fn init_repo(path: &std::path::Path) {
    init_repo_with_head(path, "main");
}

fn head_branch(path: &std::path::Path) -> String {
    let repo = git2::Repository::open(path).unwrap();
    let head = repo.head().unwrap();
    head.shorthand().unwrap().to_string()
}

fn branch_exists(path: &std::path::Path, name: &str) -> bool {
    let repo = git2::Repository::open(path).unwrap();
    let found = repo.find_branch(name, git2::BranchType::Local).is_ok();
    found
}

fn commit_count_on_head(path: &std::path::Path) -> usize {
    let repo = git2::Repository::open(path).unwrap();
    let mut walk = repo.revwalk().unwrap();
    walk.push_head().unwrap();
    walk.count()
}

fn tip_message(path: &std::path::Path, branch: &str) -> String {
    let repo = git2::Repository::open(path).unwrap();
    let b = repo.find_branch(branch, git2::BranchType::Local).unwrap();
    let commit = b.get().peel_to_commit().unwrap();
    commit.message().unwrap().to_string()
}

fn is_vibe_branch_name(name: &str) -> bool {
    match name.strip_prefix("vibe-") {
        None => false,
        Some(rest) => !rest.is_empty() && rest.chars().all(|c| c.is_ascii_digit()),
    }
}

fn service_for(path: &std::path::Path) -> VibeGitService {
    VibeGitService::new(path.to_str().unwrap().to_string()).unwrap()
}

#[test]
fn service_requires_valid_repository() {
    let dir = tempfile::tempdir().unwrap();
    // No repository was initialized here, so construction must fail.
    assert!(VibeGitService::new(dir.path().to_str().unwrap().to_string()).is_err());
}

#[test]
fn status_idle_then_vibing_then_idle() {
    let dir = tempfile::tempdir().unwrap();
    init_repo(dir.path());
    let mut service = service_for(dir.path());

    assert_eq!(
        service.vibe_status(),
        "🔵 IDLE: Ready to start vibing. Call start_vibing() to begin auto-committing changes."
    );

    let started = service.start_vibing();
    assert!(started.contains("🚀 Started vibing"));
    let branch = head_branch(dir.path());
    assert!(is_vibe_branch_name(&branch));

    let status = service.vibe_status();
    assert!(status.contains("🟢 VIBING"));
    assert!(status.contains(&branch));

    let outcome = service.stop_vibing(StopVibingRequest { commit_message: "done".to_string() });
    assert!(outcome.message.contains("🏁 Stopped vibing"));
    assert_eq!(
        service.vibe_status(),
        "🔵 IDLE: Ready to start vibing. Call start_vibing() to begin auto-committing changes."
    );
}

#[test]
fn start_creates_branch_matching_pattern() {
    let dir = tempfile::tempdir().unwrap();
    init_repo(dir.path());
    let mut service = service_for(dir.path());

    service.start_vibing();
    let branch = head_branch(dir.path());
    assert!(is_vibe_branch_name(&branch), "unexpected branch name: {}", branch);
}

#[test]
fn start_is_idempotent() {
    let dir = tempfile::tempdir().unwrap();
    init_repo(dir.path());
    let mut service = service_for(dir.path());

    let first = service.start_vibing();
    assert!(first.contains("🚀 Started vibing"));
    let branch = head_branch(dir.path());

    let second = service.start_vibing();
    assert_eq!(second, "Already vibing! Session is active and auto-committing changes.");
    assert_eq!(head_branch(dir.path()), branch);

    // Exactly one session branch was created.
    let repo = git2::Repository::open(dir.path()).unwrap();
    let vibe_branches = repo
        .branches(Some(git2::BranchType::Local))
        .unwrap()
        .filter(|b| {
            let (branch, _) = b.as_ref().unwrap();
            is_vibe_branch_name(branch.name().unwrap().unwrap())
        })
        .count();
    assert_eq!(vibe_branches, 1);
}

#[test]
fn stop_while_idle_is_noop() {
    let dir = tempfile::tempdir().unwrap();
    init_repo(dir.path());
    let mut service = service_for(dir.path());

    let outcome = service.stop_vibing(StopVibingRequest { commit_message: "noop".to_string() });
    assert_eq!(
        outcome.message,
        "Not currently vibing - no active session to stop. Call start_vibing first if you want to begin a new session."
    );
    assert!(outcome.review.is_none());
    assert_eq!(head_branch(dir.path()), "main");

    // No git operation was performed: no backup or session branch appeared.
    let repo = git2::Repository::open(dir.path()).unwrap();
    let count = repo.branches(Some(git2::BranchType::Local)).unwrap().count();
    assert_eq!(count, 1);
}

#[test]
fn stop_returns_to_main_and_keeps_backup() {
    let dir = tempfile::tempdir().unwrap();
    init_repo(dir.path());
    let mut service = service_for(dir.path());

    service.start_vibing();
    let branch = head_branch(dir.path());

    let outcome =
        service.stop_vibing(StopVibingRequest { commit_message: "Add feature".to_string() });
    assert!(outcome.message.contains("🏁 Stopped vibing"));
    assert!(outcome.message.contains("Add feature"));
    // Local-only repository: no remote, so no review request.
    assert!(outcome.review.is_none());

    assert_eq!(head_branch(dir.path()), "main");
    let backup = format!("backup-{}", branch);
    assert!(backup.starts_with("backup-vibe-"));
    assert!(branch_exists(dir.path(), &backup));

    // The session branch now carries the squashed commit.
    assert_eq!(tip_message(dir.path(), &branch), "Add feature");
}

#[test]
fn round_trip_with_intervening_changes() {
    let dir = tempfile::tempdir().unwrap();
    init_repo(dir.path());
    let mut service = service_for(dir.path());

    service.start_vibing();

    // Change the working tree while the session is active.
    let mut scratch = tempfile::Builder::new().tempfile_in(dir.path()).unwrap();
    std::io::Write::write_all(scratch.as_file_mut(), b"work in progress").unwrap();
    let (_file, _path) = scratch.keep().unwrap();

    let outcome =
        service.stop_vibing(StopVibingRequest { commit_message: "round trip".to_string() });
    assert!(outcome.message.contains("🏁 Stopped vibing"));
    assert_eq!(head_branch(dir.path()), "main");
}

#[test]
fn start_works_with_master_mainline() {
    let dir = tempfile::tempdir().unwrap();
    init_repo_with_head(dir.path(), "master");
    let mut service = service_for(dir.path());

    let started = service.start_vibing();
    assert!(started.contains("🚀 Started vibing"), "got: {}", started);
    assert!(is_vibe_branch_name(&head_branch(dir.path())));
}

#[test]
fn start_without_mainline_reports_error() {
    let dir = tempfile::tempdir().unwrap();
    // A repository whose only branch is neither main nor master.
    init_repo_with_head(dir.path(), "trunk");
    let mut service = service_for(dir.path());

    let started = service.start_vibing();
    assert_eq!(started, "Error starting vibe: Could not find main/master branch");
    assert_eq!(head_branch(dir.path()), "trunk");
    assert_eq!(
        service.vibe_status(),
        "🔵 IDLE: Ready to start vibing. Call start_vibing() to begin auto-committing changes."
    );
}

#[test]
fn fs_event_snapshots_after_quiet_interval() {
    let dir = tempfile::tempdir().unwrap();
    init_repo(dir.path());
    let mut service = service_for(dir.path());

    service.start_vibing();
    let before = commit_count_on_head(dir.path());

    let mut scratch = tempfile::Builder::new().tempfile_in(dir.path()).unwrap();
    std::io::Write::write_all(scratch.as_file_mut(), b"new work").unwrap();
    let (_file, path) = scratch.keep().unwrap();

    // An event long after the monitor started fires exactly one snapshot.
    let fired = service.handle_fs_event(path.to_str().unwrap(), u64::MAX / 2);
    assert!(fired);
    assert_eq!(commit_count_on_head(dir.path()), before + 1);
}

#[test]
fn burst_of_events_snapshots_at_most_once() {
    let dir = tempfile::tempdir().unwrap();
    init_repo(dir.path());
    let mut service = service_for(dir.path());

    service.start_vibing();

    let mut scratch = tempfile::Builder::new().tempfile_in(dir.path()).unwrap();
    std::io::Write::write_all(scratch.as_file_mut(), b"burst").unwrap();
    let (_file, path) = scratch.keep().unwrap();
    let path_str = path.to_str().unwrap();

    let base: u64 = u64::MAX / 2;
    let before = commit_count_on_head(dir.path());
    let mut fired: usize = 0;
    // Three events within one quiescence interval of each other.
    for offset in [0u64, 100, 900] {
        if service.handle_fs_event(path_str, base + offset) {
            fired += 1;
        }
    }
    assert_eq!(fired, 1);
    assert_eq!(commit_count_on_head(dir.path()), before + 1);
}

#[test]
fn git_metadata_events_never_snapshot() {
    let dir = tempfile::tempdir().unwrap();
    init_repo(dir.path());
    let mut service = service_for(dir.path());

    service.start_vibing();
    let before = commit_count_on_head(dir.path());

    let meta = dir.path().join(".git").join("index");
    let fired = service.handle_fs_event(meta.to_str().unwrap(), u64::MAX / 2);
    assert!(!fired);
    assert_eq!(commit_count_on_head(dir.path()), before);
}

#[test]
fn no_snapshot_fires_after_stop() {
    let dir = tempfile::tempdir().unwrap();
    init_repo(dir.path());
    let mut service = service_for(dir.path());

    service.start_vibing();
    service.stop_vibing(StopVibingRequest { commit_message: "done".to_string() });
    let before = commit_count_on_head(dir.path());

    let mut scratch = tempfile::Builder::new().tempfile_in(dir.path()).unwrap();
    std::io::Write::write_all(scratch.as_file_mut(), b"late change").unwrap();
    let (_file, path) = scratch.keep().unwrap();

    let fired = service.handle_fs_event(path.to_str().unwrap(), u64::MAX / 2);
    assert!(!fired);
    assert_eq!(commit_count_on_head(dir.path()), before);
}

#[test]
fn snapshot_commit_message_carries_timestamp() {
    let dir = tempfile::tempdir().unwrap();
    init_repo(dir.path());

    let mut scratch = tempfile::Builder::new().tempfile_in(dir.path()).unwrap();
    std::io::Write::write_all(scratch.as_file_mut(), b"snapshot me").unwrap();
    let (_file, _path) = scratch.keep().unwrap();

    let committed = vibe_git::watcher::commit_changes(dir.path().to_str().unwrap());
    assert!(committed);
    let message = tip_message(dir.path(), "main");
    assert!(message.starts_with("Auto-commit at "), "got: {}", message);
    // The timestamp display is `YYYY-MM-DD hh:mm:ss`.
    assert_eq!(message.len(), "Auto-commit at ".len() + 19);
}

#[test]
fn pull_and_push_without_remote_are_noops() {
    let dir = tempfile::tempdir().unwrap();
    init_repo(dir.path());
    let path = dir.path().to_str().unwrap();

    assert!(vibe_git::git::pull(path, "main").is_ok());
    assert!(vibe_git::git::push_branch(path, "main").is_ok());
    assert_eq!(head_branch(dir.path()), "main");
}
