use vibe_git::BranchName;
use vibe_git::Idle;
use vibe_git::McpClient;
use vibe_git::VibeSession;

fn init_repo(path: &std::path::Path) {
    let mut opts = git2::RepositoryInitOptions::new();
    opts.initial_head("main");
    let repo = git2::Repository::init_opts(path, &opts).unwrap();
    let mut config = repo.config().unwrap();
    config.set_str("user.email", "test@example.com").unwrap();
    config.set_str("user.name", "Test User").unwrap();
    let sig = repo.signature().unwrap();
    let tree_id = repo.index().unwrap().write_tree().unwrap();
    let tree = repo.find_tree(tree_id).unwrap();
    repo.commit(Some("HEAD"), &sig, &sig, "init", &tree, &[]).unwrap();
}

fn head_branch(path: &std::path::Path) -> String {
    let repo = git2::Repository::open(path).unwrap();
    let head = repo.head().unwrap();
    head.shorthand().unwrap().to_string()
}

#[test]
fn typestate_transitions() {
    let dir = tempfile::tempdir().unwrap();
    init_repo(dir.path());
    let repo_path = dir.path().to_str().unwrap();

    let idle = VibeSession::<Idle>::new(BranchName::from_string("feature-branch".to_string()));
    let vibing = idle.start(repo_path).unwrap();
    assert_eq!(vibing.branch().as_str(), "feature-branch");
    let finished = vibing.finish(repo_path).unwrap();
    assert_eq!(finished.branch().as_str(), "feature-branch");
}

#[test]
fn typestate_flow_with_git() {
    let dir = tempfile::tempdir().unwrap();
    init_repo(dir.path());
    let repo_path = dir.path().to_str().unwrap();

    let idle = VibeSession::<Idle>::new(BranchName::from_string("integration-branch".to_string()));
    let vibing = idle.start(repo_path).unwrap();

    assert_eq!(head_branch(dir.path()), "integration-branch");
    assert_eq!(vibing.branch().as_str(), "integration-branch");

    let finished = vibing.finish(repo_path).unwrap();
    assert_eq!(head_branch(dir.path()), "main");
    assert_eq!(finished.branch().as_str(), "integration-branch");
}

#[test]
fn mcp_client_switches_branches() {
    let dir = tempfile::tempdir().unwrap();
    init_repo(dir.path());
    let repo_path = dir.path().to_str().unwrap();

    let mut client = McpClient::with_repo(repo_path.to_string());
    client.start_vibing("integration-branch");
    assert_eq!(head_branch(dir.path()), "integration-branch");

    client.stop_vibing();
    assert_eq!(head_branch(dir.path()), "main");
}

#[test]
fn mcp_client_reports_active_branch() {
    let dir = tempfile::tempdir().unwrap();
    init_repo(dir.path());
    let repo_path = dir.path().to_str().unwrap();

    let mut client = McpClient::with_repo(repo_path.to_string());
    assert_eq!(client.branch(), None);
    client.start_vibing("feature-branch");
    assert_eq!(client.branch(), Some("feature-branch"));
    client.stop_vibing();
    assert_eq!(client.branch(), None);
}

#[test]
fn mcp_client_start_is_idempotent() {
    let dir = tempfile::tempdir().unwrap();
    init_repo(dir.path());
    let repo_path = dir.path().to_str().unwrap();

    let mut client = McpClient::with_repo(repo_path.to_string());
    client.start_vibing("feature-branch");
    client.start_vibing("other-branch");
    assert_eq!(client.branch(), Some("feature-branch"));
    assert_eq!(head_branch(dir.path()), "feature-branch");
}

#[test]
fn mcp_client_stop_while_idle_is_noop() {
    let dir = tempfile::tempdir().unwrap();
    init_repo(dir.path());
    let repo_path = dir.path().to_str().unwrap();

    let mut client = McpClient::with_repo(repo_path.to_string());
    client.stop_vibing();
    assert_eq!(client.branch(), None);
    assert_eq!(head_branch(dir.path()), "main");
}

#[test]
fn mcp_client_default_has_no_session() {
    let client = McpClient::default();
    assert_eq!(client.branch(), None);
}
