//! Version-control primitives for the session workflow.
//!
//! Every call into the underlying version-control library is behind a small
//! trusted wrapper; what each wrapper returns depends on the repository on
//! disk, so the wrappers promise nothing beyond their shape, and the verified
//! functions here state what holds of the session workflow whatever came
//! back.

use vstd::prelude::*;

use crate::VibeError;

verus! {

/// The version-control library's error type, declared so that wrappers can
/// return it and verified code can map it to this crate's own error.
#[verifier::external_type_specification]
#[verifier::external_body]
pub struct ExGit2Error(git2::Error);

/// Relies on git2::Error::message: the human-readable message text.
#[verifier::external_body]
fn git_error_text(e: &git2::Error) -> (r: String)
{
    e.message().to_owned()
}

/// Turn a version-control library error into this crate's error type.
pub(crate) fn to_vibe_error(e: git2::Error) -> (r: VibeError)
    ensures
        r is Git,
{
    VibeError::Git(git_error_text(&e))
}

/// Relies on git2::Repository::open: succeeds only on a repository path.
#[verifier::external_body]
pub fn validate_repository(path: &str) -> (r: Result<(), git2::Error>)
{
    match git2::Repository::open(path) {
        Ok(_) => Ok(()),
        Err(e) => Err(e),
    }
}

/// Relies on git2::Repository::find_branch: whether a local branch of this
/// name exists in the repository at `path`.
#[verifier::external_body]
fn branch_exists(path: &str, name: &str) -> (r: bool)
{
    match git2::Repository::open(path) {
        Ok(repo) => repo.find_branch(name, git2::BranchType::Local).is_ok(),
        Err(_) => false,
    }
}

/// Relies on git2::Repository::branch: creates a branch pointing at the tip
/// of the `source` branch.
#[verifier::external_body]
fn create_branch_from(path: &str, source: &str, new_name: &str) -> (r: Result<
    (),
    git2::Error,
>)
{
    let repo = git2::Repository::open(path)?;
    let branch = repo.find_branch(source, git2::BranchType::Local)?;
    let commit = branch.get().peel_to_commit()?;
    repo.branch(new_name, &commit, false)?;
    Ok(())
}

/// Relies on git2::Repository::checkout_tree and set_head: makes the named
/// branch the checked-out working tree.
#[verifier::external_body]
pub fn checkout_branch(path: &str, name: &str) -> (r: Result<(), git2::Error>)
{
    let repo = git2::Repository::open(path)?;
    let refname = format!("refs/heads/{}", name);
    let obj = repo.revparse_single(&refname)?;
    repo.checkout_tree(&obj, None)?;
    repo.set_head(&refname)?;
    Ok(())
}

/// Relies on git2::Repository::branch: creates a branch at the current HEAD.
#[verifier::external_body]
pub fn create_branch(path: &str, name: &str) -> (r: Result<(), git2::Error>)
{
    let repo = git2::Repository::open(path)?;
    let head = repo.head()?.peel_to_commit()?;
    repo.branch(name, &head, false)?;
    Ok(())
}

/// Relies on git2::Repository::find_remote: whether a remote named `origin`
/// is configured.
#[verifier::external_body]
fn has_origin(path: &str) -> (r: bool)
{
    match git2::Repository::open(path) {
        Ok(repo) => repo.find_remote("origin").is_ok(),
        Err(_) => false,
    }
}

/// Relies on git2::Remote::fetch: fetches the named branch from the
/// `origin` remote.
#[verifier::external_body]
fn fetch_origin_branch(path: &str, branch: &str) -> (r: Result<(), git2::Error>)
{
    let repo = git2::Repository::open(path)?;
    let mut remote = repo.find_remote("origin")?;
    remote.fetch(&[branch], None, None)?;
    Ok(())
}

/// Relies on git2::Repository::merge_analysis: whether the fetched head can
/// be fast-forwarded onto.
#[verifier::external_body]
fn fetch_is_fast_forward(path: &str) -> (r: Result<bool, git2::Error>)
{
    let repo = git2::Repository::open(path)?;
    let fetch_head = repo.find_reference("FETCH_HEAD")?;
    let fetch_commit = fetch_head.peel_to_commit()?;
    let annotated = repo.find_annotated_commit(fetch_commit.id())?;
    let analysis = repo.merge_analysis(&[&annotated])?;
    Ok(analysis.0.is_fast_forward())
}

/// Relies on git2::Reference::set_target and git2::Repository::reset: moves
/// HEAD and the working tree to the fetched head.
#[verifier::external_body]
fn fast_forward_to_fetch_head(path: &str) -> (r: Result<(), git2::Error>)
{
    let repo = git2::Repository::open(path)?;
    let fetch_head = repo.find_reference("FETCH_HEAD")?;
    let fetch_commit = fetch_head.peel_to_commit()?;
    let mut head = repo.find_reference("HEAD")?;
    head.set_target(fetch_commit.id(), "Fast-forward")?;
    repo.reset(&fetch_commit.into_object(), git2::ResetType::Hard, None)?;
    Ok(())
}

/// Relies on git2::Repository::reset and commit: collapses everything since
/// divergence from `mainline` into one commit carrying `message`, with the
/// mainline tip as its sole parent.
#[verifier::external_body]
fn squash_onto(path: &str, mainline: &str, message: &str) -> (r: Result<
    (),
    git2::Error,
>)
{
    let repo = git2::Repository::open(path)?;
    let main_oid = repo.revparse_single(mainline)?.id();
    let main_obj = repo.find_object(main_oid, None)?;
    repo.reset(&main_obj, git2::ResetType::Soft, None)?;
    let sig = repo.signature()?;
    let tree_id = repo.index()?.write_tree()?;
    let tree = repo.find_tree(tree_id)?;
    let parent = repo.find_commit(main_oid)?;
    repo.commit(Some("HEAD"), &sig, &sig, message, &tree, &[&parent])?;
    Ok(())
}

/// Relies on git2::Remote::push: force-pushes the branch to `origin`.
#[verifier::external_body]
fn push_to_origin(path: &str, branch: &str) -> (r: Result<(), git2::Error>)
{
    let repo = git2::Repository::open(path)?;
    let mut remote = repo.find_remote("origin")?;
    let refspec = format!("+refs/heads/{}:refs/heads/{}", branch, branch);
    remote.push(&[refspec.as_str()], None)?;
    Ok(())
}

/// Relies on git2::Index::add_all: stages every working-tree change.
#[verifier::external_body]
pub(crate) fn stage_all_changes(path: &str) -> (r: Result<(), git2::Error>)
{
    let repo = git2::Repository::open(path)?;
    let mut index = repo.index()?;
    index.add_all(["*"], git2::IndexAddOption::DEFAULT, None)?;
    index.write()?;
    Ok(())
}

/// Relies on git2::Repository::commit: commits the staged index on HEAD.
#[verifier::external_body]
pub(crate) fn commit_staged(path: &str, message: &str) -> (r: Result<(), git2::Error>)
{
    let repo = git2::Repository::open(path)?;
    let sig = repo.signature()?;
    let tree_id = repo.index()?.write_tree()?;
    let tree = repo.find_tree(tree_id)?;
    let parent = repo.head()?.peel_to_commit()?;
    repo.commit(Some("HEAD"), &sig, &sig, message, &tree, &[&parent])?;
    Ok(())
}

/// Which branch is the mainline, given which of the two candidates exist:
/// `main` is preferred, `master` is the fallback, and with neither present
/// there is no mainline at all.
pub fn mainline_of(has_main: bool, has_master: bool) -> (r: Option<&'static str>)
    ensures
        has_main ==> (r matches Some(m) && m@ == "main"@),
        !has_main && has_master ==> (r matches Some(m) && m@ == "master"@),
        r is None <==> (!has_main && !has_master),
{
    if has_main {
        Some("main")
    } else if has_master {
        Some("master")
    } else {
        None
    }
}

/// The repository's mainline branch name, if one exists on disk.
pub fn find_mainline(path: &str) -> (r: Option<&'static str>)
    ensures
        r matches Some(m) ==> m@ == "main"@ || m@ == "master"@,
{
    let has_main = branch_exists(path, "main");
    let has_master = branch_exists(path, "master");
    mainline_of(has_main, has_master)
}

/// Create `branch_name` at the tip of the mainline branch, preferring `main`
/// and falling back to `master`; with neither present the result is exactly
/// `VibeError::NoMainline`, and any other failure comes from the underlying
/// version-control library.
pub fn create_branch_from_main(repo_path: &str, branch_name: &str) -> (r: Result<
    (),
    VibeError,
>)
    ensures
        r matches Err(e) ==> (e is NoMainline || e is Git),
{
    match find_mainline(repo_path) {
        None => Err(VibeError::NoMainline),
        Some(mainline) => match create_branch_from(repo_path, mainline, branch_name) {
            Ok(()) => Ok(()),
            Err(e) => Err(to_vibe_error(e)),
        },
    }
}

/// Synchronize the working tree with the `origin` remote: with no remote
/// configured this is a no-op that returns `Ok`, otherwise the mainline
/// branch is fetched and the working tree fast-forwarded when the analysis
/// allows it.
pub fn pull(repo_path: &str, mainline: &str) -> (r: Result<(), VibeError>)
    ensures
        r matches Err(e) ==> e is Git,
{
    if !has_origin(repo_path) {
        return Ok(());
    }
    match fetch_origin_branch(repo_path, mainline) {
        Err(e) => {
            return Err(to_vibe_error(e));
        },
        Ok(()) => {},
    }
    match fetch_is_fast_forward(repo_path) {
        Err(e) => Err(to_vibe_error(e)),
        Ok(false) => Ok(()),
        Ok(true) => match fast_forward_to_fetch_head(repo_path) {
            Err(e) => Err(to_vibe_error(e)),
            Ok(()) => Ok(()),
        },
    }
}

/// Collapse all commits since divergence from `mainline` into a single
/// commit carrying `message`, with the mainline tip as the sole parent.
pub fn squash_rebase_onto_main(repo_path: &str, mainline: &str, message: &str) -> (r: Result<
    (),
    VibeError,
>)
    ensures
        r matches Err(e) ==> e is Git,
{
    match squash_onto(repo_path, mainline, message) {
        Ok(()) => Ok(()),
        Err(e) => Err(to_vibe_error(e)),
    }
}

/// Push `branch_name` to the `origin` remote, force-pushing since the
/// session history was rewritten; with no remote configured this is a no-op
/// that returns `Ok`.
pub fn push_branch(repo_path: &str, branch_name: &str) -> (r: Result<(), VibeError>)
    ensures
        r matches Err(e) ==> e is Git,
{
    if !has_origin(repo_path) {
        return Ok(());
    }
    match push_to_origin(repo_path, branch_name) {
        Ok(()) => Ok(()),
        Err(e) => Err(to_vibe_error(e)),
    }
}

/// Whether the repository has an `origin` remote configured; a session in a
/// purely local repository skips push and review-request steps.
pub fn has_remote(repo_path: &str) -> (r: bool)
{
    has_origin(repo_path)
}

} // verus!
