//! An exclusive, auto-committing development session bound to one
//! version-controlled working tree.
//!
//! The crate models the session lifecycle (idle or vibing, never anything
//! else), the debounced change monitor that snapshots work in progress, and
//! the branch workflow that isolates a session on its own branch and squashes
//! it back onto the mainline when it ends.

use vstd::prelude::*;

pub mod git;
pub mod mcp;
pub mod service;
pub mod time;
pub mod typestate;
pub mod watcher;

pub use mcp::McpClient;

verus! {

/// The character for one decimal digit value.
pub open spec fn digit_char(d: int) -> char {
    ((48 + d) as u8) as char
}

/// The decimal digits of `n`, most significant first.
pub open spec fn dec_digits_of(n: int) -> Seq<char>
    recommends
        0 <= n,
    decreases n,
{
    if n < 10 {
        seq![digit_char(n)]
    } else {
        dec_digits_of(n / 10).push(digit_char(n % 10))
    }
}

/// Whether `c` is one of the characters '0' through '9'.
pub open spec fn is_dec_digit(c: char) -> bool {
    48 <= c as int <= 57
}

/// Relies on String::push: appends exactly one character.
#[verifier::external_body]
fn string_push(s: &mut String, c: char)
    ensures
        final(s)@ == old(s)@ + seq![c],
{
    s.push(c);
}

/// Append the decimal digits of `n` to `s`.
fn push_dec_digits(n: u64, s: &mut String)
    ensures
        final(s)@ == old(s)@ + dec_digits_of(n as int),
    decreases n,
{
    if n >= 10 {
        push_dec_digits(n / 10, s);
    }
    let d: u8 = (n % 10) as u8;
    string_push(s, (48 + d) as char);
    proof {
        if n < 10 {
            assert(dec_digits_of(n as int) =~= seq![digit_char(n as int)]);
        }
        assert(final(s)@ =~= old(s)@ + dec_digits_of(n as int));
    }
}

/// The decimal representation of `n`.
pub fn u64_to_dec_string(n: u64) -> (r: String)
    ensures
        r@ == dec_digits_of(n as int),
{
    let mut s = String::new();
    push_dec_digits(n, &mut s);
    proof {
        assert(s@ =~= dec_digits_of(n as int));
    }
    s
}

/// Every decimal representation is a nonempty run of digit characters.
pub proof fn lemma_dec_digits_are_digits(n: int)
    requires
        0 <= n,
    ensures
        dec_digits_of(n).len() >= 1,
        forall|i: int| 0 <= i < dec_digits_of(n).len() ==> is_dec_digit(#[trigger] dec_digits_of(n)[i]),
    decreases n,
{
    if n >= 10 {
        lemma_dec_digits_are_digits(n / 10);
    }
}

/// A validated, immutable identifier for a version-control branch.
#[derive(Clone, Debug)]
pub struct BranchName {
    name: String,
}

impl View for BranchName {
    type V = Seq<char>;

    closed spec fn view(&self) -> Seq<char> {
        self.name@
    }
}

impl BranchName {
    /// Wrap an owned string as a branch name.
    pub fn from_string(name: String) -> (r: BranchName)
        ensures
            r@ == name@,
    {
        BranchName { name }
    }

    /// The branch name as a string slice.
    pub fn as_str(&self) -> (r: &str)
        ensures
            r@ == self@,
    {
        self.name.as_str()
    }

    /// A copy of this branch name that names the same branch.
    pub fn duplicate(&self) -> (r: BranchName)
        ensures
            r@ == self@,
    {
        BranchName { name: self.name.clone() }
    }
}

impl From<String> for BranchName {
    fn from(value: String) -> (r: Self) {
        BranchName { name: value }
    }
}

impl vstd::std_specs::convert::FromSpecImpl<String> for BranchName {
    open spec fn obeys_from_spec() -> bool {
        true
    }

    closed spec fn from_spec(v: String) -> BranchName {
        BranchName { name: v }
    }
}

/// The name of the session branch derived from a start timestamp.
pub open spec fn vibe_branch_chars(t: int) -> Seq<char> {
    "vibe-"@ + dec_digits_of(t)
}

/// Whether `s` matches the session-branch pattern `vibe-<digits>`.
pub open spec fn is_vibe_branch(s: Seq<char>) -> bool {
    &&& s.len() > 5
    &&& s.subrange(0, 5) == "vibe-"@
    &&& forall|i: int| 5 <= i < s.len() ==> is_dec_digit(#[trigger] s[i])
}

/// Derive the session branch name for a session started at unix time `t`.
pub fn branch_name_for_timestamp(t: u64) -> (r: BranchName)
    ensures
        r@ == vibe_branch_chars(t as int),
{
    let mut s = "vibe-".to_owned();
    push_dec_digits(t, &mut s);
    BranchName { name: s }
}

/// Every branch name this crate derives matches the `vibe-<digits>` pattern.
pub proof fn lemma_derived_branch_matches_pattern(t: int)
    requires
        0 <= t,
    ensures
        is_vibe_branch(vibe_branch_chars(t)),
{
    reveal_strlit("vibe-");
    lemma_dec_digits_are_digits(t);
    assert(vibe_branch_chars(t).subrange(0, 5) =~= "vibe-"@);
}

/// Marker type for the session before it has started.
pub struct Idle;

/// Marker type for an active vibing session.
pub struct Vibing;

/// Marker type for a completed session.
pub struct Finished;

/// A session that transitions through compile-time states: a session is
/// `Idle`, `Vibing` or `Finished`, and only the two legal transitions
/// (start and finish) exist.
pub struct VibeSession<State> {
    branch: BranchName,
    state: core::marker::PhantomData<State>,
}

impl<State> VibeSession<State> {
    /// The name of the branch this session is bound to.
    pub closed spec fn spec_branch(&self) -> Seq<char> {
        self.branch@
    }
}

impl VibeSession<Idle> {
    /// Create a new session in the idle state.
    pub fn new(branch: BranchName) -> (r: Self)
        ensures
            r.spec_branch() == branch@,
    {
        VibeSession { branch, state: core::marker::PhantomData }
    }

    /// Start vibing, transitioning to the `Vibing` state: the session
    /// branch is created at the current head of the repository at
    /// `repo_path` and checked out. On failure the transition is aborted
    /// and the error reported.
    pub fn start(self, repo_path: &str) -> (r: Result<VibeSession<Vibing>, VibeError>)
        ensures
            r matches Ok(v) ==> v.spec_branch() == self.spec_branch(),
            r matches Err(e) ==> e is Git,
    {
        match crate::git::create_branch(repo_path, self.branch.as_str()) {
            Err(e) => {
                return Err(crate::git::to_vibe_error(e));
            },
            Ok(()) => {},
        }
        match crate::git::checkout_branch(repo_path, self.branch.as_str()) {
            Err(e) => {
                return Err(crate::git::to_vibe_error(e));
            },
            Ok(()) => {},
        }
        Ok(VibeSession { branch: self.branch, state: core::marker::PhantomData })
    }
}

impl VibeSession<Vibing> {
    /// Finish vibing, transitioning to the `Finished` state: the `main`
    /// branch is checked out again, and the session keeps its branch name
    /// for later inspection.
    pub fn finish(self, repo_path: &str) -> (r: Result<VibeSession<Finished>, VibeError>)
        ensures
            r matches Ok(v) ==> v.spec_branch() == self.spec_branch(),
            r matches Err(e) ==> e is Git,
    {
        match crate::git::checkout_branch(repo_path, "main") {
            Err(e) => {
                return Err(crate::git::to_vibe_error(e));
            },
            Ok(()) => {},
        }
        Ok(VibeSession { branch: self.branch, state: core::marker::PhantomData })
    }

    /// Access the active branch name.
    pub fn branch(&self) -> (r: &BranchName)
        ensures
            r@ == self.spec_branch(),
    {
        &self.branch
    }
}

impl VibeSession<Finished> {
    /// Access the branch name after completion.
    pub fn branch(&self) -> (r: &BranchName)
        ensures
            r@ == self.spec_branch(),
    {
        &self.branch
    }
}

/// An error from one of the version-control workflow steps.
#[derive(Debug)]
pub enum VibeError {
    /// The underlying version-control library reported a failure.
    Git(String),
    /// Neither a `main` nor a `master` branch exists to branch from.
    NoMainline,
}

impl VibeError {
    /// The descriptive text of this error.
    pub open spec fn spec_text(&self) -> Seq<char> {
        match self {
            VibeError::Git(m) => m@,
            VibeError::NoMainline => "Could not find main/master branch"@,
        }
    }

    /// A human-readable description of the error.
    pub fn text(&self) -> (r: String)
        ensures
            r@ == self.spec_text(),
    {
        match self {
            VibeError::Git(m) => m.clone(),
            VibeError::NoMainline => "Could not find main/master branch".to_owned(),
        }
    }
}

} // verus!
