//! Simple client API for driving a vibe session.
//!
//! The client holds at most one active session for one repository and is
//! idempotent: starting while active and stopping while idle are no-ops.

use vstd::prelude::*;

use crate::BranchName;
use crate::Idle;
use crate::VibeSession;
use crate::Vibing;

verus! {

/// Simple client API for driving a vibe session against one repository.
pub struct McpClient {
    repo: String,
    session: Option<VibeSession<Vibing>>,
}

impl McpClient {
    /// The path of the working tree this client serves.
    pub closed spec fn spec_repo(&self) -> Seq<char> {
        self.repo@
    }

    /// The branch of the active session, if one is active.
    pub closed spec fn spec_session_branch(&self) -> Option<Seq<char>> {
        match self.session {
            Some(v) => Some(v.spec_branch()),
            None => None,
        }
    }

    /// Create a new client with no active session, serving the working
    /// tree of the current directory.
    pub fn new() -> (r: Self)
        ensures
            r.spec_session_branch() is None,
            r.spec_repo() == "."@,
    {
        McpClient { repo: ".".to_owned(), session: None }
    }

    /// Create a new client with no active session, serving the repository
    /// at `repo`.
    pub fn with_repo(repo: String) -> (r: Self)
        ensures
            r.spec_session_branch() is None,
            r.spec_repo() == repo@,
    {
        McpClient { repo, session: None }
    }

    /// Start vibing on the given branch if not already active: the second
    /// of two starts in a row changes nothing, so at most one session is
    /// ever created. A start that fails at the version-control layer
    /// leaves the client idle.
    pub fn start_vibing(&mut self, branch: &str)
        ensures
            final(self).spec_repo() == old(self).spec_repo(),
            old(self).spec_session_branch() is Some ==> *final(self) == *old(self),
            final(self).spec_session_branch() matches Some(b) ==> b
                == old(self).spec_session_branch().unwrap_or(branch@),
    {
        if self.session.is_none() {
            let idle = VibeSession::<Idle>::new(BranchName::from_string(branch.to_owned()));
            match idle.start(self.repo.as_str()) {
                Ok(vibing) => {
                    self.session = Some(vibing);
                },
                Err(_) => {},
            }
        }
    }

    /// Stop the current vibing session if one is active; stopping while
    /// idle changes nothing. Afterward no session is active.
    pub fn stop_vibing(&mut self)
        ensures
            final(self).spec_repo() == old(self).spec_repo(),
            final(self).spec_session_branch() is None,
    {
        match self.session.take() {
            Some(vibing) => {
                let _ = vibing.finish(self.repo.as_str());
            },
            None => {},
        }
    }

    /// Return the active branch name, if any.
    pub fn branch(&self) -> (r: Option<&str>)
        ensures
            match r {
                Some(b) => self.spec_session_branch() matches Some(v) && v == b@,
                None => self.spec_session_branch() is None,
            },
    {
        match &self.session {
            Some(vibing) => Some(vibing.branch().as_str()),
            None => None,
        }
    }
}

impl Default for McpClient {
    /// A client equal to `McpClient::new`: no active session.
    fn default() -> (r: Self)
        ensures
            r.spec_session_branch() is None,
            r.spec_repo() == "."@,
    {
        McpClient::new()
    }
}

} // verus!
