//! The protocol-facing command service and session registry.
//!
//! One service instance owns the single session for one repository. Each of
//! the three commands — start, stop, status — is idempotent and answers
//! with human-readable text; failures of the version-control workflow are
//! reported as text and always leave the session in a valid state.

use vstd::prelude::*;
use vstd::string::*;

use crate::BranchName;
use crate::VibeError;
use crate::branch_name_for_timestamp;
use crate::is_vibe_branch;
use crate::lemma_derived_branch_matches_pattern;
use crate::vibe_branch_chars;
use crate::watcher::DebounceState;
use crate::watcher::debounce_step;
use crate::watcher::spec_is_git_path;

verus! {

/// Request to start a vibing session.
pub struct StartVibingRequest {}

/// Request to stop the vibing session, carrying the message for the
/// squashed commit.
pub struct StopVibingRequest {
    pub commit_message: String,
}

/// Request for the current session status.
pub struct VibeStatusRequest {}

/// A review request for an external tool to open once a session has been
/// squashed and pushed: the session branch to merge and the title and body
/// text for the request.
pub struct ReviewRequest {
    pub branch: BranchName,
    pub title: String,
    pub body: String,
}

/// What a stop command produced: the text for the caller and, when the
/// repository has a remote configured and the pipeline succeeded, the
/// review request for the external tool to open.
pub struct StopOutcome {
    pub message: String,
    pub review: Option<ReviewRequest>,
}

/// The session lifecycle: a session is always in exactly one of these two
/// states.
pub enum SessionPhase {
    /// No session branch is active.
    Idle,
    /// A session is active on `branch`, with the debounce state of its
    /// change monitor.
    Vibing { branch: BranchName, monitor: DebounceState },
}

/// A well-formed phase: an active session is always on a branch this crate
/// derived, matching `vibe-<digits>`.
pub open spec fn phase_wf(p: SessionPhase) -> bool {
    p matches SessionPhase::Vibing { branch, monitor } ==> is_vibe_branch(branch@)
}

/// The reply when a start command finds a session already active.
pub open spec fn msg_already_vibing() -> Seq<char> {
    "Already vibing! Session is active and auto-committing changes."@
}

/// The reply when a start command created `branch` and began vibing.
pub open spec fn msg_started(branch: Seq<char>) -> Seq<char> {
    "🚀 Started vibing! Created branch '"@ + branch
        + "' and auto-committing all changes every second."@
}

/// The reply when a start command failed with error text `e`.
pub open spec fn msg_start_error(e: Seq<char>) -> Seq<char> {
    "Error starting vibe: "@ + e
}

/// The reply when a stop command finds no session active.
pub open spec fn msg_not_vibing() -> Seq<char> {
    "Not currently vibing - no active session to stop. Call start_vibing first if you want to begin a new session."@
}

/// The reply when a stop command squashed the session with commit message
/// `m`.
pub open spec fn msg_stopped(m: Seq<char>) -> Seq<char> {
    "🏁 Stopped vibing! Squashed commits, rebased on main, and created PR with message: '"@ + m
        + "'"@
}

/// The reply when a stop command failed with error text `e`.
pub open spec fn msg_stop_error(e: Seq<char>) -> Seq<char> {
    "Error stopping vibe: "@ + e
}

/// The status reply while no session is active.
pub open spec fn msg_status_idle() -> Seq<char> {
    "🔵 IDLE: Ready to start vibing. Call start_vibing() to begin auto-committing changes."@
}

/// The status reply while a session is active on `branch`.
pub open spec fn msg_status_vibing(branch: Seq<char>) -> Seq<char> {
    "🟢 VIBING: Active session running on branch '"@ + branch
        + "'! Auto-committing all file changes every second. Call stop_vibing(commit_message) when done."@
}

/// The mathematical shadow of a session phase: idle, or vibing on a branch
/// with the time of the last snapshot commit.
pub enum PhaseModel {
    Idle,
    Vibing { branch: Seq<char>, last_commit_ms: int },
}

/// The abstraction from the executable phase to its model.
pub open spec fn phase_model(p: SessionPhase) -> PhaseModel {
    match p {
        SessionPhase::Idle => PhaseModel::Idle,
        SessionPhase::Vibing { branch, monitor } => PhaseModel::Vibing {
            branch: branch@,
            last_commit_ms: monitor.last_commit_ms as int,
        },
    }
}

/// A well-formed model phase: an active session sits on a derived branch.
pub open spec fn model_wf(m: PhaseModel) -> bool {
    m matches PhaseModel::Vibing { branch, last_commit_ms } ==> is_vibe_branch(branch)
}

/// One observed command in a session history, with its outcome: a start
/// whose workflow succeeded (deriving the branch from unix time `t` and
/// starting the monitor at `start_ms`), a start that found a session
/// already active or whose workflow failed, a stop, or a status query.
pub enum SessionEvent {
    StartOk { t: nat, start_ms: nat },
    StartRefused,
    Stop,
    Status,
}

/// How one command steps the session phase, mirroring the contracts of
/// `start_vibing`, `stop_vibing` and `vibe_status`: a successful start
/// moves an idle session to vibing on the derived branch and otherwise
/// changes nothing, a refused or failed start changes nothing, a stop
/// always ends idle, and a status query changes nothing.
pub open spec fn session_step(m: PhaseModel, ev: SessionEvent) -> PhaseModel {
    match ev {
        SessionEvent::StartOk { t, start_ms } => match m {
            PhaseModel::Idle => PhaseModel::Vibing {
                branch: vibe_branch_chars(t as int),
                last_commit_ms: start_ms as int,
            },
            PhaseModel::Vibing { .. } => m,
        },
        SessionEvent::StartRefused => m,
        SessionEvent::Stop => PhaseModel::Idle,
        SessionEvent::Status => m,
    }
}

/// The session phase after a whole history of commands.
pub open spec fn run_session(m: PhaseModel, history: Seq<SessionEvent>) -> PhaseModel
    decreases history.len(),
{
    if history.len() == 0 {
        m
    } else {
        run_session(session_step(m, history[0]), history.skip(1))
    }
}

/// Across every sequence of start, stop and status commands, whatever each
/// one's outcome, the session is in one of the two defined states — idle,
/// or vibing on a derived branch — at every observable point; it is never
/// undefined.
pub proof fn lemma_session_always_defined(m0: PhaseModel, history: Seq<SessionEvent>)
    requires
        model_wf(m0),
    ensures
        run_session(m0, history) is Idle || run_session(m0, history) is Vibing,
        model_wf(run_session(m0, history)),
    decreases history.len(),
{
    if history.len() > 0 {
        match history[0] {
            SessionEvent::StartOk { t, start_ms } => {
                lemma_derived_branch_matches_pattern(t as int);
            },
            _ => {},
        }
        lemma_session_always_defined(session_step(m0, history[0]), history.skip(1));
    }
}

/// Round trip: a start followed by a stop returns the session to idle,
/// whatever the start's outcome — and since filesystem events never change
/// the phase, this holds regardless of intervening file changes.
pub proof fn lemma_start_stop_round_trip(m0: PhaseModel, start: SessionEvent)
    requires
        m0 is Idle,
        start is StartOk || start is StartRefused,
    ensures
        run_session(m0, seq![start, SessionEvent::Stop]) is Idle,
{
    let history = seq![start, SessionEvent::Stop];
    let after_start = session_step(m0, start);
    assert(history.skip(1) =~= seq![SessionEvent::Stop]);
    assert(run_session(m0, history) == run_session(after_start, seq![SessionEvent::Stop]));
    assert(seq![SessionEvent::Stop].skip(1) =~= Seq::<SessionEvent>::empty());
    assert(run_session(after_start, seq![SessionEvent::Stop]) == run_session(
        PhaseModel::Idle,
        Seq::<SessionEvent>::empty(),
    ));
}

/// The text reporting a failed start.
fn start_error_message(e: &VibeError) -> (r: String)
    ensures
        r@ == msg_start_error(e.spec_text()),
{
    let mut msg = "Error starting vibe: ".to_owned();
    let text = e.text();
    msg.append(text.as_str());
    msg
}

/// The name of the safety-net branch taken before history is rewritten:
/// `backup-<branch>`.
fn backup_branch_name(branch: &BranchName) -> (r: String)
    ensures
        r@ == "backup-"@ + branch@,
{
    let mut name = "backup-".to_owned();
    name.append(branch.as_str());
    name
}

/// The text reporting a failed stop.
fn stop_error_message(e: &VibeError) -> (r: String)
    ensures
        r@ == msg_stop_error(e.spec_text()),
{
    let mut msg = "Error stopping vibe: ".to_owned();
    let text = e.text();
    msg.append(text.as_str());
    msg
}

/// The vibe-git command service: the registry that owns the one session
/// for one repository and serves the three idempotent commands.
pub struct VibeGitService {
    repo_path: String,
    session: SessionPhase,
}

impl VibeGitService {
    /// The path of the working tree this service serves.
    pub closed spec fn spec_repo(&self) -> Seq<char> {
        self.repo_path@
    }

    /// The current session phase.
    pub closed spec fn phase(&self) -> SessionPhase {
        self.session
    }

    /// The service invariant: the session is always in one of the two
    /// defined states, and an active session sits on a derived branch.
    pub open spec fn wf(&self) -> bool {
        phase_wf(self.phase())
    }

    /// Construct the service for the repository at `repo_path`, validating
    /// that the path is a version-controlled working tree; on success the
    /// session starts out idle. A path that is not a working tree is a
    /// fatal construction error.
    pub fn new(repo_path: String) -> (r: Result<VibeGitService, VibeError>)
        ensures
            r matches Ok(s) ==> s.phase() is Idle && s.spec_repo() == repo_path@ && s.wf(),
            r matches Err(e) ==> e is Git,
    {
        match crate::git::validate_repository(repo_path.as_str()) {
            Err(e) => Err(crate::git::to_vibe_error(e)),
            Ok(()) => Ok(VibeGitService { repo_path, session: SessionPhase::Idle }),
        }
    }

    /// Begin a session. From idle: derive a fresh branch name from the
    /// current time, create it from the mainline, check it out and start
    /// the change monitor; a failure of any step aborts the transition,
    /// reports the error as text and leaves the session idle. While a
    /// session is already active this changes nothing and replies that the
    /// session is active, so two starts in a row produce exactly one
    /// branch and one monitor.
    pub fn start_vibing(&mut self) -> (r: String)
        requires
            old(self).wf(),
        ensures
            final(self).wf(),
            final(self).spec_repo() == old(self).spec_repo(),
            old(self).phase() is Vibing ==> *final(self) == *old(self) && r@ == msg_already_vibing(),
            old(self).phase() is Idle ==> match final(self).phase() {
                SessionPhase::Vibing { branch, monitor } => r@ == msg_started(branch@) && (exists|
                    t: int,
                |
                    0 <= t && branch@ == vibe_branch_chars(t)),
                SessionPhase::Idle => exists|e: Seq<char>| r@ == msg_start_error(e),
            },
            phase_model(final(self).phase()) == session_step(
                phase_model(old(self).phase()),
                SessionEvent::StartRefused,
            ) || (exists|t: nat, ms: nat|
                phase_model(final(self).phase()) == session_step(
                    phase_model(old(self).phase()),
                    SessionEvent::StartOk { t, start_ms: ms },
                )),
    {
        match &self.session {
            SessionPhase::Vibing { .. } => {
                "Already vibing! Session is active and auto-committing changes.".to_owned()
            },
            SessionPhase::Idle => {
                let t = crate::time::now_unix_seconds();
                let secs: u64 = if t < 0 {
                    0
                } else {
                    t as u64
                };
                let branch = branch_name_for_timestamp(secs);
                proof {
                    lemma_derived_branch_matches_pattern(secs as int);
                }
                match crate::git::create_branch_from_main(self.repo_path.as_str(), branch.as_str()) {
                    Err(e) => {
                        return start_error_message(&e);
                    },
                    Ok(()) => {},
                }
                match crate::git::checkout_branch(self.repo_path.as_str(), branch.as_str()) {
                    Err(e) => {
                        return start_error_message(&crate::git::to_vibe_error(e));
                    },
                    Ok(()) => {},
                }
                let now = crate::time::now_unix_millis();
                let start_ms: u64 = if now < 0 {
                    0
                } else {
                    now as u64
                };
                let mut msg = "🚀 Started vibing! Created branch '".to_owned();
                msg.append(branch.as_str());
                msg.append("' and auto-committing all changes every second.");
                self.session = SessionPhase::Vibing {
                    branch,
                    monitor: DebounceState::new(start_ms),
                };
                proof {
                    assert(phase_model(self.phase()) == session_step(
                        phase_model(old(self).phase()),
                        SessionEvent::StartOk { t: secs as nat, start_ms: start_ms as nat },
                    ));
                }
                msg
            },
        }
    }

    /// End the session. From a vibing session: stop the change monitor (no
    /// snapshot commit can fire once this call returns), create the backup
    /// branch `backup-<branch>` at the session tip, return to the mainline
    /// and synchronize it with its remote, check the session branch out
    /// again, squash everything since divergence into one commit carrying
    /// the request's message, push the branch, and check the mainline out
    /// so the working tree ends in a clean state; when a remote is
    /// configured the outcome also carries the review request for the
    /// external tool. While idle this changes nothing and replies that no
    /// session is active. The session is idle afterward whether the
    /// pipeline succeeded or failed — on failure the error is reported as
    /// text, and the session and backup branches remain on disk for
    /// recovery.
    pub fn stop_vibing(&mut self, request: StopVibingRequest) -> (r: StopOutcome)
        requires
            old(self).wf(),
        ensures
            final(self).wf(),
            final(self).spec_repo() == old(self).spec_repo(),
            final(self).phase() is Idle,
            phase_model(final(self).phase()) == session_step(
                phase_model(old(self).phase()),
                SessionEvent::Stop,
            ),
            old(self).phase() is Idle ==> *final(self) == *old(self) && r.message@
                == msg_not_vibing() && r.review is None,
            old(self).phase() matches SessionPhase::Vibing { branch, monitor } ==> {
                &&& r.message@ == msg_stopped(request.commit_message@) || (exists|e: Seq<char>|
                    r.message@ == msg_stop_error(e))
                &&& r.review matches Some(review) ==> review.branch@ == branch@ && review.title@
                    == request.commit_message@ && review.body@ == request.commit_message@
                &&& r.review is Some ==> r.message@ == msg_stopped(request.commit_message@)
            },
    {
        let branch: BranchName;
        match &self.session {
            SessionPhase::Idle => {
                return StopOutcome {
                    message:
                        "Not currently vibing - no active session to stop. Call start_vibing first if you want to begin a new session.".to_owned(),
                    review: None,
                };
            },
            SessionPhase::Vibing { branch: active, .. } => {
                branch = active.duplicate();
            },
        }
        // Leaving the Vibing state stops the monitor: no later filesystem
        // event can fire a snapshot commit.
        self.session = SessionPhase::Idle;
        let backup = backup_branch_name(&branch);
        match crate::git::create_branch(self.repo_path.as_str(), backup.as_str()) {
            Err(e) => {
                return StopOutcome {
                    message: stop_error_message(&crate::git::to_vibe_error(e)),
                    review: None,
                };
            },
            Ok(()) => {},
        }
        let mainline = match crate::git::find_mainline(self.repo_path.as_str()) {
            None => {
                return StopOutcome {
                    message: stop_error_message(&VibeError::NoMainline),
                    review: None,
                };
            },
            Some(m) => m,
        };
        match crate::git::checkout_branch(self.repo_path.as_str(), mainline) {
            Err(e) => {
                return StopOutcome {
                    message: stop_error_message(&crate::git::to_vibe_error(e)),
                    review: None,
                };
            },
            Ok(()) => {},
        }
        match crate::git::pull(self.repo_path.as_str(), mainline) {
            Err(e) => {
                return StopOutcome { message: stop_error_message(&e), review: None };
            },
            Ok(()) => {},
        }
        match crate::git::checkout_branch(self.repo_path.as_str(), branch.as_str()) {
            Err(e) => {
                return StopOutcome {
                    message: stop_error_message(&crate::git::to_vibe_error(e)),
                    review: None,
                };
            },
            Ok(()) => {},
        }
        match crate::git::squash_rebase_onto_main(
            self.repo_path.as_str(),
            mainline,
            request.commit_message.as_str(),
        ) {
            Err(e) => {
                return StopOutcome { message: stop_error_message(&e), review: None };
            },
            Ok(()) => {},
        }
        match crate::git::push_branch(self.repo_path.as_str(), branch.as_str()) {
            Err(e) => {
                return StopOutcome { message: stop_error_message(&e), review: None };
            },
            Ok(()) => {},
        }
        match crate::git::checkout_branch(self.repo_path.as_str(), mainline) {
            Err(e) => {
                return StopOutcome {
                    message: stop_error_message(&crate::git::to_vibe_error(e)),
                    review: None,
                };
            },
            Ok(()) => {},
        }
        let review = if crate::git::has_remote(self.repo_path.as_str()) {
            Some(
                ReviewRequest {
                    branch,
                    title: request.commit_message.clone(),
                    body: request.commit_message.clone(),
                },
            )
        } else {
            None
        };
        let mut msg =
            "🏁 Stopped vibing! Squashed commits, rebased on main, and created PR with message: '".to_owned();
        msg.append(request.commit_message.as_str());
        msg.append("'");
        StopOutcome { message: msg, review }
    }

    /// Whether a session is currently active.
    pub fn is_vibing(&self) -> (r: bool)
        ensures
            r == (self.phase() is Vibing),
    {
        match &self.session {
            SessionPhase::Vibing { .. } => true,
            SessionPhase::Idle => false,
        }
    }

    /// Report the current status: idle, or vibing with the active branch
    /// name. A status query never changes the session.
    pub fn vibe_status(&self) -> (r: String)
        ensures
            self.phase() is Idle ==> r@ == msg_status_idle(),
            self.phase() matches SessionPhase::Vibing { branch, monitor } ==> r@
                == msg_status_vibing(branch@),
    {
        match &self.session {
            SessionPhase::Idle => {
                "🔵 IDLE: Ready to start vibing. Call start_vibing() to begin auto-committing changes.".to_owned()
            },
            SessionPhase::Vibing { branch, .. } => {
                let mut msg = "🟢 VIBING: Active session running on branch '".to_owned();
                msg.append(branch.as_str());
                msg.append(
                    "'! Auto-committing all file changes every second. Call stop_vibing(commit_message) when done.",
                );
                msg
            },
        }
    }

    /// Fold one filesystem change event into the active session's change
    /// monitor and, when the debounce fires, snapshot the working tree
    /// (best-effort). While idle — in particular at any point after
    /// `stop_vibing` has returned — no snapshot is ever attempted, and an
    /// event under the version-control metadata directory never fires one.
    pub fn handle_fs_event(&mut self, path: &str, now_ms: u64) -> (fired: bool)
        requires
            old(self).wf(),
        ensures
            final(self).wf(),
            final(self).spec_repo() == old(self).spec_repo(),
            old(self).phase() is Idle ==> !fired && *final(self) == *old(self),
            spec_is_git_path(path@) ==> !fired && *final(self) == *old(self),
            old(self).phase() matches SessionPhase::Vibing { branch, monitor } ==> {
                &&& final(self).phase() matches SessionPhase::Vibing {
                    branch: after_branch,
                    monitor: after_monitor,
                } && after_branch == branch && (
                after_monitor.last_commit_ms as int,
                fired,
                ) == debounce_step(
                    monitor.last_commit_ms as int,
                    now_ms as int,
                    spec_is_git_path(path@),
                )
            },
    {
        match &mut self.session {
            SessionPhase::Idle => false,
            SessionPhase::Vibing { branch, monitor } => {
                if monitor.note_event(path, now_ms) {
                    crate::watcher::commit_changes(self.repo_path.as_str());
                    true
                } else {
                    false
                }
            },
        }
    }
}

} // verus!
