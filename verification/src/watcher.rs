//! The change monitor: debounced snapshotting of working-tree changes.
//!
//! Filesystem events arrive from outside; this module holds the decisions.
//! An event under the version-control metadata directory never triggers a
//! snapshot, and however many events arrive within one quiescence interval,
//! at most one snapshot commit is made for that interval.

use vstd::prelude::*;
use vstd::string::*;

verus! {

/// Whether `pat` occurs in `s` starting at position `i`.
pub open spec fn seq_contains_at(s: Seq<char>, pat: Seq<char>, i: int) -> bool {
    0 <= i && i + pat.len() <= s.len() && s.subrange(i, i + pat.len()) == pat
}

/// Whether `c` separates path components.
pub open spec fn is_path_sep(c: char) -> bool {
    c == '/' || c == '\\'
}

/// Whether a whole `.git` path component stands in `s` at position `i`:
/// the four characters are there, with nothing or a separator before them
/// and nothing or a separator after them.
pub open spec fn git_component_at(s: Seq<char>, i: int) -> bool {
    &&& seq_contains_at(s, ".git"@, i)
    &&& (i == 0 || is_path_sep(s[i - 1]))
    &&& (i + 4 == s.len() || is_path_sep(s[i + 4]))
}

/// Whether a path lies under the version-control metadata directory: one
/// of its components is exactly `.git`. A name that merely contains the
/// text, such as `.gitignore`, is ordinary work and is not excluded.
pub open spec fn spec_is_git_path(path: Seq<char>) -> bool {
    exists|i: int| git_component_at(path, i)
}

/// Whether the `.git` component stands at position `i` of `path`.
fn has_git_component_at(path: &str, i: usize) -> (r: bool)
    requires
        i + 4 <= path@.len(),
    ensures
        r == git_component_at(path@, i as int),
{
    proof {
        reveal_strlit(".git");
    }
    let n = path.unicode_len();
    if path.get_char(i) != '.' || path.get_char(i + 1) != 'g' || path.get_char(i + 2) != 'i'
        || path.get_char(i + 3) != 't' {
        proof {
            if seq_contains_at(path@, ".git"@, i as int) {
                let sub = path@.subrange(i as int, i as int + 4);
                assert(sub[0] == path@[i as int]);
                assert(sub[1] == path@[i as int + 1]);
                assert(sub[2] == path@[i as int + 2]);
                assert(sub[3] == path@[i as int + 3]);
            }
        }
        return false;
    }
    proof {
        assert(path@.subrange(i as int, i as int + 4) =~= ".git"@);
    }
    if i > 0 {
        let before = path.get_char(i - 1);
        if before != '/' && before != '\\' {
            return false;
        }
    }
    if i + 4 < n {
        let after = path.get_char(i + 4);
        if after != '/' && after != '\\' {
            return false;
        }
    }
    true
}

/// Whether a changed path lies under the version-control metadata
/// directory; such events never trigger a snapshot.
pub fn is_git_path(path: &str) -> (r: bool)
    ensures
        r == spec_is_git_path(path@),
{
    let n = path.unicode_len();
    if n < 4 {
        proof {
            reveal_strlit(".git");
        }
        return false;
    }
    let mut i: usize = 0;
    while i <= n - 4
        invariant
            4 <= n,
            i <= n - 3,
            n == path@.len(),
            forall|k: int| 0 <= k < i ==> !git_component_at(path@, k),
        decreases n - 3 - i,
    {
        if has_git_component_at(path, i) {
            return true;
        }
        i = i + 1;
    }
    proof {
        reveal_strlit(".git");
        assert forall|k: int| !git_component_at(path@, k) by {
            if git_component_at(path@, k) {
                assert(0 <= k <= n - 4);
            }
        }
    }
    false
}

/// The quiescence interval: a snapshot commit is made at most once per this
/// many milliseconds, however many change events arrive.
pub const DEBOUNCE_INTERVAL_MS: u64 = 1000;

/// One step of the debounce machine: from the time of the last snapshot and
/// one event (its time and whether its path is under the metadata
/// directory), the new last-snapshot time and whether a snapshot fires.
pub open spec fn debounce_step(last: int, t: int, git_path: bool) -> (int, bool) {
    if !git_path && t >= last + DEBOUNCE_INTERVAL_MS {
        (t, true)
    } else {
        (last, false)
    }
}

/// How many snapshots the debounce machine fires over a sequence of events,
/// each given as its time and whether its path is under the metadata
/// directory.
pub open spec fn debounce_commit_count(last: int, events: Seq<(int, bool)>) -> nat
    decreases events.len(),
{
    if events.len() == 0 {
        0
    } else {
        let stepped = debounce_step(last, events[0].0, events[0].1);
        (if stepped.1 {
            1nat
        } else {
            0nat
        }) + debounce_commit_count(stepped.0, events.skip(1))
    }
}

/// Events that all happen before the quiescence interval since the last
/// snapshot has elapsed fire no snapshot at all.
pub proof fn lemma_debounce_quiet(last: int, events: Seq<(int, bool)>)
    requires
        forall|i: int| 0 <= i < events.len() ==> (#[trigger] events[i]).0 < last + DEBOUNCE_INTERVAL_MS,
    ensures
        debounce_commit_count(last, events) == 0,
    decreases events.len(),
{
    if events.len() > 0 {
        assert(events[0].0 < last + DEBOUNCE_INTERVAL_MS);
        assert forall|i: int|
            0 <= i < events.skip(1).len() implies (#[trigger] events.skip(1)[i]).0 < last
            + DEBOUNCE_INTERVAL_MS by {
            assert(events.skip(1)[i] == events[i + 1]);
        }
        lemma_debounce_quiet(last, events.skip(1));
    }
}

/// The debounce law: however many change events arrive within one
/// quiescence interval, at most one snapshot commit fires for that
/// interval.
pub proof fn lemma_debounce_window(last: int, events: Seq<(int, bool)>, start: int)
    requires
        forall|i: int|
            0 <= i < events.len() ==> start <= (#[trigger] events[i]).0 < start
                + DEBOUNCE_INTERVAL_MS,
    ensures
        debounce_commit_count(last, events) <= 1,
    decreases events.len(),
{
    if events.len() > 0 {
        let stepped = debounce_step(last, events[0].0, events[0].1);
        assert forall|i: int|
            0 <= i < events.skip(1).len() implies start <= (#[trigger] events.skip(1)[i]).0 < start
            + DEBOUNCE_INTERVAL_MS by {
            assert(events.skip(1)[i] == events[i + 1]);
        }
        if stepped.1 {
            assert forall|i: int|
                0 <= i < events.skip(1).len() implies (#[trigger] events.skip(1)[i]).0 < stepped.0
                + DEBOUNCE_INTERVAL_MS by {
                assert(events.skip(1)[i] == events[i + 1]);
            }
            lemma_debounce_quiet(stepped.0, events.skip(1));
        } else {
            lemma_debounce_window(last, events.skip(1), start);
        }
    }
}

/// The debounce half of a running change monitor: the time of the last
/// snapshot commit, in unix milliseconds.
pub struct DebounceState {
    /// When the last snapshot commit was made (or the monitor started).
    pub last_commit_ms: u64,
}

impl DebounceState {
    /// A fresh monitor state that counts the quiescence interval from
    /// `now_ms`.
    pub fn new(now_ms: u64) -> (r: DebounceState)
        ensures
            r.last_commit_ms == now_ms,
    {
        DebounceState { last_commit_ms: now_ms }
    }

    /// Fold one filesystem change event into the debounce state; the result
    /// says whether a snapshot commit fires now. A path under the
    /// version-control metadata directory never fires, and a snapshot fires
    /// only once the quiescence interval has elapsed since the last one.
    pub fn note_event(&mut self, path: &str, now_ms: u64) -> (commit: bool)
        ensures
            (final(self).last_commit_ms as int, commit) == debounce_step(
                old(self).last_commit_ms as int,
                now_ms as int,
                spec_is_git_path(path@),
            ),
            spec_is_git_path(path@) ==> !commit,
            commit ==> final(self).last_commit_ms == now_ms,
            !commit ==> *final(self) == *old(self),
    {
        if is_git_path(path) {
            return false;
        }
        if now_ms >= DEBOUNCE_INTERVAL_MS && now_ms - DEBOUNCE_INTERVAL_MS >= self.last_commit_ms {
            self.last_commit_ms = now_ms;
            true
        } else {
            false
        }
    }
}

/// The snapshot-commit message carrying the timestamp display `stamp`.
fn snapshot_message(stamp: &str) -> (r: String)
    ensures
        r@ == "Auto-commit at "@ + stamp@,
{
    let mut msg = "Auto-commit at ".to_owned();
    msg.append(stamp);
    msg
}

/// Stage and commit all working-tree changes as a snapshot whose message
/// carries the current timestamp. Both steps are best-effort: whether they
/// succeed depends on the repository on disk, and any failure is swallowed
/// rather than surfaced to the session. The result reports whether a commit
/// was made.
pub fn commit_changes(repo_path: &str) -> (committed: bool)
{
    match crate::git::stage_all_changes(repo_path) {
        Err(_) => {
            return false;
        },
        Ok(()) => {},
    }
    let secs = crate::time::now_unix_seconds();
    let clamped: i64 = if secs < 0 {
        0
    } else {
        secs
    };
    let stamp = match crate::time::format_utc_seconds(clamped) {
        Some(stamp) => stamp,
        None => crate::u64_to_dec_string(clamped as u64),
    };
    let msg = snapshot_message(stamp.as_str());
    match crate::git::commit_staged(repo_path, msg.as_str()) {
        Ok(()) => true,
        Err(_) => false,
    }
}

} // verus!
