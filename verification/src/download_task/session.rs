//! The stop protocol of a running download: pausing or cancelling is accepted
//! while the streams download, and is settled once when the download finishes.
use crate::download_task::error::DownloadTaskError;
use crate::text::string_of;
use std::collections::HashMap;
use vstd::prelude::*;

verus! {

/// Why a running download is asked to stop.
#[derive(Debug, Clone, Copy, PartialEq, Eq, Structural)]
pub enum StopReason {
    Pause,
    Cancel,
}

/// The phase of a running download.
#[derive(Debug, Clone, Copy, PartialEq, Eq, Structural)]
pub enum Phase {
    Downloading,
    Merging,
    Finishing,
}

/// The state of a download session: its phase, the stop asked for, and whether
/// it has finished.
#[derive(Debug, Clone, Copy, PartialEq, Eq, Structural)]
pub struct SessionState {
    pub phase: Phase,
    pub stop: Option<StopReason>,
    pub finished: bool,
}

impl SessionState {
    /// A session that has just started downloading.
    pub fn new() -> (r: Self)
        ensures
            r == (SessionState { phase: Phase::Downloading, stop: None, finished: false }),
    {
        SessionState { phase: Phase::Downloading, stop: None, finished: false }
    }

    /// Whether the session was asked to cancel.
    pub fn is_cancelled(&self) -> (r: bool)
        ensures
            r == (self.stop == Some(StopReason::Cancel)),
    {
        self.stop == Some(StopReason::Cancel)
    }
}

/// The session after a stop request, or why the request is refused.
pub open spec fn spec_request_stop(s: SessionState, reason: StopReason) -> Result<SessionState, Seq<char>> {
    if s.phase != Phase::Downloading || s.finished {
        Err("任务已进入合并或结束阶段"@)
    } else if s.stop matches Some(previous) && previous != reason {
        Err("任务正在执行其他停止操作"@)
    } else {
        Ok(SessionState { stop: Some(reason), ..s })
    }
}

/// Asks a session to stop: accepted while it downloads and has not finished,
/// unless a different stop was asked for already; asking twice for the same stop
/// is accepted.
pub fn request_stop(state: SessionState, reason: StopReason) -> (r: Result<SessionState, DownloadTaskError>)
    ensures
        match spec_request_stop(state, reason) {
            Ok(s) => r == Ok::<SessionState, DownloadTaskError>(s),
            Err(m) => r matches Err(DownloadTaskError::InvalidDownloadRequest(x)) && x@ == m,
        },
{
    if state.phase != Phase::Downloading || state.finished {
        return Err(DownloadTaskError::InvalidDownloadRequest(string_of("任务已进入合并或结束阶段")));
    }
    match state.stop {
        Some(previous) => if previous != reason {
            return Err(DownloadTaskError::InvalidDownloadRequest(string_of("任务正在执行其他停止操作")));
        },
        None => {},
    }
    Ok(SessionState { stop: Some(reason), ..state })
}

/// Starts merging, unless a stop was asked for, which cancels the download.
pub fn begin_merging(state: SessionState) -> (r: Result<SessionState, DownloadTaskError>)
    ensures
        state.stop is Some ==> r matches Err(DownloadTaskError::Cancelled),
        state.stop is None ==> r == Ok::<SessionState, DownloadTaskError>(
            SessionState { phase: Phase::Merging, ..state },
        ),
{
    if state.stop.is_some() {
        return Err(DownloadTaskError::Cancelled);
    }
    Ok(SessionState { phase: Phase::Merging, ..state })
}

/// Enters the finishing phase and settles the race with a stop request: the stop
/// asked for so far, if any, is what the download ends with.
pub fn begin_finishing(state: SessionState) -> (r: (SessionState, Option<StopReason>))
    ensures
        r.0 == (SessionState { phase: Phase::Finishing, ..state }),
        r.1 == state.stop,
{
    (SessionState { phase: Phase::Finishing, ..state }, state.stop)
}

/// Marks the session finished.
pub fn finish(state: SessionState) -> (r: SessionState)
    ensures
        r == (SessionState { finished: true, ..state }),
{
    SessionState { finished: true, ..state }
}

/// Refuses to wait for a pause from inside the download's own callbacks (the
/// wait would never end); otherwise asks the session to pause. Waiting for the
/// download to finish is left to the caller.
pub fn pause_before_wait(state: SessionState, caller_is_worker: bool) -> (r: Result<
    SessionState,
    DownloadTaskError,
>)
    ensures
        caller_is_worker ==> (r matches Err(DownloadTaskError::InvalidDownloadRequest(x)) && x@
            == "不能在下载回调内同步等待暂停，请使用 request_pause"@),
        !caller_is_worker ==> match spec_request_stop(state, StopReason::Pause) {
            Ok(s) => r == Ok::<SessionState, DownloadTaskError>(s),
            Err(m) => r matches Err(DownloadTaskError::InvalidDownloadRequest(x)) && x@ == m,
        },
{
    if caller_is_worker {
        return Err(
            DownloadTaskError::InvalidDownloadRequest(
                string_of("不能在下载回调内同步等待暂停，请使用 request_pause"),
            ),
        );
    }
    request_stop(state, StopReason::Pause)
}

/// The state a session has when it is reserved.
pub open spec fn started() -> SessionState {
    SessionState { phase: Phase::Downloading, stop: None, finished: false }
}

/// The running sessions: at most one per task.
pub struct SessionRegistry {
    sessions: HashMap<i64, SessionState>,
}

impl SessionRegistry {
    /// The sessions, each task id mapped to its session's state.
    pub closed spec fn sessions(self) -> Map<i64, SessionState> {
        self.sessions@
    }

    /// No session is running.
    pub fn new() -> (r: Self)
        ensures
            r.sessions() == Map::<i64, SessionState>::empty(),
    {
        SessionRegistry { sessions: HashMap::new() }
    }

    /// The session of a task, if one is running.
    pub fn find(&self, task_id: i64) -> (r: Option<SessionState>)
        ensures
            r == (if self.sessions().dom().contains(task_id) {
                Some(self.sessions()[task_id])
            } else {
                None::<SessionState>
            }),
    {
        broadcast use vstd::std_specs::hash::group_hash_axioms;

        match self.sessions.get(&task_id) {
            Some(state) => Some(*state),
            None => None,
        }
    }

    /// Registers a new session for a task; refused while the task has one.
    pub fn reserve(&mut self, task_id: i64) -> (r: Result<(), DownloadTaskError>)
        ensures
            old(self).sessions().dom().contains(task_id) ==> (r matches Err(
                DownloadTaskError::InvalidDownloadRequest(x),
            ) && x@ == "任务仍有运行中的会话"@ && final(self).sessions() == old(self).sessions()),
            !old(self).sessions().dom().contains(task_id) ==> (r is Ok && final(self).sessions()
                == old(self).sessions().insert(task_id, started())),
    {
        broadcast use vstd::std_specs::hash::group_hash_axioms;

        if self.sessions.contains_key(&task_id) {
            return Err(DownloadTaskError::InvalidDownloadRequest(string_of("任务仍有运行中的会话")));
        }
        self.sessions.insert(task_id, SessionState::new());
        Ok(())
    }

    /// Removes a task's session once its download has finished.
    pub fn finish(&mut self, task_id: i64)
        ensures
            final(self).sessions() == old(self).sessions().remove(task_id),
    {
        broadcast use vstd::std_specs::hash::group_hash_axioms;

        self.sessions.remove(&task_id);
    }
}

/// A task holds at most one running session: while it has one, reserving
/// another is refused and leaves the sessions as they were; once that session
/// finishes, the task can be reserved again.
pub proof fn law_one_session_per_task(
    sessions: Map<i64, SessionState>,
    task_id: i64,
)
    ensures
        !sessions.dom().contains(task_id) ==> sessions.insert(task_id, started()).dom().contains(task_id),
        !sessions.insert(task_id, started()).remove(task_id).dom().contains(task_id),
        !sessions.dom().contains(task_id) ==> sessions.insert(task_id, started()).remove(task_id) == sessions,
{
    assert(!sessions.dom().contains(task_id) ==> sessions.insert(task_id, started()).remove(task_id) =~= sessions);
}

/// A stop request is accepted only while the streams download, and once merging
/// or finishing began (or the session finished) every request is refused; the
/// stop that finishing settles on is the one that was accepted.
pub proof fn law_stop_only_while_downloading(s: SessionState, reason: StopReason, other: StopReason)
    ensures
        spec_request_stop(s, reason) is Ok ==> s.phase == Phase::Downloading && !s.finished,
        (s.phase == Phase::Downloading && !s.finished && s.stop is None) ==> spec_request_stop(s, reason)
            == Ok::<SessionState, Seq<char>>(SessionState { stop: Some(reason), ..s }),
        spec_request_stop(s, reason) matches Ok(t) ==> (spec_request_stop(t, reason) == Ok::<
            SessionState,
            Seq<char>,
        >(t) && (other != reason ==> spec_request_stop(t, other) is Err) && t.stop == Some(reason)),
{
}

} // verus!
