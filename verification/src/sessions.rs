//! How sessions use the workers of a pool: calls, failures, and giving a worker back.

use crate::errors::{ToolError, ToolErrorOf, ToolErrorV};
use crate::numbers::{decimal, decimal_text};
use crate::pool::{
    killed, leased, left_of, slot_at, without_id, ChildState, ChildStateOf, ChildStateV, DeadWorker,
    Lease, PoolV, SlotOf, SlotV, WorkerPool, WorkerPoolConfig, CHILD_CLOSE_TIMEOUT_SECS, CHILD_TIMEOUT_GRACE_SECS,
    MAX_TIMEOUT_SECS,
};
use crate::text::same;
use crate::worker_loop::opt_error;
use vstd::prelude::*;

verus! {

// ---------------------------------------------------------------------------
// Which errors cost a worker its place
// ---------------------------------------------------------------------------

/// Whether an error while a worker closes its database means that the worker has to go.
pub open spec fn retires_on_release(e: ToolErrorV) -> bool {
    e is Timeout || e is TimeoutDetailed || e is Cancelled || e is WorkerCrashed
        || e is RemoteProtocol || e is WorkerClosed
}

/// Whether an error that a worker reports means that the worker has to go.
pub open spec fn retires_on_call(e: ToolErrorV) -> bool {
    e is WorkerClosed || e is WorkerCrashed || e is RemoteProtocol
}

/// Whether a failed open means that the session gives its worker back.
pub open spec fn releases_on_open(fresh_lease: bool, e: ToolErrorV) -> bool {
    fresh_lease || e is Timeout || e is TimeoutDetailed || e is Cancelled || e is WorkerCrashed
        || e is WorkerClosed
}

/// Whether an error while a worker closes its database means that the worker has to go.
pub fn release_error_retires_worker(err: &ToolError) -> (r: bool)
    ensures
        r == retires_on_release(err@),
{
    match err {
        ToolErrorOf::Timeout(_) => true,
        ToolErrorOf::TimeoutDetailed(_) => true,
        ToolErrorOf::Cancelled(_) => true,
        ToolErrorOf::WorkerCrashed { .. } => true,
        ToolErrorOf::RemoteProtocol(_) => true,
        ToolErrorOf::WorkerClosed => true,
        _ => false,
    }
}

/// Whether an error that a worker reports means that the worker has to go.
pub fn child_tool_error_retires_worker(err: &ToolError) -> (r: bool)
    ensures
        r == retires_on_call(err@),
{
    match err {
        ToolErrorOf::WorkerCrashed { .. } => true,
        ToolErrorOf::RemoteProtocol(_) => true,
        ToolErrorOf::WorkerClosed => true,
        _ => false,
    }
}

/// Whether a failed open means that the session gives its worker back.
pub fn open_error_releases_lease(fresh_lease: bool, err: &ToolError) -> (r: bool)
    ensures
        r == releases_on_open(fresh_lease, err@),
{
    fresh_lease || match err {
        ToolErrorOf::Timeout(_) => true,
        ToolErrorOf::TimeoutDetailed(_) => true,
        ToolErrorOf::Cancelled(_) => true,
        ToolErrorOf::WorkerCrashed { .. } => true,
        ToolErrorOf::WorkerClosed => true,
        _ => false,
    }
}

/// An error that costs a worker its place during a call costs it its place during a release too; a
/// worker that was leased for an open that failed is always given back; and an error of the
/// disassembler costs no worker its place.
pub proof fn lemma_retiring_errors(e: ToolErrorV)
    ensures
        retires_on_call(e) ==> retires_on_release(e),
        releases_on_open(true, e),
        e is IdaError ==> !retires_on_release(e) && !retires_on_call(e) && !releases_on_open(
            false,
            e,
        ),
{
}

// ---------------------------------------------------------------------------
// Time
// ---------------------------------------------------------------------------

/// The lower of two numbers.
pub open spec fn lower_of(a: u64, b: u64) -> u64 {
    if a < b {
        a
    } else {
        b
    }
}

/// How long the pool waits for a worker: a little longer than the worker has, but never longer than
/// it is set up to wait.
pub open spec fn call_secs(config: WorkerPoolConfig, requested: Option<u64>) -> u64 {
    match requested {
        Some(s) => lower_of(
            (lower_of(s, MAX_TIMEOUT_SECS) + CHILD_TIMEOUT_GRACE_SECS) as u64,
            config.worker_op_timeout_secs,
        ),
        None => config.worker_op_timeout_secs,
    }
}

impl WorkerPool {
    /// How long the pool waits for a worker, in seconds.
    pub fn worker_op_timeout(&self, requested: Option<u64>) -> (r: u64)
        ensures
            r == call_secs(self@.config, requested),
    {
        match requested {
            Some(s) => {
                let own: u64 = (if s < MAX_TIMEOUT_SECS {
                    s
                } else {
                    MAX_TIMEOUT_SECS
                }) + CHILD_TIMEOUT_GRACE_SECS;
                if own < self.config.worker_op_timeout_secs {
                    own
                } else {
                    self.config.worker_op_timeout_secs
                }
            },
            None => self.config.worker_op_timeout_secs,
        }
    }
}

/// How long a call in the foreground may take, with the grace that a worker of a pool gets.
pub open spec fn with_grace(timeout_secs: Option<u64>, default_secs: u64) -> u64 {
    (lower_of(
        match timeout_secs {
            Some(s) => s,
            None => default_secs,
        },
        MAX_TIMEOUT_SECS,
    ) + CHILD_TIMEOUT_GRACE_SECS) as u64
}

/// How long a call in the foreground may take, with the grace that a worker of a pool gets.
pub fn timeout_with_child_grace(timeout_secs: Option<u64>, default_timeout_secs: u64) -> (r: u64)
    ensures
        r == with_grace(timeout_secs, default_timeout_secs),
{
    let asked: u64 = match timeout_secs {
        Some(s) => s,
        None => default_timeout_secs,
    };
    let own: u64 = if asked < MAX_TIMEOUT_SECS {
        asked
    } else {
        MAX_TIMEOUT_SECS
    };
    own + CHILD_TIMEOUT_GRACE_SECS
}

/// The pool never waits longer than it is set up to, never longer than the longest operation and
/// its grace where a time is asked for, and it gives every worker that is not cut short by its
/// setting more time than the worker gives itself.
pub proof fn lemma_call_time(config: WorkerPoolConfig, requested: Option<u64>)
    ensures
        call_secs(config, requested) <= config.worker_op_timeout_secs,
        requested is Some ==> call_secs(config, requested) <= MAX_TIMEOUT_SECS
            + CHILD_TIMEOUT_GRACE_SECS,
        requested matches Some(s) ==> call_secs(config, requested) == config.worker_op_timeout_secs
            || call_secs(config, requested) > lower_of(s, MAX_TIMEOUT_SECS),
        with_grace(requested, 300) <= MAX_TIMEOUT_SECS + CHILD_TIMEOUT_GRACE_SECS,
{
}

// ---------------------------------------------------------------------------
// Calls
// ---------------------------------------------------------------------------

/// A text as it is shown in a message for developers.
pub uninterp spec fn shown_text(s: Seq<char>) -> Seq<char>;

/// The `Debug` form of a `str` in std, which the text alone determines: it stands in quotation marks
/// and has its special characters escaped.
#[verifier::external_body]
fn show_text(s: &str) -> (r: String)
    ensures
        r@ == shown_text(s@),
{
    format!("{:?}", s)
}

/// The state of a worker as it is shown in a message, given its session as it is shown.
pub open spec fn shown_state(state: ChildStateV, shown_session: Seq<char>) -> Seq<char> {
    match state {
        ChildStateOf::Idle => "Idle"@,
        ChildStateOf::Leased { .. } => "Leased { session_id: "@ + shown_session + " }"@,
        ChildStateOf::Closing => "Closing"@,
        ChildStateOf::Dead => "Dead"@,
    }
}

/// The state of a worker as it is shown in a message, given its session as it is shown.
pub fn show_state(state: &ChildState, shown_session: &str) -> (r: String)
    ensures
        r@ == shown_state(state@, shown_session@),
{
    match state {
        ChildStateOf::Idle => "Idle".to_owned(),
        ChildStateOf::Leased { .. } => {
            let mut m = "Leased { session_id: ".to_owned();
            m.push_str(shown_session);
            m.push_str(" }");
            m
        },
        ChildStateOf::Closing => "Closing".to_owned(),
        ChildStateOf::Dead => "Dead".to_owned(),
    }
}

/// The session that has a worker, or nothing.
pub open spec fn session_in(state: ChildStateV) -> Seq<char> {
    match state {
        ChildStateOf::Leased { session_id } => session_id,
        _ => seq![],
    }
}

/// Why a session may not use a worker, if it may not.
pub open spec fn call_refused(
    state: ChildStateV,
    worker_id: usize,
    session: Seq<char>,
    tool: Seq<char>,
) -> Option<ToolErrorV> {
    match state {
        ChildStateOf::Dead => Some(ToolErrorOf::WorkerCrashed { worker_id, last_op: tool }),
        _ => if state == (ChildStateV::Leased { session_id: session }) {
            None
        } else {
            Some(
                ToolErrorOf::RemoteProtocol(
                    "worker "@ + decimal(worker_id as nat) + " is not leased to session "@ + session
                        + " (state: "@ + shown_state(state, shown_text(session_in(state))) + ")"@,
                ),
            )
        },
    }
}

/// Why a session may not use a worker, if it may not.
pub fn check_call(state: &ChildState, worker_id: usize, session_id: &str, tool: &str) -> (r: Option<
    ToolError,
>)
    ensures
        opt_error(r) == call_refused(state@, worker_id, session_id@, tool@),
{
    let holder: &str = match state {
        ChildStateOf::Dead => {
            return Some(ToolErrorOf::WorkerCrashed { worker_id, last_op: tool.to_owned() });
        },
        ChildStateOf::Leased { session_id: s } => {
            if same(s.as_str(), session_id) {
                return None;
            }
            s.as_str()
        },
        _ => {
            proof {
                reveal_strlit("");
                assert(""@ =~= seq![]);
            }
            ""
        },
    };
    let mut m = "worker ".to_owned();
    m.push_str(decimal_text(worker_id as u64).as_str());
    m.push_str(" is not leased to session ");
    m.push_str(session_id);
    m.push_str(" (state: ");
    m.push_str(show_state(state, show_text(holder).as_str()).as_str());
    m.push_str(")");
    Some(ToolErrorOf::RemoteProtocol(m))
}

/// A worker answers the session that has it and no other.
pub proof fn lemma_only_the_holder_calls(
    session: Seq<char>,
    other: Seq<char>,
    worker_id: usize,
    tool: Seq<char>,
)
    ensures
        call_refused(
            ChildStateOf::Leased { session_id: session },
            worker_id,
            other,
            tool,
        ) is None <==> session == other,
{
}

/// How a call to a worker ended, over the type of texts.
#[derive(Debug)]
pub enum CallEndOf<T> {
    /// It was answered.
    Answered,
    /// The session cancelled it.
    Cancelled,
    /// It failed on the way.
    Broken(T),
    /// No answer came in so many seconds.
    TimedOut(u64),
}

/// The error of a call, if it has one. A worker whose call has one has to go.
pub open spec fn call_error(end: CallEndOf<Seq<char>>, worker_id: usize, tool: Seq<char>) -> Option<
    ToolErrorV,
> {
    match end {
        CallEndOf::Answered => None,
        CallEndOf::Cancelled => Some(
            ToolErrorOf::Cancelled(
                "cancelled "@ + tool + "; killed worker "@ + decimal(worker_id as nat),
            ),
        ),
        CallEndOf::Broken(e) => Some(
            ToolErrorOf::WorkerCrashed { worker_id, last_op: tool + ": "@ + e },
        ),
        CallEndOf::TimedOut(secs) => Some(
            ToolErrorOf::TimeoutDetailed(
                tool + " exceeded worker operation timeout of "@ + decimal(secs as nat)
                    + " seconds; killed worker "@ + decimal(worker_id as nat),
            ),
        ),
    }
}

/// What the end of a call is.
pub open spec fn end_view(end: CallEndOf<String>) -> CallEndOf<Seq<char>> {
    match end {
        CallEndOf::Answered => CallEndOf::Answered,
        CallEndOf::Cancelled => CallEndOf::Cancelled,
        CallEndOf::Broken(e) => CallEndOf::Broken(e@),
        CallEndOf::TimedOut(s) => CallEndOf::TimedOut(s),
    }
}

/// The error of a call, if it has one. A worker whose call has one has to go.
pub fn call_failure(end: CallEndOf<String>, worker_id: usize, tool: &str) -> (r: Option<ToolError>)
    ensures
        opt_error(r) == call_error(end_view(end), worker_id, tool@),
{
    match end {
        CallEndOf::Answered => None,
        CallEndOf::Cancelled => {
            let mut m = "cancelled ".to_owned();
            m.push_str(tool);
            m.push_str("; killed worker ");
            m.push_str(decimal_text(worker_id as u64).as_str());
            Some(ToolErrorOf::Cancelled(m))
        },
        CallEndOf::Broken(e) => {
            let mut m = tool.to_owned();
            m.push_str(": ");
            m.push_str(e.as_str());
            Some(ToolErrorOf::WorkerCrashed { worker_id, last_op: m })
        },
        CallEndOf::TimedOut(secs) => {
            let mut m = tool.to_owned();
            m.push_str(" exceeded worker operation timeout of ");
            m.push_str(decimal_text(secs).as_str());
            m.push_str(" seconds; killed worker ");
            m.push_str(decimal_text(worker_id as u64).as_str());
            Some(ToolErrorOf::TimeoutDetailed(m))
        },
    }
}

// ---------------------------------------------------------------------------
// Giving a worker back
// ---------------------------------------------------------------------------

/// How the request to close a database ended when a worker is given back, over the type of errors.
#[derive(Debug)]
pub enum CloseEndOf<E> {
    /// The worker answered; an answer that is an error may name it.
    Answered { is_error: bool, error: Option<E> },
    /// It failed on the way.
    Failed(E),
    /// No answer came in time.
    TimedOut,
}

/// The error of the request to close a database, if it has one.
pub open spec fn close_error(end: CloseEndOf<ToolErrorV>) -> Option<ToolErrorV> {
    match end {
        CloseEndOf::Answered { is_error, error } => if is_error {
            error
        } else {
            None
        },
        CloseEndOf::Failed(e) => Some(e),
        CloseEndOf::TimedOut => Some(ToolErrorOf::Timeout(CHILD_CLOSE_TIMEOUT_SECS)),
    }
}

/// What the end of a close is.
pub open spec fn close_view(end: CloseEndOf<ToolError>) -> CloseEndOf<ToolErrorV> {
    match end {
        CloseEndOf::Answered { is_error, error } => CloseEndOf::Answered {
            is_error,
            error: opt_error(error),
        },
        CloseEndOf::Failed(e) => CloseEndOf::Failed(e@),
        CloseEndOf::TimedOut => CloseEndOf::TimedOut,
    }
}

/// The error of the request to close a database, if it has one.
pub fn close_failure(end: CloseEndOf<ToolError>) -> (r: Option<ToolError>)
    ensures
        opt_error(r) == close_error(close_view(end)),
{
    match end {
        CloseEndOf::Answered { is_error, error } => if is_error {
            error
        } else {
            None
        },
        CloseEndOf::Failed(e) => Some(e),
        CloseEndOf::TimedOut => Some(ToolErrorOf::Timeout(CHILD_CLOSE_TIMEOUT_SECS)),
    }
}

/// The pool while a worker closes its database; one that is gone stays so.
pub open spec fn closing(st: PoolV, id: usize) -> PoolV {
    let at = slot_at(st.children, id, 0);
    if at < st.children.len() && !(st.children[at].state is Dead) {
        PoolV {
            children: st.children.update(
                at,
                SlotOf { state: ChildStateOf::Closing, ..st.children[at] },
            ),
            ..st
        }
    } else {
        st
    }
}

/// The pool once a worker has closed its database, or failed to, and what the session is told: an
/// error that costs the worker its place; nothing, where the worker can be used again.
pub open spec fn released(st: PoolV, id: usize, error: Option<ToolErrorV>, now: u64) -> (
    PoolV,
    Result<(), ToolErrorV>,
) {
    if error is Some && retires_on_release(error->0) {
        (
            PoolV { children: without_id(killed(st, id).children, id), ..st },
            Err(error->0),
        )
    } else if st.state_of(id) is Dead {
        (
            st,
            match error {
                Some(e) => Err(e),
                None => Ok(()),
            },
        )
    } else {
        let at = slot_at(st.children, id, 0);
        (
            PoolV {
                children: st.children.update(
                    at,
                    SlotOf {
                        state: ChildStateOf::Idle,
                        last_used: now,
                        idb_path: None,
                        ..st.children[at]
                    },
                ),
                ..st
            },
            Ok(()),
        )
    }
}

impl WorkerPool {
    /// Starts to take a worker back. Where it is gone already there is nothing more to do.
    pub fn begin_release(&mut self, id: usize) -> (r: bool)
        ensures
            final(self)@ == closing(old(self)@, id),
            r == !(old(self)@.state_of(id) is Dead),
            old(self)@.inv() ==> final(self)@.inv(),
    {
        let gone: bool = match self.state(id) {
            ChildStateOf::Dead => true,
            _ => false,
        };
        if gone {
            return false;
        }
        self.set_state(id, ChildStateOf::Closing, None);
        true
    }

    /// Takes a worker back that has closed its database, or failed to. What is left to do for a
    /// worker that has to go comes with the answer.
    pub fn finish_release(&mut self, id: usize, error: Option<ToolError>, now: u64) -> (r: (
        Result<(), ToolError>,
        Option<DeadWorker>,
    ))
        ensures
            final(self)@ == released(old(self)@, id, opt_error(error), now).0,
            match r.0 {
                Ok(()) => released(old(self)@, id, opt_error(error), now).1 is Ok,
                Err(e) => released(old(self)@, id, opt_error(error), now).1 == Err::<
                    (),
                    ToolErrorV,
                >(e@),
            },
            r.1 is Some <==> error is Some && retires_on_release(error->0@) && !(old(
                self,
            )@.state_of(id) is Dead),
            r.1 matches Some(dead) ==> left_of(
                dead,
                old(self)@.children[slot_at(old(self)@.children, id, 0)],
                now,
            ),
            old(self)@.inv() ==> final(self)@.inv(),
    {
        if let Some(e) = error {
            if release_error_retires_worker(&e) {
                let dead = self.mark_dead(id, now);
                return (Err(e), dead);
            }
            let gone: bool = match self.state(id) {
                ChildStateOf::Dead => true,
                _ => false,
            };
            if gone {
                return (Err(e), None);
            }
        } else {
            let gone: bool = match self.state(id) {
                ChildStateOf::Dead => true,
                _ => false,
            };
            if gone {
                return (Ok(()), None);
            }
        }
        self.set_state(id, ChildStateOf::Idle, Some(now));
        (Ok(()), None)
    }

    /// How long an idle worker waits before it may be taken out; none is taken out where the time
    /// is zero.
    pub fn idle_reap_delay(&self, id: usize) -> (r: Option<u64>)
        ensures
            r == (if self@.state_of(id) is Idle && self@.config.worker_idle_timeout_millis > 0 {
                Some(self@.config.worker_idle_timeout_millis)
            } else {
                None
            }),
            r == reap_delay(self@, id),
    {
        let idle: bool = match self.state(id) {
            ChildStateOf::Idle => true,
            _ => false,
        };
        if idle && self.config.worker_idle_timeout_millis > 0 {
            Some(self.config.worker_idle_timeout_millis)
        } else {
            None
        }
    }
}

/// What is given back can be leased again, and is leased to nobody meanwhile.
pub proof fn lemma_released_is_free(st: PoolV, id: usize, error: Option<ToolErrorV>, now: u64)
    requires
        st.inv(),
        !(st.state_of(id) is Dead),
        error is Some ==> !retires_on_release(error->0),
    ensures
        released(st, id, error, now).1 is Ok,
        released(st, id, error, now).0.state_of(id) is Idle,
        released(st, id, error, now).0.live() == st.live(),
{
    let at = slot_at(st.children, id, 0);
    crate::pool::lemma_slot_found(st.children, id);
    let s = SlotOf {
        state: ChildStateOf::Idle,
        last_used: now,
        idb_path: None,
        ..st.children[at]
    };
    crate::pool::lemma_changed_slot(st, id, s);
}

/// A lease never takes a worker away from a session that has it: the worker that is leased was idle
/// or is new, and all others stay as they are, but for those that are gone.
pub proof fn lemma_lease_takes_from_nobody(st: PoolV, session: Seq<char>, now: u64)
    requires
        st.inv(),
    ensures
        leased(st, session, now).1 matches Ok(Lease::Existing { worker_id }) ==> st.state_of(
            worker_id,
        ) is Idle,
        leased(st, session, now).1 matches Ok(Lease::Spawn { worker_id }) ==> st.state_of(
            worker_id,
        ) is Dead && forall|i: int|
            0 <= i < st.children.len() ==> (#[trigger] st.children[i]).id != worker_id,
{
    crate::pool::lemma_leased_was_free(st, session, now);
}

// ---------------------------------------------------------------------------
// Sessions
// ---------------------------------------------------------------------------

/// A session and the worker that it has, if it has one.
#[derive(Debug)]
pub struct PooledSessionState {
    pub session_id: String,
    pub handle: Option<usize>,
}

/// The worker for an open.
#[derive(Clone, Copy, Debug, PartialEq, Eq, Structural)]
pub enum OpenLease {
    /// The session has one already.
    Current { worker_id: usize },
    /// It gets one for this open.
    Fresh(Lease),
}

impl PooledSessionState {
    /// A session without a worker.
    pub fn new(session_id: String) -> (r: PooledSessionState)
        ensures
            r.session_id@ == session_id@,
            r.handle is None,
    {
        PooledSessionState { session_id, handle: None }
    }

    /// Finds a worker for an open: the one that the session has, else one of the pool. One that has
    /// to be started first becomes the session's with [`Self::adopt`].
    pub fn lease_for_open(&mut self, pool: &mut WorkerPool, now: u64) -> (r: Result<
        OpenLease,
        ToolError,
    >)
        requires
            old(pool)@.inv(),
            old(pool)@.next_id < usize::MAX,
        ensures
            final(pool)@.inv(),
            final(self).session_id == old(self).session_id,
            match old(self).handle {
                Some(id) => {
                    &&& r == Ok::<OpenLease, ToolError>(OpenLease::Current { worker_id: id })
                    &&& final(pool)@ == old(pool)@
                    &&& final(self).handle == old(self).handle
                },
                None => {
                    let (st, lease) = leased(old(pool)@, old(self).session_id@, now);
                    &&& final(pool)@ == st
                    &&& match r {
                        Ok(OpenLease::Fresh(l)) => lease == Ok::<Lease, ToolErrorV>(l),
                        Ok(_) => false,
                        Err(e) => lease == Err::<Lease, ToolErrorV>(e@),
                    }
                    &&& final(self).handle == (match lease {
                        Ok(Lease::Existing { worker_id }) => Some(worker_id),
                        _ => None,
                    })
                },
            },
    {
        if let Some(id) = self.handle {
            return Ok(OpenLease::Current { worker_id: id });
        }
        match pool.lease(self.session_id.as_str(), now) {
            Err(e) => Err(e),
            Ok(lease) => {
                if let Lease::Existing { worker_id } = lease {
                    self.handle = Some(worker_id);
                }
                Ok(OpenLease::Fresh(lease))
            },
        }
    }

    /// Takes a worker that was started for the session.
    pub fn adopt(&mut self, worker_id: usize)
        ensures
            final(self).handle == Some(worker_id),
            final(self).session_id == old(self).session_id,
    {
        self.handle = Some(worker_id);
    }

    /// The worker that the session has.
    pub fn required_handle(&self) -> (r: Result<usize, ToolError>)
        ensures
            match r {
                Ok(id) => self.handle == Some(id),
                Err(e) => self.handle is None && e@ == ToolErrorV::NoDatabaseOpen,
            },
    {
        match self.handle {
            Some(id) => Ok(id),
            None => Err(ToolErrorOf::NoDatabaseOpen),
        }
    }

    /// Takes the worker away from the session.
    pub fn take_handle(&mut self) -> (r: Option<usize>)
        ensures
            r == old(self).handle,
            final(self).handle is None,
            final(self).session_id == old(self).session_id,
    {
        let h = self.handle;
        self.handle = None;
        h
    }

    /// Takes the worker away from the session that is asked to close its database; without one
    /// there is no database.
    pub fn close(&mut self) -> (r: Result<usize, ToolError>)
        ensures
            match r {
                Ok(id) => old(self).handle == Some(id),
                Err(e) => old(self).handle is None && e@ == ToolErrorV::NoDatabaseOpen,
            },
            final(self).handle is None,
            final(self).session_id == old(self).session_id,
    {
        match self.take_handle() {
            Some(id) => Ok(id),
            None => Err(ToolErrorOf::NoDatabaseOpen),
        }
    }

    /// Takes a worker away from the session, if it is the one that it has.
    pub fn clear_handle_if_worker(&mut self, worker_id: usize)
        ensures
            final(self).handle == (if old(self).handle == Some(worker_id) {
                None
            } else {
                old(self).handle
            }),
            final(self).session_id == old(self).session_id,
    {
        if let Some(id) = self.handle {
            if id == worker_id {
                self.handle = None;
            }
        }
    }

    /// Draws the consequences of an error that came with a call to the session's worker. `reported`
    /// says whether the worker itself reported it; else the call failed and the worker is gone
    /// already. The answer says whether the worker has to go.
    pub fn after_error(&mut self, worker_id: usize, err: &ToolError, reported: bool) -> (r: bool)
        ensures
            r == (reported && retires_on_call(err@)),
            final(self).handle == (if (!reported || retires_on_call(err@)) && old(self).handle
                == Some(worker_id) {
                None
            } else {
                old(self).handle
            }),
            final(self).session_id == old(self).session_id,
    {
        if reported {
            if child_tool_error_retires_worker(err) {
                self.clear_handle_if_worker(worker_id);
                true
            } else {
                false
            }
        } else {
            self.clear_handle_if_worker(worker_id);
            false
        }
    }

    /// Draws the consequences of an open that failed: the worker that the session has to give back,
    /// if it has to.
    pub fn after_open_failure(&mut self, fresh_lease: bool, err: &ToolError) -> (r: Option<usize>)
        ensures
            r == (if releases_on_open(fresh_lease, err@) {
                old(self).handle
            } else {
                None
            }),
            final(self).handle == (if releases_on_open(fresh_lease, err@) {
                None
            } else {
                old(self).handle
            }),
            final(self).session_id == old(self).session_id,
    {
        if open_error_releases_lease(fresh_lease, err) {
            self.take_handle()
        } else {
            None
        }
    }
}

// ---------------------------------------------------------------------------
// Calls that were dropped
// ---------------------------------------------------------------------------

/// Why a worker is taken out whose call or release was dropped.
#[derive(Debug)]
pub enum WorkerRetireReason {
    Release,
    Call { tool: String },
}

impl WorkerRetireReason {
    /// What is logged where nothing can be done for the worker any more.
    pub fn warn_missing_runtime(&self) -> (r: &'static str)
        ensures
            r@ == (match self {
                WorkerRetireReason::Release =>
                    "release cleanup was dropped outside a Tokio runtime; worker may remain unreleased"@,
                WorkerRetireReason::Call { .. } =>
                    "pooled worker call was dropped outside a Tokio runtime; worker may remain leased"@,
            }),
    {
        match self {
            WorkerRetireReason::Release =>
                "release cleanup was dropped outside a Tokio runtime; worker may remain unreleased",
            WorkerRetireReason::Call { .. } =>
                "pooled worker call was dropped outside a Tokio runtime; worker may remain leased",
        }
    }

    /// What is logged where the worker is taken out.
    pub fn warn_retiring_worker(&self) -> (r: &'static str)
        ensures
            r@ == (match self {
                WorkerRetireReason::Release =>
                    "release cleanup was dropped before worker release completed; retiring worker"@,
                WorkerRetireReason::Call { .. } =>
                    "pooled worker call was dropped before completion; retiring worker"@,
            }),
    {
        match self {
            WorkerRetireReason::Release =>
                "release cleanup was dropped before worker release completed; retiring worker",
            WorkerRetireReason::Call { .. } =>
                "pooled worker call was dropped before completion; retiring worker",
        }
    }
}

// ---------------------------------------------------------------------------
// What an end means for a worker
// ---------------------------------------------------------------------------

/// A worker loses its place only to an error of the worker itself: to a time
/// that ran out, to a cancellation, to a crash, to an answer that cannot be
/// read, to a closed connection. What the disassembler or the request has
/// wrong costs it nothing, at a release, in a call or at an open.
pub proof fn lemma_request_errors_cost_nothing(message: Seq<char>, active: usize, max: usize)
    ensures
        forall|e: ToolErrorV|
            #![trigger retires_on_release(e)]
            e == ToolErrorV::NoDatabaseOpen || e == ToolErrorV::DatabaseAlreadyOpen(message) || e
                == ToolErrorV::DatabaseLocked(message) || e == ToolErrorV::OpenFailed(message) || e
                == ToolErrorV::InvalidPath(message) || e == ToolErrorV::InvalidAddress(message) || e
                == ToolErrorV::InvalidParams(message) || e == ToolErrorV::NotSupported(message) || e
                == ToolErrorV::IdaError(message) || e == ToolErrorV::SdkVersionMismatch(message)
                || e == (ToolErrorV::PoolExhausted { active, max }) ==> !retires_on_release(e)
                && !retires_on_call(e) && !releases_on_open(false, e),
{
}

/// A time that ran out and a cancellation retire a worker at its release and
/// end a lease at an open, and leave it alone in a call, which deals with them
/// itself. A crash and a closed connection cost the place in all three, and an
/// answer that cannot be read in all but the open.
pub proof fn lemma_worker_errors_cost_the_place(
    message: Seq<char>,
    secs: u64,
    worker_id: usize,
    fresh: bool,
)
    ensures
        retires_on_release(ToolErrorV::Timeout(secs)) && retires_on_release(
            ToolErrorV::TimeoutDetailed(message),
        ) && retires_on_release(ToolErrorV::Cancelled(message)),
        retires_on_release(ToolErrorV::WorkerCrashed { worker_id, last_op: message })
            && retires_on_release(ToolErrorV::RemoteProtocol(message)) && retires_on_release(
            ToolErrorV::WorkerClosed,
        ),
        retires_on_call(ToolErrorV::WorkerCrashed { worker_id, last_op: message })
            && retires_on_call(ToolErrorV::RemoteProtocol(message)) && retires_on_call(
            ToolErrorV::WorkerClosed,
        ),
        !retires_on_call(ToolErrorV::Timeout(secs)) && !retires_on_call(
            ToolErrorV::TimeoutDetailed(message),
        ) && !retires_on_call(ToolErrorV::Cancelled(message)),
        releases_on_open(fresh, ToolErrorV::Timeout(secs)) && releases_on_open(
            fresh,
            ToolErrorV::TimeoutDetailed(message),
        ) && releases_on_open(fresh, ToolErrorV::Cancelled(message)),
        releases_on_open(fresh, ToolErrorV::WorkerCrashed { worker_id, last_op: message })
            && releases_on_open(fresh, ToolErrorV::WorkerClosed),
        !releases_on_open(false, ToolErrorV::RemoteProtocol(message)),
        releases_on_open(true, ToolErrorV::RemoteProtocol(message)),
{
}

/// A call has the time that it asks for, ten minutes at most, and ten seconds
/// more, unless the pool allows less; one that asks for none has what the pool
/// allows. An open has no bound but the ten minutes.
pub proof fn lemma_time_of_a_call(config: WorkerPoolConfig, secs: u64, default_secs: u64)
    ensures
        secs <= 600 && secs + 10 <= config.worker_op_timeout_secs ==> call_secs(config, Some(secs))
            == secs + 10,
        secs <= 600 && secs + 10 > config.worker_op_timeout_secs ==> call_secs(config, Some(secs))
            == config.worker_op_timeout_secs,
        secs > 600 ==> call_secs(config, Some(secs)) == call_secs(config, Some(600)),
        call_secs(config, None) == config.worker_op_timeout_secs,
        secs <= 600 ==> with_grace(Some(secs), default_secs) == secs + 10,
        secs > 600 ==> with_grace(Some(secs), default_secs) == 610,
        with_grace(None, default_secs) == with_grace(Some(default_secs), secs),
{
}

/// A call is let through for the session that has the worker and for no other;
/// a dead worker is reported as crashed, with the tool that found it so.
pub proof fn lemma_who_may_call(
    state: ChildStateV,
    worker_id: usize,
    session: Seq<char>,
    tool: Seq<char>,
)
    ensures
        call_refused(state, worker_id, session, tool) is None <==> state == (ChildStateV::Leased {
            session_id: session,
        }),
        call_refused(ChildStateV::Dead, worker_id, session, tool) == Some(
            ToolErrorV::WorkerCrashed { worker_id, last_op: tool },
        ),
        call_refused(ChildStateV::Idle, worker_id, session, tool) matches Some(
            ToolErrorOf::RemoteProtocol(_),
        ),
        call_refused(ChildStateV::Closing, worker_id, session, tool) matches Some(
            ToolErrorOf::RemoteProtocol(_),
        ),
{
}

/// A call that is answered is no error; each other end is the error of its
/// kind, and every one of them retires the worker at its release.
pub proof fn lemma_ends_of_a_call(end: CallEndOf<Seq<char>>, worker_id: usize, tool: Seq<char>)
    ensures
        call_error(end, worker_id, tool) is None <==> end is Answered,
        end is Cancelled ==> call_error(end, worker_id, tool)->0 is Cancelled,
        end is TimedOut ==> call_error(end, worker_id, tool)->0 is TimeoutDetailed,
        end matches CallEndOf::Broken(e) ==> call_error(end, worker_id, tool) == Some(
            ToolErrorV::WorkerCrashed { worker_id, last_op: tool + ": "@ + e },
        ),
        call_error(end, worker_id, tool) is Some ==> retires_on_release(
            call_error(end, worker_id, tool)->0,
        ),
{
}

/// A close that is answered without an error has none; one that is not
/// answered in time has run out of its five seconds.
pub proof fn lemma_ends_of_a_close(error: Option<ToolErrorV>, e: ToolErrorV)
    ensures
        close_error(CloseEndOf::Answered { is_error: false, error }) is None,
        close_error(CloseEndOf::Answered { is_error: true, error }) == error,
        close_error(CloseEndOf::Failed(e)) == Some(e),
        close_error(CloseEndOf::TimedOut) == Some(ToolErrorV::Timeout(5)),
{
}

/// A worker that closes is marked as closing and keeps all else; the other
/// workers stay as they were.
pub proof fn lemma_closing_worker(st: PoolV, at: int)
    requires
        st.inv(),
        0 <= at < st.children.len(),
        st.children[at].state != ChildStateV::Dead,
    ensures
        ({
            let after = closing(st, st.children[at].id);
            &&& after.children == st.children.update(
                at,
                SlotOf { state: ChildStateV::Closing, ..st.children[at] },
            )
            &&& after.spawning == st.spawning && after.next_id == st.next_id
        }),
{
    lemma_place_in_pool(st.children, 0, at);
}

proof fn lemma_place_in_pool(children: Seq<SlotV>, from: int, at: int)
    requires
        0 <= from <= at < children.len(),
        forall|i: int, j: int|
            0 <= i < j < children.len() ==> (#[trigger] children[i]).id != (
            #[trigger] children[j]).id,
    ensures
        slot_at(children, children[at].id, from) == at,
    decreases at - from,
{
    if from < at {
        assert(children[from].id != children[at].id);
        lemma_place_in_pool(children, from + 1, at);
    }
}

/// A worker that is released without an error of its own waits again, as used
/// now and with no database, and the other workers stay as they were. One that
/// has an error of its own leaves the pool, and the error is passed on.
pub proof fn lemma_release(st: PoolV, at: int, error: Option<ToolErrorV>, now: u64)
    requires
        st.inv(),
        0 <= at < st.children.len(),
        st.children[at].state != ChildStateV::Dead,
    ensures
        error is None || !retires_on_release(error->0) ==> {
            let after = released(st, st.children[at].id, error, now);
            &&& after.1 == Ok::<(), ToolErrorV>(())
            &&& after.0.children.len() == st.children.len()
            &&& after.0.children[at].state == ChildStateV::Idle
            &&& after.0.children[at].last_used == now
            &&& after.0.children[at].idb_path is None
            &&& after.0.children[at].id == st.children[at].id
            &&& after.0.children[at].pid == st.children[at].pid
            &&& after.0.children[at].spawned_at == st.children[at].spawned_at
            &&& forall|j: int|
                0 <= j < st.children.len() && j != at ==> #[trigger] after.0.children[j]
                    == st.children[j]
        },
        error is Some && retires_on_release(error->0) ==> {
            let after = released(st, st.children[at].id, error, now);
            &&& after.1 == Err::<(), ToolErrorV>(error->0)
            &&& forall|j: int|
                0 <= j < after.0.children.len() ==> (#[trigger] after.0.children[j]).id
                    != st.children[at].id
            &&& forall|j: int|
                0 <= j < st.children.len() && j != at ==> after.0.children.contains(
                    #[trigger] st.children[j],
                )
        },
{
    broadcast use vstd::seq_lib::group_filter_ensures;

    let id = st.children[at].id;
    lemma_place_in_pool(st.children, 0, at);
    if error is Some && retires_on_release(error->0) {
        let keep = |s: SlotV| s.id != id;
        let all = killed(st, id).children;
        let left = released(st, id, error, now).0.children;
        assert forall|j: int| 0 <= j < left.len() implies (#[trigger] left[j]).id != id by {
            assert(keep(all.filter(keep)[j]));
        }
        assert forall|j: int| 0 <= j < st.children.len() && j != at implies left.contains(
            #[trigger] st.children[j],
        ) by {
            assert(all[j] == st.children[j]);
            assert(st.children[at].id == id);
            assert(keep(all[j]));
        }
    }
}

/// How long a worker may stay unused, where it may not stay so for ever.
pub open spec fn reap_delay(st: PoolV, id: usize) -> Option<u64> {
    match st.state_of(id) {
        ChildStateOf::Idle => if st.config.worker_idle_timeout_millis == 0 {
            None
        } else {
            Some(st.config.worker_idle_timeout_millis)
        },
        _ => None,
    }
}

/// Only a worker that waits goes for being unused, after the time that is set;
/// a time of zero is none.
pub proof fn lemma_unused_workers(st: PoolV, id: usize)
    ensures
        reap_delay(st, id) matches Some(t) ==> t > 0 && t == st.config.worker_idle_timeout_millis
            && st.state_of(id) is Idle,
        st.state_of(id) is Idle && st.config.worker_idle_timeout_millis > 0 ==> reap_delay(st, id)
            is Some,
{
}

} // verus!
