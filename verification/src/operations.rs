//! Operations that a session waits for: how they end, what is recorded and what is answered.

use crate::errors::{ToolError, ToolErrorOf, ToolErrorV};
use crate::json::{FieldsV, Json, JsonV};
use crate::json_text::{pretty_json, pretty_of};
use crate::numbers::{decimal, decimal_text};
use crate::pool::MAX_TIMEOUT_SECS;
use crate::scripts::{
    failure_paragraphs, run_script_failure_message, run_script_succeeded,
    run_script_timeout_message, timeout_text,
};
use crate::sessions::lower_of;
use crate::text::{joined, opt_view};
use crate::values::or_else;
use crate::worker_loop::{flag_in, opt_error};
use vstd::prelude::*;
use vstd::utf8::encode_utf8;

verus! {

/// How an operation stands.
#[derive(Clone, Copy, Debug, PartialEq, Eq, Structural)]
pub enum OperationStatus {
    Running,
    Completed,
    Failed,
    TimedOut,
    Cancelled,
}

/// What is known of an operation, over the type of texts.
#[derive(Debug)]
pub struct SnapshotOf<T> {
    pub op_id: T,
    pub tool: T,
    pub target_summary: T,
    pub phase: T,
    pub status: OperationStatus,
    pub message: T,
    pub started_at_ms: u64,
    pub last_update_ms: u64,
    pub elapsed_ms: u64,
}

/// What is known of an operation.
pub type OperationSnapshot = SnapshotOf<String>;

/// What an [`OperationSnapshot`] is.
pub type SnapshotV = SnapshotOf<Seq<char>>;

impl View for SnapshotOf<String> {
    type V = SnapshotV;

    open spec fn view(&self) -> SnapshotV {
        SnapshotOf {
            op_id: self.op_id@,
            tool: self.tool@,
            target_summary: self.target_summary@,
            phase: self.phase@,
            status: self.status,
            message: self.message@,
            started_at_ms: self.started_at_ms,
            last_update_ms: self.last_update_ms,
            elapsed_ms: self.elapsed_ms,
        }
    }
}

/// How long a session waits for an operation.
pub open spec fn wait_limit(timeout_secs: Option<u64>, default_secs: u64) -> u64 {
    lower_of(or_else(timeout_secs, default_secs), MAX_TIMEOUT_SECS)
}

/// How long a session waits for an operation, in seconds.
pub fn operation_timeout(timeout_secs: Option<u64>, default_timeout_secs: u64) -> (r: u64)
    ensures
        r == wait_limit(timeout_secs, default_timeout_secs),
        r <= MAX_TIMEOUT_SECS,
{
    let asked: u64 = match timeout_secs {
        Some(s) => s,
        None => default_timeout_secs,
    };
    if asked < MAX_TIMEOUT_SECS {
        asked
    } else {
        MAX_TIMEOUT_SECS
    }
}

/// How the wait for an operation ended, over the types of texts and of errors with their texts.
#[derive(Debug)]
pub enum WaitEndOf<E> {
    /// The operation succeeded.
    Succeeded,
    /// The operation failed.
    Failed(E),
    /// It took longer than so many seconds.
    TimedOut(u64),
    /// The client cancelled it.
    Cancelled,
}

/// How the wait for an operation ended; the text of an error comes with it.
pub type WaitEnd = WaitEndOf<(ToolError, String)>;

/// What a [`WaitEnd`] is.
pub type WaitEndV = WaitEndOf<(ToolErrorV, Seq<char>)>;

/// What the end of a wait is.
pub open spec fn wait_view(end: WaitEnd) -> WaitEndV {
    match end {
        WaitEndOf::Succeeded => WaitEndOf::Succeeded,
        WaitEndOf::Failed(e) => WaitEndOf::Failed((e.0@, e.1@)),
        WaitEndOf::TimedOut(s) => WaitEndOf::TimedOut(s),
        WaitEndOf::Cancelled => WaitEndOf::Cancelled,
    }
}

/// How the wait for an operation ends, if it does: a result counts before a cancellation, and a
/// cancellation before the end of the time.
pub open spec fn wait_ended(
    result: Option<Option<(ToolErrorV, Seq<char>)>>,
    cancelled: bool,
    time_over: bool,
    limit_secs: u64,
) -> Option<WaitEndV> {
    match result {
        Some(None) => Some(WaitEndOf::Succeeded),
        Some(Some(e)) => Some(WaitEndOf::Failed(e)),
        None => if cancelled {
            Some(WaitEndOf::Cancelled)
        } else if time_over {
            Some(WaitEndOf::TimedOut(limit_secs))
        } else {
            None
        },
    }
}

/// The error of an operation and its text, where it has one.
pub open spec fn result_view(result: Option<Option<(ToolError, String)>>) -> Option<
    Option<(ToolErrorV, Seq<char>)>,
> {
    match result {
        Some(Some(e)) => Some(Some((e.0@, e.1@))),
        Some(None) => Some(None),
        None => None,
    }
}

/// How the wait for an operation ends, if it does. `result` is there once the operation has ended by
/// itself: nothing where it succeeded, else its error and the text of it.
pub fn wait_end(
    result: Option<Option<(ToolError, String)>>,
    cancelled: bool,
    time_over: bool,
    limit_secs: u64,
) -> (r: Option<WaitEnd>)
    ensures
        match r {
            Some(end) => wait_ended(result_view(result), cancelled, time_over, limit_secs) == Some(
                wait_view(end),
            ),
            None => wait_ended(result_view(result), cancelled, time_over, limit_secs) is None,
        },
{
    match result {
        Some(None) => Some(WaitEndOf::Succeeded),
        Some(Some(e)) => Some(WaitEndOf::Failed(e)),
        None => if cancelled {
            Some(WaitEndOf::Cancelled)
        } else if time_over {
            Some(WaitEndOf::TimedOut(limit_secs))
        } else {
            None
        },
    }
}

/// What a script is recorded as: by how many bytes its code takes.
pub fn script_summary(code: &str) -> (r: String)
    ensures
        r@ == "code_len="@ + decimal(encode_utf8(code@).len()),
{
    let mut m = "code_len=".to_owned();
    m.push_str(decimal_text(code.as_bytes().len() as u64).as_str());
    m
}

/// What is recorded of an operation that has ended, over the type of texts.
#[derive(Debug)]
pub struct ConclusionOf<T> {
    pub status: OperationStatus,
    pub message: T,
    /// The phase of an operation that nothing else is known of.
    pub phase: T,
}

/// What is recorded of an operation that has ended.
pub open spec fn concluded(tool: Seq<char>, end: WaitEndV) -> ConclusionOf<Seq<char>> {
    match end {
        WaitEndOf::Succeeded => ConclusionOf {
            status: OperationStatus::Completed,
            message: tool + " completed successfully"@,
            phase: "completed"@,
        },
        WaitEndOf::Failed((ToolErrorOf::Cancelled(_), _)) => ConclusionOf {
            status: OperationStatus::Cancelled,
            message: tool + " cancelled"@,
            phase: "cancelled"@,
        },
        WaitEndOf::Failed((_, text)) => ConclusionOf {
            status: OperationStatus::Failed,
            message: tool + " failed: "@ + text,
            phase: "failed"@,
        },
        WaitEndOf::TimedOut(secs) => ConclusionOf {
            status: OperationStatus::TimedOut,
            message: tool + " timed out after "@ + decimal(secs as nat) + "s"@,
            phase: "timed_out"@,
        },
        WaitEndOf::Cancelled => ConclusionOf {
            status: OperationStatus::Cancelled,
            message: tool + " cancelled by client"@,
            phase: "cancelled"@,
        },
    }
}

fn after(tool: &str, rest: &str) -> (r: String)
    ensures
        r@ == tool@ + rest@,
{
    let mut m = tool.to_owned();
    m.push_str(rest);
    m
}

/// What is recorded of an operation that has ended.
pub fn conclude(tool: &str, end: &WaitEnd) -> (r: ConclusionOf<String>)
    ensures
        ({
            let want = concluded(tool@, wait_view(*end));
            r.status == want.status && r.message@ == want.message && r.phase@ == want.phase
        }),
{
    match end {
        WaitEndOf::Succeeded => ConclusionOf {
            status: OperationStatus::Completed,
            message: after(tool, " completed successfully"),
            phase: "completed".to_owned(),
        },
        WaitEndOf::Failed(e) => {
            let cancelled: bool = match &e.0 {
                ToolErrorOf::Cancelled(_) => true,
                _ => false,
            };
            if cancelled {
                ConclusionOf {
                    status: OperationStatus::Cancelled,
                    message: after(tool, " cancelled"),
                    phase: "cancelled".to_owned(),
                }
            } else {
                let mut m = after(tool, " failed: ");
                m.push_str(e.1.as_str());
                ConclusionOf {
                    status: OperationStatus::Failed,
                    message: m,
                    phase: "failed".to_owned(),
                }
            }
        },
        WaitEndOf::TimedOut(secs) => {
            let mut m = after(tool, " timed out after ");
            m.push_str(decimal_text(*secs).as_str());
            m.push_str("s");
            ConclusionOf {
                status: OperationStatus::TimedOut,
                message: m,
                phase: "timed_out".to_owned(),
            }
        },
        WaitEndOf::Cancelled => ConclusionOf {
            status: OperationStatus::Cancelled,
            message: after(tool, " cancelled by client"),
            phase: "cancelled".to_owned(),
        },
    }
}

/// Whether an operation has to be cancelled and given time to clean up: where it did not end by
/// itself.
pub fn must_clean_up(end: &WaitEnd) -> (r: bool)
    ensures
        r == (wait_view(*end) is TimedOut || wait_view(*end) is Cancelled),
{
    match end {
        WaitEndOf::TimedOut(_) => true,
        WaitEndOf::Cancelled => true,
        _ => false,
    }
}

/// What is known of an operation that no record is left of.
pub open spec fn fallback(op_id: Seq<char>, tool: Seq<char>, end: ConclusionOf<Seq<char>>) -> SnapshotV {
    SnapshotOf {
        op_id,
        tool,
        target_summary: "unknown"@,
        phase: end.phase,
        status: end.status,
        message: end.message,
        started_at_ms: 0,
        last_update_ms: 0,
        elapsed_ms: 0,
    }
}

/// What is known of an operation that no record is left of.
pub fn fallback_operation_snapshot(
    op_id: &str,
    tool_name: &str,
    phase: &str,
    status: OperationStatus,
    message: String,
) -> (r: OperationSnapshot)
    ensures
        r@ == fallback(
            op_id@,
            tool_name@,
            (ConclusionOf { status, message: message@, phase: phase@ }),
        ),
{
    SnapshotOf {
        op_id: op_id.to_owned(),
        tool: tool_name.to_owned(),
        target_summary: "unknown".to_owned(),
        phase: phase.to_owned(),
        status,
        message,
        started_at_ms: 0,
        last_update_ms: 0,
        elapsed_ms: 0,
    }
}

/// Where an operation was when it ended.
pub open spec fn trail(snapshot: SnapshotV) -> Seq<char> {
    "\nLast known phase: "@ + snapshot.phase + ".\nOperation id: "@ + snapshot.op_id
        + ".\nElapsed: "@ + decimal(snapshot.elapsed_ms as nat)
        + " ms.\nCheck recent_operations for the recorded event trail."@
}

fn trail_text(snapshot: &OperationSnapshot) -> (r: String)
    ensures
        r@ == trail(snapshot@),
{
    let mut m = "\nLast known phase: ".to_owned();
    m.push_str(snapshot.phase.as_str());
    m.push_str(".\nOperation id: ");
    m.push_str(snapshot.op_id.as_str());
    m.push_str(".\nElapsed: ");
    m.push_str(decimal_text(snapshot.elapsed_ms).as_str());
    m.push_str(" ms.\nCheck recent_operations for the recorded event trail.");
    m
}

/// What is said of an operation that took too long.
pub open spec fn timed_out_text(
    tool: Seq<char>,
    secs: nat,
    snapshot: SnapshotV,
    detail: Option<Seq<char>>,
) -> Seq<char> {
    let base = tool + " timed out after "@ + decimal(secs) + " seconds."@ + trail(snapshot);
    match detail {
        Some(d) => base + "\n\n"@ + d,
        None => base,
    }
}

/// What is said of an operation that took too long.
pub fn operation_timeout_message(
    tool_name: &str,
    timeout_secs: u64,
    snapshot: &OperationSnapshot,
    detail: &Option<String>,
) -> (r: String)
    ensures
        r@ == timed_out_text(tool_name@, timeout_secs as nat, snapshot@, opt_view(*detail)),
{
    let mut m = after(tool_name, " timed out after ");
    m.push_str(decimal_text(timeout_secs).as_str());
    m.push_str(" seconds.");
    m.push_str(trail_text(snapshot).as_str());
    if let Some(d) = detail {
        m.push_str("\n\n");
        m.push_str(d.as_str());
    }
    m
}

/// What is said of an operation that the client cancelled.
pub open spec fn cancelled_text(tool: Seq<char>, snapshot: SnapshotV) -> Seq<char> {
    tool + " was cancelled by the client."@ + trail(snapshot)
}

/// What is said of an operation that the client cancelled.
pub fn operation_cancelled_message(tool_name: &str, snapshot: &OperationSnapshot) -> (r: String)
    ensures
        r@ == cancelled_text(tool_name@, snapshot@),
{
    let mut m = after(tool_name, " was cancelled by the client.");
    m.push_str(trail_text(snapshot).as_str());
    m
}

/// The error that a session is answered with, if its operation did not succeed: of an operation that
/// took too long or was cancelled, where it was.
pub open spec fn operation_error(
    tool: Seq<char>,
    end: WaitEndV,
    snapshot: SnapshotV,
    detail: Option<Seq<char>>,
) -> Option<ToolErrorV> {
    match end {
        WaitEndOf::Succeeded => None,
        WaitEndOf::Failed((ToolErrorOf::Cancelled(_), _)) => Some(
            ToolErrorOf::Cancelled(cancelled_text(tool, snapshot)),
        ),
        WaitEndOf::Failed((e, _)) => Some(e),
        WaitEndOf::TimedOut(secs) => Some(
            ToolErrorOf::TimeoutDetailed(timed_out_text(tool, secs as nat, snapshot, detail)),
        ),
        WaitEndOf::Cancelled => Some(ToolErrorOf::Cancelled(cancelled_text(tool, snapshot))),
    }
}

/// The error that a session is answered with, if its operation did not succeed. `snapshot` is what
/// is known of the operation, where a record is left of it.
pub fn run_foreground_operation(
    op_id: &str,
    tool: &str,
    end: WaitEnd,
    snapshot: Option<OperationSnapshot>,
    detail: &Option<String>,
) -> (r: Option<ToolError>)
    ensures
        ({
            let known = match snapshot {
                Some(s) => s@,
                None => fallback(op_id@, tool@, concluded(tool@, wait_view(end))),
            };
            opt_error(r) == operation_error(
                tool@,
                wait_view(end),
                known,
                opt_view(*detail),
            )
        }),
{
    let known = match snapshot {
        Some(s) => s,
        None => {
            let c = conclude(tool, &end);
            fallback_operation_snapshot(op_id, tool, c.phase.as_str(), c.status, c.message)
        },
    };
    match end {
        WaitEndOf::Succeeded => None,
        WaitEndOf::Failed(e) => match e.0 {
            ToolErrorOf::Cancelled(_) => Some(
                ToolErrorOf::Cancelled(operation_cancelled_message(tool, &known)),
            ),
            other => Some(other),
        },
        WaitEndOf::TimedOut(secs) => Some(
            ToolErrorOf::TimeoutDetailed(operation_timeout_message(tool, secs, &known, detail)),
        ),
        WaitEndOf::Cancelled => Some(
            ToolErrorOf::Cancelled(operation_cancelled_message(tool, &known)),
        ),
    }
}

/// What a session is answered once its script has run: what the script gave, as a text, or why it
/// failed.
pub open spec fn script_answer(result: JsonV) -> Result<Seq<char>, ToolErrorV> {
    if flag_in(result, "success"@) {
        Ok(pretty_of(result))
    } else {
        Err(ToolErrorOf::IdaError(joined(failure_paragraphs(result), "\n\n"@)))
    }
}

/// What a session is answered once its script has run.
pub fn run_script_answer(result: &Json) -> (r: Result<String, ToolError>)
    ensures
        match r {
            Ok(text) => script_answer(result@) == Ok::<Seq<char>, ToolErrorV>(text@),
            Err(e) => script_answer(result@) == Err::<Seq<char>, ToolErrorV>(e@),
        },
{
    if run_script_succeeded(result) {
        Ok(pretty_json(result))
    } else {
        Err(ToolErrorOf::IdaError(run_script_failure_message(result)))
    }
}

/// The error that a session is answered with, if its script did not run to its end: of one that took
/// too long, with the start of its code.
pub fn run_script_error(
    op_id: &str,
    code: &str,
    end: WaitEnd,
    snapshot: Option<OperationSnapshot>,
) -> (r: Option<ToolError>)
    ensures
        ({
            let known = match snapshot {
                Some(s) => s@,
                None => fallback(
                    op_id@,
                    "run_script"@,
                    concluded("run_script"@, wait_view(end)),
                ),
            };
            let detail = match wait_view(end) {
                WaitEndOf::TimedOut(secs) => Some(timeout_text(secs as nat, code@)),
                _ => None,
            };
            opt_error(r) == operation_error("run_script"@, wait_view(end), known, detail)
        }),
{
    let detail: Option<String> = match &end {
        WaitEndOf::TimedOut(secs) => Some(run_script_timeout_message(*secs, code)),
        _ => None,
    };
    run_foreground_operation(op_id, "run_script", end, snapshot, &detail)
}

/// An operation is answered with an error if and only if it is not recorded as completed.
pub proof fn lemma_answer_fits_record(
    tool: Seq<char>,
    end: WaitEndV,
    snapshot: SnapshotV,
    detail: Option<Seq<char>>,
)
    ensures
        operation_error(tool, end, snapshot, detail) is None <==> concluded(tool, end).status
            == OperationStatus::Completed,
        concluded(tool, end).status == OperationStatus::Cancelled ==> (operation_error(
            tool,
            end,
            snapshot,
            detail,
        ) matches Some(e) && e is Cancelled),
        concluded(tool, end).status == OperationStatus::TimedOut ==> (operation_error(
            tool,
            end,
            snapshot,
            detail,
        ) matches Some(e) && e is TimeoutDetailed),
{
}

// ---------------------------------------------------------------------------
// How an operation ends
// ---------------------------------------------------------------------------

/// An operation waits as long as it asks for, and as long as is usual where it
/// does not ask, but never longer than ten minutes.
pub proof fn lemma_wait_limits(secs: u64, default_secs: u64)
    ensures
        secs <= 600 ==> wait_limit(Some(secs), default_secs) == secs,
        secs > 600 ==> wait_limit(Some(secs), default_secs) == 600,
        wait_limit(None, default_secs) == wait_limit(Some(default_secs), secs),
{
}

/// A result counts before a cancellation and a cancellation before the time:
/// the wait goes on only where there is none of the three.
pub proof fn lemma_first_end_counts(
    result: Option<Option<(ToolErrorV, Seq<char>)>>,
    cancelled: bool,
    time_over: bool,
    limit: u64,
)
    ensures
        wait_ended(result, cancelled, time_over, limit) is None <==> result is None && !cancelled
            && !time_over,
        wait_ended(Some(None), cancelled, time_over, limit) == Some(WaitEndV::Succeeded),
        result matches Some(Some(e)) ==> wait_ended(result, cancelled, time_over, limit) == Some(
            WaitEndV::Failed(e),
        ),
        wait_ended(None, true, time_over, limit) == Some(WaitEndV::Cancelled),
        wait_ended(None, false, true, limit) == Some(WaitEndV::TimedOut(limit)),
{
}

/// How an operation is recorded: as completed, cancelled, failed or timed out,
/// and a failure that is a cancellation as cancelled.
pub proof fn lemma_recorded_ends(tool: Seq<char>, e: ToolErrorV, text: Seq<char>, secs: u64)
    ensures
        concluded(tool, WaitEndOf::Succeeded).status == OperationStatus::Completed,
        concluded(tool, WaitEndOf::Cancelled).status == OperationStatus::Cancelled,
        concluded(tool, WaitEndOf::TimedOut(secs)).status == OperationStatus::TimedOut,
        concluded(tool, WaitEndOf::TimedOut(secs)).message == tool + " timed out after "@ + decimal(
            secs as nat,
        ) + "s"@,
        concluded(tool, WaitEndOf::Failed((e, text))).status == (if e is Cancelled {
            OperationStatus::Cancelled
        } else {
            OperationStatus::Failed
        }),
        !(e is Cancelled) ==> concluded(tool, WaitEndOf::Failed((e, text))).message == tool
            + " failed: "@ + text,
        forall|end: WaitEndV|
            #![trigger concluded(tool, end)]
            concluded(tool, end).phase == (match concluded(tool, end).status {
                OperationStatus::Completed => "completed"@,
                OperationStatus::Cancelled => "cancelled"@,
                OperationStatus::TimedOut => "timed_out"@,
                _ => "failed"@,
            }),
{
}

/// What the caller is told: nothing of a success, the error itself of a
/// failure, and of a time that ran out and of a cancellation the phase, the
/// operation and the time that it took.
pub proof fn lemma_what_the_caller_is_told(
    tool: Seq<char>,
    e: ToolErrorV,
    text: Seq<char>,
    secs: u64,
    snapshot: SnapshotV,
    detail: Seq<char>,
)
    ensures
        operation_error(tool, WaitEndOf::Succeeded, snapshot, None) is None,
        !(e is Cancelled) ==> operation_error(tool, WaitEndOf::Failed((e, text)), snapshot, None)
            == Some(e),
        operation_error(tool, WaitEndOf::TimedOut(secs), snapshot, None) == Some(
            ToolErrorV::TimeoutDetailed(
                tool + " timed out after "@ + decimal(secs as nat) + " seconds."@ + trail(snapshot),
            ),
        ),
        operation_error(tool, WaitEndOf::TimedOut(secs), snapshot, Some(detail)) == Some(
            ToolErrorV::TimeoutDetailed(
                tool + " timed out after "@ + decimal(secs as nat) + " seconds."@ + trail(snapshot)
                    + "\n\n"@ + detail,
            ),
        ),
        trail(snapshot) == "\nLast known phase: "@ + snapshot.phase + ".\nOperation id: "@
            + snapshot.op_id + ".\nElapsed: "@ + decimal(snapshot.elapsed_ms as nat)
            + " ms.\nCheck recent_operations for the recorded event trail."@,
{
}

/// A script that says that it succeeded is answered with what it gave, whole;
/// any other is an error of the disassembler.
pub proof fn lemma_script_answers(m: FieldsV)
    ensures
        m.dom().contains("success"@) && m["success"@] == JsonV::Bool(true) ==> script_answer(
            JsonV::Obj(m),
        ) == Ok::<Seq<char>, ToolErrorV>(pretty_of(JsonV::Obj(m))),
        !m.dom().contains("success"@) || m["success"@] != JsonV::Bool(true) ==> (script_answer(
            JsonV::Obj(m),
        ) matches Err(e) && e is IdaError),
{
}

/// An operation without a record is told of by its end, with no times.
pub proof fn lemma_unrecorded_operation(op_id: Seq<char>, tool: Seq<char>, end: ConclusionOf<Seq<char>>)
    ensures
        fallback(op_id, tool, end).op_id == op_id,
        fallback(op_id, tool, end).tool == tool,
        fallback(op_id, tool, end).phase == end.phase,
        fallback(op_id, tool, end).status == end.status,
        fallback(op_id, tool, end).message == end.message,
        fallback(op_id, tool, end).elapsed_ms == 0,
{
}

} // verus!
