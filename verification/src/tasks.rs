//! Tasks in the background, as clients see them, and databases that are made in one.

use crate::database::{OpenRequest, OpenRequestOf, OpenRequestV};
use crate::errors::{ToolError, ToolErrorOf, ToolErrorV};
use crate::json::{
    no_fields, number_v, text_field, text_v, texts_v, FieldsV, Json, JsonObject, JsonV, NumV,
};
use crate::json_text::{json_in, pretty_json, pretty_of, read_json, to_value};
use crate::numbers::{hex, hex_text, signed_decimal, signed_text};
use crate::paths::{
    join_of, join_path, lemma_extension, lemma_parent_of_joined, parent, parent_of, with_extension,
    with_extension_of,
};
use crate::pool::MAX_TIMEOUT_SECS;
use crate::protocol::opt_json;
use crate::scripts::{
    dsc_analysis_next_steps, failure_paragraphs, next_steps, run_script_failure_message,
    run_script_field, run_script_succeeded, run_script_tail_lines, run_script_timeout_message,
    tail_of, text_or_nothing, timeout_text,
};
use crate::server::{apply_close_metadata, with_close_metadata, Grant, ServerMode};
use crate::sessions::lower_of;
use crate::text::{
    contains, copy_opt, is_white, joined, lemma_blank_is_trimmed_away, lemma_occurs_inside,
    lemma_trim_padding, occurs, opt_view, trim, trimmed, views,
};
use crate::values::{
    number_param, only_address_in, optional_secs, or_else, parse_optional_unsigned, secs_param,
    value_to_exactly_one_address, IntKind,
};
use crate::worker_loop::{flag_in, opt_error};
use vstd::prelude::*;

verus! {

/// How a task stands.
#[derive(Clone, Copy, Debug, PartialEq, Eq, Structural)]
pub enum TaskStatus {
    Running,
    Completed,
    Failed,
    Cancelled,
}

/// How a task stands, in words.
pub open spec fn status_word(status: TaskStatus) -> Seq<char> {
    match status {
        TaskStatus::Running => "running"@,
        TaskStatus::Completed => "completed"@,
        TaskStatus::Failed => "failed"@,
        TaskStatus::Cancelled => "cancelled"@,
    }
}

/// How a task stands, in words.
pub fn status_text(status: TaskStatus) -> (r: &'static str)
    ensures
        r@ == status_word(status),
{
    match status {
        TaskStatus::Running => "running",
        TaskStatus::Completed => "completed",
        TaskStatus::Failed => "failed",
        TaskStatus::Cancelled => "cancelled",
    }
}

/// What is told of a task.
pub open spec fn task_fields(
    id: Seq<char>,
    status: TaskStatus,
    message: Seq<char>,
    elapsed_secs: nat,
    result: Option<JsonV>,
) -> FieldsV {
    let base = no_fields().insert("task_id"@, text_v(id)).insert(
        "status"@,
        text_v(status_word(status)),
    ).insert("message"@, text_v(message)).insert("elapsed_secs"@, number_v(elapsed_secs));
    match result {
        Some(v) => base.insert("result"@, v),
        None => base,
    }
}

/// What is told of a task.
pub fn task_status_reply(
    id: &str,
    status: TaskStatus,
    message: &str,
    elapsed_secs: u64,
    result: Option<Json>,
) -> (r: Json)
    ensures
        r@ == JsonV::Obj(
            task_fields(id@, status, message@, elapsed_secs as nat, opt_json(result)),
        ),
{
    let mut o = JsonObject::new();
    o.put("task_id", Json::text(id));
    o.put("status", Json::text(status_text(status)));
    o.put("message", Json::text(message));
    o.put("elapsed_secs", Json::number(elapsed_secs));
    if let Some(v) = result {
        o.put("result", v);
    }
    Json::Object(o)
}

/// The error for a task that is not known.
pub fn unknown_task(id: &str) -> (r: ToolError)
    ensures
        r@ == ToolErrorV::InvalidParams("Unknown task_id: "@ + id@),
{
    let mut m = "Unknown task_id: ".to_owned();
    m.push_str(id);
    ToolErrorOf::InvalidParams(m)
}

/// A text as the result of a tool that succeeded.
pub open spec fn tool_result(text: Seq<char>) -> JsonV {
    JsonV::Obj(
        no_fields().insert(
            "content"@,
            JsonV::Arr(
                seq![
                    JsonV::Obj(
                        no_fields().insert("type"@, text_v("text"@)).insert("text"@, text_v(text)),
                    ),
                ],
            ),
        ).insert("isError"@, JsonV::Bool(false)),
    )
}

/// A text as the result of a tool that succeeded.
pub fn text_as_tool_result(text: &str) -> (r: Json)
    ensures
        r@ == tool_result(text@),
{
    let mut c = JsonObject::new();
    c.put("type", Json::text("text"));
    c.put("text", Json::text(text));
    let mut list: Vec<Json> = Vec::new();
    let item = Json::Object(c);
    let ghost iv = item@;
    list.push(item);
    assert(crate::json::values_of(list@) =~= seq![iv]);
    let mut o = JsonObject::new();
    o.put("content", Json::list(list));
    o.put("isError", Json::Bool(false));
    Json::Object(o)
}

/// A value, as a text, as the result of a tool that succeeded.
pub fn wrap_as_call_tool_result(value: &Json) -> (r: Json)
    ensures
        r@ == tool_result(pretty_of(value@)),
{
    text_as_tool_result(pretty_json(value).as_str())
}

/// Whether a value reads as the result of a tool.
pub uninterp spec fn reads_as_tool_result(value: JsonV) -> bool;

/// `serde_json::from_value` into `rmcp::model::CallToolResult`: the value alone determines whether it
/// succeeds.
#[verifier::external_body]
fn looks_like_call_tool_result(value: &Json) -> (r: bool)
    ensures
        r == reads_as_tool_result(value@),
{
    serde_json::from_value::<rmcp::model::CallToolResult>(to_value(value)).is_ok()
}

/// What a finished task gives: its result, where that is the result of a tool already, else its
/// result, or null, as a text.
pub open spec fn payload(result: Option<JsonV>, is_tool_result: bool) -> JsonV {
    match result {
        Some(v) => if is_tool_result {
            v
        } else {
            tool_result(pretty_of(v))
        },
        None => tool_result(pretty_of(JsonV::Null)),
    }
}

/// What a finished task gives, given whether its result is the result of a tool already.
pub fn payload_value(result: Option<Json>, is_tool_result: bool) -> (r: Json)
    ensures
        r@ == payload(opt_json(result), is_tool_result),
{
    match result {
        Some(v) => if is_tool_result {
            v
        } else {
            wrap_as_call_tool_result(&v)
        },
        None => wrap_as_call_tool_result(&Json::Null),
    }
}

/// What a finished task gives.
pub fn task_payload_result_value(result: Option<Json>) -> (r: Json)
    ensures
        r@ == payload(
            opt_json(result),
            result is Some && reads_as_tool_result(opt_json(result)->0),
        ),
{
    let known: bool = match &result {
        Some(v) => looks_like_call_tool_result(v),
        None => false,
    };
    payload_value(result, known)
}

/// The task that the reply of a tool names, where the reply is a JSON object that names one.
pub open spec fn named_task(reply: Option<JsonV>) -> Option<Seq<char>> {
    match reply {
        Some(v) => text_field(v, "task_id"@),
        None => None,
    }
}

/// The task that the reply of a tool names, given the JSON value that it is, where it is one.
pub fn task_named_in(reply: &Option<Json>) -> (r: Option<String>)
    ensures
        opt_view(r) == named_task(opt_json(*reply)),
{
    match reply {
        Some(v) => match v.str_field("task_id") {
            Some(id) => Some(id.clone()),
            None => None,
        },
        None => None,
    }
}

/// The task in the background that a tool started, where the first text of its reply names one; a
/// tool that names none is done already. `text` is that text.
pub fn enqueue_task(text: &Option<String>) -> (r: Option<String>)
    ensures
        opt_view(r) == (match opt_view(*text) {
            Some(t) => named_task(json_in(t)),
            None => None,
        }),
{
    let reply = match text {
        Some(t) => read_json(t.as_str()),
        None => None,
    };
    task_named_in(&reply)
}

/// Why a task cannot be cancelled, or cannot be shown once it is; nothing where it is shown.
pub open spec fn cancel_error(cancelled: bool, found: bool, id: Seq<char>) -> Option<Seq<char>> {
    if !cancelled {
        Some("Task not found or not running"@)
    } else if !found {
        Some("Task "@ + id + " disappeared after cancellation"@)
    } else {
        None
    }
}

/// Why a task cannot be cancelled, or cannot be shown once it is.
pub fn cancel_task(cancelled: bool, found: bool, id: &str) -> (r: Option<String>)
    ensures
        opt_view(r) == cancel_error(cancelled, found, id@),
{
    if !cancelled {
        return Some("Task not found or not running".to_owned());
    }
    if !found {
        let mut m = "Task ".to_owned();
        m.push_str(id);
        m.push_str(" disappeared after cancellation");
        return Some(m);
    }
    None
}

/// Why a task gives no result yet, or none at all.
pub open spec fn no_result(status: Option<TaskStatus>, message: Seq<char>) -> Option<Seq<char>> {
    match status {
        Some(TaskStatus::Completed) => None,
        Some(TaskStatus::Failed) => Some(message),
        Some(TaskStatus::Cancelled) => Some("Task was cancelled"@),
        Some(TaskStatus::Running) => Some("Task is still running; poll tasks/get first"@),
        None => Some("Unknown task_id"@),
    }
}

/// Why a task gives no result yet, or none at all.
pub fn get_task_result(status: Option<TaskStatus>, message: &str) -> (r: Option<String>)
    ensures
        opt_view(r) == no_result(status, message@),
{
    match status {
        Some(TaskStatus::Completed) => None,
        Some(TaskStatus::Failed) => Some(message.to_owned()),
        Some(TaskStatus::Cancelled) => Some("Task was cancelled".to_owned()),
        Some(TaskStatus::Running) => Some("Task is still running; poll tasks/get first".to_owned()),
        None => Some("Unknown task_id".to_owned()),
    }
}

// ---------------------------------------------------------------------------
// Shared caches
// ---------------------------------------------------------------------------

/// How a shared cache is opened, over the type of texts.
#[derive(Debug)]
pub struct DscPlanOf<T> {
    pub ida_version: u8,
    /// The database that is made of the cache.
    pub out_i64: T,
    /// The script that loads the cache.
    pub script_path: T,
}

/// How a shared cache is opened, or why it is not. `valid` says whether its path may be opened.
pub open spec fn dsc_plan(path: Seq<char>, ida_version: Option<i64>, valid: bool) -> Result<
    DscPlanOf<Seq<char>>,
    ToolErrorV,
> {
    if !valid {
        Err(ToolErrorOf::InvalidPath(path))
    } else {
        match number_param(ida_version, "ida_version"@, IntKind::U8) {
            Err(e) => Err(e),
            Ok(v) => {
                let version = or_else(v, 9i64);
                if version != 8 && version != 9 {
                    Err(ToolErrorOf::InvalidParams("ida_version must be 8 or 9"@))
                } else {
                    Ok(
                        DscPlanOf {
                            ida_version: version as u8,
                            out_i64: with_extension_of(path, "i64"@),
                            script_path: join_of(
                                or_else(parent_of(path), "/tmp"@),
                                "ida_mcp_dsc_load.py"@,
                            ),
                        },
                    )
                }
            },
        }
    }
}

/// How a shared cache is opened, or why it is not.
pub fn plan_open_dsc(path: &str, ida_version: Option<i64>, valid: bool) -> (r: Result<
    DscPlanOf<String>,
    ToolError,
>)
    ensures
        match r {
            Ok(p) => dsc_plan(path@, ida_version, valid) == Ok::<DscPlanOf<Seq<char>>, ToolErrorV>(
                DscPlanOf {
                    ida_version: p.ida_version,
                    out_i64: p.out_i64@,
                    script_path: p.script_path@,
                },
            ),
            Err(e) => dsc_plan(path@, ida_version, valid) == Err::<
                DscPlanOf<Seq<char>>,
                ToolErrorV,
            >(e@),
        },
{
    if !valid {
        return Err(ToolErrorOf::InvalidPath(path.to_owned()));
    }
    let version: i64 = match parse_optional_unsigned(ida_version, "ida_version", IntKind::U8)? {
        Some(v) => v,
        None => 9,
    };
    if version != 8 && version != 9 {
        return Err(ToolErrorOf::InvalidParams("ida_version must be 8 or 9".to_owned()));
    }
    let dir = match parent(path) {
        Some(d) => d,
        None => "/tmp".to_owned(),
    };
    Ok(
        DscPlanOf {
            ida_version: version as u8,
            out_i64: with_extension(path, "i64"),
            script_path: join_path(dir.as_str(), "ida_mcp_dsc_load.py"),
        },
    )
}

/// Why a path for a log may not be used, if it may not.
pub fn check_log_path(log_path: &Option<String>) -> (r: Option<ToolError>)
    ensures
        opt_error(r) == bad_log_path(opt_view(*log_path)),
{
    match log_path {
        Some(p) => if contains(p.as_str(), "..") {
            Some(
                ToolErrorOf::InvalidParams(
                    "log_path must not contain '..' path traversal".to_owned(),
                ),
            )
        } else {
            None
        },
        None => None,
    }
}

/// What a task in the background is asked for with, over the type of texts: what its ID begins with,
/// the key of which no two tasks run at once, and what is told of it first.
#[derive(Debug)]
pub struct TaskOrderOf<T> {
    pub prefix: T,
    pub key: T,
    pub message: T,
}

/// What a task in the background is asked for with.
pub type TaskOrder = TaskOrderOf<String>;

/// What a [`TaskOrder`] is.
pub type TaskOrderV = TaskOrderOf<Seq<char>>;

impl View for TaskOrderOf<String> {
    type V = TaskOrderV;

    open spec fn view(&self) -> TaskOrderV {
        TaskOrderOf { prefix: self.prefix@, key: self.key@, message: self.message@ }
    }
}

/// The task that makes a database of a shared cache. Its key is the database, so that no two programs
/// write it at once.
pub fn dsc_task_order(out_i64: &str) -> (r: TaskOrder)
    ensures
        r@ == (TaskOrderV {
            prefix: "dsc"@,
            key: out_i64@,
            message: "Running idat to create .i64 from DSC..."@,
        }),
{
    TaskOrderOf {
        prefix: "dsc".to_owned(),
        key: out_i64.to_owned(),
        message: "Running idat to create .i64 from DSC...".to_owned(),
    }
}

/// The task that analyses in the background. Its key is fixed, so that one runs at a time.
pub fn analysis_task_order() -> (r: TaskOrder)
    ensures
        r@ == (TaskOrderV {
            prefix: "analyze"@,
            key: "analyze_funcs"@,
            message: "Waiting for IDA auto-analysis to finish"@,
        }),
{
    TaskOrderOf {
        prefix: "analyze".to_owned(),
        key: "analyze_funcs".to_owned(),
        message: "Waiting for IDA auto-analysis to finish".to_owned(),
    }
}

/// The session that a task belongs to: over HTTP the one that asked for it; else none.
pub fn task_owner(mode: ServerMode, session_id: &str) -> (r: Option<String>)
    ensures
        opt_view(r) == (if mode == ServerMode::Http {
            Some(session_id@)
        } else {
            None
        }),
{
    if mode == ServerMode::Http {
        Some(session_id.to_owned())
    } else {
        None
    }
}

/// What is known so far of the way to the database of a shared cache, over the types of texts and
/// errors.
#[derive(Debug)]
pub struct DscFactsOf<T, E> {
    /// Whether the database is there already.
    pub out_exists: bool,
    /// Whether the program is there that makes it, once that was looked for.
    pub idat: Option<Result<(), E>>,
    /// Whether the script could be written that loads the cache, once that was tried.
    pub written: Option<Result<(), T>>,
    pub log_path: Option<T>,
    /// The task that makes it, or the one that does so already, once a task was asked for.
    pub created: Option<Result<T, T>>,
}

/// What is done next on the way to the database of a shared cache, over the types of texts and
/// errors.
#[derive(Debug)]
pub enum DscActionOf<T, E> {
    /// Open the database that is there.
    OpenExisting,
    /// Look for the program that makes it.
    FindIdat,
    /// Write the script that loads the cache.
    WriteScript,
    /// Ask for a task of that name.
    CreateTask,
    /// Start the task, and answer with it.
    Start(T),
    /// Answer with the task that runs already.
    Running(T),
    /// Answer with the error.
    Refuse(E),
}

/// What is known so far.
pub type DscFacts = DscFactsOf<String, ToolError>;

/// What is done next.
pub type DscAction = DscActionOf<String, ToolError>;

/// Why the path for a log may not be used.
pub open spec fn bad_log_path(log_path: Option<Seq<char>>) -> Option<ToolErrorV> {
    match log_path {
        Some(p) => if occurs(p, ".."@) {
            Some(ToolErrorOf::InvalidParams("log_path must not contain '..' path traversal"@))
        } else {
            None
        },
        None => None,
    }
}

/// What is done next on the way to the database of a shared cache: an existing database is opened;
/// else the program is looked for, the script is written, and a task is started, unless one runs
/// already or one of these fails.
pub open spec fn dsc_action(f: DscFacts) -> DscActionOf<Seq<char>, ToolErrorV> {
    if f.out_exists {
        DscActionOf::OpenExisting
    } else {
        match f.idat {
            None => DscActionOf::FindIdat,
            Some(Err(e)) => DscActionOf::Refuse(e@),
            Some(Ok(_)) => match f.written {
                None => DscActionOf::WriteScript,
                Some(Err(e)) => DscActionOf::Refuse(
                    ToolErrorOf::InvalidParams("Failed to write DSC load script: "@ + e@),
                ),
                Some(Ok(_)) => match bad_log_path(opt_view(f.log_path)) {
                    Some(e) => DscActionOf::Refuse(e),
                    None => match f.created {
                        None => DscActionOf::CreateTask,
                        Some(Ok(id)) => DscActionOf::Start(id@),
                        Some(Err(id)) => DscActionOf::Running(id@),
                    },
                },
            },
        }
    }
}

/// What an action is.
pub open spec fn action_view(a: DscAction) -> DscActionOf<Seq<char>, ToolErrorV> {
    match a {
        DscActionOf::OpenExisting => DscActionOf::OpenExisting,
        DscActionOf::FindIdat => DscActionOf::FindIdat,
        DscActionOf::WriteScript => DscActionOf::WriteScript,
        DscActionOf::CreateTask => DscActionOf::CreateTask,
        DscActionOf::Start(id) => DscActionOf::Start(id@),
        DscActionOf::Running(id) => DscActionOf::Running(id@),
        DscActionOf::Refuse(e) => DscActionOf::Refuse(e@),
    }
}

/// What is done next on the way to the database of a shared cache.
pub fn open_dsc(f: DscFacts) -> (r: DscAction)
    ensures
        action_view(r) == dsc_action(f),
{
    if f.out_exists {
        return DscActionOf::OpenExisting;
    }
    match f.idat {
        None => {
            return DscActionOf::FindIdat;
        },
        Some(Err(e)) => {
            return DscActionOf::Refuse(e);
        },
        Some(Ok(_)) => {},
    }
    match f.written {
        None => {
            return DscActionOf::WriteScript;
        },
        Some(Err(e)) => {
            let mut m = "Failed to write DSC load script: ".to_owned();
            m.push_str(e.as_str());
            return DscActionOf::Refuse(ToolErrorOf::InvalidParams(m));
        },
        Some(Ok(_)) => {},
    }
    if let Some(e) = check_log_path(&f.log_path) {
        return DscActionOf::Refuse(e);
    }
    match f.created {
        None => DscActionOf::CreateTask,
        Some(Ok(id)) => DscActionOf::Start(id),
        Some(Err(id)) => DscActionOf::Running(id),
    }
}

/// No task is asked for, and none is started, without the program and its script, nor where the
/// database is there.
pub proof fn lemma_dsc_task_is_ready(f: DscFacts)
    ensures
        dsc_action(f) is CreateTask || dsc_action(f) is Start || dsc_action(f) is Running ==> {
            &&& !f.out_exists
            &&& f.idat matches Some(Ok(_))
            &&& f.written matches Some(Ok(_))
            &&& bad_log_path(opt_view(f.log_path)) is None
        },
{
}

/// What is answered where a shared cache is made into a database in the background.
pub open spec fn dsc_started(started: bool, task_id: Seq<char>) -> FieldsV {
    no_fields().insert(
        "status"@,
        text_v(
            if started {
                "started"@
            } else {
                "already_running"@
            },
        ),
    ).insert("task_id"@, text_v(task_id)).insert(
        "message"@,
        text_v(
            if started {
                "DSC loading started in background. Poll task_status(task_id) for progress."@
            } else {
                "A DSC loading task for this path is already in progress. Poll task_status(task_id) for progress."@
            },
        ),
    )
}

/// What is answered where a shared cache is made into a database in the background.
pub fn dsc_started_reply(started: bool, task_id: &str) -> (r: Json)
    ensures
        r@ == JsonV::Obj(dsc_started(started, task_id@)),
{
    let mut o = JsonObject::new();
    let status: &str = if started {
        "started"
    } else {
        "already_running"
    };
    o.put("status", Json::text(status));
    o.put("task_id", Json::text(task_id));
    let message: &str = if started {
        "DSC loading started in background. Poll task_status(task_id) for progress."
    } else {
        "A DSC loading task for this path is already in progress. Poll task_status(task_id) for progress."
    };
    o.put("message", Json::text(message));
    Json::Object(o)
}

/// Why the program that makes the database failed: how it ended, what it said, and the end of its
/// log.
pub open spec fn idat_failure(exit_code: int, stderr: Seq<char>, log: Option<Seq<char>>) -> Seq<char> {
    let base = "idat exited with code "@ + signed_decimal(exit_code) + ".\nstderr: "@ + stderr;
    match log {
        Some(text) => base + "\nlog (last 20 lines):\n"@ + tail_of(text, 20),
        None => base,
    }
}

/// What a task does next, over the types of texts and values.
#[derive(Debug)]
pub enum DscStepOf<T> {
    /// It was cancelled.
    Cancelled(T),
    /// It failed.
    Fail(T),
    /// It opens the database.
    Open,
}

/// What a task does next once the program has run that makes the database: it opens the database,
/// if the program succeeded and the database is there.
pub open spec fn after_idat(
    cancelled: bool,
    exit_code: int,
    out_exists: bool,
    stderr: Seq<char>,
    log: Option<Seq<char>>,
) -> DscStepOf<Seq<char>> {
    if cancelled {
        DscStepOf::Cancelled("Cancelled by session shutdown"@)
    } else if exit_code != 0 || !out_exists {
        DscStepOf::Fail(idat_failure(exit_code, stderr, log))
    } else {
        DscStepOf::Open
    }
}

/// What a task does next once the program has run that makes the database, or was cancelled.
pub fn run_dsc_background(
    cancelled: bool,
    exit_code: i32,
    out_exists: bool,
    stderr: &str,
    log: &Option<String>,
) -> (r: DscStepOf<String>)
    ensures
        ({
            let want = after_idat(cancelled, exit_code as int, out_exists, stderr@, opt_view(*log));
            match r {
                DscStepOf::Cancelled(m) => want == DscStepOf::Cancelled(m@),
                DscStepOf::Fail(m) => want == DscStepOf::Fail(m@),
                DscStepOf::Open => want == DscStepOf::<Seq<char>>::Open,
            }
        }),
{
    if cancelled {
        return DscStepOf::Cancelled("Cancelled by session shutdown".to_owned());
    }
    if exit_code != 0 || !out_exists {
        let mut m = "idat exited with code ".to_owned();
        m.push_str(signed_text(exit_code as i64).as_str());
        m.push_str(".\nstderr: ");
        m.push_str(stderr);
        if let Some(text) = log {
            m.push_str("\nlog (last 20 lines):\n");
            m.push_str(run_script_tail_lines(text.as_str(), 20).as_str());
        }
        return DscStepOf::Fail(m);
    }
    DscStepOf::Open
}

/// What a task fails on besides the program that makes the database, over the type of texts.
#[derive(Debug)]
pub enum DscFailureOf<T> {
    /// The program could not be waited for.
    Panicked { cause: T },
    /// The database could not be opened; this is the text of the error.
    NotOpened { error: T },
}

/// The message of a task that fails: of one whose database could not be opened, what the error says.
pub open spec fn dsc_failure(f: DscFailureOf<Seq<char>>) -> Seq<char> {
    match f {
        DscFailureOf::Panicked { cause } => "idat task panicked: "@ + cause,
        DscFailureOf::NotOpened { error } => error,
    }
}

/// The message of a task that fails.
pub fn dsc_failure_text(f: DscFailureOf<String>) -> (r: String)
    ensures
        r@ == (match f {
            DscFailureOf::Panicked { cause } => dsc_failure(
                DscFailureOf::Panicked { cause: cause@ },
            ),
            DscFailureOf::NotOpened { error } => dsc_failure(
                DscFailureOf::NotOpened { error: error@ },
            ),
        }),
{
    match f {
        DscFailureOf::Panicked { cause } => {
            let mut m = "idat task panicked: ".to_owned();
            m.push_str(cause.as_str());
            m
        },
        DscFailureOf::NotOpened { error } => error,
    }
}

/// What stands for the error output of a program that could not be started.
pub fn idat_not_started(cause: &str) -> (r: String)
    ensures
        r@ == "Failed to spawn idat: "@ + cause@,
{
    let mut m = "Failed to spawn idat: ".to_owned();
    m.push_str(cause);
    m
}

/// What is asked for when the database of a shared cache is opened: the database that was made, with
/// the analysis on, and nothing else.
pub open spec fn dsc_request(out_i64: Seq<char>) -> OpenRequestV {
    OpenRequestOf {
        path: out_i64,
        load_debug_info: false,
        debug_info_path: None,
        debug_info_verbose: false,
        force: false,
        rebuild: false,
        file_type: None,
        auto_analyse: true,
        extra_args: seq![],
        idb_out: None,
    }
}

/// What is asked for when the database of a shared cache is opened, one that was there already or
/// one that was just made.
pub fn dsc_open_request(out_i64: &str) -> (r: OpenRequest)
    ensures
        r@ == dsc_request(out_i64@),
        r.path@ == out_i64@,
        !r.load_debug_info,
        r.debug_info_path is None,
        !r.debug_info_verbose,
        !r.force,
        !r.rebuild,
        r.file_type is None,
        r.auto_analyse,
        r.extra_args@.len() == 0,
        r.idb_out is None,
{
    let extra_args: Vec<String> = Vec::new();
    assert(views(extra_args@) =~= seq![]);
    OpenRequestOf {
        path: out_i64.to_owned(),
        load_debug_info: false,
        debug_info_path: None,
        debug_info_verbose: false,
        force: false,
        rebuild: false,
        file_type: None,
        auto_analyse: true,
        extra_args,
        idb_out: None,
    }
}

/// The session that a token to close is issued to: over HTTP the one that owns the task, if one does;
/// else none.
pub open spec fn token_session(mode: ServerMode, owner: Option<Seq<char>>) -> Option<Seq<char>> {
    if mode == ServerMode::Http {
        owner
    } else {
        None
    }
}

/// The session that a token to close is issued to.
pub fn close_token_session(mode: ServerMode, owner: &Option<String>) -> (r: Option<String>)
    ensures
        opt_view(r) == token_session(mode, opt_view(*owner)),
{
    if mode == ServerMode::Http {
        copy_opt(owner)
    } else {
        None
    }
}

/// What is told of a database that was made of a shared cache.
pub open spec fn dsc_opened(info: FieldsV, module: Seq<char>, frameworks: Seq<Seq<char>>) -> FieldsV {
    let base = info.insert("module"@, text_v(module));
    if frameworks.len() > 0 {
        base.insert("frameworks_loaded"@, texts_v(frameworks))
    } else {
        base
    }
}

/// Adds to what is known of a database what it was made of and who may close it. A worker of a pool
/// that opens it at once says nothing of the second.
pub fn describe_dsc(
    info: &mut JsonObject,
    module: &str,
    frameworks: &Vec<String>,
    closing: bool,
    grant: &Grant,
    hint: &str,
)
    ensures
        final(info)@ == (if closing {
            with_close_metadata(
                dsc_opened(old(info)@, module@, views(frameworks@)),
                *grant,
                hint@,
            )
        } else {
            dsc_opened(old(info)@, module@, views(frameworks@))
        }),
{
    info.put("module", Json::text(module));
    if frameworks.len() > 0 {
        info.put("frameworks_loaded", Json::texts(frameworks));
    }
    if closing {
        apply_close_metadata(info, grant, hint);
    }
}

/// The module to load, or why it may not be loaded.
pub open spec fn module_checked(module: Seq<char>) -> Result<Seq<char>, ToolErrorV> {
    let m = trimmed(module);
    if m.len() == 0 {
        Err(ToolErrorOf::InvalidParams("module must not be empty"@))
    } else if m[0] != '/' {
        Err(ToolErrorOf::InvalidParams("module must be an absolute path (start with '/')"@))
    } else if occurs(m, ".."@) {
        Err(ToolErrorOf::InvalidParams("module must not contain '..' path traversal"@))
    } else {
        Ok(m)
    }
}

/// The module to load, or why it may not be loaded.
pub fn dsc_add_dylib_module(module: &str) -> (r: Result<String, ToolError>)
    ensures
        match r {
            Ok(m) => module_checked(module@) == Ok::<Seq<char>, ToolErrorV>(m@),
            Err(e) => module_checked(module@) == Err::<Seq<char>, ToolErrorV>(e@),
        },
{
    let m = trim(module);
    let chars = crate::text::chars_of(m.as_str());
    if chars.len() == 0 {
        return Err(ToolErrorOf::InvalidParams("module must not be empty".to_owned()));
    }
    if chars[0] != '/' {
        return Err(
            ToolErrorOf::InvalidParams(
                "module must be an absolute path (start with '/')".to_owned(),
            ),
        );
    }
    if contains(m.as_str(), "..") {
        return Err(
            ToolErrorOf::InvalidParams("module must not contain '..' path traversal".to_owned()),
        );
    }
    Ok(m)
}

/// The region to load, or why it may not be loaded.
pub open spec fn region_checked(address: JsonV) -> Result<u64, ToolErrorV> {
    match only_address_in(address, "address"@) {
        Ok(a) => Ok(a),
        Err(ToolErrorOf::InvalidAddress(t)) => Err(
            ToolErrorOf::InvalidParams("Invalid address: "@ + t),
        ),
        Err(e) => Err(e),
    }
}

/// The region to load, or why it may not be loaded.
pub fn dsc_add_region_address(address: &Json) -> (r: Result<u64, ToolError>)
    ensures
        match r {
            Ok(a) => region_checked(address@) == Ok::<u64, ToolErrorV>(a),
            Err(e) => region_checked(address@) == Err::<u64, ToolErrorV>(e@),
        },
{
    match value_to_exactly_one_address(address, "address") {
        Ok(a) => Ok(a),
        Err(ToolErrorOf::InvalidAddress(t)) => {
            let mut m = "Invalid address: ".to_owned();
            m.push_str(t.as_str());
            Err(ToolErrorOf::InvalidParams(m))
        },
        Err(e) => Err(e),
    }
}

/// How long a part of a shared cache may take to load.
pub open spec fn dsc_secs(timeout_secs: Option<i64>) -> Result<u64, ToolErrorV> {
    match secs_param(timeout_secs, "timeout_secs"@) {
        Ok(t) => Ok(lower_of(or_else(t, 300u64), MAX_TIMEOUT_SECS)),
        Err(e) => Err(e),
    }
}

/// How long a part of a shared cache may take to load, in seconds.
pub fn dsc_timeout(timeout_secs: Option<i64>) -> (r: Result<u64, ToolError>)
    ensures
        match r {
            Ok(t) => dsc_secs(timeout_secs) == Ok::<u64, ToolErrorV>(t),
            Err(e) => dsc_secs(timeout_secs) == Err::<u64, ToolErrorV>(e@),
        },
{
    let t: Option<u64> = optional_secs(timeout_secs, "timeout_secs")?;
    let asked: u64 = match t {
        Some(s) => s,
        None => 300,
    };
    Ok(
        if asked < MAX_TIMEOUT_SECS {
            asked
        } else {
            MAX_TIMEOUT_SECS
        },
    )
}

/// What a script that loads a part of a shared cache printed, or why it failed. A script that took
/// too long is described with the start of its code.
pub open spec fn dsc_script_outcome(
    outcome: Result<JsonV, ToolErrorV>,
    timeout_secs: u64,
    script: Seq<char>,
) -> Result<Seq<char>, ToolErrorV> {
    match outcome {
        Ok(v) => if flag_in(v, "success"@) {
            Ok(text_or_nothing(v, "stdout"@))
        } else {
            Err(ToolErrorOf::IdaError(joined(failure_paragraphs(v), "\n\n"@)))
        },
        Err(ToolErrorOf::Timeout(secs)) => Err(
            ToolErrorOf::IdaError(timeout_text(secs as nat, script)),
        ),
        Err(ToolErrorOf::TimeoutDetailed(_)) => Err(
            ToolErrorOf::IdaError(timeout_text(timeout_secs as nat, script)),
        ),
        Err(e) => Err(e),
    }
}

/// What a script that loads a part of a shared cache printed, or why it failed.
pub fn dsc_script_result(outcome: Result<Json, ToolError>, timeout_secs: u64, script: &str) -> (r:
    Result<String, ToolError>)
    ensures
        ({
            let given = match outcome {
                Ok(v) => Ok(v@),
                Err(e) => Err(e@),
            };
            match r {
                Ok(text) => dsc_script_outcome(given, timeout_secs, script@) == Ok::<
                    Seq<char>,
                    ToolErrorV,
                >(text@),
                Err(e) => dsc_script_outcome(given, timeout_secs, script@) == Err::<
                    Seq<char>,
                    ToolErrorV,
                >(e@),
            }
        }),
{
    match outcome {
        Ok(v) => if run_script_succeeded(&v) {
            match run_script_field(&v, "stdout") {
                Some(text) => Ok(text),
                None => Ok(String::new()),
            }
        } else {
            Err(ToolErrorOf::IdaError(run_script_failure_message(&v)))
        },
        Err(ToolErrorOf::Timeout(secs)) => Err(
            ToolErrorOf::IdaError(run_script_timeout_message(secs, script)),
        ),
        Err(ToolErrorOf::TimeoutDetailed(_)) => Err(
            ToolErrorOf::IdaError(run_script_timeout_message(timeout_secs, script)),
        ),
        Err(e) => Err(e),
    }
}

/// How far the analysis is, as far as it is known.
#[derive(Debug)]
pub struct AnalysisState {
    pub status: Json,
    pub ready: bool,
}

/// What is told of the analysis once a part of a shared cache is loaded.
pub open spec fn with_analysis(
    o: FieldsV,
    stdout: Seq<char>,
    analysis: Option<AnalysisState>,
    ready_message: Seq<char>,
) -> FieldsV {
    let ready = match analysis {
        Some(a) => Some(a.ready),
        None => None,
    };
    o.insert("stdout"@, text_v(stdout)).insert(
        "analysis_status"@,
        match analysis {
            Some(a) => a.status@,
            None => JsonV::Null,
        },
    ).insert(
        "analysis_ready"@,
        match ready {
            Some(b) => JsonV::Bool(b),
            None => JsonV::Null,
        },
    ).insert("next_steps"@, texts_v(next_steps(ready, ready_message)))
}

fn put_analysis(
    o: &mut JsonObject,
    stdout: &str,
    analysis: &Option<AnalysisState>,
    ready_message: &str,
)
    ensures
        final(o)@ == with_analysis(old(o)@, stdout@, *analysis, ready_message@),
{
    o.put("stdout", Json::text(stdout));
    let ready: Option<bool> = match analysis {
        Some(a) => {
            o.put("analysis_status", a.status.copy());
            o.put("analysis_ready", Json::Bool(a.ready));
            Some(a.ready)
        },
        None => {
            o.put("analysis_status", Json::Null);
            o.put("analysis_ready", Json::Null);
            None
        },
    };
    let steps = dsc_analysis_next_steps(ready, ready_message);
    o.put("next_steps", Json::texts(&steps));
}

/// What is answered once a module is loaded.
pub fn dsc_add_dylib_reply(module: &str, stdout: &str, analysis: &Option<AnalysisState>) -> (r: Json)
    ensures
        r@ == JsonV::Obj(
            with_analysis(
                no_fields().insert("success"@, JsonV::Bool(true)).insert(
                    "module"@,
                    text_v(module@),
                ).insert(
                    "message"@,
                    text_v(
                        "Successfully loaded "@ + module@
                            + " into the database. Lightweight ObjC analysis ran; full auto-analysis was not forced."@,
                    ),
                ),
                stdout@,
                *analysis,
                "Proceed with xrefs/decompile/list_functions for the newly loaded module."@,
            ),
        ),
{
    let mut o = JsonObject::new();
    o.put("success", Json::Bool(true));
    o.put("module", Json::text(module));
    let mut m = "Successfully loaded ".to_owned();
    m.push_str(module);
    m.push_str(
        " into the database. Lightweight ObjC analysis ran; full auto-analysis was not forced.",
    );
    o.put("message", Json::Str(m));
    put_analysis(
        &mut o,
        stdout,
        analysis,
        "Proceed with xrefs/decompile/list_functions for the newly loaded module.",
    );
    Json::Object(o)
}

/// What is answered once a region is loaded.
pub fn dsc_add_region_reply(addr: u64, stdout: &str, analysis: &Option<AnalysisState>) -> (r: Json)
    ensures
        r@ == JsonV::Obj(
            with_analysis(
                no_fields().insert("success"@, JsonV::Bool(true)).insert(
                    "address"@,
                    text_v(hex(addr as nat)),
                ).insert("address_value"@, number_v(addr as nat)).insert(
                    "message"@,
                    text_v(
                        "Successfully loaded DSC region at "@ + hex(addr as nat)
                            + ". Full auto-analysis was not forced."@,
                    ),
                ),
                stdout@,
                *analysis,
                "Proceed with xrefs/decompile/list_functions for symbols near this region."@,
            ),
        ),
{
    let mut o = JsonObject::new();
    o.put("success", Json::Bool(true));
    o.put("address", Json::Str(hex_text(addr)));
    o.put("address_value", Json::number(addr));
    let mut m = "Successfully loaded DSC region at ".to_owned();
    m.push_str(hex_text(addr).as_str());
    m.push_str(". Full auto-analysis was not forced.");
    o.put("message", Json::Str(m));
    put_analysis(
        &mut o,
        stdout,
        analysis,
        "Proceed with xrefs/decompile/list_functions for symbols near this region.",
    );
    Json::Object(o)
}

// ---------------------------------------------------------------------------
// What is said of a task
// ---------------------------------------------------------------------------

/// A task is told by its ID, its status, its message and its age, and by its
/// result where there is one.
pub proof fn lemma_task_fields(
    id: Seq<char>,
    status: TaskStatus,
    message: Seq<char>,
    secs: u64,
    result: Option<JsonV>,
)
    ensures
        task_fields(id, status, message, secs as nat, result)["task_id"@] == JsonV::Str(id),
        task_fields(id, status, message, secs as nat, result)["status"@] == JsonV::Str(
            match status {
                TaskStatus::Running => "running"@,
                TaskStatus::Completed => "completed"@,
                TaskStatus::Failed => "failed"@,
                TaskStatus::Cancelled => "cancelled"@,
            },
        ),
        task_fields(id, status, message, secs as nat, result)["message"@] == JsonV::Str(message),
        task_fields(id, status, message, secs as nat, result)["elapsed_secs"@] == JsonV::Num(
            NumV::Unsigned(secs),
        ),
        task_fields(id, status, message, secs as nat, result).dom().contains("result"@) <==> result
            is Some,
        result is Some ==> task_fields(id, status, message, secs as nat, result)["result"@]
            == result->0,
{
    reveal_strlit("task_id");
    reveal_strlit("status");
    reveal_strlit("message");
    reveal_strlit("elapsed_secs");
    reveal_strlit("result");
    assert("task_id"@.len() == 7);
    assert("status"@.len() == 6);
    assert("message"@.len() == 7);
    assert("elapsed_secs"@.len() == 12);
    assert("result"@.len() == 6);
    assert("message"@[0] == 'm');
    assert("task_id"@[0] == 't');
    assert("result"@[0] == 'r');
    assert("status"@[0] == 's');
}

/// A task gives its result only once it is completed; otherwise the answer says
/// why there is none.
pub proof fn lemma_results_of_tasks(message: Seq<char>)
    ensures
        no_result(Some(TaskStatus::Completed), message) is None,
        no_result(Some(TaskStatus::Failed), message) == Some(message),
        no_result(Some(TaskStatus::Running), message) is Some,
        no_result(Some(TaskStatus::Cancelled), message) is Some,
        no_result(None, message) is Some,
{
}

/// A cancellation works where the task ran and is still known.
pub proof fn lemma_cancelled_tasks(cancelled: bool, found: bool, id: Seq<char>)
    ensures
        cancel_error(cancelled, found, id) is None <==> cancelled && found,
{
}

/// A result that reads as one of a tool is handed out as it is; any other is
/// handed out as text.
pub proof fn lemma_payloads(v: JsonV)
    ensures
        payload(Some(v), true) == v,
        payload(Some(v), false) == tool_result(pretty_of(v)),
        payload(None, true) == tool_result(pretty_of(JsonV::Null)),
        payload(None, false) == tool_result(pretty_of(JsonV::Null)),
{
}

/// A result as text is one piece of content, that text, and no error.
pub proof fn lemma_text_result(text: Seq<char>)
    ensures
        tool_result(text) matches JsonV::Obj(m) && m["isError"@] == JsonV::Bool(false) && (
        m["content"@] matches JsonV::Arr(items) && items.len() == 1 && (
        items[0] matches JsonV::Obj(c) && c["text"@] == JsonV::Str(text) && c["type"@]
            == JsonV::Str("text"@))),
{
    reveal_strlit("content");
    reveal_strlit("isError");
    reveal_strlit("type");
    reveal_strlit("text");
    assert("content"@.len() == 7);
    assert("isError"@.len() == 7);
    assert("type"@.len() == 4);
    assert("text"@.len() == 4);
    assert("isError"@[0] == 'i');
    assert("content"@[0] == 'c');
    assert("text"@[1] == 'e');
    assert("type"@[1] == 'y');
}

/// A cache is loaded for version 8 or 9, and for 9 where none is named; its
/// database is named like it with the extension `i64`, and the script that loads
/// it stands beside it.
#[verifier::rlimit(50)]
pub proof fn lemma_plan_of_a_cache(
    dir: Seq<char>,
    stem: Seq<char>,
    ext: Seq<char>,
    version: i64,
)
    requires
        dir.len() > 0 && dir.last() != '/',
        !(dir.len() >= 2 && dir.last() == '.' && dir[dir.len() - 2] == '/'),
        stem.len() > 0 && !stem.contains('/'),
        ext.len() > 0 && !ext.contains('/') && !ext.contains('.'),
    ensures
        ({
            let path = dir + seq!['/'] + stem + seq!['.'] + ext;
            &&& dsc_plan(path, Some(version), true) is Ok <==> version == 8 || version == 9
            &&& dsc_plan(path, Some(version), true) is Ok ==> dsc_plan(path, Some(version), true)
                == Ok::<DscPlanOf<Seq<char>>, ToolErrorV>(
                DscPlanOf {
                    ida_version: version as u8,
                    out_i64: dir + seq!['/'] + stem + seq!['.', 'i', '6', '4'],
                    script_path: dir + seq!['/'] + "ida_mcp_dsc_load.py"@,
                },
            )
            &&& dsc_plan(path, None, true) == dsc_plan(path, Some(9), true)
            &&& dsc_plan(path, Some(version), false) is Err
        }),
{
    let front = dir + seq!['/'];
    let path = dir + seq!['/'] + stem + seq!['.'] + ext;
    reveal_strlit("i64");
    assert("i64"@ =~= seq!['i', '6', '4']);
    assert(front.last() == '/');
    lemma_extension(front, stem, ext, "i64"@);
    assert(front + stem + seq!['.'] + "i64"@ =~= front + stem + seq!['.', 'i', '6', '4']);
    let name = stem + seq!['.'] + ext;
    assert(name.len() >= 3);
    assert(!name.contains('/')) by {
        if name.contains('/') {
            let i = choose|i: int| 0 <= i < name.len() && name[i] == '/';
            if i < stem.len() {
                assert(stem[i] == '/');
            } else if i > stem.len() {
                assert(ext[i - stem.len() - 1] == '/');
            }
        }
    }
    lemma_parent_of_joined(dir, name);
    assert(dir + seq!['/'] + name =~= path);
    reveal_strlit("ida_mcp_dsc_load.py");
    assert("ida_mcp_dsc_load.py"@[0] == 'i');
}

/// A log may stand anywhere but at a path with two dots in a row.
pub proof fn lemma_log_paths(a: Seq<char>, b: Seq<char>, p: Seq<char>)
    ensures
        bad_log_path(Some(a + seq!['.', '.'] + b)) is Some,
        !occurs(p, seq!['.', '.']) ==> bad_log_path(Some(p)) is None,
        bad_log_path(None) is None,
{
    reveal_strlit("..");
    assert(".."@ =~= seq!['.', '.']);
    lemma_occurs_inside(a, ".."@, b);
}

/// A cache whose database is there is opened. Otherwise the program is looked
/// for, the script is written and the task is made, in this order, and each only
/// once the one before it worked; a task that runs already is named.
pub proof fn lemma_order_of_a_cache(f: DscFacts)
    ensures
        f.out_exists <==> dsc_action(f) is OpenExisting,
        !f.out_exists && f.idat is None ==> dsc_action(f) is FindIdat,
        !f.out_exists && (f.idat matches Some(Ok(_))) && f.written is None ==> dsc_action(f)
            is WriteScript,
        dsc_action(f) matches DscActionOf::Start(id) ==> (f.created matches Some(Ok(made)) && made@
            == id),
        dsc_action(f) matches DscActionOf::Running(id) ==> (f.created matches Some(Err(runs))
            && runs@ == id),
        f.idat matches Some(Err(e)) ==> (!f.out_exists ==> dsc_action(f) == DscActionOf::<
            Seq<char>,
            ToolErrorV,
        >::Refuse(e@)),
{
}

/// The program has made the database where it ended with zero and the database
/// is there; a cancellation goes before that.
pub proof fn lemma_ends_of_the_program(
    cancelled: bool,
    exit_code: int,
    out_exists: bool,
    stderr: Seq<char>,
    log: Option<Seq<char>>,
)
    ensures
        after_idat(cancelled, exit_code, out_exists, stderr, log) is Open <==> !cancelled
            && exit_code == 0 && out_exists,
        after_idat(cancelled, exit_code, out_exists, stderr, log) is Cancelled <==> cancelled,
        idat_failure(exit_code, stderr, None) == "idat exited with code "@ + signed_decimal(
            exit_code,
        ) + ".\nstderr: "@ + stderr,
        log is Some ==> idat_failure(exit_code, stderr, log) == idat_failure(exit_code, stderr, None)
            + "\nlog (last 20 lines):\n"@ + tail_of(log->0, 20),
{
}

/// A module is an absolute path without two dots in a row, taken without the
/// white space around it.
pub proof fn lemma_modules(before: Seq<char>, s: Seq<char>, after: Seq<char>)
    requires
        forall|i: int| 0 <= i < before.len() ==> is_white(#[trigger] before[i]),
        forall|i: int| 0 <= i < after.len() ==> is_white(#[trigger] after[i]),
        s.len() > 0 && !is_white(s[0]) && !is_white(s.last()),
    ensures
        module_checked(before + s + after) is Ok <==> s[0] == '/' && !occurs(s, seq!['.', '.']),
        module_checked(before + s + after) matches Ok(m) ==> m == s,
        module_checked(before) is Err,
{
    reveal_strlit("..");
    assert(".."@ =~= seq!['.', '.']);
    lemma_trim_padding(before, s, after);
    lemma_blank_is_trimmed_away(before);
}

/// A part of a cache is loaded in the time that is asked for, five minutes where
/// nothing is said and ten at most.
pub proof fn lemma_time_of_a_cache(secs: i64)
    ensures
        0 <= secs <= 600 ==> dsc_secs(Some(secs)) == Ok::<u64, ToolErrorV>(secs as u64),
        secs > 600 ==> dsc_secs(Some(secs)) == Ok::<u64, ToolErrorV>(600),
        secs < 0 ==> dsc_secs(Some(secs)) is Err,
        dsc_secs(None) == Ok::<u64, ToolErrorV>(300),
{
}

/// A token for closing belongs to the session that asked, over HTTP alone.
pub proof fn lemma_token_sessions(owner: Option<Seq<char>>)
    ensures
        token_session(ServerMode::Http, owner) == owner,
        token_session(ServerMode::Stdio, owner) is None,
        token_session(ServerMode::Worker, owner) is None,
{
}

/// What is told once a part of a cache is loaded: what the script wrote, how the
/// analysis stands, and whether it is ready, as far as it is known.
pub proof fn lemma_told_of_the_analysis(
    o: FieldsV,
    stdout: Seq<char>,
    analysis: Option<AnalysisState>,
    ready: Seq<char>,
)
    ensures
        with_analysis(o, stdout, analysis, ready)["stdout"@] == JsonV::Str(stdout),
        analysis matches Some(a) ==> with_analysis(o, stdout, analysis, ready)["analysis_status"@]
            == a.status@ && with_analysis(o, stdout, analysis, ready)["analysis_ready"@]
            == JsonV::Bool(a.ready),
        analysis is None ==> with_analysis(o, stdout, analysis, ready)["analysis_status"@]
            == JsonV::Null && with_analysis(o, stdout, analysis, ready)["analysis_ready"@]
            == JsonV::Null,
{
    reveal_strlit("stdout");
    reveal_strlit("analysis_status");
    reveal_strlit("analysis_ready");
    reveal_strlit("next_steps");
    assert("stdout"@.len() == 6);
    assert("analysis_status"@.len() == 15);
    assert("analysis_ready"@.len() == 14);
    assert("next_steps"@.len() == 10);
}

/// A reply names its task where it holds one.
pub proof fn lemma_named_task(m: FieldsV, id: Seq<char>)
    ensures
        m.dom().contains("task_id"@) && m["task_id"@] == JsonV::Str(id) ==> named_task(
            Some(JsonV::Obj(m)),
        ) == Some(id),
        !m.dom().contains("task_id"@) ==> named_task(Some(JsonV::Obj(m))) is None,
        named_task(None) is None,
{
}

/// A script that loads a part of a cache gives what it wrote where it succeeded;
/// one that ran out of time is told with its time; any other error stays.
pub proof fn lemma_ends_of_a_cache_script(
    m: FieldsV,
    out: Seq<char>,
    secs: u64,
    given: u64,
    script: Seq<char>,
    e: ToolErrorV,
)
    requires
        m.dom().contains("stdout"@) && m["stdout"@] == JsonV::Str(out),
    ensures
        m.dom().contains("success"@) && m["success"@] == JsonV::Bool(true) ==> dsc_script_outcome(
            Ok(JsonV::Obj(m)),
            given,
            script,
        ) == Ok::<Seq<char>, ToolErrorV>(out),
        !m.dom().contains("success"@) || m["success"@] != JsonV::Bool(true) ==> dsc_script_outcome(
            Ok(JsonV::Obj(m)),
            given,
            script,
        ) is Err,
        dsc_script_outcome(Err(ToolErrorOf::Timeout(secs)), given, script) == Err::<
            Seq<char>,
            ToolErrorV,
        >(ToolErrorOf::IdaError(timeout_text(secs as nat, script))),
        !(e is Timeout) && !(e is TimeoutDetailed) ==> dsc_script_outcome(Err(e), given, script)
            == Err::<Seq<char>, ToolErrorV>(e),
{
}

/// A cache that was opened is told of by its module, and by the frameworks that
/// were loaded where there are some.
pub proof fn lemma_opened_cache(info: FieldsV, module: Seq<char>, frameworks: Seq<Seq<char>>)
    requires
        !info.dom().contains("frameworks_loaded"@),
    ensures
        dsc_opened(info, module, frameworks)["module"@] == JsonV::Str(module),
        dsc_opened(info, module, frameworks).dom().contains("frameworks_loaded"@)
            <==> frameworks.len() > 0,
{
    reveal_strlit("module");
    reveal_strlit("frameworks_loaded");
    assert("module"@.len() == 6);
    assert("frameworks_loaded"@.len() == 17);
}

/// A task that loads a cache is named, and told as started or as running already.
pub proof fn lemma_started_cache(started: bool, id: Seq<char>)
    ensures
        dsc_started(started, id)["task_id"@] == JsonV::Str(id),
        dsc_started(started, id)["status"@] == JsonV::Str(
            if started {
                "started"@
            } else {
                "already_running"@
            },
        ),
{
    reveal_strlit("status");
    reveal_strlit("task_id");
    reveal_strlit("message");
    assert("status"@.len() == 6);
    assert("task_id"@.len() == 7);
    assert("message"@.len() == 7);
    assert("message"@[0] == 'm');
    assert("task_id"@[0] == 't');
}

/// A region is exactly one address.
pub proof fn lemma_regions(v: JsonV, list: Seq<u64>)
    requires
        crate::values::addresses_in(v) == Ok::<Seq<u64>, ToolErrorV>(list),
    ensures
        region_checked(v) is Ok <==> list.len() == 1,
        list.len() == 1 ==> region_checked(v) == Ok::<u64, ToolErrorV>(list[0]),
{
}

/// The database of a cache is opened and analysed, with nothing else asked for.
pub proof fn lemma_open_of_a_cache(out: Seq<char>)
    ensures
        dsc_request(out).path == out,
        dsc_request(out).auto_analyse,
        !dsc_request(out).load_debug_info && !dsc_request(out).force && !dsc_request(out).rebuild,
        dsc_request(out).debug_info_path is None && dsc_request(out).file_type is None
            && dsc_request(out).idb_out is None,
        dsc_request(out).extra_args.len() == 0,
{
}

} // verus!
