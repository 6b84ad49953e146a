//! The course of the task that makes a database of a shared cache and opens it: a program makes the
//! database, the database is opened, and the session that owns the task gets what it needs to close
//! it.

use crate::database::{OpenRequest, OpenRequestV};
use crate::json::{FieldsV, JsonObject};
use crate::server::{close_hint, close_hint_for, with_close_metadata, Grant, ServerMode};
use crate::tasks::{
    after_idat, close_token_session, describe_dsc, dsc_failure, dsc_failure_text, dsc_open_request,
    dsc_opened, dsc_request, idat_not_started, run_dsc_background, token_session, DscFailureOf,
    DscStepOf,
};
use crate::text::{opt_view, views};
use vstd::prelude::*;

verus! {

// ---------------------------------------------------------------------------
// Jobs, stages, events, actions
// ---------------------------------------------------------------------------

/// What a task is to do, over the types of texts and lists of texts.
#[derive(Debug)]
pub struct DscJobOf<T, L> {
    /// The database that is made.
    pub out_i64: T,
    pub module: T,
    pub frameworks: L,
    /// The session that the task belongs to, where sessions are told apart.
    pub owner: Option<T>,
    pub mode: ServerMode,
    pub pooled: bool,
}

/// What a task is to do.
pub type DscJob = DscJobOf<String, Vec<String>>;

/// What a [`DscJob`] is.
pub type DscJobV = DscJobOf<Seq<char>, Seq<Seq<char>>>;

impl View for DscJobOf<String, Vec<String>> {
    type V = DscJobV;

    open spec fn view(&self) -> DscJobV {
        DscJobOf {
            out_i64: self.out_i64@,
            module: self.module@,
            frameworks: views(self.frameworks@),
            owner: opt_view(self.owner),
            mode: self.mode,
            pooled: self.pooled,
        }
    }
}

/// How far a task has come, over the type of what is known of a database.
#[derive(Debug)]
pub enum DscStageOf<O> {
    /// Nothing is done yet.
    Starting,
    /// The program makes the database.
    Making,
    /// The database is being opened.
    Opening,
    /// The database is open; the token to close it is being issued.
    Granting { info: O },
    /// The task has ended.
    Ended,
}

/// How far a task has come.
pub type DscStage = DscStageOf<JsonObject>;

/// What a [`DscStage`] is.
pub type DscStageV = DscStageOf<FieldsV>;

impl View for DscStageOf<JsonObject> {
    type V = DscStageV;

    open spec fn view(&self) -> DscStageV {
        match self {
            DscStageOf::Starting => DscStageOf::Starting,
            DscStageOf::Making => DscStageOf::Making,
            DscStageOf::Opening => DscStageOf::Opening,
            DscStageOf::Granting { info } => DscStageOf::Granting { info: info@ },
            DscStageOf::Ended => DscStageOf::Ended,
        }
    }
}

/// What happened to a task, over the types of texts and of what is known of a database.
#[derive(Debug)]
pub enum DscEventOf<T, O> {
    /// The task begins.
    Begun,
    /// The session is gone.
    Cancelled,
    /// The program could not be waited for.
    Panicked { cause: T },
    /// The program could not be started.
    NotStarted { cause: T, out_exists: bool, log: Option<T> },
    /// The program has ended; one that a signal ended has no exit code.
    Ran { exit_code: Option<i32>, out_exists: bool, stderr: T, log: Option<T> },
    /// The database is open.
    Opened { info: O },
    /// The database could not be opened; this is the text of the error.
    NotOpened { error: T },
    /// The token was issued, or not.
    Token { grant: Grant },
}

/// What happened to a task.
pub type DscEvent = DscEventOf<String, JsonObject>;

/// What a [`DscEvent`] is.
pub type DscEventV = DscEventOf<Seq<char>, FieldsV>;

impl View for DscEventOf<String, JsonObject> {
    type V = DscEventV;

    open spec fn view(&self) -> DscEventV {
        match self {
            DscEventOf::Begun => DscEventOf::Begun,
            DscEventOf::Cancelled => DscEventOf::Cancelled,
            DscEventOf::Panicked { cause } => DscEventOf::Panicked { cause: cause@ },
            DscEventOf::NotStarted { cause, out_exists, log } => DscEventOf::NotStarted {
                cause: cause@,
                out_exists: *out_exists,
                log: opt_view(*log),
            },
            DscEventOf::Ran { exit_code, out_exists, stderr, log } => DscEventOf::Ran {
                exit_code: *exit_code,
                out_exists: *out_exists,
                stderr: stderr@,
                log: opt_view(*log),
            },
            DscEventOf::Opened { info } => DscEventOf::Opened { info: info@ },
            DscEventOf::NotOpened { error } => DscEventOf::NotOpened { error: error@ },
            DscEventOf::Token { grant } => DscEventOf::Token { grant: *grant },
        }
    }
}

/// What is done next for a task, over the types of texts, requests and what is known of a database.
#[derive(Debug)]
pub enum DscDoOf<T, R, O> {
    /// Tell that this goes on, and run the program for the module.
    Make { message: T, module: T },
    /// Tell that this goes on, and open the database.
    Open { message: T, request: R },
    /// Issue a token to close the database to this session.
    IssueToken { session: T },
    /// End the task as cancelled.
    Cancel { message: T },
    /// End the task as failed.
    Fail { message: T },
    /// End the task with this result.
    Complete { result: O },
    /// Nothing: what happened does not belong to what is under way.
    Nothing,
}

/// What is done next for a task.
pub type DscDo = DscDoOf<String, OpenRequest, JsonObject>;

/// What a [`DscDo`] is.
pub type DscDoV = DscDoOf<Seq<char>, OpenRequestV, FieldsV>;

impl View for DscDoOf<String, OpenRequest, JsonObject> {
    type V = DscDoV;

    open spec fn view(&self) -> DscDoV {
        match self {
            DscDoOf::Make { message, module } => DscDoOf::Make {
                message: message@,
                module: module@,
            },
            DscDoOf::Open { message, request } => DscDoOf::Open {
                message: message@,
                request: request@,
            },
            DscDoOf::IssueToken { session } => DscDoOf::IssueToken { session: session@ },
            DscDoOf::Cancel { message } => DscDoOf::Cancel { message: message@ },
            DscDoOf::Fail { message } => DscDoOf::Fail { message: message@ },
            DscDoOf::Complete { result } => DscDoOf::Complete { result: result@ },
            DscDoOf::Nothing => DscDoOf::Nothing,
        }
    }
}

// ---------------------------------------------------------------------------
// The course
// ---------------------------------------------------------------------------

/// What a task gives in the end: what is known of the database, what it was made of, and who may
/// close it.
pub open spec fn dsc_result(job: DscJobV, info: FieldsV, grant: Grant) -> FieldsV {
    with_close_metadata(
        dsc_opened(info, job.module, job.frameworks),
        grant,
        close_hint(job.mode, job.pooled),
    )
}

/// What is done once the program has ended: the database is opened, or the task fails.
pub open spec fn after_making(
    job: DscJobV,
    exit_code: int,
    out_exists: bool,
    stderr: Seq<char>,
    log: Option<Seq<char>>,
) -> (DscStageV, DscDoV) {
    match after_idat(false, exit_code, out_exists, stderr, log) {
        DscStepOf::Cancelled(message) => (DscStageOf::Ended, DscDoOf::Cancel { message }),
        DscStepOf::Fail(message) => (DscStageOf::Ended, DscDoOf::Fail { message }),
        DscStepOf::Open => (
            DscStageOf::Opening,
            DscDoOf::Open {
                message: "Opening database with idalib..."@,
                request: dsc_request(job.out_i64),
            },
        ),
    }
}

/// What an event leads to. A program without an exit code counts as one that ended with -1, and so
/// does one that could not be started. A token is issued only over HTTP, and only to the session
/// that owns the task.
pub open spec fn dsc_next(job: DscJobV, stage: DscStageV, event: DscEventV) -> (DscStageV, DscDoV) {
    match (stage, event) {
        (DscStageOf::Starting, DscEventOf::Begun) => (
            DscStageOf::Making,
            DscDoOf::Make {
                message: "Running idat to create .i64..."@,
                module: job.module,
            },
        ),
        (DscStageOf::Starting, DscEventOf::Cancelled) => (
            DscStageOf::Ended,
            DscDoOf::Cancel { message: "Cancelled by session shutdown"@ },
        ),
        (DscStageOf::Making, DscEventOf::Cancelled) => (
            DscStageOf::Ended,
            DscDoOf::Cancel { message: "Cancelled by session shutdown"@ },
        ),
        (DscStageOf::Making, DscEventOf::Panicked { cause }) => (
            DscStageOf::Ended,
            DscDoOf::Fail { message: dsc_failure(DscFailureOf::Panicked { cause }) },
        ),
        (DscStageOf::Making, DscEventOf::NotStarted { cause, out_exists, log }) => after_making(
            job,
            -1,
            out_exists,
            "Failed to spawn idat: "@ + cause,
            log,
        ),
        (DscStageOf::Making, DscEventOf::Ran { exit_code, out_exists, stderr, log }) => after_making(
            job,
            match exit_code {
                Some(code) => code as int,
                None => -1,
            },
            out_exists,
            stderr,
            log,
        ),
        (DscStageOf::Opening, DscEventOf::NotOpened { error }) => (
            DscStageOf::Ended,
            DscDoOf::Fail { message: dsc_failure(DscFailureOf::NotOpened { error }) },
        ),
        (DscStageOf::Opening, DscEventOf::Opened { info }) => match token_session(
            job.mode,
            job.owner,
        ) {
            Some(session) => (
                DscStageOf::Granting { info },
                DscDoOf::IssueToken { session },
            ),
            None => (
                DscStageOf::Ended,
                DscDoOf::Complete { result: dsc_result(job, info, None) },
            ),
        },
        (DscStageOf::Granting { info }, DscEventOf::Token { grant }) => (
            DscStageOf::Ended,
            DscDoOf::Complete { result: dsc_result(job, info, grant) },
        ),
        (stage, _) => (stage, DscDoOf::Nothing),
    }
}

fn finish_making(
    job: &DscJob,
    exit_code: i32,
    out_exists: bool,
    stderr: &str,
    log: &Option<String>,
) -> (r: (DscStage, DscDo))
    ensures
        (r.0@, r.1@) == after_making(job@, exit_code as int, out_exists, stderr@, opt_view(*log)),
{
    match run_dsc_background(false, exit_code, out_exists, stderr, log) {
        DscStepOf::Cancelled(message) => (DscStageOf::Ended, DscDoOf::Cancel { message }),
        DscStepOf::Fail(message) => (DscStageOf::Ended, DscDoOf::Fail { message }),
        DscStepOf::Open => (
            DscStageOf::Opening,
            DscDoOf::Open {
                message: "Opening database with idalib...".to_owned(),
                request: dsc_open_request(job.out_i64.as_str()),
            },
        ),
    }
}

fn complete(job: &DscJob, info: JsonObject, grant: Grant) -> (r: (DscStage, DscDo))
    ensures
        r.0@ == DscStageV::Ended,
        r.1@ == (DscDoV::Complete { result: dsc_result(job@, info@, grant) }),
{
    let mut result = info;
    let hint: &'static str = close_hint_for(job.mode, job.pooled);
    describe_dsc(&mut result, job.module.as_str(), &job.frameworks, true, &grant, hint);
    (DscStageOf::Ended, DscDoOf::Complete { result })
}

fn cancel() -> (r: (DscStage, DscDo))
    ensures
        r.0@ == DscStageV::Ended,
        r.1@ == (DscDoV::Cancel { message: "Cancelled by session shutdown"@ }),
{
    (
        DscStageOf::Ended,
        DscDoOf::Cancel { message: "Cancelled by session shutdown".to_owned() },
    )
}

/// What an event leads to.
pub fn dsc_step(job: &DscJob, stage: DscStage, event: DscEvent) -> (r: (DscStage, DscDo))
    ensures
        (r.0@, r.1@) == dsc_next(job@, stage@, event@),
{
    match (stage, event) {
        (DscStageOf::Starting, DscEventOf::Begun) => (
            DscStageOf::Making,
            DscDoOf::Make {
                message: "Running idat to create .i64...".to_owned(),
                module: job.module.clone(),
            },
        ),
        (DscStageOf::Starting, DscEventOf::Cancelled) => cancel(),
        (DscStageOf::Making, DscEventOf::Cancelled) => cancel(),
        (DscStageOf::Making, DscEventOf::Panicked { cause }) => (
            DscStageOf::Ended,
            DscDoOf::Fail { message: dsc_failure_text(DscFailureOf::Panicked { cause }) },
        ),
        (DscStageOf::Making, DscEventOf::NotStarted { cause, out_exists, log }) => {
            let stderr = idat_not_started(cause.as_str());
            finish_making(job, -1, out_exists, stderr.as_str(), &log)
        },
        (DscStageOf::Making, DscEventOf::Ran { exit_code, out_exists, stderr, log }) => {
            let code: i32 = match exit_code {
                Some(code) => code,
                None => -1,
            };
            finish_making(job, code, out_exists, stderr.as_str(), &log)
        },
        (DscStageOf::Opening, DscEventOf::NotOpened { error }) => (
            DscStageOf::Ended,
            DscDoOf::Fail { message: dsc_failure_text(DscFailureOf::NotOpened { error }) },
        ),
        (DscStageOf::Opening, DscEventOf::Opened { info }) => match close_token_session(
            job.mode,
            &job.owner,
        ) {
            Some(session) => (DscStageOf::Granting { info }, DscDoOf::IssueToken { session }),
            None => complete(job, info, None),
        },
        (DscStageOf::Granting { info }, DscEventOf::Token { grant }) => complete(job, info, grant),
        (stage, _) => (stage, DscDoOf::Nothing),
    }
}

/// Whether the script that loads the cache is still needed; it is removed as soon as it is not.
pub fn needs_script(stage: &DscStage) -> (r: bool)
    ensures
        r == (stage@ is Starting || stage@ is Making),
{
    match stage {
        DscStageOf::Starting => true,
        DscStageOf::Making => true,
        _ => false,
    }
}

// ---------------------------------------------------------------------------
// What holds of every task
// ---------------------------------------------------------------------------

/// Whether an action ends a task.
pub open spec fn ends(action: DscDoV) -> bool {
    action is Cancel || action is Fail || action is Complete
}

/// A task ends once: an action ends it if and only if it was under way and is no longer, and
/// nothing follows.
pub proof fn lemma_dsc_task_ends_once(job: DscJobV, stage: DscStageV, event: DscEventV)
    ensures
        stage is Ended ==> dsc_next(job, stage, event) == (DscStageV::Ended, DscDoV::Nothing),
        !(stage is Ended) ==> (ends(dsc_next(job, stage, event).1) <==> dsc_next(
            job,
            stage,
            event,
        ).0 is Ended),
        dsc_next(job, stage, event).1 is Nothing ==> dsc_next(job, stage, event).0 == stage,
{
}

/// No database is opened that the program did not make: it ended well, and the database is there.
pub proof fn lemma_only_a_made_database_is_opened(job: DscJobV, stage: DscStageV, event: DscEventV)
    ensures
        dsc_next(job, stage, event).1 matches DscDoV::Open { request, .. } ==> {
            &&& stage is Making
            &&& event matches DscEventV::Ran { exit_code, out_exists, .. } && exit_code == Some(
                0i32,
            ) && out_exists
            &&& request == dsc_request(job.out_i64)
        },
{
}

/// A token is issued only over HTTP, only to the session that owns the task, and only once the
/// database is open; without a token in hand, none is in the result.
pub proof fn lemma_token_goes_to_the_owner(job: DscJobV, stage: DscStageV, event: DscEventV)
    ensures
        dsc_next(job, stage, event).1 matches DscDoV::IssueToken { session } ==> job.mode
            == ServerMode::Http && job.owner == Some(session) && event is Opened,
        event is Opened ==> (dsc_next(job, stage, event).1 matches DscDoV::Complete { result }
            ==> result == dsc_result(job, event->Opened_info, None) && token_session(
            job.mode,
            job.owner,
        ) is None),
{
}

/// A cache that loads well is made, opened and told of with what the database
/// gives and the module; over HTTP the session gets its token first.
pub proof fn lemma_cache_loads_well(job: DscJobV, info: FieldsV, stderr: Seq<char>, grant: Grant)
    ensures
        ({
            let (making, make) = dsc_next(job, DscStageOf::Starting, DscEventOf::Begun);
            let ran = DscEventOf::Ran { exit_code: Some(0), out_exists: true, stderr, log: None };
            let (opening, open) = dsc_next(job, making, ran);
            let (after, action) = dsc_next(job, opening, DscEventOf::Opened { info });
            let (ended, last) = dsc_next(job, after, DscEventOf::Token { grant });
            &&& make matches DscDoOf::Make { module, .. } && module == job.module
            &&& open matches DscDoOf::Open { request, .. } && request.path == job.out_i64
                && !request.rebuild && !request.force && request.idb_out is None
            &&& job.mode == ServerMode::Http && job.owner is Some ==> action == (
            DscDoV::IssueToken { session: job.owner->0 }) && last is Complete
            &&& job.mode != ServerMode::Http || job.owner is None ==> action is Complete && last
                == DscDoV::Nothing
        }),
{
}

/// A program that ends with another code than zero, that makes no database or
/// that does not start ends the task with a failure; nothing is opened.
pub proof fn lemma_cache_that_is_not_made(
    job: DscJobV,
    exit_code: Option<i32>,
    out_exists: bool,
    stderr: Seq<char>,
    log: Option<Seq<char>>,
)
    requires
        exit_code != Some(0i32) || !out_exists,
    ensures
        dsc_next(
            job,
            DscStageOf::Making,
            DscEventOf::Ran { exit_code, out_exists, stderr, log },
        ).1 is Fail,
        dsc_next(
            job,
            DscStageOf::Making,
            DscEventOf::NotStarted { cause: stderr, out_exists, log },
        ).1 is Fail,
        dsc_next(
            job,
            DscStageOf::Making,
            DscEventOf::Ran { exit_code, out_exists, stderr, log },
        ).0 is Ended,
{
}

} // verus!
