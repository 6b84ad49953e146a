//! How the server opens and closes databases for its sessions, and who may close them.

use crate::calls::{ChildOpen, WorkerCall, WorkerCallOf, WorkerCallV};
use crate::database::{given_text, non_empty_trimmed};
use crate::errors::{ToolError, ToolErrorOf, ToolErrorV};
use crate::json::{no_fields, text_v, texts_v, FieldsV, Json, JsonObject, JsonV};
use crate::numbers::{decimal, decimal_text};
use crate::paths::{expand_path, expanded_path, is_idb_path, join_of, join_path, names_database};
use crate::pool::MAX_TIMEOUT_SECS;
use crate::sessions::{lower_of, timeout_with_child_grace, with_grace};
use crate::text::{
    chars_of, contains, copy_list, is_white, lemma_trim_padding, occurs, opt_view, text_between, trim,
    trimmed, views,
};
use crate::values::{optional_secs, or_else, secs_param};
use vstd::prelude::*;

verus! {

/// How the server is reached.
#[derive(Clone, Copy, Debug, PartialEq, Eq, Structural)]
pub enum ServerMode {
    Stdio,
    Http,
    Worker,
}

/// Inputs above this size are analysed in the background, unless the user wants otherwise.
pub const OPEN_IDB_AUTO_BACKGROUND_THRESHOLD_BYTES: u64 = 52_428_800;

/// How long the user has to say whether an analysis runs in the background.
pub const OPEN_IDB_ELICITATION_TIMEOUT_SECS: u64 = 30;

/// How long a cancelled operation has to clean up.
pub const FOREGROUND_CANCEL_CLEANUP_TIMEOUT_SECS: u64 = 6;

// ---------------------------------------------------------------------------
// Closing
// ---------------------------------------------------------------------------

/// What a session is told of closing.
pub open spec fn close_hint(mode: ServerMode, pooled: bool) -> Seq<char> {
    match mode {
        ServerMode::Http => if pooled {
            "In pooled HTTP/SSE mode, close_idb releases this session's child worker lease. Sessions do not share one global close_token."@
        } else {
            "In multi-client (HTTP/SSE) mode, close_idb accepts the close_token returned by open_idb. The owning session can also close without re-sending the token, and close_idb(force=true) can recover from a lost session."@
        },
        ServerMode::Stdio => "Call close_idb when done to release locks for other sessions."@,
        ServerMode::Worker =>
            "Child worker mode is managed by the parent router; close_idb is normally called by the parent."@,
    }
}

/// What a session is told of closing.
pub fn close_hint_for(mode: ServerMode, pooled: bool) -> (r: &'static str)
    ensures
        r@ == close_hint(mode, pooled),
{
    match mode {
        ServerMode::Http => if pooled {
            "In pooled HTTP/SSE mode, close_idb releases this session's child worker lease. Sessions do not share one global close_token."
        } else {
            "In multi-client (HTTP/SSE) mode, close_idb accepts the close_token returned by open_idb. The owning session can also close without re-sending the token, and close_idb(force=true) can recover from a lost session."
        },
        ServerMode::Stdio => "Call close_idb when done to release locks for other sessions.",
        ServerMode::Worker =>
            "Child worker mode is managed by the parent router; close_idb is normally called by the parent.",
    }
}

/// The token that lets a session close a database.
#[derive(Debug)]
pub struct CloseTokenGrant {
    pub token: String,
    pub reused: bool,
    pub owner_session_id: String,
}

/// Who may close a database: the session that gets a token, a session that has it already, or
/// nobody in particular.
pub type Grant = Option<Result<CloseTokenGrant, String>>;

/// What a session is told where another one owns the database.
pub open spec fn owned_hint(owner: Seq<char>) -> Seq<char> {
    "The open database is currently owned by HTTP session "@ + owner
        + ". Reuse that session to call close_idb, or call close_idb(force=true) to recover if the owning session was lost."@
}

/// What an answer says of who may close the database: the token only to the session that gets it.
pub open spec fn with_close_metadata(map: FieldsV, grant: Grant, hint: Seq<char>) -> FieldsV {
    match grant {
        Some(Ok(g)) => {
            let base = map.insert("close_hint"@, text_v(hint)).insert(
                "close_owner_session_id"@,
                text_v(g.owner_session_id@),
            ).insert("close_token"@, text_v(g.token@));
            if g.reused {
                base.insert("close_token_reused"@, JsonV::Bool(true))
            } else {
                base
            }
        },
        Some(Err(owner)) => map.insert("close_hint"@, text_v(owned_hint(owner@))).insert(
            "close_owner_session_id"@,
            text_v(owner@),
        ).insert(
            "close_recovery_hint"@,
            text_v(
                "If the original MCP HTTP session was lost, call close_idb(force=true) from a trusted recovery session."@,
            ),
        ),
        None => map.insert("close_hint"@, text_v(hint)),
    }
}

/// Says in an answer who may close the database.
pub fn apply_close_metadata(map: &mut JsonObject, grant: &Grant, hint: &str)
    ensures
        final(map)@ == with_close_metadata(old(map)@, *grant, hint@),
{
    match grant {
        Some(Ok(g)) => {
            map.put("close_hint", Json::text(hint));
            map.put("close_owner_session_id", Json::text(g.owner_session_id.as_str()));
            map.put("close_token", Json::text(g.token.as_str()));
            if g.reused {
                map.put("close_token_reused", Json::Bool(true));
            }
        },
        Some(Err(owner)) => {
            let mut m = "The open database is currently owned by HTTP session ".to_owned();
            m.push_str(owner.as_str());
            m.push_str(
                ". Reuse that session to call close_idb, or call close_idb(force=true) to recover if the owning session was lost.",
            );
            map.put("close_hint", Json::Str(m));
            map.put("close_owner_session_id", Json::text(owner.as_str()));
            map.put(
                "close_recovery_hint",
                Json::text(
                    "If the original MCP HTTP session was lost, call close_idb(force=true) from a trusted recovery session.",
                ),
            );
        },
        None => {
            map.put("close_hint", Json::text(hint));
        },
    }
}

/// A token is told only to the session that gets it.
pub proof fn lemma_token_only_when_granted(map: FieldsV, grant: Grant, hint: Seq<char>)
    requires
        !map.dom().contains("close_token"@),
    ensures
        with_close_metadata(map, grant, hint).dom().contains("close_token"@) <==> (grant is Some
            && grant->0 is Ok),
        with_close_metadata(map, grant, hint).dom().contains("close_hint"@),
{
    reveal_strlit("close_token");
    reveal_strlit("close_hint");
    reveal_strlit("close_owner_session_id");
    reveal_strlit("close_recovery_hint");
    reveal_strlit("close_token_reused");
    assert("close_token"@.len() == 11);
    assert("close_hint"@.len() == 10);
    assert("close_owner_session_id"@.len() == 22);
    assert("close_recovery_hint"@.len() == 19);
    assert("close_token_reused"@.len() == 18);
}

/// Whether a session is asked for a token, or gets one.
pub fn uses_close_grant(mode: ServerMode, uses_close_tokens: bool) -> (r: bool)
    ensures
        r == (mode == ServerMode::Http && uses_close_tokens),
{
    mode == ServerMode::Http && uses_close_tokens
}

/// What a session is told that may not close the database.
pub open spec fn close_denied(owner: Option<Seq<char>>) -> FieldsV {
    no_fields().insert("closed"@, JsonV::Bool(false)).insert(
        "reason"@,
        text_v("owner token required"@),
    ).insert("owner_session_id"@, crate::json::opt_text_v(owner)).insert(
        "hint"@,
        text_v(
            "Reuse the owning HTTP session to call close_idb, provide the close_token from open_idb, or call close_idb(force=true) to recover if that session was lost."@,
        ),
    )
}

/// What a session is told that may not close the database.
pub fn close_denied_reply(owner: &Option<String>) -> (r: Json)
    ensures
        r@ == JsonV::Obj(close_denied(opt_view(*owner))),
{
    let mut o = JsonObject::new();
    o.put("closed", Json::Bool(false));
    o.put("reason", Json::text("owner token required"));
    o.put("owner_session_id", Json::opt_text(owner));
    o.put(
        "hint",
        Json::text(
            "Reuse the owning HTTP session to call close_idb, provide the close_token from open_idb, or call close_idb(force=true) to recover if that session was lost.",
        ),
    );
    Json::Object(o)
}

// ---------------------------------------------------------------------------
// Paths
// ---------------------------------------------------------------------------

/// The file that a path stands for; none where the home directory is needed and not known.
pub open spec fn checked_path(path: Seq<char>, home: Option<Seq<char>>) -> Option<Seq<char>> {
    let t = trimmed(path);
    if t.len() >= 2 && t[0] == '~' && t[1] == '/' {
        match home {
            Some(h) => Some(join_of(h, t.skip(2))),
            None => None,
        }
    } else {
        Some(t)
    }
}

/// The file that a path stands for.
pub fn path_to_check(path: &str, home: &Option<String>) -> (r: Option<String>)
    ensures
        opt_view(r) == checked_path(path@, opt_view(*home)),
{
    let t = trim(path);
    let chars = chars_of(t.as_str());
    if chars.len() >= 2 && chars[0] == '~' && chars[1] == '/' {
        match home {
            Some(h) => {
                let rest = text_between(&chars, 2, chars.len());
                assert(rest@ =~= t@.skip(2));
                Some(join_path(h.as_str(), rest.as_str()))
            },
            None => None,
        }
    } else {
        Some(t)
    }
}

/// Whether a path may be opened: it stands for a file, and does not climb. `is_file` says whether
/// the file that it stands for exists and is one.
pub fn validate_path(path: &str, home: &Option<String>, is_file: bool) -> (r: bool)
    ensures
        r == (checked_path(path@, opt_view(*home)) is Some && is_file && !occurs(
            trimmed(path@),
            ".."@,
        )),
{
    let known: bool = path_to_check(path, home).is_some();
    known && is_file && !contains(trim(path).as_str(), "..")
}

/// The size of an input that is too large to be analysed while the user waits.
pub fn input_size_above_threshold(is_file: bool, size: u64) -> (r: Option<u64>)
    ensures
        r == (if is_file && size > OPEN_IDB_AUTO_BACKGROUND_THRESHOLD_BYTES {
            Some(size)
        } else {
            None
        }),
        r is Some <==> is_large(is_file, size),
{
    if is_file && size > OPEN_IDB_AUTO_BACKGROUND_THRESHOLD_BYTES {
        Some(size)
    } else {
        None
    }
}

/// Whether a path is that of a database.
pub fn is_database_path(path: &str, home: &Option<String>) -> (r: bool)
    ensures
        r == names_database(expanded_path(trimmed(path@), opt_view(*home))),
{
    let t = trim(path);
    is_idb_path(expand_path(t.as_str(), home).as_str())
}

// ---------------------------------------------------------------------------
// Asking the user
// ---------------------------------------------------------------------------

/// How long the user is asked at most.
pub open spec fn elicitation_secs(requested: Option<u64>) -> u64 {
    lower_of(
        lower_of(or_else(requested, OPEN_IDB_ELICITATION_TIMEOUT_SECS), MAX_TIMEOUT_SECS),
        OPEN_IDB_ELICITATION_TIMEOUT_SECS,
    )
}

/// How long the user is asked at most, in seconds.
pub fn open_idb_elicitation_timeout_secs(request_timeout_secs: Option<u64>) -> (r: u64)
    ensures
        r == elicitation_secs(request_timeout_secs),
        r <= OPEN_IDB_ELICITATION_TIMEOUT_SECS,
{
    match request_timeout_secs {
        Some(s) => if s < OPEN_IDB_ELICITATION_TIMEOUT_SECS {
            s
        } else {
            OPEN_IDB_ELICITATION_TIMEOUT_SECS
        },
        None => OPEN_IDB_ELICITATION_TIMEOUT_SECS,
    }
}

/// What came of asking the user.
#[derive(Clone, Copy, Debug, PartialEq, Eq, Structural)]
pub enum Elicited {
    /// The client cannot ask.
    NotSupported,
    /// The request was cancelled meanwhile.
    RequestCancelled,
    /// The user answered, perhaps without a choice.
    Answered { background: Option<bool> },
    /// The user answered without anything.
    NoContent,
    /// The user declined or called it off.
    Declined,
    /// The user did not answer in time.
    TimedOut,
    /// Asking failed.
    Failed,
}

/// Whether an analysis runs in the background: unless the user does not want it or the request is
/// cancelled.
pub open spec fn in_background(e: Elicited) -> bool {
    match e {
        Elicited::RequestCancelled => false,
        Elicited::Declined => false,
        Elicited::Answered { background } => or_else(background, true),
        _ => true,
    }
}

/// Whether an analysis runs in the background.
pub fn choose_open_idb_background(e: Elicited) -> (r: bool)
    ensures
        r == in_background(e),
{
    match e {
        Elicited::RequestCancelled => false,
        Elicited::Declined => false,
        Elicited::Answered { background } => match background {
            Some(b) => b,
            None => true,
        },
        _ => true,
    }
}

/// What the user is asked.
pub open spec fn background_prompt(path: Seq<char>, size: nat) -> Seq<char> {
    "'"@ + path + "' is "@ + decimal(size / 1_048_576) + " MiB (threshold "@ + decimal(50)
        + " MiB). Run auto-analysis as a background task with no timeout? Choosing 'no' runs it inline (capped at the foreground timeout)."@
}

/// What the user is asked.
pub fn background_prompt_text(path: &str, size: u64) -> (r: String)
    ensures
        r@ == background_prompt(path@, size as nat),
{
    let mut m = "'".to_owned();
    m.push_str(path);
    m.push_str("' is ");
    m.push_str(decimal_text(size / 1_048_576).as_str());
    m.push_str(" MiB (threshold ");
    m.push_str(decimal_text(OPEN_IDB_AUTO_BACKGROUND_THRESHOLD_BYTES / 1_048_576).as_str());
    m.push_str(
        " MiB). Run auto-analysis as a background task with no timeout? Choosing 'no' runs it inline (capped at the foreground timeout).",
    );
    m
}

// ---------------------------------------------------------------------------
// Opening
// ---------------------------------------------------------------------------

/// How long a call in the foreground may take where it is handed to a pool; else as asked for.
pub open spec fn foreground_secs(pooled: bool, timeout_secs: Option<u64>, default_secs: u64) -> Option<
    u64,
> {
    if pooled {
        Some(with_grace(timeout_secs, default_secs))
    } else {
        timeout_secs
    }
}

/// How long a call in the foreground may take where it is handed to a pool; else as asked for.
pub fn foreground_timeout_secs(pooled: bool, timeout_secs: Option<u64>, default_timeout_secs: u64) -> (r:
    Option<u64>)
    ensures
        r == foreground_secs(pooled, timeout_secs, default_timeout_secs),
{
    if pooled {
        Some(timeout_with_child_grace(timeout_secs, default_timeout_secs))
    } else {
        timeout_secs
    }
}

/// What is asked for when a database is opened.
#[derive(Debug)]
pub struct OpenIdbRequest {
    pub path: String,
    pub load_debug_info: Option<bool>,
    pub debug_info_path: Option<String>,
    pub debug_info_verbose: Option<bool>,
    pub force: Option<bool>,
    pub rebuild: Option<bool>,
    pub file_type: Option<String>,
    pub auto_analyse: Option<bool>,
    pub timeout_secs: Option<i64>,
    pub worker_extra_args: Vec<String>,
}

/// How a database is opened for a session, over the types of texts and of lists of texts.
#[derive(Debug)]
pub struct OpenIdbPlanOf<T, L> {
    pub path: T,
    pub load_debug_info: bool,
    pub debug_info_path: Option<T>,
    pub debug_info_verbose: bool,
    pub force: bool,
    pub rebuild: bool,
    pub file_type: Option<T>,
    /// Whether the analysis is wanted, now or in the background.
    pub auto_analyse: bool,
    pub extra_args: L,
    /// How long the open may take.
    pub open_secs: u64,
    /// How long the session waits for it, where it says so.
    pub foreground_secs: Option<u64>,
    /// Whether the size of the input decides where the analysis runs.
    pub size_matters: bool,
}

/// How a database is opened for a session.
pub type OpenIdbPlan = OpenIdbPlanOf<String, Vec<String>>;

/// What an [`OpenIdbPlan`] is.
pub type OpenIdbPlanV = OpenIdbPlanOf<Seq<char>, Seq<Seq<char>>>;

impl View for OpenIdbPlanOf<String, Vec<String>> {
    type V = OpenIdbPlanV;

    open spec fn view(&self) -> OpenIdbPlanV {
        OpenIdbPlanOf {
            path: self.path@,
            load_debug_info: self.load_debug_info,
            debug_info_path: opt_view(self.debug_info_path),
            debug_info_verbose: self.debug_info_verbose,
            force: self.force,
            rebuild: self.rebuild,
            file_type: opt_view(self.file_type),
            auto_analyse: self.auto_analyse,
            extra_args: views(self.extra_args@),
            open_secs: self.open_secs,
            foreground_secs: self.foreground_secs,
            size_matters: self.size_matters,
        }
    }
}

/// How a database is opened for a session, or why it is not. `valid` says whether its path may be
/// opened.
pub open spec fn open_idb_plan(
    req: OpenIdbRequest,
    valid: bool,
    mode: ServerMode,
    pooled: bool,
    home: Option<Seq<char>>,
) -> Result<OpenIdbPlanV, ToolErrorV> {
    let path = trimmed(req.path@);
    if !valid {
        Err(ToolErrorOf::InvalidPath(path))
    } else {
        match secs_param(req.timeout_secs, "timeout_secs"@) {
            Err(e) => Err(e),
            Ok(timeout) => {
                let auto = or_else(req.auto_analyse, false);
                Ok(
                    OpenIdbPlanOf {
                        path,
                        load_debug_info: or_else(req.load_debug_info, false),
                        debug_info_path: given_text(opt_view(req.debug_info_path)),
                        debug_info_verbose: or_else(req.debug_info_verbose, false),
                        force: or_else(req.force, false),
                        rebuild: or_else(req.rebuild, false),
                        file_type: given_text(opt_view(req.file_type)),
                        auto_analyse: auto,
                        extra_args: if mode == ServerMode::Worker {
                            views(req.worker_extra_args@)
                        } else {
                            seq![]
                        },
                        open_secs: lower_of(or_else(timeout, 300u64), MAX_TIMEOUT_SECS),
                        foreground_secs: foreground_secs(pooled, timeout, 300),
                        size_matters: mode != ServerMode::Worker && auto && !names_database(
                            expanded_path(trimmed(path), home),
                        ),
                    },
                )
            },
        }
    }
}

fn flag(value: Option<bool>) -> (r: bool)
    ensures
        r == or_else(value, false),
{
    match value {
        Some(b) => b,
        None => false,
    }
}

/// How a database is opened for a session, or why it is not.
pub fn plan_open_idb(
    req: &OpenIdbRequest,
    valid: bool,
    mode: ServerMode,
    pooled: bool,
    home: &Option<String>,
) -> (r: Result<OpenIdbPlan, ToolError>)
    ensures
        match r {
            Ok(p) => open_idb_plan(*req, valid, mode, pooled, opt_view(*home)) == Ok::<
                OpenIdbPlanV,
                ToolErrorV,
            >(p@),
            Err(e) => open_idb_plan(*req, valid, mode, pooled, opt_view(*home)) == Err::<
                OpenIdbPlanV,
                ToolErrorV,
            >(e@),
        },
{
    let path = trim(req.path.as_str());
    if !valid {
        return Err(ToolErrorOf::InvalidPath(path));
    }
    let timeout: Option<u64> = optional_secs(req.timeout_secs, "timeout_secs")?;
    let auto: bool = flag(req.auto_analyse);
    let extra_args = if mode == ServerMode::Worker {
        copy_list(&req.worker_extra_args)
    } else {
        let none: Vec<String> = Vec::new();
        assert(views(none@) =~= seq![]);
        none
    };
    let asked: u64 = match timeout {
        Some(s) => s,
        None => 300,
    };
    let open_secs: u64 = if asked < MAX_TIMEOUT_SECS {
        asked
    } else {
        MAX_TIMEOUT_SECS
    };
    let size_matters: bool = mode != ServerMode::Worker && auto && !is_database_path(
        path.as_str(),
        home,
    );
    Ok(
        OpenIdbPlanOf {
            path,
            load_debug_info: flag(req.load_debug_info),
            debug_info_path: non_empty_trimmed(&req.debug_info_path),
            debug_info_verbose: flag(req.debug_info_verbose),
            force: flag(req.force),
            rebuild: flag(req.rebuild),
            file_type: non_empty_trimmed(&req.file_type),
            auto_analyse: auto,
            extra_args,
            open_secs,
            foreground_secs: foreground_timeout_secs(pooled, timeout, 300),
            size_matters,
        },
    )
}

/// An open never takes longer than an operation may. The size of the input decides nothing for a
/// worker of a pool, for an existing database, nor where no analysis is wanted.
pub proof fn lemma_open_plan_bounds(
    req: OpenIdbRequest,
    mode: ServerMode,
    pooled: bool,
    home: Option<Seq<char>>,
)
    ensures
        open_idb_plan(req, true, mode, pooled, home) matches Ok(p) ==> {
            &&& p.open_secs <= MAX_TIMEOUT_SECS
            &&& mode == ServerMode::Worker ==> !p.size_matters
            &&& !p.auto_analyse ==> !p.size_matters
            &&& names_database(expanded_path(trimmed(p.path), home)) ==> !p.size_matters
        },
{
}

/// Where the analysis of a database runs.
#[derive(Clone, Copy, Debug, PartialEq, Eq, Structural)]
pub struct OpenRoute {
    /// In a task in the background.
    pub background: bool,
    /// While the database is opened.
    pub auto_analyse: bool,
}

/// Where the analysis of a database runs: in the background where the input is large and the user
/// does not object, else while it is opened.
pub open spec fn open_route(plan: OpenIdbPlanV, large: bool, e: Elicited) -> OpenRoute {
    let background = plan.size_matters && large && in_background(e);
    OpenRoute { background, auto_analyse: plan.auto_analyse && !background }
}

/// Where the analysis of a database runs. `large` says whether the input is larger than it may be
/// for an analysis in the foreground; only then the user is asked.
pub fn route_open(plan: &OpenIdbPlan, large: bool, e: Elicited) -> (r: OpenRoute)
    ensures
        r == open_route(plan@, large, e),
{
    let background: bool = plan.size_matters && large && choose_open_idb_background(e);
    OpenRoute { background, auto_analyse: plan.auto_analyse && !background }
}

/// An analysis that is wanted runs in exactly one place, and one that is not wanted in none.
pub proof fn lemma_analysed_once(
    req: OpenIdbRequest,
    mode: ServerMode,
    pooled: bool,
    home: Option<Seq<char>>,
    large: bool,
    e: Elicited,
)
    ensures
        open_idb_plan(req, true, mode, pooled, home) matches Ok(p) ==> {
            let r = open_route(p, large, e);
            &&& !(r.background && r.auto_analyse)
            &&& p.auto_analyse <==> r.background || r.auto_analyse
        },
{
}

/// What a worker is asked for when a database is opened for a session: what the session asked for,
/// with the analysis only where it runs while the database is opened.
pub fn open_idb_call(plan: OpenIdbPlan, route: OpenRoute) -> (r: ChildOpen)
    ensures
        r.path@ == plan@.path,
        r.load_debug_info == plan@.load_debug_info,
        opt_view(r.debug_info_path) == plan@.debug_info_path,
        r.debug_info_verbose == plan@.debug_info_verbose,
        r.force == plan@.force,
        r.rebuild == plan@.rebuild,
        opt_view(r.file_type) == plan@.file_type,
        r.auto_analyse == route.auto_analyse,
        views(r.extra_args@) == plan@.extra_args,
        r.timeout_secs == Some(plan@.open_secs),
{
    ChildOpen {
        path: plan.path,
        load_debug_info: plan.load_debug_info,
        debug_info_path: plan.debug_info_path,
        debug_info_verbose: plan.debug_info_verbose,
        force: plan.force,
        rebuild: plan.rebuild,
        file_type: plan.file_type,
        auto_analyse: route.auto_analyse,
        extra_args: plan.extra_args,
        timeout_secs: Some(plan.open_secs),
    }
}

/// Whether a task is started that analyses in the background: not where the analysis is done.
pub fn wants_analysis_task(route: OpenRoute, analysed: bool) -> (r: bool)
    ensures
        r == (route.background && !analysed),
{
    route.background && !analysed
}

/// The task that analyses in the background, and whether it was started now or runs already.
pub fn analysis_task(started: Result<String, String>) -> (r: (String, String))
    ensures
        match started {
            Ok(id) => r.0@ == id@ && r.1@ == "started"@,
            Err(id) => r.0@ == id@ && r.1@ == "already_running"@,
        },
{
    match started {
        Ok(id) => (id, "started".to_owned()),
        Err(id) => (id, "already_running".to_owned()),
    }
}

/// The tools that are worth trying once a database is open; those that need the analysis only once
/// it is done.
pub open spec fn quick_tools(analysed: bool) -> Seq<Seq<char>> {
    let base = seq![
        "list_functions"@,
        "resolve_function"@,
        "disasm_by_name"@,
        "strings"@,
        "analysis_status"@,
        "analyze_funcs"@,
        "close_idb"@,
    ];
    if analysed {
        base + seq!["decompile"@, "xrefs_to"@]
    } else {
        base
    }
}

/// Why an analysis runs in the background.
pub open spec fn background_reason() -> Seq<char> {
    "Input size exceeded "@ + decimal(50)
        + " MiB; auto-analysis routed to a background task. Poll task_status(task_id) for progress."@
}

/// What a session is told once its database is open: what is known of the database, what to try,
/// who may close it, and where the analysis runs.
pub open spec fn opened_reply(
    info: FieldsV,
    analysed: bool,
    mode: ServerMode,
    session_id: Seq<char>,
    grant: Grant,
    hint: Seq<char>,
    task: Option<(Seq<char>, Seq<char>)>,
) -> FieldsV {
    let tools = info.insert("quick_tools"@, texts_v(quick_tools(analysed)));
    let owned = if mode == ServerMode::Worker {
        tools
    } else {
        with_close_metadata(tools.insert("session_id"@, text_v(session_id)), grant, hint)
    };
    match task {
        Some((id, status)) => owned.insert("analysis_background"@, JsonV::Bool(true)).insert(
            "analysis_task_id"@,
            text_v(id),
        ).insert("analysis_task_status"@, text_v(status)).insert(
            "analysis_background_reason"@,
            text_v(background_reason()),
        ),
        None => owned,
    }
}

fn quick_tools_list(analysed: bool) -> (r: Vec<String>)
    ensures
        views(r@) == quick_tools(analysed),
{
    let mut out: Vec<String> = Vec::new();
    out.push("list_functions".to_owned());
    out.push("resolve_function".to_owned());
    out.push("disasm_by_name".to_owned());
    out.push("strings".to_owned());
    out.push("analysis_status".to_owned());
    out.push("analyze_funcs".to_owned());
    out.push("close_idb".to_owned());
    if analysed {
        out.push("decompile".to_owned());
        out.push("xrefs_to".to_owned());
    }
    assert(views(out@) =~= quick_tools(analysed));
    out
}

/// What the task that analyses in the background is.
pub open spec fn task_view(task: Option<(String, String)>) -> Option<(Seq<char>, Seq<char>)> {
    match task {
        Some(t) => Some((t.0@, t.1@)),
        None => None,
    }
}

/// Adds to what is known of an open database what its session is told.
pub fn describe_open(
    info: &mut JsonObject,
    analysed: bool,
    mode: ServerMode,
    session_id: &str,
    grant: &Grant,
    hint: &str,
    task: &Option<(String, String)>,
)
    ensures
        final(info)@ == opened_reply(
            old(info)@,
            analysed,
            mode,
            session_id@,
            *grant,
            hint@,
            task_view(*task),
        ),
{
    info.put("quick_tools", Json::texts(&quick_tools_list(analysed)));
    if mode != ServerMode::Worker {
        info.put("session_id", Json::text(session_id));
        apply_close_metadata(info, grant, hint);
    }
    if let Some(t) = task {
        let mut m = "Input size exceeded ".to_owned();
        m.push_str(decimal_text(OPEN_IDB_AUTO_BACKGROUND_THRESHOLD_BYTES / 1_048_576).as_str());
        m.push_str(
            " MiB; auto-analysis routed to a background task. Poll task_status(task_id) for progress.",
        );
        info.put("analysis_background", Json::Bool(true));
        info.put("analysis_task_id", Json::text(t.0.as_str()));
        info.put("analysis_task_status", Json::text(t.1.as_str()));
        info.put("analysis_background_reason", Json::Str(m));
    }
}

/// Adds the session to an answer, but for a worker of a pool.
pub fn add_session(value: &mut JsonObject, mode: ServerMode, session_id: &str)
    ensures
        final(value)@ == (if mode == ServerMode::Worker {
            old(value)@
        } else {
            old(value)@.insert("session_id"@, text_v(session_id@))
        }),
{
    if mode != ServerMode::Worker {
        value.put("session_id", Json::text(session_id));
    }
}

// ---------------------------------------------------------------------------
// Analysing and scripts
// ---------------------------------------------------------------------------

/// How an analysis is run.
#[derive(Clone, Copy, Debug, PartialEq, Eq, Structural)]
pub enum AnalyzePlan {
    /// For as long as it takes.
    Unbounded,
    /// As a task in the background.
    Background,
    /// While the session waits, for so many seconds; it waits as long as the second number says,
    /// where there is one.
    Foreground { secs: u64, wait_secs: Option<u64> },
}

/// How an analysis is run: as a pool says, for a worker of a pool; else as the session says.
pub open spec fn analyze_plan(
    mode: ServerMode,
    no_timeout: bool,
    background: Option<bool>,
    timeout_secs: Option<i64>,
    pooled: bool,
) -> Result<AnalyzePlan, ToolErrorV> {
    if mode == ServerMode::Worker && no_timeout {
        Ok(AnalyzePlan::Unbounded)
    } else if or_else(background, false) {
        Ok(AnalyzePlan::Background)
    } else {
        match secs_param(timeout_secs, "timeout_secs"@) {
            Err(e) => Err(e),
            Ok(t) => Ok(
                AnalyzePlan::Foreground {
                    secs: lower_of(or_else(t, 120u64), MAX_TIMEOUT_SECS),
                    wait_secs: foreground_secs(pooled, t, 120),
                },
            ),
        }
    }
}

/// How an analysis is run.
pub fn plan_analyze_funcs(
    mode: ServerMode,
    no_timeout: bool,
    background: Option<bool>,
    timeout_secs: Option<i64>,
    pooled: bool,
) -> (r: Result<AnalyzePlan, ToolError>)
    ensures
        match r {
            Ok(p) => analyze_plan(mode, no_timeout, background, timeout_secs, pooled) == Ok::<
                AnalyzePlan,
                ToolErrorV,
            >(p),
            Err(e) => analyze_plan(mode, no_timeout, background, timeout_secs, pooled) == Err::<
                AnalyzePlan,
                ToolErrorV,
            >(e@),
        },
{
    if mode == ServerMode::Worker && no_timeout {
        return Ok(AnalyzePlan::Unbounded);
    }
    if flag(background) {
        return Ok(AnalyzePlan::Background);
    }
    let t: Option<u64> = optional_secs(timeout_secs, "timeout_secs")?;
    let asked: u64 = match t {
        Some(s) => s,
        None => 120,
    };
    let secs: u64 = if asked < MAX_TIMEOUT_SECS {
        asked
    } else {
        MAX_TIMEOUT_SECS
    };
    Ok(AnalyzePlan::Foreground { secs, wait_secs: foreground_timeout_secs(pooled, t, 120) })
}

/// What a worker is asked for when an analysis is run; nothing where it is put into the background.
pub open spec fn analysis_asked(plan: AnalyzePlan) -> Option<WorkerCallV> {
    match plan {
        AnalyzePlan::Unbounded => Some(WorkerCallOf::AnalyzeFuncsUnbounded),
        AnalyzePlan::Background => None,
        AnalyzePlan::Foreground { secs, .. } => Some(
            WorkerCallOf::AnalyzeFuncsObserved { timeout_secs: Some(secs) },
        ),
    }
}

/// What a worker is asked for when an analysis is run.
pub fn analyze_funcs_call(plan: AnalyzePlan) -> (r: Option<WorkerCall>)
    ensures
        match r {
            Some(call) => analysis_asked(plan) == Some(call@),
            None => analysis_asked(plan) is None,
        },
{
    match plan {
        AnalyzePlan::Unbounded => Some(WorkerCallOf::AnalyzeFuncsUnbounded),
        AnalyzePlan::Background => None,
        AnalyzePlan::Foreground { secs, .. } => Some(
            WorkerCallOf::AnalyzeFuncsObserved { timeout_secs: Some(secs) },
        ),
    }
}

/// What is answered where an analysis was put into the background: the task that runs it, which was
/// started now or before.
pub open spec fn background_started(started: bool, task_id: Seq<char>) -> FieldsV {
    no_fields().insert(
        "status"@,
        text_v(
            if started {
                "started"@
            } else {
                "already_running"@
            },
        ),
    ).insert("task_id"@, text_v(task_id)).insert(
        "message"@,
        text_v(
            if started {
                "Auto-analysis started in background. Poll task_status(task_id) for progress. Other tool calls will block until the IDA worker thread is free."@
            } else {
                "Auto-analysis is already running. Poll task_status(task_id) for progress."@
            },
        ),
    )
}

/// What is answered where an analysis was put into the background.
pub fn analyze_funcs_background(started: bool, task_id: &str) -> (r: Json)
    ensures
        r@ == JsonV::Obj(background_started(started, task_id@)),
{
    let mut o = JsonObject::new();
    let status: &str = if started {
        "started"
    } else {
        "already_running"
    };
    o.put("status", Json::text(status));
    o.put("task_id", Json::text(task_id));
    let message: &str = if started {
        "Auto-analysis started in background. Poll task_status(task_id) for progress. Other tool calls will block until the IDA worker thread is free."
    } else {
        "Auto-analysis is already running. Poll task_status(task_id) for progress."
    };
    o.put("message", Json::text(message));
    Json::Object(o)
}

/// Where the code of a script comes from, over the type of texts.
#[derive(Debug)]
pub enum ScriptSourceOf<T> {
    Code(T),
    File(T),
}

/// Where the code of a script comes from, or why it comes from nowhere. `valid` says whether the
/// path of the file may be opened.
pub open spec fn script_source(code: Option<Seq<char>>, file: Option<Seq<char>>, valid: bool) -> Result<
    ScriptSourceOf<Seq<char>>,
    ToolErrorV,
> {
    match (code, file) {
        (Some(c), None) => Ok(ScriptSourceOf::Code(c)),
        (None, Some(p)) => if valid {
            Ok(ScriptSourceOf::File(p))
        } else {
            Err(ToolErrorOf::InvalidPath(p))
        },
        (Some(_), Some(_)) => Err(
            ToolErrorOf::InvalidParams("Provide either 'code' or 'file', not both"@),
        ),
        (None, None) => Err(
            ToolErrorOf::InvalidParams(
                "Provide either 'code' (inline Python) or 'file' (path to .py)"@,
            ),
        ),
    }
}

/// Where the code of a script comes from, or why it comes from nowhere.
pub fn choose_script(code: Option<String>, file: Option<String>, valid: bool) -> (r: Result<
    ScriptSourceOf<String>,
    ToolError,
>)
    ensures
        match r {
            Ok(ScriptSourceOf::Code(c)) => script_source(opt_view(code), opt_view(file), valid)
                == Ok::<ScriptSourceOf<Seq<char>>, ToolErrorV>(ScriptSourceOf::Code(c@)),
            Ok(ScriptSourceOf::File(p)) => script_source(opt_view(code), opt_view(file), valid)
                == Ok::<ScriptSourceOf<Seq<char>>, ToolErrorV>(ScriptSourceOf::File(p@)),
            Err(e) => script_source(opt_view(code), opt_view(file), valid) == Err::<
                ScriptSourceOf<Seq<char>>,
                ToolErrorV,
            >(e@),
        },
{
    match (code, file) {
        (Some(c), None) => Ok(ScriptSourceOf::Code(c)),
        (None, Some(p)) => if valid {
            Ok(ScriptSourceOf::File(p))
        } else {
            Err(ToolErrorOf::InvalidPath(p))
        },
        (Some(_), Some(_)) => Err(
            ToolErrorOf::InvalidParams("Provide either 'code' or 'file', not both".to_owned()),
        ),
        (None, None) => Err(
            ToolErrorOf::InvalidParams(
                "Provide either 'code' (inline Python) or 'file' (path to .py)".to_owned(),
            ),
        ),
    }
}

/// The error for a script file that cannot be read.
pub fn script_unreadable(path: &str, cause: &str) -> (r: ToolError)
    ensures
        r@ == ToolErrorV::InvalidPath(
            "Failed to read script file '"@ + path@ + "': "@ + cause@,
        ),
{
    let mut m = "Failed to read script file '".to_owned();
    m.push_str(path);
    m.push_str("': ");
    m.push_str(cause);
    ToolErrorOf::InvalidPath(m)
}

/// How long a script may take, and how long its session waits for it, where it says so.
pub open spec fn script_secs(timeout_secs: Option<i64>, pooled: bool) -> Result<
    (u64, Option<u64>),
    ToolErrorV,
> {
    match secs_param(timeout_secs, "timeout_secs"@) {
        Err(e) => Err(e),
        Ok(t) => {
            let secs = lower_of(or_else(t, 120u64), MAX_TIMEOUT_SECS);
            Ok((secs, foreground_secs(pooled, Some(secs), 120)))
        },
    }
}

/// How long a script may take, and how long its session waits for it, where it says so.
pub fn plan_script_time(timeout_secs: Option<i64>, pooled: bool) -> (r: Result<
    (u64, Option<u64>),
    ToolError,
>)
    ensures
        match r {
            Ok(t) => script_secs(timeout_secs, pooled) == Ok::<(u64, Option<u64>), ToolErrorV>(t),
            Err(e) => script_secs(timeout_secs, pooled) == Err::<(u64, Option<u64>), ToolErrorV>(
                e@,
            ),
        },
{
    let t: Option<u64> = optional_secs(timeout_secs, "timeout_secs")?;
    let asked: u64 = match t {
        Some(s) => s,
        None => 120,
    };
    let secs: u64 = if asked < MAX_TIMEOUT_SECS {
        asked
    } else {
        MAX_TIMEOUT_SECS
    };
    Ok((secs, foreground_timeout_secs(pooled, Some(secs), 120)))
}

// ---------------------------------------------------------------------------
// What an open, an analysis and a script get
// ---------------------------------------------------------------------------

/// The user is asked for at most thirty seconds, or for fewer where the request
/// says so.
pub proof fn lemma_time_to_answer(secs: u64)
    ensures
        secs <= 30 ==> elicitation_secs(Some(secs)) == secs,
        secs > 30 ==> elicitation_secs(Some(secs)) == 30,
        elicitation_secs(None) == 30,
{
}

/// A path is taken without the white space around it. One that starts in the
/// home directory needs one; the others stay as they are.
pub proof fn lemma_checked_paths(s: Seq<char>, home: Option<Seq<char>>)
    requires
        s.len() > 0 && !is_white(s[0]) && !is_white(s.last()),
    ensures
        !(s.len() >= 2 && s[0] == '~' && s[1] == '/') ==> checked_path(s, home) == Some(s),
        s.len() >= 2 && s[0] == '~' && s[1] == '/' && home is None ==> checked_path(s, home) is None,
        s.len() >= 2 && s[0] == '~' && s[1] == '/' && home is Some ==> checked_path(s, home)
            == Some(join_of(home->0, s.skip(2))),
{
    let none = Seq::<char>::empty();
    lemma_trim_padding(none, s, none);
    assert(none + s + none =~= s);
}

/// What an open gets: everything that is not asked for is off, the time is what
/// is asked for, five minutes where nothing is and ten at most, and only a child
/// process takes further arguments. The size of the input matters only where
/// it is to be analysed, is no database, and the server is no child process.
pub proof fn lemma_open_gets(
    req: OpenIdbRequest,
    mode: ServerMode,
    pooled: bool,
    home: Option<Seq<char>>,
)
    requires
        req.timeout_secs is Some ==> req.timeout_secs->0 >= 0,
    ensures
        open_idb_plan(req, false, mode, pooled, home) is Err,
        open_idb_plan(req, true, mode, pooled, home) matches Ok(p) && {
            &&& p.path == trimmed(req.path@)
            &&& p.load_debug_info <==> req.load_debug_info == Some(true)
            &&& p.debug_info_verbose <==> req.debug_info_verbose == Some(true)
            &&& p.force <==> req.force == Some(true)
            &&& p.rebuild <==> req.rebuild == Some(true)
            &&& p.auto_analyse <==> req.auto_analyse == Some(true)
            &&& req.timeout_secs is None ==> p.open_secs == 300
            &&& req.timeout_secs is Some && req.timeout_secs->0 <= 600 ==> p.open_secs
                == req.timeout_secs->0
            &&& req.timeout_secs is Some && req.timeout_secs->0 > 600 ==> p.open_secs == 600
            &&& mode != ServerMode::Worker ==> p.extra_args.len() == 0
            &&& mode == ServerMode::Worker ==> p.extra_args == views(req.worker_extra_args@)
            &&& mode != ServerMode::Worker && p.auto_analyse && !names_database(
                expanded_path(trimmed(p.path), home),
            ) ==> p.size_matters
        },
{
}

/// An analysis goes to the background only for a large input, and then unless
/// the user declines, answers no or cancels; an input that is not analysed at
/// all is not analysed in the background either.
pub proof fn lemma_routes_of_an_open(plan: OpenIdbPlanV, large: bool, e: Elicited)
    ensures
        !large || !plan.size_matters ==> !open_route(plan, large, e).background && open_route(
            plan,
            large,
            e,
        ).auto_analyse == plan.auto_analyse,
        plan.size_matters && large ==> !open_route(plan, large, Elicited::Declined).background
            && !open_route(plan, large, Elicited::RequestCancelled).background && !open_route(
            plan,
            large,
            Elicited::Answered { background: Some(false) },
        ).background,
        plan.size_matters && large ==> open_route(
            plan,
            large,
            Elicited::Answered { background: Some(true) },
        ).background && open_route(plan, large, Elicited::Answered { background: None }).background,
        open_route(plan, large, e).background ==> !open_route(plan, large, e).auto_analyse,
{
}

/// A close may be asked for by whoever was given the token: the answer holds
/// the token, its owner and whether it was given before. Where another session
/// owns the database, the answer names that session and holds no token.
#[verifier::rlimit(50)]
pub proof fn lemma_close_metadata(map: FieldsV, grant: Grant, hint: Seq<char>)
    requires
        !map.dom().contains("close_token"@),
        !map.dom().contains("close_token_reused"@),
    ensures
        grant matches Some(Ok(g)) ==> {
            let m = with_close_metadata(map, grant, hint);
            &&& m["close_token"@] == JsonV::Str(g.token@)
            &&& m["close_owner_session_id"@] == JsonV::Str(g.owner_session_id@)
            &&& m["close_hint"@] == JsonV::Str(hint)
            &&& m.dom().contains("close_token_reused"@) <==> g.reused
        },
        grant matches Some(Err(owner)) ==> {
            let m = with_close_metadata(map, grant, hint);
            &&& m["close_owner_session_id"@] == JsonV::Str(owner@)
            &&& !m.dom().contains("close_token"@)
            &&& m["close_hint"@] == JsonV::Str(
                "The open database is currently owned by HTTP session "@ + owner@
                    + ". Reuse that session to call close_idb, or call close_idb(force=true) to recover if the owning session was lost."@,
            )
        },
        grant is None ==> with_close_metadata(map, grant, hint)["close_hint"@] == JsonV::Str(hint),
        forall|k: Seq<char>|
            map.dom().contains(k) && k != "close_hint"@ && k != "close_owner_session_id"@ && k
                != "close_token"@ && k != "close_token_reused"@ && k != "close_recovery_hint"@
                ==> #[trigger] with_close_metadata(map, grant, hint)[k] == map[k],
{
    reveal_strlit("close_hint");
    reveal_strlit("close_owner_session_id");
    reveal_strlit("close_token");
    reveal_strlit("close_token_reused");
    reveal_strlit("close_recovery_hint");
    assert("close_hint"@.len() == 10);
    assert("close_owner_session_id"@.len() == 22);
    assert("close_token"@.len() == 11);
    assert("close_token_reused"@.len() == 18);
    assert("close_recovery_hint"@.len() == 19);
}

/// An analysis without an end is for a child process alone; one in the
/// background is for whoever asks for it; any other has the time that it asks
/// for, two minutes where it does not ask and ten at most.
pub proof fn lemma_plans_of_an_analysis(mode: ServerMode, secs: i64, pooled: bool)
    requires
        secs >= 0,
    ensures
        analyze_plan(ServerMode::Worker, true, None, Some(secs), pooled) == Ok::<
            AnalyzePlan,
            ToolErrorV,
        >(AnalyzePlan::Unbounded),
        mode != ServerMode::Worker ==> analyze_plan(mode, true, None, Some(secs), pooled)
            == analyze_plan(mode, false, None, Some(secs), pooled),
        analyze_plan(mode, false, Some(true), Some(secs), pooled) == Ok::<AnalyzePlan, ToolErrorV>(
            AnalyzePlan::Background,
        ),
        analyze_plan(mode, false, None, Some(secs), false) == Ok::<AnalyzePlan, ToolErrorV>(
            AnalyzePlan::Foreground {
                secs: if secs < 600 { secs as u64 } else { 600 },
                wait_secs: Some(secs as u64),
            },
        ),
        analyze_plan(mode, false, None, Some(secs), true) == Ok::<AnalyzePlan, ToolErrorV>(
            AnalyzePlan::Foreground {
                secs: if secs < 600 { secs as u64 } else { 600 },
                wait_secs: Some(if secs < 600 { (secs + 10) as u64 } else { 610 }),
            },
        ),
        analyze_plan(mode, false, None, None, true) == Ok::<AnalyzePlan, ToolErrorV>(
            AnalyzePlan::Foreground { secs: 120, wait_secs: Some(130) },
        ),
        analyze_plan(mode, false, None, None, false) == Ok::<AnalyzePlan, ToolErrorV>(
            AnalyzePlan::Foreground { secs: 120, wait_secs: None },
        ),
{
}

/// A script has the time that it asks for, two minutes where it does not ask
/// and ten at most; a worker of a pool has ten seconds more.
pub proof fn lemma_time_of_a_script(secs: i64)
    requires
        secs >= 0,
    ensures
        script_secs(Some(secs), false) == Ok::<(u64, Option<u64>), ToolErrorV>(
            if secs < 600 {
                (secs as u64, Some(secs as u64))
            } else {
                (600, Some(600))
            },
        ),
        script_secs(Some(secs), true) == Ok::<(u64, Option<u64>), ToolErrorV>(
            if secs < 600 {
                (secs as u64, Some((secs + 10) as u64))
            } else {
                (600, Some(610))
            },
        ),
        script_secs(None, true) == Ok::<(u64, Option<u64>), ToolErrorV>((120, Some(130))),
{
}

/// A script is its text or its file, and exactly one of them: neither and both
/// are errors, and so is a file that is not usable.
pub proof fn lemma_sources_of_a_script(code: Option<Seq<char>>, file: Option<Seq<char>>, valid: bool)
    ensures
        script_source(code, file, valid) is Ok <==> (code is Some && file is None) || (code is None
            && file is Some && valid),
        code matches Some(c) ==> (file is None ==> script_source(code, file, valid) == Ok::<
            ScriptSourceOf<Seq<char>>,
            ToolErrorV,
        >(ScriptSourceOf::Code(c))),
        file matches Some(p) ==> (code is None && valid ==> script_source(code, file, valid) == Ok::<
            ScriptSourceOf<Seq<char>>,
            ToolErrorV,
        >(ScriptSourceOf::File(p))),
{
}

/// An input is large from the first byte past fifty times 1048576.
pub proof fn lemma_large_inputs()
    ensures
        OPEN_IDB_AUTO_BACKGROUND_THRESHOLD_BYTES == 50 * 1048576,
        OPEN_IDB_ELICITATION_TIMEOUT_SECS == 30,
        FOREGROUND_CANCEL_CLEANUP_TIMEOUT_SECS == 6,
{
}

/// Whether an input is so large that its analysis may go to the background.
pub open spec fn is_large(is_file: bool, size: u64) -> bool {
    is_file && size > OPEN_IDB_AUTO_BACKGROUND_THRESHOLD_BYTES
}

/// A file is large from the first byte past fifty MiB on; what is no file never is.
pub proof fn lemma_large_files(size: u64)
    ensures
        is_large(true, size) <==> size >= 50 * 1024 * 1024 + 1,
        !is_large(false, size),
{
}

/// What is asked of a worker for an analysis: nothing for one in the background,
/// the time that it has for one in the foreground.
pub proof fn lemma_analysis_asked(secs: u64, wait_secs: Option<u64>)
    ensures
        analysis_asked(AnalyzePlan::Background) is None,
        analysis_asked(AnalyzePlan::Unbounded) == Some(WorkerCallV::AnalyzeFuncsUnbounded),
        analysis_asked(AnalyzePlan::Foreground { secs, wait_secs }) == Some(
            WorkerCallV::AnalyzeFuncsObserved { timeout_secs: Some(secs) },
        ),
{
}

/// The user is asked about an input by its path and its size in whole MiB.
pub proof fn lemma_prompt(path: Seq<char>, mib: nat, rest: nat)
    requires
        rest < 1024 * 1024,
    ensures
        background_prompt(path, mib * 1048576 + rest) == "'"@ + path + "' is "@ + decimal(mib)
            + " MiB (threshold "@ + decimal(50)
            + " MiB). Run auto-analysis as a background task with no timeout? Choosing 'no' runs it inline (capped at the foreground timeout)."@,
{
    assert((mib * 1048576 + rest) / 1048576 == mib);
}

/// A close that is denied says so, and names the session that owns the database.
pub proof fn lemma_denied_close(owner: Seq<char>)
    ensures
        close_denied(Some(owner))["closed"@] == JsonV::Bool(false),
        close_denied(Some(owner))["owner_session_id"@] == JsonV::Str(owner),
        close_denied(Some(owner))["reason"@] == JsonV::Str("owner token required"@),
        close_denied(None)["owner_session_id"@] == JsonV::Null,
{
    reveal_strlit("closed");
    reveal_strlit("reason");
    reveal_strlit("owner_session_id");
    reveal_strlit("hint");
    assert("closed"@.len() == 6);
    assert("reason"@.len() == 6);
    assert("owner_session_id"@.len() == 16);
    assert("hint"@.len() == 4);
    assert("reason"@[0] == 'r');
    assert("closed"@[0] == 'c');
}

/// A task in the background is named, and told as started or as running already.
pub proof fn lemma_background_reply(started: bool, id: Seq<char>)
    ensures
        background_started(started, id)["task_id"@] == JsonV::Str(id),
        background_started(started, id)["status"@] == JsonV::Str(
            if started {
                "started"@
            } else {
                "already_running"@
            },
        ),
{
    reveal_strlit("status");
    reveal_strlit("task_id");
    reveal_strlit("message");
    assert("status"@.len() == 6);
    assert("task_id"@.len() == 7);
    assert("message"@.len() == 7);
    assert("message"@[0] == 'm');
    assert("task_id"@[0] == 't');
}

/// The answer to an open keeps what the database gave; a child process adds
/// neither a session nor a token; a task in the background is named.
#[verifier::rlimit(50)]
pub proof fn lemma_opened_reply(
    info: FieldsV,
    analysed: bool,
    session: Seq<char>,
    grant: Grant,
    hint: Seq<char>,
    id: Seq<char>,
    status: Seq<char>,
)
    requires
        !info.dom().contains("session_id"@),
        !info.dom().contains("close_token"@),
    ensures
        !opened_reply(info, analysed, ServerMode::Worker, session, grant, hint, None).dom().contains(
            "session_id"@,
        ),
        !opened_reply(info, analysed, ServerMode::Worker, session, grant, hint, None).dom().contains(
            "close_token"@,
        ),
        opened_reply(info, analysed, ServerMode::Stdio, session, None, hint, None)["session_id"@]
            == JsonV::Str(session),
        ({
            let m = opened_reply(
                info,
                analysed,
                ServerMode::Worker,
                session,
                grant,
                hint,
                Some((id, status)),
            );
            &&& m["analysis_task_id"@] == JsonV::Str(id)
            &&& m["analysis_task_status"@] == JsonV::Str(status)
            &&& m["analysis_background"@] == JsonV::Bool(true)
        }),
        quick_tools(true).len() == quick_tools(false).len() + 2,
        quick_tools(true).take(quick_tools(false).len() as int) == quick_tools(false),
{
    reveal_strlit("session_id");
    reveal_strlit("close_token");
    reveal_strlit("quick_tools");
    reveal_strlit("close_hint");
    reveal_strlit("analysis_background");
    reveal_strlit("analysis_task_id");
    reveal_strlit("analysis_task_status");
    reveal_strlit("analysis_background_reason");
    assert("session_id"@.len() == 10);
    assert("close_token"@.len() == 11);
    assert("quick_tools"@.len() == 11);
    assert("close_hint"@.len() == 10);
    assert("analysis_background"@.len() == 19);
    assert("analysis_task_id"@.len() == 16);
    assert("analysis_task_status"@.len() == 20);
    assert("analysis_background_reason"@.len() == 26);
    assert("quick_tools"@[0] == 'q');
    assert("close_token"@[0] == 'c');
    assert("close_hint"@[0] == 'c');
    assert("session_id"@[0] == 's');
    assert(quick_tools(true).take(quick_tools(false).len() as int) =~= quick_tools(false));
}

/// What an open is given of texts and of time to wait: a blank text counts as not
/// given; a pool waits ten seconds longer than the worker works.
pub proof fn lemma_open_gets_texts_and_time(
    req: OpenIdbRequest,
    mode: ServerMode,
    home: Option<Seq<char>>,
)
    requires
        req.timeout_secs is Some ==> 0 <= req.timeout_secs->0 <= 600,
    ensures
        open_idb_plan(req, true, mode, true, home) matches Ok(p) && {
            &&& p.debug_info_path == given_text(opt_view(req.debug_info_path))
            &&& p.file_type == given_text(opt_view(req.file_type))
            &&& p.foreground_secs == Some((p.open_secs + 10) as u64)
        },
        open_idb_plan(req, true, mode, false, home) matches Ok(p) && {
            &&& req.timeout_secs is None ==> p.foreground_secs is None
            &&& req.timeout_secs is Some ==> p.foreground_secs == Some(req.timeout_secs->0 as u64)
        },
{
}

} // verus!
