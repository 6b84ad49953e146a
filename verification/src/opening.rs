//! The course of opening a database, step by step: the lock is taken first, let go where the open
//! fails, and kept together with the database where it succeeds.

use crate::database::{
    check_open, debug_info_report, debug_report, debug_step, fallback_of, load_view, open_checked,
    open_error, open_failure, open_fallback, open_planned, plan_debug_info, plan_open,
    reports_analysis, DebugInfoLoad, DebugInfoLoadV, DebugStepOf, OpenCheckOf, OpenFacts, OpenPlan,
    OpenPlanV, OpenRequest,
};
use crate::errors::{ToolError, ToolErrorOf, ToolErrorV};
use crate::paths::names_database;
use crate::text::{copy_list, copy_opt, opt_view, views};
use crate::worker_loop::{opt_error, Progress, ProgressOf, ProgressV};
use vstd::prelude::*;

verus! {

// ---------------------------------------------------------------------------
// States, events, actions
// ---------------------------------------------------------------------------

/// What a worker has: the open database and the lock that belongs to it, over the type of texts.
#[derive(Debug)]
pub struct HeldOf<T> {
    pub database: Option<T>,
    pub lock: Option<T>,
}

/// What a worker has.
pub type Held = HeldOf<String>;

/// What a [`Held`] is.
pub type HeldV = HeldOf<Seq<char>>;

/// What is in hand while a database is opened, over the type of texts: the lock, what the
/// disassembler calls the database, and what the database is known as.
#[derive(Debug)]
pub struct InHandOf<T> {
    pub lock: T,
    pub database: T,
    pub opened: T,
}

/// What is in hand while a database is opened.
pub type InHand = InHandOf<String>;

/// What an [`InHand`] is.
pub type InHandV = InHandOf<Seq<char>>;

/// How far an open has come, over the types of texts and reports on debug information.
#[derive(Debug)]
pub enum StageOf<T, D> {
    /// The lock is being taken.
    Locking,
    /// The database is being opened.
    Opening { lock: T },
    /// The unpacked database is being opened instead.
    Retrying { lock: T, opened: T },
    /// The database is open.
    Opened(InHandOf<T>),
    /// Debug information is about to be loaded.
    BeforeDebug(InHandOf<T>),
    /// Debug information is being loaded; a report on it is made where it was requested.
    Loading { hand: InHandOf<T>, requested: Option<T> },
    /// Debug information is out of the way.
    AfterDebug { hand: InHandOf<T>, debug_info: Option<D> },
}

/// How far an open has come.
pub type Stage = StageOf<String, DebugInfoLoad>;

/// What a [`Stage`] is.
pub type StageV = StageOf<Seq<char>, DebugInfoLoadV>;

/// An open that is under way.
#[derive(Debug)]
pub struct OpenRun {
    pub req: OpenRequest,
    pub expanded: String,
    pub plan: OpenPlan,
    pub stage: Stage,
}

/// What an [`OpenRun`] is.
pub struct OpenRunV {
    pub req: OpenRequest,
    pub expanded: Seq<char>,
    pub plan: OpenPlanV,
    pub stage: StageV,
}

/// What a worker has, and the open that is under way, if one is.
#[derive(Debug)]
pub struct OpenState {
    pub held: Held,
    pub run: Option<OpenRun>,
}

/// What an [`OpenState`] is.
pub struct OpenStateV {
    pub held: HeldV,
    pub run: Option<OpenRunV>,
}

/// What came of an action, over the types of texts and errors.
#[derive(Debug)]
pub enum OpenEventOf<T, E> {
    /// The lock was taken, and is this file; or it was not.
    Lock(Result<T, E>),
    /// The database was opened; the disassembler calls it so.
    Opened { database: T },
    /// The database was not opened. `locked` is what is known of somebody else who holds it, and
    /// `unpacked_exists` says whether there is an unpacked database to try.
    Failed { cause: T, locked: Option<T>, unpacked_exists: bool },
    /// Whether the request was cancelled meanwhile.
    Checked(Option<E>),
    /// What came of loading debug information.
    Loaded { exists: bool, outcome: Result<bool, T> },
}

/// What came of an action.
pub type OpenEvent = OpenEventOf<String, ToolError>;

/// What an [`OpenEvent`] is.
pub type OpenEventV = OpenEventOf<Seq<char>, ToolErrorV>;

/// What is done next, over the types of texts, lists of texts, lists of phases, errors and reports.
#[derive(Debug)]
pub enum OpenActionOf<T, L, P, E, D> {
    /// Clean up the locks that are stale among these, then take the lock of this database.
    TakeLock { clean: L, target: T },
    /// Open this, with these settings; what is reported meanwhile comes with them.
    Open {
        path: T,
        output: Option<T>,
        auto_analyse: bool,
        file_type: Option<T>,
        args: L,
        message: T,
    },
    /// Report these phases, each with its message, then see whether the request was cancelled.
    Check { phases: P },
    /// Load this debug information, if it exists.
    LoadDebugInfo { path: T, verbose: bool },
    /// Close this database and let go of this lock, where there is one, and answer with the error.
    GiveUp { close: Option<T>, release: Option<T>, error: E },
    /// Answer with what is known of the database that is open already.
    Describe { current: T },
    /// Keep the database and the lock, and answer with what is known of it under this path.
    Keep { opened: T, debug_info: Option<D> },
    /// Nothing: the event does not belong to what is under way.
    Nothing,
}

/// What is done next.
pub type OpenAction = OpenActionOf<
    String,
    Vec<String>,
    Vec<(String, String)>,
    ToolError,
    DebugInfoLoad,
>;

/// What an [`OpenAction`] is.
pub type OpenActionV = OpenActionOf<
    Seq<char>,
    Seq<Seq<char>>,
    Seq<(Seq<char>, Seq<char>)>,
    ToolErrorV,
    DebugInfoLoadV,
>;

/// What a list of phases is.
pub open spec fn phase_views(phases: Seq<(String, String)>) -> Seq<(Seq<char>, Seq<char>)> {
    phases.map_values(|p: (String, String)| (p.0@, p.1@))
}

/// What an optional report is.
pub open spec fn opt_report(d: Option<DebugInfoLoad>) -> Option<DebugInfoLoadV> {
    match d {
        Some(v) => Some(v@),
        None => None,
    }
}

impl View for HeldOf<String> {
    type V = HeldV;

    open spec fn view(&self) -> HeldV {
        HeldOf { database: opt_view(self.database), lock: opt_view(self.lock) }
    }
}

impl View for InHandOf<String> {
    type V = InHandV;

    open spec fn view(&self) -> InHandV {
        InHandOf { lock: self.lock@, database: self.database@, opened: self.opened@ }
    }
}

impl View for StageOf<String, DebugInfoLoad> {
    type V = StageV;

    open spec fn view(&self) -> StageV {
        match self {
            StageOf::Locking => StageOf::Locking,
            StageOf::Opening { lock } => StageOf::Opening { lock: lock@ },
            StageOf::Retrying { lock, opened } => StageOf::Retrying {
                lock: lock@,
                opened: opened@,
            },
            StageOf::Opened(hand) => StageOf::Opened(hand@),
            StageOf::BeforeDebug(hand) => StageOf::BeforeDebug(hand@),
            StageOf::Loading { hand, requested } => StageOf::Loading {
                hand: hand@,
                requested: opt_view(*requested),
            },
            StageOf::AfterDebug { hand, debug_info } => StageOf::AfterDebug {
                hand: hand@,
                debug_info: opt_report(*debug_info),
            },
        }
    }
}

impl View for OpenRun {
    type V = OpenRunV;

    open spec fn view(&self) -> OpenRunV {
        OpenRunV {
            req: self.req,
            expanded: self.expanded@,
            plan: self.plan@,
            stage: self.stage@,
        }
    }
}

impl View for OpenState {
    type V = OpenStateV;

    open spec fn view(&self) -> OpenStateV {
        OpenStateV {
            held: self.held@,
            run: match self.run {
                Some(run) => Some(run@),
                None => None,
            },
        }
    }
}

impl View for OpenEventOf<String, ToolError> {
    type V = OpenEventV;

    open spec fn view(&self) -> OpenEventV {
        match self {
            OpenEventOf::Lock(Ok(path)) => OpenEventOf::Lock(Ok(path@)),
            OpenEventOf::Lock(Err(e)) => OpenEventOf::Lock(Err(e@)),
            OpenEventOf::Opened { database } => OpenEventOf::Opened { database: database@ },
            OpenEventOf::Failed { cause, locked, unpacked_exists } => OpenEventOf::Failed {
                cause: cause@,
                locked: opt_view(*locked),
                unpacked_exists: *unpacked_exists,
            },
            OpenEventOf::Checked(e) => OpenEventOf::Checked(opt_error(*e)),
            OpenEventOf::Loaded { exists, outcome } => OpenEventOf::Loaded {
                exists: *exists,
                outcome: load_view(*outcome),
            },
        }
    }
}

impl View for OpenActionOf<
    String,
    Vec<String>,
    Vec<(String, String)>,
    ToolError,
    DebugInfoLoad,
> {
    type V = OpenActionV;

    open spec fn view(&self) -> OpenActionV {
        match self {
            OpenActionOf::TakeLock { clean, target } => OpenActionOf::TakeLock {
                clean: views(clean@),
                target: target@,
            },
            OpenActionOf::Open {
                path,
                output,
                auto_analyse,
                file_type,
                args,
                message,
            } => OpenActionOf::Open {
                path: path@,
                output: opt_view(*output),
                auto_analyse: *auto_analyse,
                file_type: opt_view(*file_type),
                args: views(args@),
                message: message@,
            },
            OpenActionOf::Check { phases } => OpenActionOf::Check {
                phases: phase_views(phases@),
            },
            OpenActionOf::LoadDebugInfo { path, verbose } => OpenActionOf::LoadDebugInfo {
                path: path@,
                verbose: *verbose,
            },
            OpenActionOf::GiveUp { close, release, error } => OpenActionOf::GiveUp {
                close: opt_view(*close),
                release: opt_view(*release),
                error: error@,
            },
            OpenActionOf::Describe { current } => OpenActionOf::Describe { current: current@ },
            OpenActionOf::Keep { opened, debug_info } => OpenActionOf::Keep {
                opened: opened@,
                debug_info: opt_report(*debug_info),
            },
            OpenActionOf::Nothing => OpenActionOf::Nothing,
        }
    }
}

// ---------------------------------------------------------------------------
// The beginning
// ---------------------------------------------------------------------------

/// How an open begins: a request that is cancelled, that finds another database open or that finds
/// no file is refused; one for the database that is open is answered; else the lock is taken.
pub open spec fn open_begun(
    held: HeldV,
    req: OpenRequest,
    home: Option<Seq<char>>,
    cancelled: Option<ToolErrorV>,
    facts: OpenFacts,
) -> (OpenStateV, OpenActionV) {
    let idle = OpenStateV { held, run: None };
    match open_checked(req.path@, home, cancelled, held.database) {
        OpenCheckOf::Refused(error) => (
            idle,
            OpenActionOf::GiveUp { close: None, release: None, error },
        ),
        OpenCheckOf::Same { current } => (idle, OpenActionOf::Describe { current }),
        OpenCheckOf::Proceed { expanded } => match open_planned(req, expanded, home, facts) {
            Err(error) => (idle, OpenActionOf::GiveUp { close: None, release: None, error }),
            Ok(plan) => (
                OpenStateV {
                    held,
                    run: Some(OpenRunV { req, expanded, plan, stage: StageOf::Locking }),
                },
                OpenActionOf::TakeLock { clean: plan.clean_locks, target: plan.lock_target },
            ),
        },
    }
}

/// Begins to open a database.
pub fn begin_open(
    held: Held,
    req: OpenRequest,
    home: &Option<String>,
    cancelled: Option<ToolError>,
    facts: OpenFacts,
) -> (r: (OpenState, OpenAction))
    ensures
        (r.0@, r.1@) == open_begun(held@, req, opt_view(*home), opt_error(cancelled), facts),
{
    let current = copy_opt(&held.database);
    match check_open(req.path.as_str(), home, cancelled, current) {
        OpenCheckOf::Refused(error) => (
            OpenState { held, run: None },
            OpenActionOf::GiveUp { close: None, release: None, error },
        ),
        OpenCheckOf::Same { current } => (
            OpenState { held, run: None },
            OpenActionOf::Describe { current },
        ),
        OpenCheckOf::Proceed { expanded } => match plan_open(&req, expanded.as_str(), home, facts) {
            Err(error) => (
                OpenState { held, run: None },
                OpenActionOf::GiveUp { close: None, release: None, error },
            ),
            Ok(plan) => {
                let action = OpenActionOf::TakeLock {
                    clean: copy_list(&plan.clean_locks),
                    target: plan.lock_target.clone(),
                };
                let run = OpenRun { req, expanded, plan, stage: StageOf::Locking };
                (OpenState { held, run: Some(run) }, action)
            },
        },
    }
}

// ---------------------------------------------------------------------------
// The course
// ---------------------------------------------------------------------------

/// The phases that are reported once a database is open, as far as there is something to say: that
/// the analysis of a raw binary has been waited for, and that debug information is loaded.
pub open spec fn open_phases(run: OpenRunV) -> Seq<(Seq<char>, Seq<char>)> {
    let first: Seq<(Seq<char>, Seq<char>)> = if !names_database(run.expanded)
        && run.req.auto_analyse {
        seq![("analyzing"@, "Raw binary open finished; collecting post-open analysis state"@)]
    } else {
        seq![]
    };
    if run.req.load_debug_info {
        first.push(("loading_debug_info"@, "Loading requested debug information"@))
    } else if run.plan.sibling_dsym is Some {
        first.push(("loading_debug_info"@, "Loading sibling dSYM debug information"@))
    } else {
        first
    }
}

/// Whether debug information is looked for once a database is open.
pub open spec fn wants_debug(run: OpenRunV) -> bool {
    run.req.load_debug_info || run.plan.sibling_dsym is Some
}

/// The lock in hand.
pub open spec fn lock_in_hand(stage: StageV) -> Option<Seq<char>> {
    match stage {
        StageOf::Locking => None,
        StageOf::Opening { lock } => Some(lock),
        StageOf::Retrying { lock, .. } => Some(lock),
        StageOf::Opened(hand) => Some(hand.lock),
        StageOf::BeforeDebug(hand) => Some(hand.lock),
        StageOf::Loading { hand, .. } => Some(hand.lock),
        StageOf::AfterDebug { hand, .. } => Some(hand.lock),
    }
}

/// The database in hand.
pub open spec fn database_in_hand(stage: StageV) -> Option<Seq<char>> {
    match stage {
        StageOf::Opened(hand) => Some(hand.database),
        StageOf::BeforeDebug(hand) => Some(hand.database),
        StageOf::Loading { hand, .. } => Some(hand.database),
        StageOf::AfterDebug { hand, .. } => Some(hand.database),
        _ => None,
    }
}

/// The open goes on with another stage.
pub open spec fn going_on(st: OpenStateV, stage: StageV, action: OpenActionV) -> (
    OpenStateV,
    OpenActionV,
) {
    (OpenStateV { run: Some(OpenRunV { stage, ..st.run->0 }), ..st }, action)
}

/// The open is given up: what is in hand is let go, and what the worker has stays as it is.
pub open spec fn given_up(st: OpenStateV, error: ToolErrorV) -> (OpenStateV, OpenActionV) {
    (
        OpenStateV { run: None, ..st },
        OpenActionOf::GiveUp {
            close: database_in_hand(st.run->0.stage),
            release: lock_in_hand(st.run->0.stage),
            error,
        },
    )
}

/// What is done where a database could not be opened: the unpacked one is tried, if this was not it
/// and it is there; else the open is given up.
pub open spec fn after_failure(
    st: OpenStateV,
    cause: Seq<char>,
    locked: Option<Seq<char>>,
    unpacked_exists: bool,
) -> (OpenStateV, OpenActionV) {
    let run = st.run->0;
    match run.stage {
        StageOf::Opening { lock } => match fallback_of(run.plan, unpacked_exists) {
            Some(id0) => going_on(
                st,
                StageOf::Retrying { lock, opened: id0 },
                OpenActionOf::Open {
                    path: id0,
                    output: None,
                    auto_analyse: false,
                    file_type: None,
                    args: run.plan.args,
                    message: run.plan.message,
                },
            ),
            None => given_up(st, open_error(run.plan.opened, cause, locked)),
        },
        StageOf::Retrying { opened, .. } => given_up(st, open_error(opened, cause, locked)),
        _ => (st, OpenActionOf::Nothing),
    }
}

/// What is done once it is known whether the request was cancelled: a cancelled one is given up; else
/// debug information comes next, and then the open is done.
pub open spec fn after_check(st: OpenStateV, cancelled: Option<ToolErrorV>) -> (
    OpenStateV,
    OpenActionV,
) {
    let run = st.run->0;
    match run.stage {
        StageOf::Opened(hand) => match cancelled {
            Some(e) => given_up(st, e),
            None => if wants_debug(run) {
                going_on(
                    st,
                    StageOf::BeforeDebug(hand),
                    OpenActionOf::Check { phases: open_phases(run) },
                )
            } else {
                going_on(
                    st,
                    StageOf::AfterDebug { hand, debug_info: None },
                    OpenActionOf::Check { phases: open_phases(run) },
                )
            },
        },
        StageOf::BeforeDebug(hand) => match cancelled {
            Some(e) => given_up(st, e),
            None => match debug_step(run.req, run.expanded, run.plan.sibling_dsym) {
                DebugStepOf::Nothing => going_on(
                    st,
                    StageOf::AfterDebug { hand, debug_info: None },
                    OpenActionOf::Check { phases: seq![] },
                ),
                DebugStepOf::Requested { path } => going_on(
                    st,
                    StageOf::Loading { hand, requested: Some(path) },
                    OpenActionOf::LoadDebugInfo { path, verbose: run.req.debug_info_verbose },
                ),
                DebugStepOf::Sibling { path } => going_on(
                    st,
                    StageOf::Loading { hand, requested: None },
                    OpenActionOf::LoadDebugInfo { path, verbose: false },
                ),
            },
        },
        StageOf::AfterDebug { hand, debug_info } => match cancelled {
            Some(e) => given_up(st, e),
            None => (
                OpenStateV {
                    held: HeldOf { database: Some(hand.database), lock: Some(hand.lock) },
                    run: None,
                },
                OpenActionOf::Keep { opened: hand.opened, debug_info },
            ),
        },
        _ => (st, OpenActionOf::Nothing),
    }
}

/// What an event leads to while a database is opened.
pub open spec fn open_next(st: OpenStateV, event: OpenEventV) -> (OpenStateV, OpenActionV) {
    match st.run {
        None => (st, OpenActionOf::Nothing),
        Some(run) => match event {
            OpenEventOf::Lock(outcome) => if run.stage is Locking {
                match outcome {
                    Err(e) => given_up(st, e),
                    Ok(lock) => going_on(
                        st,
                        StageOf::Opening { lock },
                        OpenActionOf::Open {
                            path: run.plan.input,
                            output: run.plan.output,
                            auto_analyse: run.plan.auto_analyse,
                            file_type: run.plan.file_type,
                            args: run.plan.args,
                            message: run.plan.message,
                        },
                    ),
                }
            } else {
                (st, OpenActionOf::Nothing)
            },
            OpenEventOf::Opened { database } => match run.stage {
                StageOf::Opening { lock } => going_on(
                    st,
                    StageOf::Opened(InHandOf { lock, database, opened: run.plan.opened }),
                    OpenActionOf::Check { phases: seq![] },
                ),
                StageOf::Retrying { lock, opened } => going_on(
                    st,
                    StageOf::Opened(InHandOf { lock, database, opened }),
                    OpenActionOf::Check { phases: seq![] },
                ),
                _ => (st, OpenActionOf::Nothing),
            },
            OpenEventOf::Failed { cause, locked, unpacked_exists } => after_failure(
                st,
                cause,
                locked,
                unpacked_exists,
            ),
            OpenEventOf::Checked(cancelled) => after_check(st, cancelled),
            OpenEventOf::Loaded { exists, outcome } => match run.stage {
                StageOf::Loading { hand, requested } => going_on(
                    st,
                    StageOf::AfterDebug {
                        hand,
                        debug_info: match requested {
                            Some(path) => Some(debug_report(path, exists, outcome)),
                            None => None,
                        },
                    },
                    OpenActionOf::Check { phases: seq![] },
                ),
                _ => (st, OpenActionOf::Nothing),
            },
        },
    }
}

fn no_phases() -> (r: OpenAction)
    ensures
        r@ == (OpenActionV::Check { phases: seq![] }),
{
    let phases: Vec<(String, String)> = Vec::new();
    assert(phase_views(phases@) =~= seq![]);
    OpenActionOf::Check { phases }
}

fn phases_of(run: &OpenRun) -> (r: OpenAction)
    ensures
        r@ == (OpenActionV::Check { phases: open_phases(run@) }),
{
    let mut phases: Vec<(String, String)> = Vec::new();
    if reports_analysis(run.expanded.as_str(), run.req.auto_analyse) {
        phases.push(
            (
                "analyzing".to_owned(),
                "Raw binary open finished; collecting post-open analysis state".to_owned(),
            ),
        );
    }
    if run.req.load_debug_info {
        phases.push(
            (
                "loading_debug_info".to_owned(),
                "Loading requested debug information".to_owned(),
            ),
        );
    } else if run.plan.sibling_dsym.is_some() {
        phases.push(
            (
                "loading_debug_info".to_owned(),
                "Loading sibling dSYM debug information".to_owned(),
            ),
        );
    }
    assert(phase_views(phases@) =~= open_phases(run@));
    OpenActionOf::Check { phases }
}

fn open_action(plan: &OpenPlan) -> (r: OpenAction)
    ensures
        r@ == (OpenActionV::Open {
            path: plan@.input,
            output: plan@.output,
            auto_analyse: plan@.auto_analyse,
            file_type: plan@.file_type,
            args: plan@.args,
            message: plan@.message,
        }),
{
    OpenActionOf::Open {
        path: plan.input.clone(),
        output: copy_opt(&plan.output),
        auto_analyse: plan.auto_analyse,
        file_type: copy_opt(&plan.file_type),
        args: copy_list(&plan.args),
        message: plan.message.clone(),
    }
}

fn retry_action(plan: &OpenPlan, id0: &str) -> (r: OpenAction)
    ensures
        r@ == (OpenActionV::Open {
            path: id0@,
            output: None,
            auto_analyse: false,
            file_type: None,
            args: plan@.args,
            message: plan@.message,
        }),
{
    OpenActionOf::Open {
        path: id0.to_owned(),
        output: None,
        auto_analyse: false,
        file_type: None,
        args: copy_list(&plan.args),
        message: plan.message.clone(),
    }
}

/// What is reported while a database is opened.
pub fn opening_report(plan: &OpenPlan) -> (r: Progress)
    ensures
        r@ == (ProgressV { phase: "opening"@, done: false, message: plan@.message }),
{
    ProgressOf { phase: "opening".to_owned(), done: false, message: plan.message.clone() }
}

/// The open goes on with another stage.
fn go_on(held: Held, run: OpenRun, stage: Stage, action: OpenAction) -> (r: (OpenState, OpenAction))
    ensures
        (r.0@, r.1@) == going_on(
            (OpenStateV { held: held@, run: Some(run@) }),
            stage@,
            action@,
        ),
{
    let run = OpenRun { req: run.req, expanded: run.expanded, plan: run.plan, stage };
    (OpenState { held, run: Some(run) }, action)
}

/// The open is given up with a database in hand.
fn abandon(held: Held, hand: InHand, error: ToolError) -> (r: (OpenState, OpenAction))
    ensures
        r.0@ == (OpenStateV { held: held@, run: None }),
        r.1@ == (OpenActionV::GiveUp {
            close: Some(hand@.database),
            release: Some(hand@.lock),
            error: error@,
        }),
{
    (
        OpenState { held, run: None },
        OpenActionOf::GiveUp { close: Some(hand.database), release: Some(hand.lock), error },
    )
}

fn fail(held: Held, run: OpenRun, cause: String, locked: Option<String>, unpacked_exists: bool) -> (r:
    (OpenState, OpenAction))
    ensures
        (r.0@, r.1@) == after_failure(
            (OpenStateV { held: held@, run: Some(run@) }),
            cause@,
            opt_view(locked),
            unpacked_exists,
        ),
{
    let OpenRun { req, expanded, plan, stage } = run;
    match stage {
        StageOf::Opening { lock } => match open_fallback(&plan, unpacked_exists) {
            Some(id0) => {
                let action = retry_action(&plan, id0.as_str());
                let stage = StageOf::Retrying { lock, opened: id0 };
                let run = OpenRun { req, expanded, plan, stage };
                (OpenState { held, run: Some(run) }, action)
            },
            None => {
                let error = open_failure(plan.opened.as_str(), cause.as_str(), locked);
                (
                    OpenState { held, run: None },
                    OpenActionOf::GiveUp { close: None, release: Some(lock), error },
                )
            },
        },
        StageOf::Retrying { lock, opened } => {
            let error = open_failure(opened.as_str(), cause.as_str(), locked);
            (
                OpenState { held, run: None },
                OpenActionOf::GiveUp { close: None, release: Some(lock), error },
            )
        },
        stage => {
            let run = OpenRun { req, expanded, plan, stage };
            (OpenState { held, run: Some(run) }, OpenActionOf::Nothing)
        },
    }
}

fn checked(held: Held, run: OpenRun, cancelled: Option<ToolError>) -> (r: (OpenState, OpenAction))
    ensures
        (r.0@, r.1@) == after_check(
            (OpenStateV { held: held@, run: Some(run@) }),
            opt_error(cancelled),
        ),
{
    let wanted: bool = run.req.load_debug_info || run.plan.sibling_dsym.is_some();
    let phases = phases_of(&run);
    let OpenRun { req, expanded, plan, stage } = run;
    match stage {
        StageOf::Opened(hand) => match cancelled {
            Some(e) => abandon(held, hand, e),
            None => {
                let stage = if wanted {
                    StageOf::BeforeDebug(hand)
                } else {
                    StageOf::AfterDebug { hand, debug_info: None }
                };
                (OpenState { held, run: Some(OpenRun { req, expanded, plan, stage }) }, phases)
            },
        },
        StageOf::BeforeDebug(hand) => match cancelled {
            Some(e) => abandon(held, hand, e),
            None => {
                let verbose: bool = req.debug_info_verbose;
                match plan_debug_info(&req, expanded.as_str(), &plan.sibling_dsym) {
                    DebugStepOf::Nothing => {
                        let stage = StageOf::AfterDebug { hand, debug_info: None };
                        let run = OpenRun { req, expanded, plan, stage };
                        (OpenState { held, run: Some(run) }, no_phases())
                    },
                    DebugStepOf::Requested { path } => {
                        let stage = StageOf::Loading { hand, requested: Some(path.clone()) };
                        let run = OpenRun { req, expanded, plan, stage };
                        (
                            OpenState { held, run: Some(run) },
                            OpenActionOf::LoadDebugInfo { path, verbose },
                        )
                    },
                    DebugStepOf::Sibling { path } => {
                        let stage = StageOf::Loading { hand, requested: None };
                        let run = OpenRun { req, expanded, plan, stage };
                        (
                            OpenState { held, run: Some(run) },
                            OpenActionOf::LoadDebugInfo { path, verbose: false },
                        )
                    },
                }
            },
        },
        StageOf::AfterDebug { hand, debug_info } => match cancelled {
            Some(e) => abandon(held, hand, e),
            None => (
                OpenState {
                    held: HeldOf { database: Some(hand.database), lock: Some(hand.lock) },
                    run: None,
                },
                OpenActionOf::Keep { opened: hand.opened, debug_info },
            ),
        },
        stage => {
            let run = OpenRun { req, expanded, plan, stage };
            (OpenState { held, run: Some(run) }, OpenActionOf::Nothing)
        },
    }
}

/// What an event leads to while a database is opened.
pub fn open_step(state: OpenState, event: OpenEvent) -> (r: (OpenState, OpenAction))
    ensures
        (r.0@, r.1@) == open_next(state@, event@),
{
    let OpenState { held, run } = state;
    let run = match run {
        Some(run) => run,
        None => {
            return (OpenState { held, run: None }, OpenActionOf::Nothing);
        },
    };
    match event {
        OpenEventOf::Lock(outcome) => {
            let locking: bool = match &run.stage {
                StageOf::Locking => true,
                _ => false,
            };
            if !locking {
                return (OpenState { held, run: Some(run) }, OpenActionOf::Nothing);
            }
            match outcome {
                Err(error) => (
                    OpenState { held, run: None },
                    OpenActionOf::GiveUp { close: None, release: None, error },
                ),
                Ok(lock) => {
                    let action = open_action(&run.plan);
                    go_on(held, run, StageOf::Opening { lock }, action)
                },
            }
        },
        OpenEventOf::Opened { database } => {
            let OpenRun { req, expanded, plan, stage } = run;
            match stage {
                StageOf::Opening { lock } => {
                    let opened = plan.opened.clone();
                    let stage = StageOf::Opened(InHandOf { lock, database, opened });
                    let run = OpenRun { req, expanded, plan, stage };
                    (OpenState { held, run: Some(run) }, no_phases())
                },
                StageOf::Retrying { lock, opened } => {
                    let stage = StageOf::Opened(InHandOf { lock, database, opened });
                    let run = OpenRun { req, expanded, plan, stage };
                    (OpenState { held, run: Some(run) }, no_phases())
                },
                stage => {
                    let run = OpenRun { req, expanded, plan, stage };
                    (OpenState { held, run: Some(run) }, OpenActionOf::Nothing)
                },
            }
        },
        OpenEventOf::Failed { cause, locked, unpacked_exists } => fail(
            held,
            run,
            cause,
            locked,
            unpacked_exists,
        ),
        OpenEventOf::Checked(cancelled) => checked(held, run, cancelled),
        OpenEventOf::Loaded { exists, outcome } => {
            let OpenRun { req, expanded, plan, stage } = run;
            match stage {
                StageOf::Loading { hand, requested } => {
                    let debug_info: Option<DebugInfoLoad> = match requested {
                        Some(path) => Some(debug_info_report(path, exists, outcome)),
                        None => None,
                    };
                    let stage = StageOf::AfterDebug { hand, debug_info };
                    let run = OpenRun { req, expanded, plan, stage };
                    (OpenState { held, run: Some(run) }, no_phases())
                },
                stage => {
                    let run = OpenRun { req, expanded, plan, stage };
                    (OpenState { held, run: Some(run) }, OpenActionOf::Nothing)
                },
            }
        },
    }
}

// ---------------------------------------------------------------------------
// What holds of every course
// ---------------------------------------------------------------------------

/// Where a course of events leads: the state after all of them, and what is done after the last.
pub open spec fn open_course(st: OpenStateV, events: Seq<OpenEventV>) -> (OpenStateV, OpenActionV)
    decreases events.len(),
{
    if events.len() == 0 {
        (st, OpenActionOf::Nothing)
    } else {
        open_next(open_course(st, events.drop_last()).0, events.last())
    }
}

/// The beginning of an open changes nothing of what the worker has. While a database is open, none is
/// opened: the open one is described, or named as in the way.
pub proof fn lemma_open_begins(
    held: HeldV,
    req: OpenRequest,
    home: Option<Seq<char>>,
    cancelled: Option<ToolErrorV>,
    facts: OpenFacts,
)
    ensures
        ({
            let (st, action) = open_begun(held, req, home, cancelled, facts);
            &&& st.held == held
            &&& st.run is Some <==> action is TakeLock
            &&& st.run matches Some(run) ==> run.stage is Locking && held.database is None
                && cancelled is None
            &&& action is TakeLock || action is Describe || (action matches OpenActionV::GiveUp {
                close,
                release,
                ..
            } && close is None && release is None)
        }),
{
}

/// One event either leaves what the worker has as it is and loses nothing that is in hand, or it ends
/// the open: given up, with all that is in hand let go and what the worker has as it was, or kept,
/// with all that is in hand.
proof fn lemma_one_step(st: OpenStateV, event: OpenEventV)
    requires
        st.run is Some,
    ensures
        ({
            let (now, action) = open_next(st, event);
            let stage = st.run->0.stage;
            match now.run {
                Some(run) => {
                    &&& now.held == st.held
                    &&& !(action is GiveUp) && !(action is Keep)
                    &&& lock_in_hand(stage) is Some ==> lock_in_hand(run.stage) == lock_in_hand(
                        stage,
                    )
                    &&& database_in_hand(stage) is Some ==> database_in_hand(run.stage)
                        == database_in_hand(stage)
                },
                None => match action {
                    OpenActionOf::GiveUp { close, release, .. } => {
                        &&& now.held == st.held
                        &&& close == database_in_hand(stage)
                        &&& release == lock_in_hand(stage)
                    },
                    OpenActionOf::Keep { .. } => {
                        &&& now.held.database == database_in_hand(stage)
                        &&& now.held.lock == lock_in_hand(stage)
                        &&& now.held.database is Some && now.held.lock is Some
                    },
                    _ => false,
                },
            }
        }),
{
}

/// An open that fails, at whatever point, ends in what it began with, and lets go of the lock and of
/// the database that it had in hand; one that succeeds ends with both, and only then does anything
/// change.
pub proof fn lemma_open_ends(st: OpenStateV, events: Seq<OpenEventV>)
    requires
        events.len() > 0,
        st.run is Some,
        open_course(st, events.drop_last()).0.run is Some,
    ensures
        ({
            let before = open_course(st, events.drop_last()).0;
            let (now, action) = open_course(st, events);
            let stage = before.run->0.stage;
            &&& before.held == st.held
            &&& now.run is Some ==> now.held == st.held && !(action is GiveUp) && !(action is Keep)
            &&& now.run is None ==> (match action {
                OpenActionOf::GiveUp { close, release, .. } => {
                    &&& now.held == st.held
                    &&& close == database_in_hand(stage)
                    &&& release == lock_in_hand(stage)
                },
                OpenActionOf::Keep { .. } => {
                    &&& now.held.database is Some && now.held.database == database_in_hand(stage)
                    &&& now.held.lock is Some && now.held.lock == lock_in_hand(stage)
                },
                _ => false,
            })
        }),
    decreases events.len(),
{
    let front = events.drop_last();
    lemma_course_keeps_held(st, front);
    lemma_one_step(open_course(st, front).0, events.last());
}

/// As long as an open is under way, what the worker has is what it had; and a lock that was taken is
/// still in hand.
pub proof fn lemma_course_keeps_held(st: OpenStateV, events: Seq<OpenEventV>)
    requires
        st.run is Some,
        open_course(st, events).0.run is Some,
    ensures
        open_course(st, events).0.held == st.held,
        lock_in_hand(st.run->0.stage) is Some ==> lock_in_hand(
            open_course(st, events).0.run->0.stage,
        ) == lock_in_hand(st.run->0.stage),
    decreases events.len(),
{
    if events.len() > 0 {
        let front = events.drop_last();
        let mid = open_course(st, front).0;
        assert(mid.run is Some) by {
            if mid.run is None {
                assert(open_next(mid, events.last()).0 == mid);
            }
        }
        lemma_course_keeps_held(st, front);
        lemma_one_step(mid, events.last());
    }
}

/// Once an open has ended, no event changes anything any more.
pub proof fn lemma_ended_stays(st: OpenStateV, event: OpenEventV)
    requires
        st.run is None,
    ensures
        open_next(st, event) == (st, OpenActionV::Nothing),
{
}

/// A database that was opened through its unpacked form is known by the path of that form.
pub proof fn lemma_fallback_is_named(st: OpenStateV, database: Seq<char>, cause: Seq<char>)
    requires
        st.run is Some,
        st.run->0.stage is Opening,
        fallback_of(st.run->0.plan, true) is Some,
    ensures
        ({
            let failed = OpenEventV::Failed { cause, locked: None, unpacked_exists: true };
            let tried = open_next(st, failed).0;
            let opened = open_next(tried, OpenEventV::Opened { database }).0;
            &&& opened.run is Some
            &&& opened.run->0.stage matches StageOf::Opened(hand) && Some(hand.opened)
                == fallback_of(st.run->0.plan, true)
        }),
{
}

/// An open that goes well takes its lock, opens what the plan says, and keeps
/// the database and the lock: nothing else is held, and what is told is the file
/// that the plan names.
pub proof fn lemma_open_goes_well(st: OpenStateV, lock: Seq<char>, database: Seq<char>)
    requires
        st.run is Some,
        st.run->0.stage is Locking,
        !st.run->0.req.load_debug_info,
        st.run->0.plan.sibling_dsym is None,
    ensures
        ({
            let plan = st.run->0.plan;
            let (locked, first) = open_next(st, OpenEventOf::Lock(Ok(lock)));
            let (opened, second) = open_next(locked, OpenEventOf::Opened { database });
            let (checked, third) = open_next(opened, OpenEventOf::Checked(None));
            let (kept, last) = open_next(checked, OpenEventOf::Checked(None));
            &&& first == (OpenActionV::Open {
                path: plan.input,
                output: plan.output,
                auto_analyse: plan.auto_analyse,
                file_type: plan.file_type,
                args: plan.args,
                message: plan.message,
            })
            &&& second is Check && third is Check
            &&& last == (OpenActionV::Keep { opened: plan.opened, debug_info: None })
            &&& kept.run is None
            &&& kept.held.database == Some(database)
            &&& kept.held.lock == Some(lock)
        }),
{
}

/// An open that is cancelled once the database is open closes it, releases the
/// lock and passes the cause on; what was held before stays held.
pub proof fn lemma_cancelled_open_leaves_nothing(
    st: OpenStateV,
    lock: Seq<char>,
    database: Seq<char>,
    e: ToolErrorV,
)
    requires
        st.run is Some,
        st.run->0.stage is Locking,
    ensures
        ({
            let locked = open_next(st, OpenEventOf::Lock(Ok(lock))).0;
            let opened = open_next(locked, OpenEventOf::Opened { database }).0;
            let (ended, action) = open_next(opened, OpenEventOf::Checked(Some(e)));
            &&& action == (OpenActionV::GiveUp {
                close: Some(database),
                release: Some(lock),
                error: e,
            })
            &&& ended.held == st.held
            &&& ended.run is None
        }),
{
}

/// An open that cannot be locked gives up with the cause, with nothing to close
/// and nothing to release; one that cannot be opened releases its lock and says
/// why, and says that the database is locked where it is.
pub proof fn lemma_failed_open_releases_its_lock(
    st: OpenStateV,
    lock: Seq<char>,
    cause: Seq<char>,
    holder: Seq<char>,
    e: ToolErrorV,
)
    requires
        st.run is Some,
        st.run->0.stage is Locking,
    ensures
        open_next(st, OpenEventOf::Lock(Err(e))).1 == (OpenActionV::GiveUp {
            close: None,
            release: None,
            error: e,
        }),
        ({
            let locked = open_next(st, OpenEventOf::Lock(Ok(lock))).0;
            &&& open_next(
                locked,
                OpenEventOf::Failed { cause, locked: None, unpacked_exists: false },
            ).1 == (OpenActionV::GiveUp {
                close: None,
                release: Some(lock),
                error: ToolErrorOf::OpenFailed(st.run->0.plan.opened + ": "@ + cause),
            })
            &&& open_next(
                locked,
                OpenEventOf::Failed { cause, locked: Some(holder), unpacked_exists: false },
            ).1 == (OpenActionV::GiveUp {
                close: None,
                release: Some(lock),
                error: ToolErrorOf::DatabaseLocked(holder),
            })
        }),
{
}

/// Debug information that is asked for is loaded once the database is open, and
/// what came of it is told; that of a bundle beside the input is loaded and not
/// told of.
pub proof fn lemma_debug_information_is_loaded(
    st: OpenStateV,
    lock: Seq<char>,
    database: Seq<char>,
    path: Seq<char>,
    exists: bool,
    outcome: Result<bool, Seq<char>>,
)
    requires
        st.run is Some,
        st.run->0.stage is Locking,
        debug_step(st.run->0.req, st.run->0.expanded, st.run->0.plan.sibling_dsym) == (
        DebugStepOf::Requested { path }),
    ensures
        ({
            let locked = open_next(st, OpenEventOf::Lock(Ok(lock))).0;
            let opened = open_next(locked, OpenEventOf::Opened { database }).0;
            let checked = open_next(opened, OpenEventOf::Checked(None)).0;
            let (loading, ask) = open_next(checked, OpenEventOf::Checked(None));
            let loaded = open_next(loading, OpenEventOf::Loaded { exists, outcome }).0;
            let (kept, last) = open_next(loaded, OpenEventOf::Checked(None));
            &&& ask == (OpenActionV::LoadDebugInfo {
                path,
                verbose: st.run->0.req.debug_info_verbose,
            })
            &&& last == (OpenActionV::Keep {
                opened: st.run->0.plan.opened,
                debug_info: Some(debug_report(path, exists, outcome)),
            })
            &&& kept.held.database == Some(database) && kept.held.lock == Some(lock)
        }),
{
}

} // verus!
