//! The loop that serves the requests of one database: when the runtime is set up, which requests
//! are turned away, what is run, and what is reported of it.

use crate::errors::{ToolError, ToolErrorOf, ToolErrorV};
use crate::json::{bool_in, field, text_field, unsigned_in, FieldsV, Json, JsonV, NumV};
use crate::numbers::{decimal, decimal_text, push_digits, signed_decimal, signed_text};
use crate::text::opt_view;
use vstd::prelude::*;

verus! {

/// How far the runtime is set up.
#[derive(Debug)]
pub struct IdaInitState {
    pub library_initialized: bool,
    pub version_mismatch: Option<String>,
}

impl IdaInitState {
    /// The runtime is set up with the first request.
    pub fn deferred() -> (r: IdaInitState)
        ensures
            !r.library_initialized,
            r.version_mismatch is None,
    {
        IdaInitState { library_initialized: false, version_mismatch: None }
    }
}

/// The message where the runtime is of another major version than the build.
pub open spec fn mismatch_message(sdk_major: int, runtime_major: int) -> Seq<char> {
    "IDA major version mismatch: ida-mcp was compiled for IDA "@ + signed_decimal(sdk_major)
        + ".x but the runtime IDA library reports major version "@ + signed_decimal(runtime_major)
        + ". Install the matching IDA version or use the ida-mcp release built for your IDA version."@
}

/// Compare compile-time SDK major version against runtime major version.
/// Returns an error message on mismatch, `None` if they match.
pub fn check_version_mismatch(sdk_major: i32, runtime_major: i32) -> (r: Option<String>)
    ensures
        opt_view(r) == (if sdk_major == runtime_major {
            None
        } else {
            Some(mismatch_message(sdk_major as int, runtime_major as int))
        }),
{
    if runtime_major == sdk_major {
        return None;
    }
    let mut m = "IDA major version mismatch: ida-mcp was compiled for IDA ".to_owned();
    m.push_str(signed_text(sdk_major as i64).as_str());
    m.push_str(".x but the runtime IDA library reports major version ");
    m.push_str(signed_text(runtime_major as i64).as_str());
    m.push_str(
        ". Install the matching IDA version or use the ida-mcp release built for your IDA version.",
    );
    Some(m)
}

// ---------------------------------------------------------------------------
// The license
// ---------------------------------------------------------------------------

/// What is known of a license that can be used.
#[derive(Clone, Copy, Debug, PartialEq, Eq, Structural)]
pub enum License {
    /// It has no end.
    Endless,
    /// Its end could not be asked for.
    Unknown,
    /// It ends in so many days, which are few.
    EndsSoon(u64),
    /// It ends in so many days.
    Ends(u64),
}

/// What is known of the end of a license: not even that, that there is none, or when it is.
#[derive(Clone, Copy, Debug, PartialEq, Eq, Structural)]
pub enum LicenseEnd {
    Unknown,
    Endless,
    At(u64),
}

/// Why a license that ended cannot be used.
pub open spec fn expired_message(days_ago: nat, end: nat) -> Seq<char> {
    "IDA license expired "@ + decimal(days_ago) + " days ago (end_date="@ + decimal(end)
        + "). Renew the license before opening databases; otherwise IDA's init_database() will terminate this process mid-open."@
}

/// What is known of a license, or why it cannot be used. A license that ends now has ended.
pub open spec fn license_state(known_invalid: bool, end: LicenseEnd, now: u64) -> Result<
    License,
    Seq<char>,
> {
    if known_invalid {
        Err(
            "IDA license is invalid (is_valid_license() returned false). Check ida.hexlic / license server reachability."@,
        )
    } else {
        match end {
            LicenseEnd::Unknown => Ok(License::Unknown),
            LicenseEnd::Endless => Ok(License::Endless),
            LicenseEnd::At(t) => if t <= now {
                Err(expired_message(((now - t) / 86400) as nat, t as nat))
            } else {
                let days = ((t - now) / 86400) as u64;
                if days <= 7 {
                    Ok(License::EndsSoon(days))
                } else {
                    Ok(License::Ends(days))
                }
            },
        }
    }
}

/// What is known of a license, or why it cannot be used.
pub fn check_license_expiry(known_invalid: bool, end: LicenseEnd, now: u64) -> (r: Result<
    License,
    String,
>)
    ensures
        match r {
            Ok(l) => license_state(known_invalid, end, now) == Ok::<License, Seq<char>>(l),
            Err(e) => license_state(known_invalid, end, now) == Err::<License, Seq<char>>(e@),
        },
{
    if known_invalid {
        return Err(
            "IDA license is invalid (is_valid_license() returned false). Check ida.hexlic / license server reachability.".to_owned(),
        );
    }
    match end {
        LicenseEnd::Unknown => Ok(License::Unknown),
        LicenseEnd::Endless => Ok(License::Endless),
        LicenseEnd::At(t) => {
            if t <= now {
                let mut m = "IDA license expired ".to_owned();
                m.push_str(decimal_text((now - t) / 86400).as_str());
                m.push_str(" days ago (end_date=");
                m.push_str(decimal_text(t).as_str());
                m.push_str(
                    "). Renew the license before opening databases; otherwise IDA's init_database() will terminate this process mid-open.",
                );
                return Err(m);
            }
            let days: u64 = (t - now) / 86400;
            if days <= 7 {
                Ok(License::EndsSoon(days))
            } else {
                Ok(License::Ends(days))
            }
        },
    }
}

/// The state after the runtime was set up: a version mismatch counts before the license does.
pub fn init_ida_library(version_mismatch: Option<String>, license: Result<License, String>) -> (r:
    Result<IdaInitState, String>)
    ensures
        match r {
            Ok(st) => {
                &&& st.library_initialized
                &&& opt_view(st.version_mismatch) == opt_view(version_mismatch)
                &&& version_mismatch is Some || license is Ok
            },
            Err(e) => version_mismatch is None && license is Err && e@ == license->Err_0@,
        },
{
    if version_mismatch.is_none() {
        if let Err(e) = license {
            return Err(e);
        }
    }
    Ok(IdaInitState { library_initialized: true, version_mismatch })
}

// ---------------------------------------------------------------------------
// Requests
// ---------------------------------------------------------------------------

/// The kinds of requests.
#[derive(Clone, Copy, Debug, PartialEq, Eq, Structural)]
pub enum RequestKind {
    Open,
    Close,
    LoadDebugInfo,
    AnalysisStatus,
    ListFunctions,
    ResolveFunction,
    DisasmByName,
    Disasm,
    Decompile,
    Segments,
    Strings,
    LocalTypes,
    DeclareType,
    ApplyTypes,
    InferTypes,
    AddrInfo,
    FunctionAt,
    DisasmFunctionAt,
    DeclareStack,
    DeleteStack,
    StackFrame,
    Structs,
    StructInfo,
    ReadStruct,
    XRefsTo,
    XRefsFrom,
    XRefsToField,
    Imports,
    Exports,
    Entrypoints,
    GetBytes,
    SetComments,
    Rename,
    PatchBytes,
    PatchAsm,
    BasicBlocks,
    Callees,
    Callers,
    IdbMeta,
    LookupFunctions,
    ListGlobals,
    AnalyzeStrings,
    FindString,
    XrefsToString,
    AnalyzeFuncs,
    FindBytes,
    SearchText,
    SearchImm,
    FindInsns,
    FindInsnOperands,
    ReadInt,
    GetString,
    GetGlobalValue,
    FindPaths,
    CallGraph,
    XrefMatrix,
    ExportFuncs,
    PseudocodeAt,
    RunScript,
    Shutdown,
}

/// The handler that runs for a request; none runs for those to close and to stop.
pub open spec fn handler_of(kind: RequestKind) -> Option<Seq<char>> {
    match kind {
        RequestKind::Open => Some("handle_open"@),
        RequestKind::Close => None,
        RequestKind::LoadDebugInfo => Some("handle_load_debug_info"@),
        RequestKind::AnalysisStatus => Some("handle_analysis_status"@),
        RequestKind::ListFunctions => Some("handle_list_functions"@),
        RequestKind::ResolveFunction => Some("handle_resolve_function"@),
        RequestKind::DisasmByName => Some("handle_disasm_by_name"@),
        RequestKind::Disasm => Some("handle_disasm"@),
        RequestKind::Decompile => Some("handle_decompile"@),
        RequestKind::Segments => Some("handle_segments"@),
        RequestKind::Strings => Some("handle_strings"@),
        RequestKind::LocalTypes => Some("handle_local_types"@),
        RequestKind::DeclareType => Some("handle_declare_type"@),
        RequestKind::ApplyTypes => Some("handle_apply_types"@),
        RequestKind::InferTypes => Some("handle_infer_types"@),
        RequestKind::AddrInfo => Some("handle_addr_info"@),
        RequestKind::FunctionAt => Some("handle_function_at"@),
        RequestKind::DisasmFunctionAt => Some("handle_disasm_function_at"@),
        RequestKind::DeclareStack => Some("handle_declare_stack"@),
        RequestKind::DeleteStack => Some("handle_delete_stack"@),
        RequestKind::StackFrame => Some("handle_stack_frame"@),
        RequestKind::Structs => Some("handle_structs"@),
        RequestKind::StructInfo => Some("handle_struct_info"@),
        RequestKind::ReadStruct => Some("handle_read_struct"@),
        RequestKind::XRefsTo => Some("handle_xrefs_to"@),
        RequestKind::XRefsFrom => Some("handle_xrefs_from"@),
        RequestKind::XRefsToField => Some("handle_xrefs_to_field"@),
        RequestKind::Imports => Some("handle_imports"@),
        RequestKind::Exports => Some("handle_exports"@),
        RequestKind::Entrypoints => Some("handle_entrypoints"@),
        RequestKind::GetBytes => Some("handle_get_bytes"@),
        RequestKind::SetComments => Some("handle_set_comments"@),
        RequestKind::Rename => Some("handle_rename"@),
        RequestKind::PatchBytes => Some("handle_patch_bytes"@),
        RequestKind::PatchAsm => Some("handle_patch_asm"@),
        RequestKind::BasicBlocks => Some("handle_basic_blocks"@),
        RequestKind::Callees => Some("handle_callees"@),
        RequestKind::Callers => Some("handle_callers"@),
        RequestKind::IdbMeta => Some("handle_idb_meta"@),
        RequestKind::LookupFunctions => Some("handle_lookup_funcs"@),
        RequestKind::ListGlobals => Some("handle_list_globals"@),
        RequestKind::AnalyzeStrings => Some("handle_analyze_strings"@),
        RequestKind::FindString => Some("handle_find_string"@),
        RequestKind::XrefsToString => Some("handle_xrefs_to_string"@),
        RequestKind::AnalyzeFuncs => Some("handle_analyze_funcs"@),
        RequestKind::FindBytes => Some("handle_find_bytes"@),
        RequestKind::SearchText => Some("handle_search_text"@),
        RequestKind::SearchImm => Some("handle_search_imm"@),
        RequestKind::FindInsns => Some("handle_find_insns"@),
        RequestKind::FindInsnOperands => Some("handle_find_insn_operands"@),
        RequestKind::ReadInt => Some("handle_read_int"@),
        RequestKind::GetString => Some("handle_get_string"@),
        RequestKind::GetGlobalValue => Some("handle_get_global_value"@),
        RequestKind::FindPaths => Some("handle_find_paths"@),
        RequestKind::CallGraph => Some("handle_callgraph"@),
        RequestKind::XrefMatrix => Some("handle_xref_matrix"@),
        RequestKind::ExportFuncs => Some("handle_list_functions"@),
        RequestKind::PseudocodeAt => Some("handle_pseudocode_at"@),
        RequestKind::RunScript => Some("handle_run_script"@),
        RequestKind::Shutdown => None,
    }
}

/// The handler that runs for a request.
pub fn handler(kind: RequestKind) -> (r: Option<&'static str>)
    ensures
        match r {
            Some(name) => handler_of(kind) == Some(name@),
            None => handler_of(kind) is None,
        },
{
    match kind {
        RequestKind::Open => Some("handle_open"),
        RequestKind::Close => None,
        RequestKind::LoadDebugInfo => Some("handle_load_debug_info"),
        RequestKind::AnalysisStatus => Some("handle_analysis_status"),
        RequestKind::ListFunctions => Some("handle_list_functions"),
        RequestKind::ResolveFunction => Some("handle_resolve_function"),
        RequestKind::DisasmByName => Some("handle_disasm_by_name"),
        RequestKind::Disasm => Some("handle_disasm"),
        RequestKind::Decompile => Some("handle_decompile"),
        RequestKind::Segments => Some("handle_segments"),
        RequestKind::Strings => Some("handle_strings"),
        RequestKind::LocalTypes => Some("handle_local_types"),
        RequestKind::DeclareType => Some("handle_declare_type"),
        RequestKind::ApplyTypes => Some("handle_apply_types"),
        RequestKind::InferTypes => Some("handle_infer_types"),
        RequestKind::AddrInfo => Some("handle_addr_info"),
        RequestKind::FunctionAt => Some("handle_function_at"),
        RequestKind::DisasmFunctionAt => Some("handle_disasm_function_at"),
        RequestKind::DeclareStack => Some("handle_declare_stack"),
        RequestKind::DeleteStack => Some("handle_delete_stack"),
        RequestKind::StackFrame => Some("handle_stack_frame"),
        RequestKind::Structs => Some("handle_structs"),
        RequestKind::StructInfo => Some("handle_struct_info"),
        RequestKind::ReadStruct => Some("handle_read_struct"),
        RequestKind::XRefsTo => Some("handle_xrefs_to"),
        RequestKind::XRefsFrom => Some("handle_xrefs_from"),
        RequestKind::XRefsToField => Some("handle_xrefs_to_field"),
        RequestKind::Imports => Some("handle_imports"),
        RequestKind::Exports => Some("handle_exports"),
        RequestKind::Entrypoints => Some("handle_entrypoints"),
        RequestKind::GetBytes => Some("handle_get_bytes"),
        RequestKind::SetComments => Some("handle_set_comments"),
        RequestKind::Rename => Some("handle_rename"),
        RequestKind::PatchBytes => Some("handle_patch_bytes"),
        RequestKind::PatchAsm => Some("handle_patch_asm"),
        RequestKind::BasicBlocks => Some("handle_basic_blocks"),
        RequestKind::Callees => Some("handle_callees"),
        RequestKind::Callers => Some("handle_callers"),
        RequestKind::IdbMeta => Some("handle_idb_meta"),
        RequestKind::LookupFunctions => Some("handle_lookup_funcs"),
        RequestKind::ListGlobals => Some("handle_list_globals"),
        RequestKind::AnalyzeStrings => Some("handle_analyze_strings"),
        RequestKind::FindString => Some("handle_find_string"),
        RequestKind::XrefsToString => Some("handle_xrefs_to_string"),
        RequestKind::AnalyzeFuncs => Some("handle_analyze_funcs"),
        RequestKind::FindBytes => Some("handle_find_bytes"),
        RequestKind::SearchText => Some("handle_search_text"),
        RequestKind::SearchImm => Some("handle_search_imm"),
        RequestKind::FindInsns => Some("handle_find_insns"),
        RequestKind::FindInsnOperands => Some("handle_find_insn_operands"),
        RequestKind::ReadInt => Some("handle_read_int"),
        RequestKind::GetString => Some("handle_get_string"),
        RequestKind::GetGlobalValue => Some("handle_get_global_value"),
        RequestKind::FindPaths => Some("handle_find_paths"),
        RequestKind::CallGraph => Some("handle_callgraph"),
        RequestKind::XrefMatrix => Some("handle_xref_matrix"),
        RequestKind::ExportFuncs => Some("handle_list_functions"),
        RequestKind::PseudocodeAt => Some("handle_pseudocode_at"),
        RequestKind::RunScript => Some("handle_run_script"),
        RequestKind::Shutdown => None,
    }
}

/// Whether the handler of a request gets an address that is found out before it runs.
pub open spec fn resolves_address(kind: RequestKind) -> bool {
    kind == RequestKind::AddrInfo || kind == RequestKind::FunctionAt || kind
        == RequestKind::DisasmFunctionAt
}

/// Whether the handler of a request gets an address that is found out before it runs.
pub fn needs_address(kind: RequestKind) -> (r: bool)
    ensures
        r == resolves_address(kind),
{
    kind == RequestKind::AddrInfo || kind == RequestKind::FunctionAt || kind
        == RequestKind::DisasmFunctionAt
}

/// Whether the handler of a request runs under the guard that turns a crash into an error.
pub open spec fn runs_guarded(kind: RequestKind) -> bool {
    handler_of(kind) is Some && !resolves_address(kind) && kind != RequestKind::Open && kind
        != RequestKind::ListFunctions
}

/// Whether the handler of a request runs under the guard that turns a crash into an error.
pub fn is_guarded(kind: RequestKind) -> (r: bool)
    ensures
        r == runs_guarded(kind),
{
    handler(kind).is_some() && !needs_address(kind) && kind != RequestKind::Open && kind
        != RequestKind::ListFunctions
}

/// Whether a request reports its progress, and can be cancelled before it starts.
pub open spec fn observed(kind: RequestKind) -> bool {
    kind == RequestKind::Open || kind == RequestKind::AnalyzeFuncs || kind == RequestKind::RunScript
}

/// Whether a request reports its progress, and can be cancelled before it starts.
pub fn is_observed(kind: RequestKind) -> (r: bool)
    ensures
        r == observed(kind),
{
    kind == RequestKind::Open || kind == RequestKind::AnalyzeFuncs || kind == RequestKind::RunScript
}

/// What is said of a request that was cancelled before it started.
pub open spec fn cancelled_early(kind: RequestKind) -> Seq<char> {
    match kind {
        RequestKind::Open => "open_idb cancelled before opening database"@,
        RequestKind::AnalyzeFuncs => "analyze_funcs cancelled before starting auto-analysis"@,
        _ => "run_script cancelled before execution started"@,
    }
}

/// A report of progress, over the type of texts.
#[derive(Debug)]
pub struct ProgressOf<T> {
    pub phase: T,
    /// Whether all is done; else nothing is.
    pub done: bool,
    pub message: T,
}

/// A report of progress.
pub type Progress = ProgressOf<String>;

/// What a [`Progress`] is.
pub type ProgressV = ProgressOf<Seq<char>>;

impl View for ProgressOf<String> {
    type V = ProgressV;

    open spec fn view(&self) -> ProgressV {
        ProgressOf { phase: self.phase@, done: self.done, message: self.message@ }
    }
}

/// What an optional report is.
pub open spec fn opt_progress(p: Option<Progress>) -> Option<ProgressV> {
    match p {
        Some(v) => Some(v@),
        None => None,
    }
}

/// What a request is answered with that is turned away, over the type of errors.
#[derive(Debug)]
pub enum RejectionOf<E> {
    /// Nothing: nobody waits for an answer.
    Nothing,
    /// That it is done: there is nothing to close.
    Done,
    /// The error.
    Error(E),
}

/// What a request is answered with that is turned away: a shutdown with nothing, a close with
/// success, and every other one with the error.
pub open spec fn rejection(kind: RequestKind, err: ToolErrorV) -> RejectionOf<ToolErrorV> {
    match kind {
        RequestKind::Shutdown => RejectionOf::Nothing,
        RequestKind::Close => RejectionOf::Done,
        _ => RejectionOf::Error(err),
    }
}

/// What an answer to a rejected request is.
pub open spec fn rejection_view(r: RejectionOf<ToolError>) -> RejectionOf<ToolErrorV> {
    match r {
        RejectionOf::Nothing => RejectionOf::Nothing,
        RejectionOf::Done => RejectionOf::Done,
        RejectionOf::Error(e) => RejectionOf::Error(e@),
    }
}

/// What a request is answered with that is turned away.
pub fn reject_with_error(kind: RequestKind, err: ToolError) -> (r: RejectionOf<ToolError>)
    ensures
        rejection_view(r) == rejection(kind, err@),
{
    match kind {
        RequestKind::Shutdown => RejectionOf::Nothing,
        RequestKind::Close => RejectionOf::Done,
        _ => RejectionOf::Error(err),
    }
}

/// What a request is answered with where the runtime does not fit the build.
pub fn reject_with_version_error(kind: RequestKind, msg: &str) -> (r: RejectionOf<ToolError>)
    ensures
        rejection_view(r) == rejection(kind, ToolErrorOf::SdkVersionMismatch(msg@)),
{
    reject_with_error(kind, ToolErrorOf::SdkVersionMismatch(msg.to_owned()))
}

/// What the loop does next, over the types of texts and errors.
#[derive(Debug)]
pub enum LoopStepOf<P, E> {
    /// Set the runtime up, then take up the request again.
    Initialize,
    /// Report this, if there is something to report, and answer.
    Reject { report: Option<P>, answer: RejectionOf<E> },
    /// Close the database if one is open, let go of its lock, and answer.
    Close,
    /// Close the database if one is open, let go of its lock, and end.
    Stop,
    /// Run the handler.
    Run,
}

/// What the loop does next.
pub type LoopStep = LoopStepOf<Progress, ToolError>;

/// What a [`LoopStep`] is.
pub type LoopStepV = LoopStepOf<ProgressV, ToolErrorV>;

impl View for LoopStepOf<Progress, ToolError> {
    type V = LoopStepV;

    open spec fn view(&self) -> LoopStepV {
        match self {
            LoopStepOf::Initialize => LoopStepOf::Initialize,
            LoopStepOf::Reject { report, answer } => LoopStepOf::Reject {
                report: opt_progress(*report),
                answer: rejection_view(*answer),
            },
            LoopStepOf::Close => LoopStepOf::Close,
            LoopStepOf::Stop => LoopStepOf::Stop,
            LoopStepOf::Run => LoopStepOf::Run,
        }
    }
}

/// What the loop does with a request. `cancelled` is the error of a request that is cancelled
/// already.
pub open spec fn next_step(
    st: IdaInitState,
    kind: RequestKind,
    cancelled: Option<ToolErrorV>,
) -> LoopStepV {
    if !st.library_initialized {
        match cancelled {
            Some(err) => LoopStepOf::Reject { report: None, answer: rejection(kind, err) },
            None => LoopStepOf::Initialize,
        }
    } else if st.version_mismatch is Some {
        if kind == RequestKind::Shutdown {
            LoopStepOf::Stop
        } else {
            LoopStepOf::Reject {
                report: None,
                answer: rejection(
                    kind,
                    ToolErrorOf::SdkVersionMismatch(st.version_mismatch->0@),
                ),
            }
        }
    } else if kind == RequestKind::Shutdown {
        LoopStepOf::Stop
    } else if kind == RequestKind::Close {
        LoopStepOf::Close
    } else if observed(kind) && cancelled is Some {
        LoopStepOf::Reject {
            report: Some(
                ProgressOf {
                    phase: "cancelled"@,
                    done: false,
                    message: cancelled_early(kind),
                },
            ),
            answer: RejectionOf::Error(cancelled->0),
        }
    } else {
        LoopStepOf::Run
    }
}

/// What an optional error is.
pub open spec fn opt_error(e: Option<ToolError>) -> Option<ToolErrorV> {
    match e {
        Some(v) => Some(v@),
        None => None,
    }
}

/// What the loop does with a request.
pub fn loop_step(st: &IdaInitState, kind: RequestKind, cancelled: Option<ToolError>) -> (r: LoopStep)
    ensures
        r@ == next_step(*st, kind, opt_error(cancelled)),
{
    if !st.library_initialized {
        return match cancelled {
            Some(err) => LoopStepOf::Reject { report: None, answer: reject_with_error(kind, err) },
            None => LoopStepOf::Initialize,
        };
    }
    if let Some(msg) = &st.version_mismatch {
        return if kind == RequestKind::Shutdown {
            LoopStepOf::Stop
        } else {
            LoopStepOf::Reject {
                report: None,
                answer: reject_with_version_error(kind, msg.as_str()),
            }
        };
    }
    if kind == RequestKind::Shutdown {
        return LoopStepOf::Stop;
    }
    if kind == RequestKind::Close {
        return LoopStepOf::Close;
    }
    if is_observed(kind) {
        if let Some(err) = cancelled {
            let message: &str = match kind {
                RequestKind::Open => "open_idb cancelled before opening database",
                RequestKind::AnalyzeFuncs => "analyze_funcs cancelled before starting auto-analysis",
                _ => "run_script cancelled before execution started",
            };
            return LoopStepOf::Reject {
                report: Some(
                    ProgressOf {
                        phase: "cancelled".to_owned(),
                        done: false,
                        message: message.to_owned(),
                    },
                ),
                answer: RejectionOf::Error(err),
            };
        }
    }
    LoopStepOf::Run
}

/// What is reported while the runtime is set up.
pub fn setup_report() -> (r: Progress)
    ensures
        r@ == (ProgressV {
            phase: "initializing"@,
            done: false,
            message: "Initializing IDA runtime on the main thread"@,
        }),
{
    ProgressOf {
        phase: "initializing".to_owned(),
        done: false,
        message: "Initializing IDA runtime on the main thread".to_owned(),
    }
}

/// The error of a request that came while the runtime could not be set up.
pub open spec fn init_failure(err: Seq<char>) -> ToolErrorV {
    ToolErrorOf::IdaError("failed to initialize IDA on the main thread: "@ + err)
}

/// What the loop does once it has tried to set the runtime up: where that failed, the request is
/// turned away and the runtime stays as it was; else the request is taken up again. `cancelled` is
/// the error of a request that was cancelled meanwhile.
pub fn initialized(
    st: &mut IdaInitState,
    kind: RequestKind,
    outcome: Result<IdaInitState, String>,
    cancelled: Option<ToolError>,
) -> (r: LoopStep)
    ensures
        match outcome {
            Ok(new) => *final(st) == new && r@ == next_step(new, kind, opt_error(cancelled)),
            Err(e) => *final(st) == *old(st) && r@ == (LoopStepV::Reject {
                report: None,
                answer: rejection(kind, init_failure(e@)),
            }),
        },
{
    match outcome {
        Ok(new) => {
            *st = new;
            loop_step(st, kind, cancelled)
        },
        Err(e) => {
            let mut m = "failed to initialize IDA on the main thread: ".to_owned();
            m.push_str(e.as_str());
            LoopStepOf::Reject {
                report: None,
                answer: reject_with_error(kind, ToolErrorOf::IdaError(m)),
            }
        },
    }
}

/// Once the runtime is set up and fits, every request but those to close and to stop is run, unless
/// it can be cancelled and is.
pub proof fn lemma_requests_are_run(st: IdaInitState, kind: RequestKind, cancelled: Option<ToolErrorV>)
    requires
        st.library_initialized,
        st.version_mismatch is None,
        kind != RequestKind::Close,
        kind != RequestKind::Shutdown,
        !observed(kind) || cancelled is None,
    ensures
        next_step(st, kind, cancelled) is Run,
{
}

/// With a runtime that does not fit, no handler runs, and a shutdown is still honoured.
pub proof fn lemma_mismatch_runs_nothing(
    st: IdaInitState,
    kind: RequestKind,
    cancelled: Option<ToolErrorV>,
)
    requires
        st.library_initialized,
        st.version_mismatch is Some,
    ensures
        !(next_step(st, kind, cancelled) is Run),
        next_step(st, RequestKind::Shutdown, cancelled) is Stop,
{
}

// ---------------------------------------------------------------------------
// Reports
// ---------------------------------------------------------------------------

/// What came of a handler, over the types of texts and values.
#[derive(Debug)]
pub enum OutcomeOf<T, J> {
    /// It gave this value; for an open, the path of the database as a text.
    Done(J),
    /// It was cancelled, with this message.
    Cancelled(T),
    /// It failed, with this text of the error.
    Failed(T),
}

/// What came of a handler.
pub type Outcome = OutcomeOf<String, Json>;

/// What an [`Outcome`] is.
pub type OutcomeV = OutcomeOf<Seq<char>, JsonV>;

impl View for OutcomeOf<String, Json> {
    type V = OutcomeV;

    open spec fn view(&self) -> OutcomeV {
        match self {
            OutcomeOf::Done(v) => OutcomeOf::Done(v@),
            OutcomeOf::Cancelled(t) => OutcomeOf::Cancelled(t@),
            OutcomeOf::Failed(t) => OutcomeOf::Failed(t@),
        }
    }
}

/// A report that all is done.
pub open spec fn completed(message: Seq<char>) -> ProgressV {
    ProgressOf { phase: "completed"@, done: true, message }
}

/// A report of a failure.
pub open spec fn failed(message: Seq<char>) -> ProgressV {
    ProgressOf { phase: "failed"@, done: false, message }
}

/// The boolean of a field, or false.
pub open spec fn flag_in(v: JsonV, key: Seq<char>) -> bool {
    match field(v, key) {
        Some(f) => bool_in(f) == Some(true),
        None => false,
    }
}

/// The unsigned integer of a field, or zero.
pub open spec fn count_in(v: JsonV, key: Seq<char>) -> u64 {
    match field(v, key) {
        Some(f) => match unsigned_in(f) {
            Some(n) => n,
            None => 0,
        },
        None => 0,
    }
}

/// How a boolean is written.
pub open spec fn bool_text(b: bool) -> Seq<char> {
    if b {
        "true"@
    } else {
        "false"@
    }
}

/// What is reported of an open.
pub open spec fn open_report(path: Seq<char>, outcome: OutcomeV) -> ProgressV {
    match outcome {
        OutcomeOf::Done(_) => completed("Opened database "@ + path),
        OutcomeOf::Cancelled(m) => ProgressOf { phase: "cancelled"@, done: false, message: m },
        OutcomeOf::Failed(e) => failed("open_idb failed: "@ + e),
    }
}

/// What is reported of an analysis.
pub open spec fn analysis_report(outcome: OutcomeV) -> ProgressV {
    match outcome {
        OutcomeOf::Done(v) => completed(
            "Auto-analysis completed (completed="@ + bool_text(flag_in(v, "completed"@))
                + ", functions="@ + decimal(count_in(v, "function_count"@) as nat) + ")"@,
        ),
        OutcomeOf::Cancelled(m) => ProgressOf { phase: "cancelled"@, done: false, message: m },
        OutcomeOf::Failed(e) => failed("analyze_funcs failed: "@ + e),
    }
}

/// What is reported of a script.
pub open spec fn script_report(outcome: OutcomeV, elapsed_ms: nat) -> ProgressV {
    match outcome {
        OutcomeOf::Done(v) => if flag_in(v, "success"@) {
            completed("Script executed successfully in "@ + decimal(elapsed_ms) + "ms"@)
        } else {
            failed(
                "Script execution reported failure: "@ + (match text_field(v, "error"@) {
                    Some(t) => t,
                    None => seq![],
                }),
            )
        },
        OutcomeOf::Cancelled(m) => ProgressOf { phase: "cancelled"@, done: false, message: m },
        OutcomeOf::Failed(e) => failed("Failed to execute script: "@ + e),
    }
}

fn report(phase: &str, done: bool, message: String) -> (r: Progress)
    ensures
        r@ == (ProgressV { phase: phase@, done, message: message@ }),
{
    ProgressOf { phase: phase.to_owned(), done, message }
}

fn behind(prefix: &str, t: &str) -> (r: String)
    ensures
        r@ == prefix@ + t@,
{
    let mut m = prefix.to_owned();
    m.push_str(t);
    m
}

fn flag(v: &Json, key: &str) -> (r: bool)
    ensures
        r == flag_in(v@, key@),
{
    match v.get(key) {
        Some(f) => match f.as_bool() {
            Some(b) => b,
            None => false,
        },
        None => false,
    }
}

/// What is reported of an open of `path`.
pub fn report_open(path: &str, outcome: Outcome) -> (r: Progress)
    ensures
        r@ == open_report(path@, outcome@),
{
    match outcome {
        OutcomeOf::Done(_) => report("completed", true, behind("Opened database ", path)),
        OutcomeOf::Cancelled(m) => report("cancelled", false, m),
        OutcomeOf::Failed(e) => report("failed", false, behind("open_idb failed: ", e.as_str())),
    }
}

/// What is reported of an analysis.
pub fn report_analysis(outcome: Outcome) -> (r: Progress)
    ensures
        r@ == analysis_report(outcome@),
{
    match outcome {
        OutcomeOf::Done(v) => {
            let mut m = "Auto-analysis completed (completed=".to_owned();
            if flag(&v, "completed") {
                m.push_str("true");
            } else {
                m.push_str("false");
            }
            m.push_str(", functions=");
            let n: u64 = match v.get("function_count") {
                Some(f) => match f.as_u64() {
                    Some(n) => n,
                    None => 0,
                },
                None => 0,
            };
            m.push_str(decimal_text(n).as_str());
            m.push_str(")");
            report("completed", true, m)
        },
        OutcomeOf::Cancelled(m) => report("cancelled", false, m),
        OutcomeOf::Failed(e) => report("failed", false, behind("analyze_funcs failed: ", e.as_str())),
    }
}

/// What is reported of a script that ran for `elapsed_ms` milliseconds.
pub fn report_script(outcome: Outcome, elapsed_ms: u128) -> (r: Progress)
    ensures
        r@ == script_report(outcome@, elapsed_ms as nat),
{
    match outcome {
        OutcomeOf::Done(v) => if flag(&v, "success") {
            let mut m = "Script executed successfully in ".to_owned();
            push_digits(&mut m, elapsed_ms, 10);
            m.push_str("ms");
            report("completed", true, m)
        } else {
            let mut m = "Script execution reported failure: ".to_owned();
            if let Some(t) = v.str_field("error") {
                m.push_str(t.as_str());
            } else {
                assert(m@ + seq![] =~= m@);
            }
            report("failed", false, m)
        },
        OutcomeOf::Cancelled(m) => report("cancelled", false, m),
        OutcomeOf::Failed(e) => report(
            "failed",
            false,
            behind("Failed to execute script: ", e.as_str()),
        ),
    }
}

// ---------------------------------------------------------------------------
// What the answers say
// ---------------------------------------------------------------------------

/// A license counts in whole days of 86400 seconds: one that has ended, in this
/// very second already, is an error that says how many days ago; one that ends
/// within seven days and the rest of the eighth ends soon; any other ends later.
pub proof fn lemma_license_days(end: u64, now: u64, days: nat)
    ensures
        end <= now && days * 86400 <= now - end && now - end < (days + 1) * 86400 ==> license_state(
            false,
            LicenseEnd::At(end),
            now,
        ) == Err::<License, Seq<char>>(expired_message(days, end as nat)),
        end > now ==> license_state(false, LicenseEnd::At(end), now) is Ok,
        end > now && days * 86400 <= end - now && end - now < (days + 1) * 86400 && days <= 7
            ==> license_state(false, LicenseEnd::At(end), now) == Ok::<License, Seq<char>>(
            License::EndsSoon(days as u64),
        ),
        end > now && days * 86400 <= end - now && end - now < (days + 1) * 86400 && days > 7
            ==> license_state(false, LicenseEnd::At(end), now) == Ok::<License, Seq<char>>(
            License::Ends(days as u64),
        ),
        license_state(false, LicenseEnd::Endless, now) == Ok::<License, Seq<char>>(
            License::Endless,
        ),
        license_state(false, LicenseEnd::Unknown, now) == Ok::<License, Seq<char>>(
            License::Unknown,
        ),
        license_state(true, LicenseEnd::At(end), now) is Err,
        license_state(true, LicenseEnd::Endless, now) is Err,
        license_state(true, LicenseEnd::Unknown, now) is Err,
{
}

/// A request is answered before the library is set up only where it was
/// cancelled: a close as done, a shutdown with nothing, any other with the
/// cause. Otherwise the library is set up first.
pub proof fn lemma_set_up_first(st: IdaInitState, kind: RequestKind, e: ToolErrorV)
    requires
        !st.library_initialized,
    ensures
        next_step(st, kind, None) == LoopStepV::Initialize,
        kind != RequestKind::Close && kind != RequestKind::Shutdown ==> next_step(st, kind, Some(e))
            == (LoopStepV::Reject { report: None, answer: RejectionOf::Error(e) }),
        next_step(st, RequestKind::Close, Some(e)) == (LoopStepV::Reject {
            report: None,
            answer: RejectionOf::Done,
        }),
        next_step(st, RequestKind::Shutdown, Some(e)) == (LoopStepV::Reject {
            report: None,
            answer: RejectionOf::Nothing,
        }),
{
}

/// Once the library is set up, a shutdown stops the loop and a close closes,
/// cancelled or not; a cancelled open, analysis or script is refused with the
/// cause and reported, and no other request is refused for it.
pub proof fn lemma_steps_when_set_up(
    st: IdaInitState,
    kind: RequestKind,
    cancelled: Option<ToolErrorV>,
)
    requires
        st.library_initialized,
        st.version_mismatch is None,
    ensures
        next_step(st, RequestKind::Shutdown, cancelled) == LoopStepV::Stop,
        next_step(st, RequestKind::Close, cancelled) == LoopStepV::Close,
        next_step(st, kind, cancelled) is Reject <==> cancelled is Some && (kind
            == RequestKind::Open || kind == RequestKind::AnalyzeFuncs || kind
            == RequestKind::RunScript),
        next_step(st, kind, cancelled) matches LoopStepOf::Reject { report, answer } ==> answer
            == RejectionOf::Error(cancelled->0) && report is Some && report->0.phase == "cancelled"@
            && !report->0.done,
{
}

/// With a runtime of another major version every request but a shutdown is
/// refused, and a close is answered as done.
pub proof fn lemma_mismatch_answers(
    st: IdaInitState,
    kind: RequestKind,
    cancelled: Option<ToolErrorV>,
)
    requires
        st.library_initialized,
        st.version_mismatch is Some,
    ensures
        next_step(st, RequestKind::Close, cancelled) == (LoopStepV::Reject {
            report: None,
            answer: RejectionOf::Done,
        }),
        kind != RequestKind::Close && kind != RequestKind::Shutdown ==> next_step(
            st,
            kind,
            cancelled,
        ) == (LoopStepV::Reject {
            report: None,
            answer: RejectionOf::Error(
                ToolErrorOf::SdkVersionMismatch(st.version_mismatch->0@),
            ),
        }),
{
}

/// Every request but a close and a shutdown has a handler; the three that
/// resolve an address, an open and a list of functions run without a guard.
pub proof fn lemma_who_is_guarded(kind: RequestKind)
    ensures
        handler_of(kind) is None <==> kind == RequestKind::Close || kind == RequestKind::Shutdown,
        runs_guarded(kind) <==> !(kind == RequestKind::Close || kind == RequestKind::Shutdown || kind
            == RequestKind::Open || kind == RequestKind::ListFunctions || kind
            == RequestKind::AddrInfo || kind == RequestKind::FunctionAt || kind
            == RequestKind::DisasmFunctionAt),
{
}

/// A flag counts only where it is there and true, a number only where it is
/// there and one; what is missing counts as false and as zero.
pub proof fn lemma_flags_and_counts(m: FieldsV, key: Seq<char>, b: bool, n: u64)
    ensures
        m.dom().contains(key) && m[key] == JsonV::Bool(b) ==> flag_in(JsonV::Obj(m), key) == b,
        m.dom().contains(key) && m[key] == JsonV::Num(NumV::Unsigned(n)) ==> count_in(
            JsonV::Obj(m),
            key,
        ) == n,
        !m.dom().contains(key) ==> !flag_in(JsonV::Obj(m), key) && count_in(JsonV::Obj(m), key) == 0,
        m.dom().contains(key) && !(m[key] is Bool) ==> !flag_in(JsonV::Obj(m), key),
{
}

/// What is reported at the end of an open, an analysis and a script: done where
/// it worked, the message of the cancellation where it was cancelled, failed
/// with the cause otherwise; a script that ends without success has failed.
pub proof fn lemma_end_reports(path: Seq<char>, v: JsonV, m: Seq<char>, ms: nat)
    ensures
        open_report(path, OutcomeOf::Done(v)).done && open_report(path, OutcomeOf::Done(v)).phase
            == "completed"@ && open_report(path, OutcomeOf::Done(v)).message == "Opened database "@
            + path,
        analysis_report(OutcomeOf::Done(v)).done,
        script_report(OutcomeOf::Done(v), ms).done == flag_in(v, "success"@),
        script_report(OutcomeOf::Done(v), ms).phase == (if flag_in(v, "success"@) {
            "completed"@
        } else {
            "failed"@
        }),
        forall|r: ProgressV|
            #![trigger r.phase]
            r == open_report(path, OutcomeOf::Cancelled(m)) || r == analysis_report(
                OutcomeOf::Cancelled(m),
            ) || r == script_report(OutcomeOf::Cancelled(m), ms) ==> !r.done && r.phase
                == "cancelled"@ && r.message == m,
        forall|r: ProgressV|
            #![trigger r.phase]
            r == open_report(path, OutcomeOf::Failed(m)) || r == analysis_report(
                OutcomeOf::Failed(m),
            ) || r == script_report(OutcomeOf::Failed(m), ms) ==> !r.done && r.phase == "failed"@,
        open_report(path, OutcomeOf::Failed(m)).message == "open_idb failed: "@ + m,
        analysis_report(OutcomeOf::Failed(m)).message == "analyze_funcs failed: "@ + m,
        script_report(OutcomeOf::Failed(m), ms).message == "Failed to execute script: "@ + m,
{
}

/// A runtime of another major version is reported with both versions.
pub proof fn lemma_mismatch_is_named(sdk: int, runtime: int)
    ensures
        mismatch_message(sdk, runtime)
            == "IDA major version mismatch: ida-mcp was compiled for IDA "@ + signed_decimal(sdk)
            + ".x but the runtime IDA library reports major version "@ + signed_decimal(runtime)
            + ". Install the matching IDA version or use the ida-mcp release built for your IDA version."@,
{
}

} // verus!
