//! What the handler of each request is given: its name, and its arguments in order.

use crate::calls::{kind_of, request_kind, WorkerCall, WorkerCallOf, WorkerCallV};
use crate::dispatch::{Call, CallOf, CallV, Place};
use crate::numbers::{address, hex, lemma_address_read_back, parse_addr};
use crate::output::disasm_window;
use crate::text::{opt_view, trimmed, views};
use crate::worker_loop::{handler, handler_of, is_observed, observed, resolves_address};
use vstd::prelude::*;

verus! {

/// An argument of a handler, over the types of texts, lists of texts, lists of addresses and bytes.
#[derive(Debug)]
pub enum ArgOf<T, L, A, B> {
    Address(u64),
    MaybeAddress(Option<u64>),
    /// The address that an address or a name stands for, moved by an offset. It is found out before
    /// the handler runs; where there is none, the handler does not run.
    Place { addr: Option<u64>, name: Option<T>, offset: i64 },
    Count(usize),
    Number(u64),
    Offset(i64),
    MaybeOffset(Option<i64>),
    Ordinal(Option<u32>),
    Flags(i32),
    Switch(bool),
    Text(T),
    MaybeText(Option<T>),
    Texts(L),
    Addresses(A),
    Bytes(B),
}

/// An argument of a handler.
pub type Arg = ArgOf<String, Vec<String>, Vec<u64>, Vec<u8>>;

/// What an [`Arg`] is.
pub type ArgV = ArgOf<Seq<char>, Seq<Seq<char>>, Seq<u64>, Seq<u8>>;

impl View for ArgOf<String, Vec<String>, Vec<u64>, Vec<u8>> {
    type V = ArgV;

    open spec fn view(&self) -> ArgV {
        match self {
            ArgOf::Address(a) => ArgOf::Address(*a),
            ArgOf::MaybeAddress(a) => ArgOf::MaybeAddress(*a),
            ArgOf::Place { addr, name, offset } => ArgOf::Place {
                addr: *addr,
                name: opt_view(*name),
                offset: *offset,
            },
            ArgOf::Count(n) => ArgOf::Count(*n),
            ArgOf::Number(n) => ArgOf::Number(*n),
            ArgOf::Offset(n) => ArgOf::Offset(*n),
            ArgOf::MaybeOffset(n) => ArgOf::MaybeOffset(*n),
            ArgOf::Ordinal(n) => ArgOf::Ordinal(*n),
            ArgOf::Flags(n) => ArgOf::Flags(*n),
            ArgOf::Switch(b) => ArgOf::Switch(*b),
            ArgOf::Text(s) => ArgOf::Text(s@),
            ArgOf::MaybeText(s) => ArgOf::MaybeText(opt_view(*s)),
            ArgOf::Texts(list) => ArgOf::Texts(views(list@)),
            ArgOf::Addresses(list) => ArgOf::Addresses(list@),
            ArgOf::Bytes(bytes) => ArgOf::Bytes(bytes@),
        }
    }
}

/// What a list of arguments is.
pub open spec fn arg_views(args: Seq<Arg>) -> Seq<ArgV> {
    args.map_values(|a: Arg| a@)
}

/// A call of a handler, over the types of texts and lists of arguments. Every handler gets the open
/// database besides.
#[derive(Debug)]
pub struct HandlerCallOf<T, S> {
    pub name: T,
    pub args: S,
    /// Whether the handler also gets what it reports its progress to, and what tells it that the
    /// request is cancelled.
    pub watched: bool,
}

/// A call of a handler.
pub type HandlerCall = HandlerCallOf<String, Vec<Arg>>;

/// What a [`HandlerCall`] is.
pub type HandlerCallV = HandlerCallOf<Seq<char>, Seq<ArgV>>;

impl View for HandlerCallOf<String, Vec<Arg>> {
    type V = HandlerCallV;

    open spec fn view(&self) -> HandlerCallV {
        HandlerCallOf { name: self.name@, args: arg_views(self.args@), watched: self.watched }
    }
}

/// The arguments that the handler of a call is given, in order. The time that a caller allows is
/// not among them. An export lists the functions without a filter.
pub open spec fn handler_args(call: WorkerCallV) -> Seq<ArgV> {
    match call {
        WorkerCallOf::LoadDebugInfo { path, verbose } => seq![
            ArgOf::MaybeText(path),
            ArgOf::Switch(verbose),
        ],
        WorkerCallOf::AnalysisStatus => seq![],
        WorkerCallOf::ListFunctions { offset, limit, filter, .. } => seq![
            ArgOf::Count(offset),
            ArgOf::Count(limit),
            ArgOf::MaybeText(filter),
        ],
        WorkerCallOf::ResolveFunction { name } => seq![ArgOf::Text(name)],
        WorkerCallOf::DisasmByName { name, count } => seq![ArgOf::Text(name), ArgOf::Count(count)],
        WorkerCallOf::Disasm { addr, count } => seq![ArgOf::Address(addr), ArgOf::Count(count)],
        WorkerCallOf::Decompile { addr } => seq![ArgOf::Address(addr)],
        WorkerCallOf::Segments => seq![],
        WorkerCallOf::Strings { offset, limit, filter, .. } => seq![
            ArgOf::Count(offset),
            ArgOf::Count(limit),
            ArgOf::MaybeText(filter),
        ],
        WorkerCallOf::LocalTypes { offset, limit, filter, .. } => seq![
            ArgOf::Count(offset),
            ArgOf::Count(limit),
            ArgOf::MaybeText(filter),
        ],
        WorkerCallOf::DeclareType { decl, relaxed, replace, multi } => seq![
            ArgOf::Text(decl),
            ArgOf::Switch(relaxed),
            ArgOf::Switch(replace),
            ArgOf::Switch(multi),
        ],
        WorkerCallOf::ApplyTypes {
            addr,
            name,
            offset,
            stack_offset,
            stack_name,
            decl,
            named_type,
            relaxed,
            delay,
            strict,
        } => seq![
            ArgOf::MaybeAddress(addr),
            ArgOf::MaybeText(name),
            ArgOf::Offset(offset),
            ArgOf::MaybeOffset(stack_offset),
            ArgOf::MaybeText(stack_name),
            ArgOf::MaybeText(decl),
            ArgOf::MaybeText(named_type),
            ArgOf::Switch(relaxed),
            ArgOf::Switch(delay),
            ArgOf::Switch(strict),
        ],
        WorkerCallOf::InferTypes { addr, name, offset } => seq![
            ArgOf::MaybeAddress(addr),
            ArgOf::MaybeText(name),
            ArgOf::Offset(offset),
        ],
        WorkerCallOf::AddrInfo { addr, name, offset } => seq![ArgOf::Place { addr, name, offset }],
        WorkerCallOf::FunctionAt { addr, name, offset } => seq![
            ArgOf::Place { addr, name, offset },
        ],
        WorkerCallOf::DisasmFunctionAt { addr, name, offset, count } => seq![
            ArgOf::Place { addr, name, offset },
            ArgOf::Count(count),
        ],
        WorkerCallOf::DeclareStack { addr, name, offset, var_name, decl, relaxed } => seq![
            ArgOf::MaybeAddress(addr),
            ArgOf::MaybeText(name),
            ArgOf::Offset(offset),
            ArgOf::MaybeText(var_name),
            ArgOf::Text(decl),
            ArgOf::Switch(relaxed),
        ],
        WorkerCallOf::DeleteStack { addr, name, offset, var_name } => seq![
            ArgOf::MaybeAddress(addr),
            ArgOf::MaybeText(name),
            ArgOf::MaybeOffset(offset),
            ArgOf::MaybeText(var_name),
        ],
        WorkerCallOf::StackFrame { addr } => seq![ArgOf::Address(addr)],
        WorkerCallOf::Structs { offset, limit, filter, .. } => seq![
            ArgOf::Count(offset),
            ArgOf::Count(limit),
            ArgOf::MaybeText(filter),
        ],
        WorkerCallOf::StructInfo { ordinal, name } => seq![
            ArgOf::Ordinal(ordinal),
            ArgOf::MaybeText(name),
        ],
        WorkerCallOf::ReadStruct { addr, ordinal, name } => seq![
            ArgOf::Address(addr),
            ArgOf::Ordinal(ordinal),
            ArgOf::MaybeText(name),
        ],
        WorkerCallOf::XrefsTo { addr } => seq![ArgOf::Address(addr)],
        WorkerCallOf::XrefsFrom { addr } => seq![ArgOf::Address(addr)],
        WorkerCallOf::XrefsToField { ordinal, name, member_index, member_name, limit } => seq![
            ArgOf::Ordinal(ordinal),
            ArgOf::MaybeText(name),
            ArgOf::Ordinal(member_index),
            ArgOf::MaybeText(member_name),
            ArgOf::Count(limit),
        ],
        WorkerCallOf::Imports { offset, limit } => seq![ArgOf::Count(offset), ArgOf::Count(limit)],
        WorkerCallOf::Exports { offset, limit } => seq![ArgOf::Count(offset), ArgOf::Count(limit)],
        WorkerCallOf::Entrypoints => seq![],
        WorkerCallOf::GetBytes { addr, name, offset, size } => seq![
            ArgOf::MaybeAddress(addr),
            ArgOf::MaybeText(name),
            ArgOf::Offset(offset),
            ArgOf::Count(size),
        ],
        WorkerCallOf::SetComments { addr, name, offset, comment, repeatable } => seq![
            ArgOf::MaybeAddress(addr),
            ArgOf::MaybeText(name),
            ArgOf::Offset(offset),
            ArgOf::Text(comment),
            ArgOf::Switch(repeatable),
        ],
        WorkerCallOf::Rename { addr, current_name, new_name, flags } => seq![
            ArgOf::MaybeAddress(addr),
            ArgOf::MaybeText(current_name),
            ArgOf::Text(new_name),
            ArgOf::Flags(flags),
        ],
        WorkerCallOf::PatchBytes { addr, name, offset, bytes } => seq![
            ArgOf::MaybeAddress(addr),
            ArgOf::MaybeText(name),
            ArgOf::Offset(offset),
            ArgOf::Bytes(bytes),
        ],
        WorkerCallOf::PatchAsm { addr, name, offset, line } => seq![
            ArgOf::MaybeAddress(addr),
            ArgOf::MaybeText(name),
            ArgOf::Offset(offset),
            ArgOf::Text(line),
        ],
        WorkerCallOf::BasicBlocks { addr } => seq![ArgOf::Address(addr)],
        WorkerCallOf::Callees { addr } => seq![ArgOf::Address(addr)],
        WorkerCallOf::Callers { addr } => seq![ArgOf::Address(addr)],
        WorkerCallOf::IdbMeta => seq![],
        WorkerCallOf::LookupFuncs { queries } => seq![ArgOf::Texts(queries)],
        WorkerCallOf::ListGlobals { query, offset, limit, .. } => seq![
            ArgOf::MaybeText(query),
            ArgOf::Count(offset),
            ArgOf::Count(limit),
        ],
        WorkerCallOf::AnalyzeStrings { query, offset, limit, .. } => seq![
            ArgOf::MaybeText(query),
            ArgOf::Count(offset),
            ArgOf::Count(limit),
        ],
        WorkerCallOf::FindString { query, exact, case_insensitive, offset, limit, .. } => seq![
            ArgOf::Text(query),
            ArgOf::Switch(exact),
            ArgOf::Switch(case_insensitive),
            ArgOf::Count(offset),
            ArgOf::Count(limit),
        ],
        WorkerCallOf::XrefsToString {
            query,
            exact,
            case_insensitive,
            offset,
            limit,
            max_xrefs,
            ..
        } => seq![
            ArgOf::Text(query),
            ArgOf::Switch(exact),
            ArgOf::Switch(case_insensitive),
            ArgOf::Count(offset),
            ArgOf::Count(limit),
            ArgOf::Count(max_xrefs),
        ],
        WorkerCallOf::AnalyzeFuncs { .. } => seq![],
        WorkerCallOf::AnalyzeFuncsObserved { .. } => seq![],
        WorkerCallOf::AnalyzeFuncsUnbounded => seq![],
        WorkerCallOf::FindBytes { pattern, max_results, .. } => seq![
            ArgOf::Text(pattern),
            ArgOf::Count(max_results),
        ],
        WorkerCallOf::SearchText { text, max_results, .. } => seq![
            ArgOf::Text(text),
            ArgOf::Count(max_results),
        ],
        WorkerCallOf::SearchImm { imm, max_results, .. } => seq![
            ArgOf::Number(imm),
            ArgOf::Count(max_results),
        ],
        WorkerCallOf::FindInsns { patterns, max_results, case_insensitive, .. } => seq![
            ArgOf::Texts(patterns),
            ArgOf::Count(max_results),
            ArgOf::Switch(case_insensitive),
        ],
        WorkerCallOf::FindInsnOperands { patterns, max_results, case_insensitive, .. } => seq![
            ArgOf::Texts(patterns),
            ArgOf::Count(max_results),
            ArgOf::Switch(case_insensitive),
        ],
        WorkerCallOf::ReadInt { addr, size } => seq![ArgOf::Address(addr), ArgOf::Count(size)],
        WorkerCallOf::GetString { addr, max_len } => seq![
            ArgOf::Address(addr),
            ArgOf::Count(max_len),
        ],
        WorkerCallOf::GetGlobalValue { query } => seq![ArgOf::Text(query)],
        WorkerCallOf::FindPaths { start, end, max_paths, max_depth } => seq![
            ArgOf::Address(start),
            ArgOf::Address(end),
            ArgOf::Count(max_paths),
            ArgOf::Count(max_depth),
        ],
        WorkerCallOf::Callgraph { addr, max_depth, max_nodes } => seq![
            ArgOf::Address(addr),
            ArgOf::Count(max_depth),
            ArgOf::Count(max_nodes),
        ],
        WorkerCallOf::XrefMatrix { addrs } => seq![ArgOf::Addresses(addrs)],
        WorkerCallOf::ExportFuncs { offset, limit } => seq![
            ArgOf::Count(offset),
            ArgOf::Count(limit),
            ArgOf::MaybeText(None),
        ],
        WorkerCallOf::RunScript { code, .. } => seq![ArgOf::Text(code)],
        WorkerCallOf::PseudocodeAt { addr, end_addr } => seq![
            ArgOf::Address(addr),
            ArgOf::MaybeAddress(end_addr),
        ],
    }
}

/// The handler of a call and what it is given.
pub open spec fn handled(call: WorkerCallV) -> HandlerCallV {
    HandlerCallOf {
        name: handler_of(kind_of(call))->0,
        args: handler_args(call),
        watched: observed(kind_of(call)),
    }
}

/// The arguments that the handler of a call is given, in order.
fn args_of(call: WorkerCall) -> (r: Vec<Arg>)
    ensures
        arg_views(r@) == handler_args(call@),
{
    let ghost want = handler_args(call@);
    let args: Vec<Arg> = match call {
        WorkerCallOf::LoadDebugInfo { path, verbose } => vec![
            ArgOf::MaybeText(path),
            ArgOf::Switch(verbose),
        ],
        WorkerCallOf::AnalysisStatus => vec![],
        WorkerCallOf::ListFunctions { offset, limit, filter, .. } => vec![
            ArgOf::Count(offset),
            ArgOf::Count(limit),
            ArgOf::MaybeText(filter),
        ],
        WorkerCallOf::ResolveFunction { name } => vec![ArgOf::Text(name)],
        WorkerCallOf::DisasmByName { name, count } => vec![ArgOf::Text(name), ArgOf::Count(count)],
        WorkerCallOf::Disasm { addr, count } => vec![ArgOf::Address(addr), ArgOf::Count(count)],
        WorkerCallOf::Decompile { addr } => vec![ArgOf::Address(addr)],
        WorkerCallOf::Segments => vec![],
        WorkerCallOf::Strings { offset, limit, filter, .. } => vec![
            ArgOf::Count(offset),
            ArgOf::Count(limit),
            ArgOf::MaybeText(filter),
        ],
        WorkerCallOf::LocalTypes { offset, limit, filter, .. } => vec![
            ArgOf::Count(offset),
            ArgOf::Count(limit),
            ArgOf::MaybeText(filter),
        ],
        WorkerCallOf::DeclareType { decl, relaxed, replace, multi } => vec![
            ArgOf::Text(decl),
            ArgOf::Switch(relaxed),
            ArgOf::Switch(replace),
            ArgOf::Switch(multi),
        ],
        WorkerCallOf::ApplyTypes {
            addr,
            name,
            offset,
            stack_offset,
            stack_name,
            decl,
            named_type,
            relaxed,
            delay,
            strict,
        } => vec![
            ArgOf::MaybeAddress(addr),
            ArgOf::MaybeText(name),
            ArgOf::Offset(offset),
            ArgOf::MaybeOffset(stack_offset),
            ArgOf::MaybeText(stack_name),
            ArgOf::MaybeText(decl),
            ArgOf::MaybeText(named_type),
            ArgOf::Switch(relaxed),
            ArgOf::Switch(delay),
            ArgOf::Switch(strict),
        ],
        WorkerCallOf::InferTypes { addr, name, offset } => vec![
            ArgOf::MaybeAddress(addr),
            ArgOf::MaybeText(name),
            ArgOf::Offset(offset),
        ],
        WorkerCallOf::AddrInfo { addr, name, offset } => vec![ArgOf::Place { addr, name, offset }],
        WorkerCallOf::FunctionAt { addr, name, offset } => vec![
            ArgOf::Place { addr, name, offset },
        ],
        WorkerCallOf::DisasmFunctionAt { addr, name, offset, count } => vec![
            ArgOf::Place { addr, name, offset },
            ArgOf::Count(count),
        ],
        WorkerCallOf::DeclareStack { addr, name, offset, var_name, decl, relaxed } => vec![
            ArgOf::MaybeAddress(addr),
            ArgOf::MaybeText(name),
            ArgOf::Offset(offset),
            ArgOf::MaybeText(var_name),
            ArgOf::Text(decl),
            ArgOf::Switch(relaxed),
        ],
        WorkerCallOf::DeleteStack { addr, name, offset, var_name } => vec![
            ArgOf::MaybeAddress(addr),
            ArgOf::MaybeText(name),
            ArgOf::MaybeOffset(offset),
            ArgOf::MaybeText(var_name),
        ],
        WorkerCallOf::StackFrame { addr } => vec![ArgOf::Address(addr)],
        WorkerCallOf::Structs { offset, limit, filter, .. } => vec![
            ArgOf::Count(offset),
            ArgOf::Count(limit),
            ArgOf::MaybeText(filter),
        ],
        WorkerCallOf::StructInfo { ordinal, name } => vec![
            ArgOf::Ordinal(ordinal),
            ArgOf::MaybeText(name),
        ],
        WorkerCallOf::ReadStruct { addr, ordinal, name } => vec![
            ArgOf::Address(addr),
            ArgOf::Ordinal(ordinal),
            ArgOf::MaybeText(name),
        ],
        WorkerCallOf::XrefsTo { addr } => vec![ArgOf::Address(addr)],
        WorkerCallOf::XrefsFrom { addr } => vec![ArgOf::Address(addr)],
        WorkerCallOf::XrefsToField { ordinal, name, member_index, member_name, limit } => vec![
            ArgOf::Ordinal(ordinal),
            ArgOf::MaybeText(name),
            ArgOf::Ordinal(member_index),
            ArgOf::MaybeText(member_name),
            ArgOf::Count(limit),
        ],
        WorkerCallOf::Imports { offset, limit } => vec![ArgOf::Count(offset), ArgOf::Count(limit)],
        WorkerCallOf::Exports { offset, limit } => vec![ArgOf::Count(offset), ArgOf::Count(limit)],
        WorkerCallOf::Entrypoints => vec![],
        WorkerCallOf::GetBytes { addr, name, offset, size } => vec![
            ArgOf::MaybeAddress(addr),
            ArgOf::MaybeText(name),
            ArgOf::Offset(offset),
            ArgOf::Count(size),
        ],
        WorkerCallOf::SetComments { addr, name, offset, comment, repeatable } => vec![
            ArgOf::MaybeAddress(addr),
            ArgOf::MaybeText(name),
            ArgOf::Offset(offset),
            ArgOf::Text(comment),
            ArgOf::Switch(repeatable),
        ],
        WorkerCallOf::Rename { addr, current_name, new_name, flags } => vec![
            ArgOf::MaybeAddress(addr),
            ArgOf::MaybeText(current_name),
            ArgOf::Text(new_name),
            ArgOf::Flags(flags),
        ],
        WorkerCallOf::PatchBytes { addr, name, offset, bytes } => vec![
            ArgOf::MaybeAddress(addr),
            ArgOf::MaybeText(name),
            ArgOf::Offset(offset),
            ArgOf::Bytes(bytes),
        ],
        WorkerCallOf::PatchAsm { addr, name, offset, line } => vec![
            ArgOf::MaybeAddress(addr),
            ArgOf::MaybeText(name),
            ArgOf::Offset(offset),
            ArgOf::Text(line),
        ],
        WorkerCallOf::BasicBlocks { addr } => vec![ArgOf::Address(addr)],
        WorkerCallOf::Callees { addr } => vec![ArgOf::Address(addr)],
        WorkerCallOf::Callers { addr } => vec![ArgOf::Address(addr)],
        WorkerCallOf::IdbMeta => vec![],
        WorkerCallOf::LookupFuncs { queries } => vec![ArgOf::Texts(queries)],
        WorkerCallOf::ListGlobals { query, offset, limit, .. } => vec![
            ArgOf::MaybeText(query),
            ArgOf::Count(offset),
            ArgOf::Count(limit),
        ],
        WorkerCallOf::AnalyzeStrings { query, offset, limit, .. } => vec![
            ArgOf::MaybeText(query),
            ArgOf::Count(offset),
            ArgOf::Count(limit),
        ],
        WorkerCallOf::FindString { query, exact, case_insensitive, offset, limit, .. } => vec![
            ArgOf::Text(query),
            ArgOf::Switch(exact),
            ArgOf::Switch(case_insensitive),
            ArgOf::Count(offset),
            ArgOf::Count(limit),
        ],
        WorkerCallOf::XrefsToString {
            query,
            exact,
            case_insensitive,
            offset,
            limit,
            max_xrefs,
            ..
        } => vec![
            ArgOf::Text(query),
            ArgOf::Switch(exact),
            ArgOf::Switch(case_insensitive),
            ArgOf::Count(offset),
            ArgOf::Count(limit),
            ArgOf::Count(max_xrefs),
        ],
        WorkerCallOf::AnalyzeFuncs { .. } => vec![],
        WorkerCallOf::AnalyzeFuncsObserved { .. } => vec![],
        WorkerCallOf::AnalyzeFuncsUnbounded => vec![],
        WorkerCallOf::FindBytes { pattern, max_results, .. } => vec![
            ArgOf::Text(pattern),
            ArgOf::Count(max_results),
        ],
        WorkerCallOf::SearchText { text, max_results, .. } => vec![
            ArgOf::Text(text),
            ArgOf::Count(max_results),
        ],
        WorkerCallOf::SearchImm { imm, max_results, .. } => vec![
            ArgOf::Number(imm),
            ArgOf::Count(max_results),
        ],
        WorkerCallOf::FindInsns { patterns, max_results, case_insensitive, .. } => vec![
            ArgOf::Texts(patterns),
            ArgOf::Count(max_results),
            ArgOf::Switch(case_insensitive),
        ],
        WorkerCallOf::FindInsnOperands { patterns, max_results, case_insensitive, .. } => vec![
            ArgOf::Texts(patterns),
            ArgOf::Count(max_results),
            ArgOf::Switch(case_insensitive),
        ],
        WorkerCallOf::ReadInt { addr, size } => vec![ArgOf::Address(addr), ArgOf::Count(size)],
        WorkerCallOf::GetString { addr, max_len } => vec![
            ArgOf::Address(addr),
            ArgOf::Count(max_len),
        ],
        WorkerCallOf::GetGlobalValue { query } => vec![ArgOf::Text(query)],
        WorkerCallOf::FindPaths { start, end, max_paths, max_depth } => vec![
            ArgOf::Address(start),
            ArgOf::Address(end),
            ArgOf::Count(max_paths),
            ArgOf::Count(max_depth),
        ],
        WorkerCallOf::Callgraph { addr, max_depth, max_nodes } => vec![
            ArgOf::Address(addr),
            ArgOf::Count(max_depth),
            ArgOf::Count(max_nodes),
        ],
        WorkerCallOf::XrefMatrix { addrs } => vec![ArgOf::Addresses(addrs)],
        WorkerCallOf::ExportFuncs { offset, limit } => vec![
            ArgOf::Count(offset),
            ArgOf::Count(limit),
            ArgOf::MaybeText(None),
        ],
        WorkerCallOf::RunScript { code, .. } => vec![ArgOf::Text(code)],
        WorkerCallOf::PseudocodeAt { addr, end_addr } => vec![
            ArgOf::Address(addr),
            ArgOf::MaybeAddress(end_addr),
        ],
    };
    assert(arg_views(args@) =~= want);
    args
}

/// The handler of a call and what it is given.
pub fn handler_call(call: WorkerCall) -> (r: HandlerCall)
    ensures
        r@ == handled(call@),
{
    let kind = request_kind(&call);
    let name: String = match handler(kind) {
        Some(name) => name.to_owned(),
        None => String::new(),
    };
    HandlerCallOf { name, args: args_of(call), watched: is_observed(kind) }
}

/// Every call has a handler. It gets a place to find out if and only if the loop finds one out for
/// its kind.
pub proof fn lemma_handlers_fit_the_loop(call: WorkerCallV)
    ensures
        handler_of(kind_of(call)) == Some(handled(call).name),
        resolves_address(kind_of(call)) <==> exists|i: int|
            0 <= i < handled(call).args.len() && (#[trigger] handled(call).args[i]) is Place,
{
    if resolves_address(kind_of(call)) {
        assert(handled(call).args[0] is Place);
    }
}

/// An export of functions lists what a list of them without a filter lists.
pub proof fn lemma_export_lists_all(offset: usize, limit: usize, timeout_secs: Option<u64>)
    ensures
        handled(WorkerCallV::ExportFuncs { offset, limit }) == handled(
            WorkerCallV::ListFunctions { offset, limit, filter: None, timeout_secs },
        ),
{
}

/// An analysis is the same one whoever waits for it, and for however long.
pub proof fn lemma_one_analysis(a: Option<u64>, b: Option<u64>)
    ensures
        handled(WorkerCallV::AnalyzeFuncs { timeout_secs: a }) == handled(
            WorkerCallV::AnalyzeFuncsObserved { timeout_secs: b },
        ),
        handled(WorkerCallV::AnalyzeFuncs { timeout_secs: a }) == handled(
            WorkerCallV::AnalyzeFuncsUnbounded,
        ),
{
}

// ---------------------------------------------------------------------------
// The daemon
// ---------------------------------------------------------------------------

/// What the daemon does for an analysis request, over the type of calls.
#[derive(Debug)]
pub enum DaemonRunOf<H> {
    /// It describes the target itself.
    Describe,
    /// It runs this handler.
    Run(H),
    /// It runs this handler to find a function, then decompiles at the address that it gives.
    RunThenDecompile(H),
}

/// What the daemon does for an analysis request.
pub type DaemonRun = DaemonRunOf<HandlerCall>;

/// What a [`DaemonRun`] is.
pub type DaemonRunV = DaemonRunOf<HandlerCallV>;

impl View for DaemonRunOf<HandlerCall> {
    type V = DaemonRunV;

    open spec fn view(&self) -> DaemonRunV {
        match self {
            DaemonRunOf::Describe => DaemonRunOf::Describe,
            DaemonRunOf::Run(h) => DaemonRunOf::Run(h@),
            DaemonRunOf::RunThenDecompile(h) => DaemonRunOf::RunThenDecompile(h@),
        }
    }
}

/// Whether the lines that an analysis request asks for can be counted, those that are skipped among
/// them.
pub open spec fn lines_fit(call: CallV) -> bool {
    match call {
        CallOf::Disasm { offset, count, .. } => offset + count <= usize::MAX,
        CallOf::DisasmFunctionAt { offset, count, .. } => offset + count <= usize::MAX,
        _ => true,
    }
}

/// A call of a handler that is not watched.
pub open spec fn unwatched(name: Seq<char>, args: Seq<ArgV>) -> HandlerCallV {
    HandlerCallOf { name, args, watched: false }
}

/// A handler that the daemon runs.
pub open spec fn run_v(name: Seq<char>, args: Seq<ArgV>) -> DaemonRunV {
    DaemonRunOf::Run(unwatched(name, args))
}

/// What the daemon does for an analysis request: the handler that it runs and the arguments that it
/// gives, in order. The lines that are skipped are fetched too; bytes are read at an address, not at
/// a name.
pub open spec fn daemon_run(call: CallV) -> DaemonRunV {
    match call {
        CallOf::Info => DaemonRunOf::Describe,
        CallOf::Disasm { offset, count, place } => match place {
            Place::Name(name) => run_v(
                "handle_disasm_by_name"@,
                seq![ArgOf::Text(name), ArgOf::Count((count + offset) as usize)],
            ),
            Place::Addr(addr) => run_v(
                "handle_disasm"@,
                seq![ArgOf::Address(addr), ArgOf::Count((count + offset) as usize)],
            ),
        },
        CallOf::DisasmFunctionAt { addr, offset, count } => run_v(
            "handle_disasm_function_at"@,
            seq![ArgOf::Address(addr), ArgOf::Count((count + offset) as usize)],
        ),
        CallOf::Decompile { place, .. } => match place {
            Place::Name(name) => DaemonRunOf::RunThenDecompile(
                unwatched("handle_resolve_function"@, seq![ArgOf::Text(name)]),
            ),
            Place::Addr(addr) => run_v("handle_decompile"@, seq![ArgOf::Address(addr)]),
        },
        CallOf::Meta => run_v("handle_idb_meta"@, seq![]),
        CallOf::AnalysisStatus => run_v("handle_analysis_status"@, seq![]),
        CallOf::ListFunctions { offset, limit, filter } => run_v(
            "handle_list_functions"@,
            seq![ArgOf::Count(offset), ArgOf::Count(limit), ArgOf::MaybeText(filter)],
        ),
        CallOf::ResolveFunction { name } => run_v(
            "handle_resolve_function"@,
            seq![ArgOf::Text(name)],
        ),
        CallOf::FunctionAt { addr } => run_v("handle_function_at"@, seq![ArgOf::Address(addr)]),
        CallOf::LookupFuncs { queries } => run_v(
            "handle_lookup_funcs"@,
            seq![ArgOf::Texts(queries)],
        ),
        CallOf::AnalyzeFuncs => run_v("handle_analyze_funcs"@, seq![]),
        CallOf::PseudocodeAt { addr, end } => run_v(
            "handle_pseudocode_at"@,
            seq![ArgOf::Address(addr), ArgOf::MaybeAddress(end)],
        ),
        CallOf::Strings { offset, limit, filter } => run_v(
            "handle_strings"@,
            seq![ArgOf::Count(offset), ArgOf::Count(limit), ArgOf::MaybeText(filter)],
        ),
        CallOf::FindString { query, exact, case_insensitive, offset, limit } => run_v(
            "handle_find_string"@,
            seq![
                ArgOf::Text(query),
                ArgOf::Switch(exact),
                ArgOf::Switch(case_insensitive),
                ArgOf::Count(offset),
                ArgOf::Count(limit),
            ],
        ),
        CallOf::GetString { addr, max_len } => run_v(
            "handle_get_string"@,
            seq![ArgOf::Address(addr), ArgOf::Count(max_len)],
        ),
        CallOf::AnalyzeStrings { query, offset, limit } => run_v(
            "handle_analyze_strings"@,
            seq![ArgOf::MaybeText(query), ArgOf::Count(offset), ArgOf::Count(limit)],
        ),
        CallOf::XrefsToString { query, exact, case_insensitive, offset, limit, max_xrefs } => run_v(
            "handle_xrefs_to_string"@,
            seq![
                ArgOf::Text(query),
                ArgOf::Switch(exact),
                ArgOf::Switch(case_insensitive),
                ArgOf::Count(offset),
                ArgOf::Count(limit),
                ArgOf::Count(max_xrefs),
            ],
        ),
        CallOf::Segments => run_v("handle_segments"@, seq![]),
        CallOf::Imports { offset, limit } => run_v(
            "handle_imports"@,
            seq![ArgOf::Count(offset), ArgOf::Count(limit)],
        ),
        CallOf::Exports { offset, limit } => run_v(
            "handle_exports"@,
            seq![ArgOf::Count(offset), ArgOf::Count(limit)],
        ),
        CallOf::Entrypoints => run_v("handle_entrypoints"@, seq![]),
        CallOf::ListGlobals { filter, offset, limit } => run_v(
            "handle_list_globals"@,
            seq![ArgOf::MaybeText(filter), ArgOf::Count(offset), ArgOf::Count(limit)],
        ),
        CallOf::GetGlobalValue { query } => run_v(
            "handle_get_global_value"@,
            seq![ArgOf::Text(query)],
        ),
        CallOf::XrefsTo { addr, offset, limit } => run_v(
            "handle_xrefs_to"@,
            seq![ArgOf::Address(addr), ArgOf::Count(offset), ArgOf::Count(limit)],
        ),
        CallOf::XrefsFrom { addr, offset, limit } => run_v(
            "handle_xrefs_from"@,
            seq![ArgOf::Address(addr), ArgOf::Count(offset), ArgOf::Count(limit)],
        ),
        CallOf::XrefMatrix { addrs } => run_v("handle_xref_matrix"@, seq![ArgOf::Addresses(addrs)]),
        CallOf::BasicBlocks { addr } => run_v("handle_basic_blocks"@, seq![ArgOf::Address(addr)]),
        CallOf::Callers { addr } => run_v("handle_callers"@, seq![ArgOf::Address(addr)]),
        CallOf::Callees { addr } => run_v("handle_callees"@, seq![ArgOf::Address(addr)]),
        CallOf::Callgraph { addr, max_depth, max_nodes } => run_v(
            "handle_callgraph"@,
            seq![ArgOf::Address(addr), ArgOf::Count(max_depth), ArgOf::Count(max_nodes)],
        ),
        CallOf::FindPaths { start, end, max_paths, max_depth } => run_v(
            "handle_find_paths"@,
            seq![
                ArgOf::Address(start),
                ArgOf::Address(end),
                ArgOf::Count(max_paths),
                ArgOf::Count(max_depth),
            ],
        ),
        CallOf::GetBytes { addr, size } => run_v(
            "handle_get_bytes"@,
            seq![
                ArgOf::MaybeAddress(Some(addr)),
                ArgOf::MaybeText(None),
                ArgOf::Offset(0),
                ArgOf::Count(size),
            ],
        ),
        CallOf::ReadInt { addr, size } => run_v(
            "handle_read_int"@,
            seq![ArgOf::Address(addr), ArgOf::Count(size)],
        ),
        CallOf::FindBytes { pattern, limit } => run_v(
            "handle_find_bytes"@,
            seq![ArgOf::Text(pattern), ArgOf::Count(limit)],
        ),
        CallOf::SearchText { text, max_results } => run_v(
            "handle_search_text"@,
            seq![ArgOf::Text(text), ArgOf::Count(max_results)],
        ),
        CallOf::SearchImm { imm, max_results } => run_v(
            "handle_search_imm"@,
            seq![ArgOf::Number(imm), ArgOf::Count(max_results)],
        ),
        CallOf::FindInsns { patterns, max_results, case_insensitive } => run_v(
            "handle_find_insns"@,
            seq![
                ArgOf::Texts(patterns),
                ArgOf::Count(max_results),
                ArgOf::Switch(case_insensitive),
            ],
        ),
        CallOf::FindInsnOperands { patterns, max_results, case_insensitive } => run_v(
            "handle_find_insn_operands"@,
            seq![
                ArgOf::Texts(patterns),
                ArgOf::Count(max_results),
                ArgOf::Switch(case_insensitive),
            ],
        ),
        CallOf::AddrInfo { addr } => run_v("handle_addr_info"@, seq![ArgOf::Address(addr)]),
        CallOf::LocalTypes { offset, limit, filter } => run_v(
            "handle_local_types"@,
            seq![ArgOf::Count(offset), ArgOf::Count(limit), ArgOf::MaybeText(filter)],
        ),
        CallOf::DeclareType { decl, relaxed, replace, multi } => run_v(
            "handle_declare_type"@,
            seq![
                ArgOf::Text(decl),
                ArgOf::Switch(relaxed),
                ArgOf::Switch(replace),
                ArgOf::Switch(multi),
            ],
        ),
        CallOf::ApplyTypes {
            addr,
            name,
            offset,
            stack_offset,
            stack_name,
            decl,
            named_type,
            relaxed,
            delay,
            strict,
        } => run_v(
            "handle_apply_types"@,
            seq![
                ArgOf::MaybeAddress(addr),
                ArgOf::MaybeText(name),
                ArgOf::Offset(offset),
                ArgOf::MaybeOffset(stack_offset),
                ArgOf::MaybeText(stack_name),
                ArgOf::MaybeText(decl),
                ArgOf::MaybeText(named_type),
                ArgOf::Switch(relaxed),
                ArgOf::Switch(delay),
                ArgOf::Switch(strict),
            ],
        ),
        CallOf::InferTypes { addr, name, offset } => run_v(
            "handle_infer_types"@,
            seq![ArgOf::MaybeAddress(addr), ArgOf::MaybeText(name), ArgOf::Offset(offset)],
        ),
        CallOf::StackFrame { addr } => run_v("handle_stack_frame"@, seq![ArgOf::Address(addr)]),
        CallOf::DeclareStack { addr, name, offset, var_name, decl, relaxed } => run_v(
            "handle_declare_stack"@,
            seq![
                ArgOf::MaybeAddress(addr),
                ArgOf::MaybeText(name),
                ArgOf::Offset(offset),
                ArgOf::MaybeText(var_name),
                ArgOf::Text(decl),
                ArgOf::Switch(relaxed),
            ],
        ),
        CallOf::DeleteStack { addr, name, offset, var_name } => run_v(
            "handle_delete_stack"@,
            seq![
                ArgOf::MaybeAddress(addr),
                ArgOf::MaybeText(name),
                ArgOf::MaybeOffset(offset),
                ArgOf::MaybeText(var_name),
            ],
        ),
        CallOf::Structs { offset, limit, filter } => run_v(
            "handle_structs"@,
            seq![ArgOf::Count(offset), ArgOf::Count(limit), ArgOf::MaybeText(filter)],
        ),
        CallOf::StructInfo { ordinal, name } => run_v(
            "handle_struct_info"@,
            seq![ArgOf::Ordinal(ordinal), ArgOf::MaybeText(name)],
        ),
        CallOf::ReadStruct { addr, ordinal, name } => run_v(
            "handle_read_struct"@,
            seq![ArgOf::Address(addr), ArgOf::Ordinal(ordinal), ArgOf::MaybeText(name)],
        ),
        CallOf::XrefsToField { ordinal, name, member_index, member_name, limit } => run_v(
            "handle_xrefs_to_field"@,
            seq![
                ArgOf::Ordinal(ordinal),
                ArgOf::MaybeText(name),
                ArgOf::Ordinal(member_index),
                ArgOf::MaybeText(member_name),
                ArgOf::Count(limit),
            ],
        ),
        CallOf::SetComment { addr, name, offset, comment, repeatable } => run_v(
            "handle_set_comments"@,
            seq![
                ArgOf::MaybeAddress(addr),
                ArgOf::MaybeText(name),
                ArgOf::Offset(offset),
                ArgOf::Text(comment),
                ArgOf::Switch(repeatable),
            ],
        ),
        CallOf::Rename { addr, current_name, new_name, flags } => run_v(
            "handle_rename"@,
            seq![
                ArgOf::MaybeAddress(addr),
                ArgOf::MaybeText(current_name),
                ArgOf::Text(new_name),
                ArgOf::Flags(flags),
            ],
        ),
        CallOf::PatchBytes { addr, name, offset, bytes } => run_v(
            "handle_patch_bytes"@,
            seq![
                ArgOf::MaybeAddress(addr),
                ArgOf::MaybeText(name),
                ArgOf::Offset(offset),
                ArgOf::Bytes(bytes),
            ],
        ),
        CallOf::PatchAsm { addr, name, offset, line } => run_v(
            "handle_patch_asm"@,
            seq![
                ArgOf::MaybeAddress(addr),
                ArgOf::MaybeText(name),
                ArgOf::Offset(offset),
                ArgOf::Text(line),
            ],
        ),
        CallOf::RunScript { code } => run_v("handle_run_script"@, seq![ArgOf::Text(code)]),
        CallOf::LoadDebugInfo { path, verbose } => run_v(
            "handle_load_debug_info"@,
            seq![ArgOf::MaybeText(path), ArgOf::Switch(verbose)],
        ),
    }
}

fn run(name: &str, args: Vec<Arg>) -> (r: DaemonRun)
    ensures
        r@ == run_v(name@, arg_views(args@)),
{
    DaemonRunOf::Run(HandlerCallOf { name: name.to_owned(), args, watched: false })
}

/// What the daemon does for an analysis request.
pub fn daemon_handler(call: Call) -> (r: DaemonRun)
    requires
        lines_fit(call@),
    ensures
        r@ == daemon_run(call@),
{
    let ghost want = daemon_run(call@);
    let r = match call {
        CallOf::Info => DaemonRunOf::Describe,
        CallOf::Disasm { offset, count, place } => {
            let total: usize = disasm_window(count, offset);
            match place {
                Place::Name(name) => run(
                    "handle_disasm_by_name",
                    vec![ArgOf::Text(name), ArgOf::Count(total)],
                ),
                Place::Addr(addr) => run(
                    "handle_disasm",
                    vec![ArgOf::Address(addr), ArgOf::Count(total)],
                ),
            }
        },
        CallOf::DisasmFunctionAt { addr, offset, count } => run(
            "handle_disasm_function_at",
            vec![ArgOf::Address(addr), ArgOf::Count(disasm_window(count, offset))],
        ),
        CallOf::Decompile { place, .. } => match place {
            Place::Name(name) => DaemonRunOf::RunThenDecompile(
                HandlerCallOf {
                    name: "handle_resolve_function".to_owned(),
                    args: vec![ArgOf::Text(name)],
                    watched: false,
                },
            ),
            Place::Addr(addr) => run("handle_decompile", vec![ArgOf::Address(addr)]),
        },
        CallOf::Meta => run("handle_idb_meta", vec![]),
        CallOf::AnalysisStatus => run("handle_analysis_status", vec![]),
        CallOf::ListFunctions { offset, limit, filter } => run(
            "handle_list_functions",
            vec![ArgOf::Count(offset), ArgOf::Count(limit), ArgOf::MaybeText(filter)],
        ),
        CallOf::ResolveFunction { name } => run("handle_resolve_function", vec![ArgOf::Text(name)]),
        CallOf::FunctionAt { addr } => run("handle_function_at", vec![ArgOf::Address(addr)]),
        CallOf::LookupFuncs { queries } => run("handle_lookup_funcs", vec![ArgOf::Texts(queries)]),
        CallOf::AnalyzeFuncs => run("handle_analyze_funcs", vec![]),
        CallOf::PseudocodeAt { addr, end } => run(
            "handle_pseudocode_at",
            vec![ArgOf::Address(addr), ArgOf::MaybeAddress(end)],
        ),
        CallOf::Strings { offset, limit, filter } => run(
            "handle_strings",
            vec![ArgOf::Count(offset), ArgOf::Count(limit), ArgOf::MaybeText(filter)],
        ),
        CallOf::FindString { query, exact, case_insensitive, offset, limit } => run(
            "handle_find_string",
            vec![
                ArgOf::Text(query),
                ArgOf::Switch(exact),
                ArgOf::Switch(case_insensitive),
                ArgOf::Count(offset),
                ArgOf::Count(limit),
            ],
        ),
        CallOf::GetString { addr, max_len } => run(
            "handle_get_string",
            vec![ArgOf::Address(addr), ArgOf::Count(max_len)],
        ),
        CallOf::AnalyzeStrings { query, offset, limit } => run(
            "handle_analyze_strings",
            vec![ArgOf::MaybeText(query), ArgOf::Count(offset), ArgOf::Count(limit)],
        ),
        CallOf::XrefsToString { query, exact, case_insensitive, offset, limit, max_xrefs } => run(
            "handle_xrefs_to_string",
            vec![
                ArgOf::Text(query),
                ArgOf::Switch(exact),
                ArgOf::Switch(case_insensitive),
                ArgOf::Count(offset),
                ArgOf::Count(limit),
                ArgOf::Count(max_xrefs),
            ],
        ),
        CallOf::Segments => run("handle_segments", vec![]),
        CallOf::Imports { offset, limit } => run(
            "handle_imports",
            vec![ArgOf::Count(offset), ArgOf::Count(limit)],
        ),
        CallOf::Exports { offset, limit } => run(
            "handle_exports",
            vec![ArgOf::Count(offset), ArgOf::Count(limit)],
        ),
        CallOf::Entrypoints => run("handle_entrypoints", vec![]),
        CallOf::ListGlobals { filter, offset, limit } => run(
            "handle_list_globals",
            vec![ArgOf::MaybeText(filter), ArgOf::Count(offset), ArgOf::Count(limit)],
        ),
        CallOf::GetGlobalValue { query } => run(
            "handle_get_global_value",
            vec![ArgOf::Text(query)],
        ),
        CallOf::XrefsTo { addr, offset, limit } => run(
            "handle_xrefs_to",
            vec![ArgOf::Address(addr), ArgOf::Count(offset), ArgOf::Count(limit)],
        ),
        CallOf::XrefsFrom { addr, offset, limit } => run(
            "handle_xrefs_from",
            vec![ArgOf::Address(addr), ArgOf::Count(offset), ArgOf::Count(limit)],
        ),
        CallOf::XrefMatrix { addrs } => run("handle_xref_matrix", vec![ArgOf::Addresses(addrs)]),
        CallOf::BasicBlocks { addr } => run("handle_basic_blocks", vec![ArgOf::Address(addr)]),
        CallOf::Callers { addr } => run("handle_callers", vec![ArgOf::Address(addr)]),
        CallOf::Callees { addr } => run("handle_callees", vec![ArgOf::Address(addr)]),
        CallOf::Callgraph { addr, max_depth, max_nodes } => run(
            "handle_callgraph",
            vec![ArgOf::Address(addr), ArgOf::Count(max_depth), ArgOf::Count(max_nodes)],
        ),
        CallOf::FindPaths { start, end, max_paths, max_depth } => run(
            "handle_find_paths",
            vec![
                ArgOf::Address(start),
                ArgOf::Address(end),
                ArgOf::Count(max_paths),
                ArgOf::Count(max_depth),
            ],
        ),
        CallOf::GetBytes { addr, size } => run(
            "handle_get_bytes",
            vec![
                ArgOf::MaybeAddress(Some(addr)),
                ArgOf::MaybeText(None),
                ArgOf::Offset(0),
                ArgOf::Count(size),
            ],
        ),
        CallOf::ReadInt { addr, size } => run(
            "handle_read_int",
            vec![ArgOf::Address(addr), ArgOf::Count(size)],
        ),
        CallOf::FindBytes { pattern, limit } => run(
            "handle_find_bytes",
            vec![ArgOf::Text(pattern), ArgOf::Count(limit)],
        ),
        CallOf::SearchText { text, max_results } => run(
            "handle_search_text",
            vec![ArgOf::Text(text), ArgOf::Count(max_results)],
        ),
        CallOf::SearchImm { imm, max_results } => run(
            "handle_search_imm",
            vec![ArgOf::Number(imm), ArgOf::Count(max_results)],
        ),
        CallOf::FindInsns { patterns, max_results, case_insensitive } => run(
            "handle_find_insns",
            vec![
                ArgOf::Texts(patterns),
                ArgOf::Count(max_results),
                ArgOf::Switch(case_insensitive),
            ],
        ),
        CallOf::FindInsnOperands { patterns, max_results, case_insensitive } => run(
            "handle_find_insn_operands",
            vec![
                ArgOf::Texts(patterns),
                ArgOf::Count(max_results),
                ArgOf::Switch(case_insensitive),
            ],
        ),
        CallOf::AddrInfo { addr } => run("handle_addr_info", vec![ArgOf::Address(addr)]),
        CallOf::LocalTypes { offset, limit, filter } => run(
            "handle_local_types",
            vec![ArgOf::Count(offset), ArgOf::Count(limit), ArgOf::MaybeText(filter)],
        ),
        CallOf::DeclareType { decl, relaxed, replace, multi } => run(
            "handle_declare_type",
            vec![
                ArgOf::Text(decl),
                ArgOf::Switch(relaxed),
                ArgOf::Switch(replace),
                ArgOf::Switch(multi),
            ],
        ),
        CallOf::ApplyTypes {
            addr,
            name,
            offset,
            stack_offset,
            stack_name,
            decl,
            named_type,
            relaxed,
            delay,
            strict,
        } => run(
            "handle_apply_types",
            vec![
                ArgOf::MaybeAddress(addr),
                ArgOf::MaybeText(name),
                ArgOf::Offset(offset),
                ArgOf::MaybeOffset(stack_offset),
                ArgOf::MaybeText(stack_name),
                ArgOf::MaybeText(decl),
                ArgOf::MaybeText(named_type),
                ArgOf::Switch(relaxed),
                ArgOf::Switch(delay),
                ArgOf::Switch(strict),
            ],
        ),
        CallOf::InferTypes { addr, name, offset } => run(
            "handle_infer_types",
            vec![ArgOf::MaybeAddress(addr), ArgOf::MaybeText(name), ArgOf::Offset(offset)],
        ),
        CallOf::StackFrame { addr } => run("handle_stack_frame", vec![ArgOf::Address(addr)]),
        CallOf::DeclareStack { addr, name, offset, var_name, decl, relaxed } => run(
            "handle_declare_stack",
            vec![
                ArgOf::MaybeAddress(addr),
                ArgOf::MaybeText(name),
                ArgOf::Offset(offset),
                ArgOf::MaybeText(var_name),
                ArgOf::Text(decl),
                ArgOf::Switch(relaxed),
            ],
        ),
        CallOf::DeleteStack { addr, name, offset, var_name } => run(
            "handle_delete_stack",
            vec![
                ArgOf::MaybeAddress(addr),
                ArgOf::MaybeText(name),
                ArgOf::MaybeOffset(offset),
                ArgOf::MaybeText(var_name),
            ],
        ),
        CallOf::Structs { offset, limit, filter } => run(
            "handle_structs",
            vec![ArgOf::Count(offset), ArgOf::Count(limit), ArgOf::MaybeText(filter)],
        ),
        CallOf::StructInfo { ordinal, name } => run(
            "handle_struct_info",
            vec![ArgOf::Ordinal(ordinal), ArgOf::MaybeText(name)],
        ),
        CallOf::ReadStruct { addr, ordinal, name } => run(
            "handle_read_struct",
            vec![ArgOf::Address(addr), ArgOf::Ordinal(ordinal), ArgOf::MaybeText(name)],
        ),
        CallOf::XrefsToField { ordinal, name, member_index, member_name, limit } => run(
            "handle_xrefs_to_field",
            vec![
                ArgOf::Ordinal(ordinal),
                ArgOf::MaybeText(name),
                ArgOf::Ordinal(member_index),
                ArgOf::MaybeText(member_name),
                ArgOf::Count(limit),
            ],
        ),
        CallOf::SetComment { addr, name, offset, comment, repeatable } => run(
            "handle_set_comments",
            vec![
                ArgOf::MaybeAddress(addr),
                ArgOf::MaybeText(name),
                ArgOf::Offset(offset),
                ArgOf::Text(comment),
                ArgOf::Switch(repeatable),
            ],
        ),
        CallOf::Rename { addr, current_name, new_name, flags } => run(
            "handle_rename",
            vec![
                ArgOf::MaybeAddress(addr),
                ArgOf::MaybeText(current_name),
                ArgOf::Text(new_name),
                ArgOf::Flags(flags),
            ],
        ),
        CallOf::PatchBytes { addr, name, offset, bytes } => run(
            "handle_patch_bytes",
            vec![
                ArgOf::MaybeAddress(addr),
                ArgOf::MaybeText(name),
                ArgOf::Offset(offset),
                ArgOf::Bytes(bytes),
            ],
        ),
        CallOf::PatchAsm { addr, name, offset, line } => run(
            "handle_patch_asm",
            vec![
                ArgOf::MaybeAddress(addr),
                ArgOf::MaybeText(name),
                ArgOf::Offset(offset),
                ArgOf::Text(line),
            ],
        ),
        CallOf::RunScript { code } => run("handle_run_script", vec![ArgOf::Text(code)]),
        CallOf::LoadDebugInfo { path, verbose } => run(
            "handle_load_debug_info",
            vec![ArgOf::MaybeText(path), ArgOf::Switch(verbose)],
        ),
    };
    proof {
        match (r@, want) {
            (DaemonRunOf::Run(a), DaemonRunOf::Run(b)) => {
                assert(a.args =~= b.args);
            },
            (DaemonRunOf::RunThenDecompile(a), DaemonRunOf::RunThenDecompile(b)) => {
                assert(a.args =~= b.args);
            },
            _ => {},
        }
    }
    r
}

/// The call that decompiles a function that was found by its name, given the address that the
/// finding handler answered.
pub fn decompile_found(address_text: &str) -> (r: Result<HandlerCall, String>)
    ensures
        match r {
            Ok(h) => address(address_text@) is Some && h@ == unwatched(
                "handle_decompile"@,
                seq![ArgV::Address(address(address_text@)->0)],
            ),
            Err(e) => address(address_text@) is None && e@ == "Invalid address: "@ + trimmed(
                address_text@,
            ),
        },
{
    let addr: u64 = parse_addr(address_text)?;
    let args: Vec<Arg> = vec![ArgOf::Address(addr)];
    assert(arg_views(args@) =~= seq![ArgV::Address(addr)]);
    Ok(HandlerCallOf { name: "handle_decompile".to_owned(), args, watched: false })
}

/// A function that is found by its name is decompiled as one that is named by its address: the
/// address in the answer reads back as itself.
pub proof fn lemma_found_is_decompiled(addr: u64, max_lines: usize)
    ensures
        address(hex(addr as nat)) == Some(addr),
        daemon_run(
            CallV::Decompile { max_lines, place: Place::Addr(addr) },
        ) == run_v("handle_decompile"@, seq![ArgV::Address(addr)]),
{
    lemma_address_read_back(addr);
}

/// The call of a tool that asks what an analysis request of the daemon asks,
/// where there is one.
pub open spec fn asked_by_tool(call: CallV) -> Option<WorkerCallV> {
    match call {
        CallOf::Meta => Some(WorkerCallOf::IdbMeta),
        CallOf::AnalysisStatus => Some(WorkerCallOf::AnalysisStatus),
        CallOf::ListFunctions { offset, limit, filter } => Some(
            WorkerCallOf::ListFunctions { offset, limit, filter, timeout_secs: None },
        ),
        CallOf::ResolveFunction { name } => Some(WorkerCallOf::ResolveFunction { name }),
        CallOf::LookupFuncs { queries } => Some(WorkerCallOf::LookupFuncs { queries }),
        CallOf::Disasm { offset, count, place: Place::Addr(addr) } => Some(
            WorkerCallOf::Disasm { addr, count: (count + offset) as usize },
        ),
        CallOf::Disasm { offset, count, place: Place::Name(name) } => Some(
            WorkerCallOf::DisasmByName { name, count: (count + offset) as usize },
        ),
        CallOf::Decompile { place: Place::Addr(addr), .. } => Some(
            WorkerCallOf::Decompile { addr },
        ),
        CallOf::PseudocodeAt { addr, end } => Some(
            WorkerCallOf::PseudocodeAt { addr, end_addr: end },
        ),
        CallOf::Strings { offset, limit, filter } => Some(
            WorkerCallOf::Strings { offset, limit, filter, timeout_secs: None },
        ),
        CallOf::FindString { query, exact, case_insensitive, offset, limit } => Some(
            WorkerCallOf::FindString {
                query,
                exact,
                case_insensitive,
                offset,
                limit,
                timeout_secs: None,
            },
        ),
        CallOf::GetString { addr, max_len } => Some(WorkerCallOf::GetString { addr, max_len }),
        CallOf::AnalyzeStrings { query, offset, limit } => Some(
            WorkerCallOf::AnalyzeStrings { query, offset, limit, timeout_secs: None },
        ),
        CallOf::XrefsToString { query, exact, case_insensitive, offset, limit, max_xrefs } => Some(
            WorkerCallOf::XrefsToString {
                query,
                exact,
                case_insensitive,
                offset,
                limit,
                max_xrefs,
                timeout_secs: None,
            },
        ),
        CallOf::Imports { offset, limit } => Some(WorkerCallOf::Imports { offset, limit }),
        CallOf::Exports { offset, limit } => Some(WorkerCallOf::Exports { offset, limit }),
        CallOf::ListGlobals { filter, offset, limit } => Some(
            WorkerCallOf::ListGlobals { query: filter, offset, limit, timeout_secs: None },
        ),
        CallOf::GetGlobalValue { query } => Some(WorkerCallOf::GetGlobalValue { query }),
        CallOf::XrefMatrix { addrs } => Some(WorkerCallOf::XrefMatrix { addrs }),
        CallOf::BasicBlocks { addr } => Some(WorkerCallOf::BasicBlocks { addr }),
        CallOf::Callers { addr } => Some(WorkerCallOf::Callers { addr }),
        CallOf::Callees { addr } => Some(WorkerCallOf::Callees { addr }),
        CallOf::Callgraph { addr, max_depth, max_nodes } => Some(
            WorkerCallOf::Callgraph { addr, max_depth, max_nodes },
        ),
        CallOf::FindPaths { start, end, max_paths, max_depth } => Some(
            WorkerCallOf::FindPaths { start, end, max_paths, max_depth },
        ),
        CallOf::GetBytes { addr, size } => Some(
            WorkerCallOf::GetBytes { addr: Some(addr), name: None, offset: 0, size },
        ),
        CallOf::ReadInt { addr, size } => Some(WorkerCallOf::ReadInt { addr, size }),
        CallOf::FindBytes { pattern, limit } => Some(
            WorkerCallOf::FindBytes { pattern, max_results: limit, timeout_secs: None },
        ),
        CallOf::SearchText { text, max_results } => Some(
            WorkerCallOf::SearchText { text, max_results, timeout_secs: None },
        ),
        CallOf::SearchImm { imm, max_results } => Some(
            WorkerCallOf::SearchImm { imm, max_results, timeout_secs: None },
        ),
        CallOf::FindInsns { patterns, max_results, case_insensitive } => Some(
            WorkerCallOf::FindInsns { patterns, max_results, case_insensitive, timeout_secs: None },
        ),
        CallOf::FindInsnOperands { patterns, max_results, case_insensitive } => Some(
            WorkerCallOf::FindInsnOperands {
                patterns,
                max_results,
                case_insensitive,
                timeout_secs: None,
            },
        ),
        CallOf::LocalTypes { offset, limit, filter } => Some(
            WorkerCallOf::LocalTypes { offset, limit, filter, timeout_secs: None },
        ),
        CallOf::DeclareType { decl, relaxed, replace, multi } => Some(
            WorkerCallOf::DeclareType { decl, relaxed, replace, multi },
        ),
        CallOf::ApplyTypes {
            addr,
            name,
            offset,
            stack_offset,
            stack_name,
            decl,
            named_type,
            relaxed,
            delay,
            strict,
        } => Some(
            WorkerCallOf::ApplyTypes {
                addr,
                name,
                offset,
                stack_offset,
                stack_name,
                decl,
                named_type,
                relaxed,
                delay,
                strict,
            },
        ),
        CallOf::InferTypes { addr, name, offset } => Some(
            WorkerCallOf::InferTypes { addr, name, offset },
        ),
        CallOf::StackFrame { addr } => Some(WorkerCallOf::StackFrame { addr }),
        CallOf::DeclareStack { addr, name, offset, var_name, decl, relaxed } => Some(
            WorkerCallOf::DeclareStack { addr, name, offset, var_name, decl, relaxed },
        ),
        CallOf::DeleteStack { addr, name, offset, var_name } => Some(
            WorkerCallOf::DeleteStack { addr, name, offset, var_name },
        ),
        CallOf::Structs { offset, limit, filter } => Some(
            WorkerCallOf::Structs { offset, limit, filter, timeout_secs: None },
        ),
        CallOf::StructInfo { ordinal, name } => Some(WorkerCallOf::StructInfo { ordinal, name }),
        CallOf::ReadStruct { addr, ordinal, name } => Some(
            WorkerCallOf::ReadStruct { addr, ordinal, name },
        ),
        CallOf::XrefsToField { ordinal, name, member_index, member_name, limit } => Some(
            WorkerCallOf::XrefsToField { ordinal, name, member_index, member_name, limit },
        ),
        CallOf::SetComment { addr, name, offset, comment, repeatable } => Some(
            WorkerCallOf::SetComments { addr, name, offset, comment, repeatable },
        ),
        CallOf::Rename { addr, current_name, new_name, flags } => Some(
            WorkerCallOf::Rename { addr, current_name, new_name, flags },
        ),
        CallOf::PatchBytes { addr, name, offset, bytes } => Some(
            WorkerCallOf::PatchBytes { addr, name, offset, bytes },
        ),
        CallOf::PatchAsm { addr, name, offset, line } => Some(
            WorkerCallOf::PatchAsm { addr, name, offset, line },
        ),
        CallOf::LoadDebugInfo { path, verbose } => Some(
            WorkerCallOf::LoadDebugInfo { path, verbose },
        ),
        CallOf::Segments => Some(WorkerCallOf::Segments),
        CallOf::Entrypoints => Some(WorkerCallOf::Entrypoints),
        CallOf::AnalyzeFuncs => Some(WorkerCallOf::AnalyzeFuncs { timeout_secs: None }),
        CallOf::RunScript { code } => Some(WorkerCallOf::RunScript { code, timeout_secs: None }),
        _ => None,
    }
}

/// A question is answered by the same handler with the same arguments whether it
/// is asked of the daemon or by a tool.
pub proof fn lemma_daemon_and_tools_agree(call: CallV)
    requires
        asked_by_tool(call) is Some,
    ensures
        daemon_run(call) matches DaemonRunOf::Run(h) && h.name == handled(
            asked_by_tool(call)->0,
        ).name && h.args == handled(asked_by_tool(call)->0).args,
{
}

/// A question about one address goes to the handler of its name with that address,
/// and with the page that it asks for; a tool asks it of a place, which the loop
/// finds out first, and for all references.
pub proof fn lemma_questions_about_an_address(
    addr: u64,
    place: Option<u64>,
    name: Option<Seq<char>>,
    shift: i64,
    offset: usize,
    limit: usize,
)
    requires
        offset + limit <= usize::MAX,
    ensures
        daemon_run(CallOf::AddrInfo { addr }) matches DaemonRunOf::Run(h) && h.args == seq![
            ArgV::Address(addr),
        ] && h.name == handled(WorkerCallOf::AddrInfo { addr: place, name, offset: shift }).name,
        daemon_run(CallOf::FunctionAt { addr }) matches DaemonRunOf::Run(h) && h.args == seq![
            ArgV::Address(addr),
        ] && h.name == handled(WorkerCallOf::FunctionAt { addr: place, name, offset: shift }).name,
        daemon_run(CallOf::DisasmFunctionAt { addr, offset, count: limit }) matches DaemonRunOf::Run(
            h,
        ) && h.args.len() == 2 && h.args[0] == ArgV::Address(addr) && (
        h.args[1] matches ArgOf::Count(n) && n == offset + limit),
        daemon_run(CallOf::XrefsTo { addr, offset, limit }) matches DaemonRunOf::Run(h) && h.args
            == seq![ArgV::Address(addr), ArgV::Count(offset), ArgV::Count(limit)] && h.name
            == handled(WorkerCallOf::XrefsTo { addr }).name,
        daemon_run(CallOf::XrefsFrom { addr, offset, limit }) matches DaemonRunOf::Run(h) && h.args
            == seq![ArgV::Address(addr), ArgV::Count(offset), ArgV::Count(limit)] && h.name
            == handled(WorkerCallOf::XrefsFrom { addr }).name,
        handled(WorkerCallOf::XrefsTo { addr }).args == seq![ArgV::Address(addr)],
        handled(WorkerCallOf::XrefsFrom { addr }).args == seq![ArgV::Address(addr)],
        handled(WorkerCallOf::AddrInfo { addr: place, name, offset: shift }).args == seq![
            ArgV::Place { addr: place, name, offset: shift },
        ],
        handled(WorkerCallOf::FunctionAt { addr: place, name, offset: shift }).args == seq![
            ArgV::Place { addr: place, name, offset: shift },
        ],
{
}

} // verus!
