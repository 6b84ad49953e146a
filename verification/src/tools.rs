//! What each tool asks a worker for, and what is answered once the worker has answered.

use crate::calls::{WorkerCall, WorkerCallOf, WorkerCallV};
use crate::errors::{ToolError, ToolErrorOf, ToolErrorV};
use crate::json::{
    field, list_in, no_fields, number_v, opt_number_v, text_v, values_of, FieldsV, Json,
    JsonObject, JsonV,
};
use crate::bytes::{
    ascii_of, bytes_to_ascii, hex_encode, hex_encoded, le_bytes, le_value, lemma_word_read_back,
    reversed, trim_bytes_be, trim_bytes_le, without_first_zeros, without_last_zeros, word_bytes,
};
use crate::numbers::{
    any_radix, decimal, decimal_text, digits, digits_text, hex, hex_text, lemma_address_read_back,
    lemma_prefixed_read_back,
};
use crate::protocol::opt_json;
use crate::text::{copy_opt, opt_view, same, views};
use crate::values::{
    addresses_in, bytes_in_value, cap_count, capped, count_param, first_address_in, flags_param,
    maybe_address_in, number_in, optional_address, optional_count, optional_flags,
    optional_ordinal, optional_secs, or_else, ordinal_param, parse_address, secs_param,
    texts_in_value, value_to_addresses, value_to_bytes, value_to_single_address, value_to_strings,
};
use vstd::prelude::*;

verus! {

// ---------------------------------------------------------------------------
// Plans
// ---------------------------------------------------------------------------

/// What a tool asks a worker for, over the types of texts, calls and lists of named calls.
#[derive(Debug)]
pub enum PlanOf<T, C, L> {
    /// One call, whose result is the answer.
    One(C),
    /// Several calls, whose results are listed: each with its name under `label`, and its result
    /// under `key`.
    Many { label: T, key: T, calls: L },
}

/// What a tool asks a worker for.
pub type Plan = PlanOf<String, WorkerCall, Vec<(String, WorkerCall)>>;

/// What a [`Plan`] is.
pub type PlanV = PlanOf<Seq<char>, WorkerCallV, Seq<(Seq<char>, WorkerCallV)>>;

/// The views of named calls.
pub open spec fn call_views(calls: Seq<(String, WorkerCall)>) -> Seq<(Seq<char>, WorkerCallV)> {
    calls.map_values(|c: (String, WorkerCall)| (c.0@, c.1@))
}

impl View for PlanOf<String, WorkerCall, Vec<(String, WorkerCall)>> {
    type V = PlanV;

    open spec fn view(&self) -> PlanV {
        match self {
            PlanOf::One(c) => PlanOf::One(c@),
            PlanOf::Many { label, key, calls } => PlanOf::Many {
                label: label@,
                key: key@,
                calls: call_views(calls@),
            },
        }
    }
}

/// What a result that is a plan is.
pub open spec fn plan_result(r: Result<Plan, ToolError>) -> Result<PlanV, ToolErrorV> {
    match r {
        Ok(p) => Ok(p@),
        Err(e) => Err(e@),
    }
}

/// The tools that are asked for at one address after the other, over the type of texts.
#[derive(Debug)]
#[allow(inconsistent_fields)]
pub enum AddrToolOf<T> {
    Disasm { count: usize },
    Decompile,
    PseudocodeAt { end: Option<u64> },
    XrefsTo,
    XrefsFrom,
    GetBytes { size: usize },
    BasicBlocks,
    Callees,
    Callers,
    GetString { max_len: usize },
    Callgraph { max_depth: usize, max_nodes: usize },
    ReadStruct { ordinal: Option<u32>, name: Option<T> },
    ReadInt { size: usize },
}

/// A tool that is asked for at one address after the other.
pub type AddrTool = AddrToolOf<String>;

/// What an [`AddrTool`] is.
pub type AddrToolV = AddrToolOf<Seq<char>>;

impl View for AddrToolOf<String> {
    type V = AddrToolV;

    open spec fn view(&self) -> AddrToolV {
        match self {
            AddrToolOf::Disasm { count } => AddrToolOf::Disasm { count: *count },
            AddrToolOf::Decompile => AddrToolOf::Decompile,
            AddrToolOf::PseudocodeAt { end } => AddrToolOf::PseudocodeAt { end: *end },
            AddrToolOf::XrefsTo => AddrToolOf::XrefsTo,
            AddrToolOf::XrefsFrom => AddrToolOf::XrefsFrom,
            AddrToolOf::GetBytes { size } => AddrToolOf::GetBytes { size: *size },
            AddrToolOf::BasicBlocks => AddrToolOf::BasicBlocks,
            AddrToolOf::Callees => AddrToolOf::Callees,
            AddrToolOf::Callers => AddrToolOf::Callers,
            AddrToolOf::GetString { max_len } => AddrToolOf::GetString { max_len: *max_len },
            AddrToolOf::Callgraph { max_depth, max_nodes } => AddrToolOf::Callgraph {
                max_depth: *max_depth,
                max_nodes: *max_nodes,
            },
            AddrToolOf::ReadStruct { ordinal, name } => AddrToolOf::ReadStruct {
                ordinal: *ordinal,
                name: opt_view(*name),
            },
            AddrToolOf::ReadInt { size } => AddrToolOf::ReadInt { size: *size },
        }
    }
}

/// The call of a tool at an address.
pub open spec fn call_at(tool: AddrToolV, addr: u64) -> WorkerCallV {
    match tool {
        AddrToolOf::Disasm { count } => WorkerCallOf::Disasm { addr, count },
        AddrToolOf::Decompile => WorkerCallOf::Decompile { addr },
        AddrToolOf::PseudocodeAt { end } => WorkerCallOf::PseudocodeAt { addr, end_addr: end },
        AddrToolOf::XrefsTo => WorkerCallOf::XrefsTo { addr },
        AddrToolOf::XrefsFrom => WorkerCallOf::XrefsFrom { addr },
        AddrToolOf::GetBytes { size } => WorkerCallOf::GetBytes {
            addr: Some(addr),
            name: None,
            offset: 0,
            size,
        },
        AddrToolOf::BasicBlocks => WorkerCallOf::BasicBlocks { addr },
        AddrToolOf::Callees => WorkerCallOf::Callees { addr },
        AddrToolOf::Callers => WorkerCallOf::Callers { addr },
        AddrToolOf::GetString { max_len } => WorkerCallOf::GetString { addr, max_len },
        AddrToolOf::Callgraph { max_depth, max_nodes } => WorkerCallOf::Callgraph {
            addr,
            max_depth,
            max_nodes,
        },
        AddrToolOf::ReadStruct { ordinal, name } => WorkerCallOf::ReadStruct {
            addr,
            ordinal,
            name,
        },
        AddrToolOf::ReadInt { size } => WorkerCallOf::ReadInt { addr, size },
    }
}

/// The call of a tool at an address.
fn call_for(tool: &AddrTool, addr: u64) -> (r: WorkerCall)
    ensures
        r@ == call_at(tool@, addr),
{
    match tool {
        AddrToolOf::Disasm { count } => WorkerCallOf::Disasm { addr, count: *count },
        AddrToolOf::Decompile => WorkerCallOf::Decompile { addr },
        AddrToolOf::PseudocodeAt { end } => WorkerCallOf::PseudocodeAt { addr, end_addr: *end },
        AddrToolOf::XrefsTo => WorkerCallOf::XrefsTo { addr },
        AddrToolOf::XrefsFrom => WorkerCallOf::XrefsFrom { addr },
        AddrToolOf::GetBytes { size } => WorkerCallOf::GetBytes {
            addr: Some(addr),
            name: None,
            offset: 0,
            size: *size,
        },
        AddrToolOf::BasicBlocks => WorkerCallOf::BasicBlocks { addr },
        AddrToolOf::Callees => WorkerCallOf::Callees { addr },
        AddrToolOf::Callers => WorkerCallOf::Callers { addr },
        AddrToolOf::GetString { max_len } => WorkerCallOf::GetString { addr, max_len: *max_len },
        AddrToolOf::Callgraph { max_depth, max_nodes } => WorkerCallOf::Callgraph {
            addr,
            max_depth: *max_depth,
            max_nodes: *max_nodes,
        },
        AddrToolOf::ReadStruct { ordinal, name } => WorkerCallOf::ReadStruct {
            addr,
            ordinal: *ordinal,
            name: copy_opt(name),
        },
        AddrToolOf::ReadInt { size } => WorkerCallOf::ReadInt { addr, size: *size },
    }
}

/// What the results of a tool at several addresses are listed under: what the address is called,
/// and what the result is called.
pub open spec fn listed_as(tool: AddrToolV) -> (Seq<char>, Seq<char>) {
    match tool {
        AddrToolOf::Disasm { .. } => ("address"@, "disasm"@),
        AddrToolOf::Decompile => ("address"@, "decompile"@),
        AddrToolOf::PseudocodeAt { .. } => ("address"@, "pseudocode"@),
        AddrToolOf::XrefsTo => ("address"@, "xrefs"@),
        AddrToolOf::XrefsFrom => ("address"@, "xrefs"@),
        AddrToolOf::GetBytes { .. } => ("address"@, "bytes"@),
        AddrToolOf::BasicBlocks => ("address"@, "basic_blocks"@),
        AddrToolOf::Callees => ("address"@, "callees"@),
        AddrToolOf::Callers => ("address"@, "callers"@),
        AddrToolOf::GetString { .. } => ("address"@, "string"@),
        AddrToolOf::Callgraph { .. } => ("root"@, "callgraph"@),
        AddrToolOf::ReadStruct { .. } => ("address"@, "struct"@),
        AddrToolOf::ReadInt { .. } => ("address"@, "value"@),
    }
}

fn list_under(tool: &AddrTool) -> (r: (&'static str, &'static str))
    ensures
        (r.0@, r.1@) == listed_as(tool@),
{
    match tool {
        AddrToolOf::Disasm { .. } => ("address", "disasm"),
        AddrToolOf::Decompile => ("address", "decompile"),
        AddrToolOf::PseudocodeAt { .. } => ("address", "pseudocode"),
        AddrToolOf::XrefsTo => ("address", "xrefs"),
        AddrToolOf::XrefsFrom => ("address", "xrefs"),
        AddrToolOf::GetBytes { .. } => ("address", "bytes"),
        AddrToolOf::BasicBlocks => ("address", "basic_blocks"),
        AddrToolOf::Callees => ("address", "callees"),
        AddrToolOf::Callers => ("address", "callers"),
        AddrToolOf::GetString { .. } => ("address", "string"),
        AddrToolOf::Callgraph { .. } => ("root", "callgraph"),
        AddrToolOf::ReadStruct { .. } => ("address", "struct"),
        AddrToolOf::ReadInt { .. } => ("address", "value"),
    }
}

/// What a tool at addresses asks a worker for: one call for one address, else a call for each,
/// named by its address in hexadecimal.
pub open spec fn over_v(tool: AddrToolV, addrs: Seq<u64>) -> PlanV {
    if addrs.len() == 1 {
        PlanOf::One(call_at(tool, addrs[0]))
    } else {
        PlanOf::Many {
            label: listed_as(tool).0,
            key: listed_as(tool).1,
            calls: addrs.map_values(|a: u64| (hex(a as nat), call_at(tool, a))),
        }
    }
}

/// What a tool at addresses asks a worker for.
fn over_addresses(tool: &AddrTool, addrs: Vec<u64>) -> (r: Plan)
    ensures
        r@ == over_v(tool@, addrs@),
{
    if addrs.len() == 1 {
        return PlanOf::One(call_for(tool, addrs[0]));
    }
    let mut calls: Vec<(String, WorkerCall)> = Vec::new();
    let mut i: usize = 0;
    while i < addrs.len()
        invariant
            i <= addrs.len(),
            calls.len() == i,
            forall|j: int|
                0 <= j < i ==> ((#[trigger] calls[j]).0@, calls[j].1@) == (
                    hex(addrs[j] as nat),
                    call_at(tool@, addrs[j]),
                ),
        decreases addrs.len() - i,
    {
        calls.push((hex_text(addrs[i]), call_for(tool, addrs[i])));
        i = i + 1;
    }
    assert(call_views(calls@) =~= addrs@.map_values(|a: u64| (hex(a as nat), call_at(tool@, a))));
    let (label, key) = list_under(tool);
    PlanOf::Many { label: label.to_owned(), key: key.to_owned(), calls }
}

/// The number in a text that may be missing.
pub open spec fn maybe_number(s: Option<Seq<char>>) -> Result<Option<u64>, ToolErrorV> {
    match s {
        Some(t) => match number_in(t) {
            Ok(n) => Ok(Some(n)),
            Err(e) => Err(e),
        },
        None => Ok(None),
    }
}

fn optional_number(s: &Option<String>) -> (r: Result<Option<u64>, ToolError>)
    ensures
        match r {
            Ok(n) => maybe_number(opt_view(*s)) == Ok::<Option<u64>, ToolErrorV>(n),
            Err(e) => maybe_number(opt_view(*s)) == Err::<Option<u64>, ToolErrorV>(e@),
        },
{
    match s {
        Some(t) => {
            let n: u64 = parse_address(t.as_str())?;
            Ok(Some(n))
        },
        None => Ok(None),
    }
}

// ---------------------------------------------------------------------------
// Tools
// ---------------------------------------------------------------------------

/// Arguments: `path`, `verbose`.
#[derive(Debug)]
pub struct LoadDebugInfoRequest {
    pub path: Option<String>,
    pub verbose: Option<bool>,
}

/// Arguments: `offset`, `limit`, `filter`, `timeout_secs`.
#[derive(Debug)]
pub struct ListFunctionsRequest {
    pub offset: Option<i64>,
    pub limit: Option<i64>,
    pub filter: Option<String>,
    pub timeout_secs: Option<i64>,
}

/// Arguments: `address`, `target_name`, `offset`.
#[derive(Debug)]
pub struct PlaceRequest {
    pub address: Option<Json>,
    pub target_name: Option<String>,
    pub offset: Option<i64>,
}

/// Arguments: `address`, `count`.
#[derive(Debug)]
pub struct DisasmRequest {
    pub address: Json,
    pub count: Option<i64>,
}

/// Arguments: `name`, `count`.
#[derive(Debug)]
pub struct DisasmByNameRequest {
    pub name: String,
    pub count: Option<i64>,
}

/// Arguments: `address`, `target_name`, `offset`, `count`.
#[derive(Debug)]
pub struct DisasmFunctionAtRequest {
    pub address: Option<Json>,
    pub target_name: Option<String>,
    pub offset: Option<i64>,
    pub count: Option<i64>,
}

/// Arguments: `address`.
#[derive(Debug)]
pub struct AddressRequest {
    pub address: Json,
}

/// Arguments: `address`, `end_address`.
#[derive(Debug)]
pub struct PseudocodeAtRequest {
    pub address: Json,
    pub end_address: Option<String>,
}

/// Arguments: `offset`, `limit`, `filter`, `timeout_secs`.
#[derive(Debug)]
pub struct StringsRequest {
    pub offset: Option<i64>,
    pub limit: Option<i64>,
    pub filter: Option<String>,
    pub timeout_secs: Option<i64>,
}

/// Arguments: `query`, `exact`, `case_insensitive`, `offset`, `limit`, `timeout_secs`.
#[derive(Debug)]
pub struct FindStringRequest {
    pub query: String,
    pub exact: Option<bool>,
    pub case_insensitive: Option<bool>,
    pub offset: Option<i64>,
    pub limit: Option<i64>,
    pub timeout_secs: Option<i64>,
}

/// Arguments: `query`, `exact`, `case_insensitive`, `offset`, `limit`, `max_xrefs`, `timeout_secs`.
#[derive(Debug)]
pub struct XrefsToStringRequest {
    pub query: String,
    pub exact: Option<bool>,
    pub case_insensitive: Option<bool>,
    pub offset: Option<i64>,
    pub limit: Option<i64>,
    pub max_xrefs: Option<i64>,
    pub timeout_secs: Option<i64>,
}

/// Arguments: `offset`, `limit`.
#[derive(Debug)]
pub struct PaginatedRequest {
    pub offset: Option<i64>,
    pub limit: Option<i64>,
}

/// Arguments: `queries`.
#[derive(Debug)]
pub struct LookupFuncsRequest {
    pub queries: Json,
}

/// Arguments: `query`, `offset`, `limit`, `timeout_secs`.
#[derive(Debug)]
pub struct QueryPageRequest {
    pub query: Option<String>,
    pub offset: Option<i64>,
    pub limit: Option<i64>,
    pub timeout_secs: Option<i64>,
}

/// Arguments: `address`, `max_len`.
#[derive(Debug)]
pub struct GetStringRequest {
    pub address: Json,
    pub max_len: Option<i64>,
}

/// Arguments: `start`, `end`, `max_paths`, `max_depth`.
#[derive(Debug)]
pub struct FindPathsRequest {
    pub start: Json,
    pub end: Json,
    pub max_paths: Option<i64>,
    pub max_depth: Option<i64>,
}

/// Arguments: `roots`, `max_depth`, `max_nodes`.
#[derive(Debug)]
pub struct CallGraphRequest {
    pub roots: Json,
    pub max_depth: Option<i64>,
    pub max_nodes: Option<i64>,
}

/// Arguments: `addrs`.
#[derive(Debug)]
pub struct XrefMatrixRequest {
    pub addrs: Json,
}

/// Arguments: `offset`, `limit`, `filter`, `timeout_secs`.
#[derive(Debug)]
pub struct LocalTypesRequest {
    pub offset: Option<i64>,
    pub limit: Option<i64>,
    pub filter: Option<String>,
    pub timeout_secs: Option<i64>,
}

/// Arguments: `ordinal`, `name`, `member_index`, `member_name`, `limit`.
#[derive(Debug)]
pub struct XrefsToFieldRequest {
    pub ordinal: Option<i64>,
    pub name: Option<String>,
    pub member_index: Option<i64>,
    pub member_name: Option<String>,
    pub limit: Option<i64>,
}

/// Arguments: `address`, `target_name`, `offset`, `comment`, `repeatable`.
#[derive(Debug)]
pub struct SetCommentsRequest {
    pub address: Option<Json>,
    pub target_name: Option<String>,
    pub offset: Option<i64>,
    pub comment: String,
    pub repeatable: Option<bool>,
}

/// Arguments: `address`, `target_name`, `offset`, `line`.
#[derive(Debug)]
pub struct PatchAsmRequest {
    pub address: Option<Json>,
    pub target_name: Option<String>,
    pub offset: Option<i64>,
    pub line: String,
}

/// Arguments: `decl`, `relaxed`, `replace`, `multi`.
#[derive(Debug)]
pub struct DeclareTypeRequest {
    pub decl: String,
    pub relaxed: Option<bool>,
    pub replace: Option<bool>,
    pub multi: Option<bool>,
}

/// Arguments: `address`, `target_name`, `offset`, `var_name`, `decl`, `relaxed`.
#[derive(Debug)]
pub struct DeclareStackRequest {
    pub address: Option<Json>,
    pub target_name: Option<String>,
    pub offset: i64,
    pub var_name: Option<String>,
    pub decl: String,
    pub relaxed: Option<bool>,
}

/// Arguments: `address`, `target_name`, `offset`, `var_name`.
#[derive(Debug)]
pub struct DeleteStackRequest {
    pub address: Option<Json>,
    pub target_name: Option<String>,
    pub offset: Option<i64>,
    pub var_name: Option<String>,
}

/// Arguments: `offset`, `limit`, `filter`, `timeout_secs`.
#[derive(Debug)]
pub struct StructsRequest {
    pub offset: Option<i64>,
    pub limit: Option<i64>,
    pub filter: Option<String>,
    pub timeout_secs: Option<i64>,
}

/// Arguments: `ordinal`, `name`.
#[derive(Debug)]
pub struct StructInfoRequest {
    pub ordinal: Option<i64>,
    pub name: Option<String>,
}

/// Arguments: `patterns`, `limit`, `case_insensitive`, `timeout_secs`.
#[derive(Debug)]
pub struct FindInsnsRequest {
    pub patterns: Json,
    pub limit: Option<i64>,
    pub case_insensitive: Option<bool>,
    pub timeout_secs: Option<i64>,
}

/// Arguments: `address`, `target_name`, `offset`, `stack_offset`, `stack_name`, `decl`, `named_type`, `relaxed`, `delay`, `strict`.
#[derive(Debug)]
pub struct ApplyTypesRequest {
    pub address: Option<Json>,
    pub target_name: Option<String>,
    pub offset: Option<i64>,
    pub stack_offset: Option<i64>,
    pub stack_name: Option<String>,
    pub decl: Option<String>,
    pub named_type: Option<String>,
    pub relaxed: Option<bool>,
    pub delay: Option<bool>,
    pub strict: Option<bool>,
}

/// Arguments: `address`, `current_name`, `name`, `flags`.
#[derive(Debug)]
pub struct RenameRequest {
    pub address: Option<Json>,
    pub current_name: Option<String>,
    pub name: String,
    pub flags: Option<i64>,
}

/// Arguments: `address`, `target_name`, `offset`, `bytes`.
#[derive(Debug)]
pub struct PatchRequest {
    pub address: Option<Json>,
    pub target_name: Option<String>,
    pub offset: Option<i64>,
    pub bytes: Json,
}

/// What the tool `load_debug_info` asks a worker for.
pub open spec fn load_debug_info_plan(req: LoadDebugInfoRequest) -> Result<PlanV, ToolErrorV> {
    let verbose = or_else(req.verbose, false);
    Ok(PlanOf::One(WorkerCallV::LoadDebugInfo {
        path: opt_view(req.path),
        verbose,
    }))
}

/// What the tool `load_debug_info` asks a worker for.
pub fn plan_load_debug_info(req: &LoadDebugInfoRequest) -> (r: Result<Plan, ToolError>)
    ensures
        plan_result(r) == load_debug_info_plan(*req),
{
    let verbose: bool = match req.verbose {
        Some(v) => v,
        None => false,
    };
    Ok(PlanOf::One(WorkerCallOf::LoadDebugInfo {
        path: copy_opt(&req.path),
        verbose,
    }))
}

/// What the tool `list_functions` asks a worker for.
pub open spec fn list_functions_plan(req: ListFunctionsRequest) -> Result<PlanV, ToolErrorV> {
    match count_param(req.limit, "limit"@) {
        Err(e) => Err(e),
        Ok(limit) => {
            let limit = capped(limit, 100, 10000);
            match count_param(req.offset, "offset"@) {
                Err(e) => Err(e),
                Ok(offset) => {
                    let offset = or_else(offset, 0usize);
                    match secs_param(req.timeout_secs, "timeout_secs"@) {
                        Err(e) => Err(e),
                        Ok(timeout_secs) => {
                            Ok(PlanOf::One(WorkerCallV::ListFunctions {
                                offset,
                                limit,
                                filter: opt_view(req.filter),
                                timeout_secs,
                            }))
                        },
                    }
                },
            }
        },
    }
}

/// What the tool `list_functions` asks a worker for.
pub fn plan_list_functions(req: &ListFunctionsRequest) -> (r: Result<Plan, ToolError>)
    ensures
        plan_result(r) == list_functions_plan(*req),
{
    let limit: Option<usize> = optional_count(req.limit, "limit")?;
    let limit: usize = cap_count(limit, 100, 10000);
    let offset: Option<usize> = optional_count(req.offset, "offset")?;
    let offset: usize = match offset {
        Some(v) => v,
        None => 0,
    };
    let timeout_secs: Option<u64> = optional_secs(req.timeout_secs, "timeout_secs")?;
    Ok(PlanOf::One(WorkerCallOf::ListFunctions {
        offset,
        limit,
        filter: copy_opt(&req.filter),
        timeout_secs,
    }))
}

/// What the tool `addr_info` asks a worker for.
pub open spec fn addr_info_plan(req: PlaceRequest) -> Result<PlanV, ToolErrorV> {
    match maybe_address_in(opt_json(req.address)) {
        Err(e) => Err(e),
        Ok(addr) => {
            let offset = or_else(req.offset, 0i64);
            Ok(PlanOf::One(WorkerCallV::AddrInfo {
                addr,
                name: opt_view(req.target_name),
                offset,
            }))
        },
    }
}

/// What the tool `addr_info` asks a worker for.
pub fn plan_addr_info(req: &PlaceRequest) -> (r: Result<Plan, ToolError>)
    ensures
        plan_result(r) == addr_info_plan(*req),
{
    let addr: Option<u64> = optional_address(&req.address)?;
    let offset: i64 = match req.offset {
        Some(v) => v,
        None => 0,
    };
    Ok(PlanOf::One(WorkerCallOf::AddrInfo {
        addr,
        name: copy_opt(&req.target_name),
        offset,
    }))
}

/// What the tool `function_at` asks a worker for.
pub open spec fn function_at_plan(req: PlaceRequest) -> Result<PlanV, ToolErrorV> {
    match maybe_address_in(opt_json(req.address)) {
        Err(e) => Err(e),
        Ok(addr) => {
            let offset = or_else(req.offset, 0i64);
            Ok(PlanOf::One(WorkerCallV::FunctionAt {
                addr,
                name: opt_view(req.target_name),
                offset,
            }))
        },
    }
}

/// What the tool `function_at` asks a worker for.
pub fn plan_function_at(req: &PlaceRequest) -> (r: Result<Plan, ToolError>)
    ensures
        plan_result(r) == function_at_plan(*req),
{
    let addr: Option<u64> = optional_address(&req.address)?;
    let offset: i64 = match req.offset {
        Some(v) => v,
        None => 0,
    };
    Ok(PlanOf::One(WorkerCallOf::FunctionAt {
        addr,
        name: copy_opt(&req.target_name),
        offset,
    }))
}

/// What the tool `infer_types` asks a worker for.
pub open spec fn infer_types_plan(req: PlaceRequest) -> Result<PlanV, ToolErrorV> {
    match maybe_address_in(opt_json(req.address)) {
        Err(e) => Err(e),
        Ok(addr) => {
            let offset = or_else(req.offset, 0i64);
            Ok(PlanOf::One(WorkerCallV::InferTypes {
                addr,
                name: opt_view(req.target_name),
                offset,
            }))
        },
    }
}

/// What the tool `infer_types` asks a worker for.
pub fn plan_infer_types(req: &PlaceRequest) -> (r: Result<Plan, ToolError>)
    ensures
        plan_result(r) == infer_types_plan(*req),
{
    let addr: Option<u64> = optional_address(&req.address)?;
    let offset: i64 = match req.offset {
        Some(v) => v,
        None => 0,
    };
    Ok(PlanOf::One(WorkerCallOf::InferTypes {
        addr,
        name: copy_opt(&req.target_name),
        offset,
    }))
}

/// What the tool `disasm` asks a worker for.
pub open spec fn disasm_plan(req: DisasmRequest) -> Result<PlanV, ToolErrorV> {
    match count_param(req.count, "count"@) {
        Err(e) => Err(e),
        Ok(count) => {
            let count = capped(count, 10, 1000);
            match addresses_in(req.address@) {
                Err(e) => Err(e),
                Ok(addrs) => {
                    Ok(over_v(AddrToolV::Disasm { count }, addrs))
                },
            }
        },
    }
}

/// What the tool `disasm` asks a worker for.
pub fn plan_disasm(req: &DisasmRequest) -> (r: Result<Plan, ToolError>)
    ensures
        plan_result(r) == disasm_plan(*req),
{
    let count: Option<usize> = optional_count(req.count, "count")?;
    let count: usize = cap_count(count, 10, 1000);
    let addrs = value_to_addresses(&req.address)?;
    Ok(over_addresses(&AddrToolOf::Disasm { count }, addrs))
}

/// What the tool `disasm_by_name` asks a worker for.
pub open spec fn disasm_by_name_plan(req: DisasmByNameRequest) -> Result<PlanV, ToolErrorV> {
    match count_param(req.count, "count"@) {
        Err(e) => Err(e),
        Ok(count) => {
            let count = capped(count, 10, 1000);
            Ok(PlanOf::One(WorkerCallV::DisasmByName {
                name: req.name@,
                count,
            }))
        },
    }
}

/// What the tool `disasm_by_name` asks a worker for.
pub fn plan_disasm_by_name(req: &DisasmByNameRequest) -> (r: Result<Plan, ToolError>)
    ensures
        plan_result(r) == disasm_by_name_plan(*req),
{
    let count: Option<usize> = optional_count(req.count, "count")?;
    let count: usize = cap_count(count, 10, 1000);
    Ok(PlanOf::One(WorkerCallOf::DisasmByName {
        name: req.name.clone(),
        count,
    }))
}

/// What the tool `disasm_function_at` asks a worker for.
pub open spec fn disasm_function_at_plan(req: DisasmFunctionAtRequest) -> Result<PlanV, ToolErrorV> {
    match maybe_address_in(opt_json(req.address)) {
        Err(e) => Err(e),
        Ok(addr) => {
            let offset = or_else(req.offset, 0i64);
            match count_param(req.count, "count"@) {
                Err(e) => Err(e),
                Ok(count) => {
                    let count = capped(count, 200, 5000);
                    Ok(PlanOf::One(WorkerCallV::DisasmFunctionAt {
                        addr,
                        name: opt_view(req.target_name),
                        offset,
                        count,
                    }))
                },
            }
        },
    }
}

/// What the tool `disasm_function_at` asks a worker for.
pub fn plan_disasm_function_at(req: &DisasmFunctionAtRequest) -> (r: Result<Plan, ToolError>)
    ensures
        plan_result(r) == disasm_function_at_plan(*req),
{
    let addr: Option<u64> = optional_address(&req.address)?;
    let offset: i64 = match req.offset {
        Some(v) => v,
        None => 0,
    };
    let count: Option<usize> = optional_count(req.count, "count")?;
    let count: usize = cap_count(count, 200, 5000);
    Ok(PlanOf::One(WorkerCallOf::DisasmFunctionAt {
        addr,
        name: copy_opt(&req.target_name),
        offset,
        count,
    }))
}

/// What the tool `decompile` asks a worker for.
pub open spec fn decompile_plan(req: AddressRequest) -> Result<PlanV, ToolErrorV> {
    match addresses_in(req.address@) {
        Err(e) => Err(e),
        Ok(addrs) => {
            Ok(over_v(AddrToolV::Decompile, addrs))
        },
    }
}

/// What the tool `decompile` asks a worker for.
pub fn plan_decompile(req: &AddressRequest) -> (r: Result<Plan, ToolError>)
    ensures
        plan_result(r) == decompile_plan(*req),
{
    let addrs = value_to_addresses(&req.address)?;
    Ok(over_addresses(&AddrToolOf::Decompile, addrs))
}

/// What the tool `pseudocode_at` asks a worker for.
pub open spec fn pseudocode_at_plan(req: PseudocodeAtRequest) -> Result<PlanV, ToolErrorV> {
    match addresses_in(req.address@) {
        Err(e) => Err(e),
        Ok(addrs) => {
            match maybe_number(opt_view(req.end_address)) {
                Err(e) => Err(e),
                Ok(end) => {
                    Ok(over_v(AddrToolV::PseudocodeAt { end }, addrs))
                },
            }
        },
    }
}

/// What the tool `pseudocode_at` asks a worker for.
pub fn plan_pseudocode_at(req: &PseudocodeAtRequest) -> (r: Result<Plan, ToolError>)
    ensures
        plan_result(r) == pseudocode_at_plan(*req),
{
    let addrs = value_to_addresses(&req.address)?;
    let end: Option<u64> = optional_number(&req.end_address)?;
    Ok(over_addresses(&AddrToolOf::PseudocodeAt { end }, addrs))
}

/// What the tool `strings` asks a worker for.
pub open spec fn strings_plan(req: StringsRequest) -> Result<PlanV, ToolErrorV> {
    match count_param(req.limit, "limit"@) {
        Err(e) => Err(e),
        Ok(limit) => {
            let limit = capped(limit, 100, 10000);
            match count_param(req.offset, "offset"@) {
                Err(e) => Err(e),
                Ok(offset) => {
                    let offset = or_else(offset, 0usize);
                    match secs_param(req.timeout_secs, "timeout_secs"@) {
                        Err(e) => Err(e),
                        Ok(timeout_secs) => {
                            Ok(PlanOf::One(WorkerCallV::Strings {
                                offset,
                                limit,
                                filter: opt_view(req.filter),
                                timeout_secs,
                            }))
                        },
                    }
                },
            }
        },
    }
}

/// What the tool `strings` asks a worker for.
pub fn plan_strings(req: &StringsRequest) -> (r: Result<Plan, ToolError>)
    ensures
        plan_result(r) == strings_plan(*req),
{
    let limit: Option<usize> = optional_count(req.limit, "limit")?;
    let limit: usize = cap_count(limit, 100, 10000);
    let offset: Option<usize> = optional_count(req.offset, "offset")?;
    let offset: usize = match offset {
        Some(v) => v,
        None => 0,
    };
    let timeout_secs: Option<u64> = optional_secs(req.timeout_secs, "timeout_secs")?;
    Ok(PlanOf::One(WorkerCallOf::Strings {
        offset,
        limit,
        filter: copy_opt(&req.filter),
        timeout_secs,
    }))
}

/// What the tool `find_string` asks a worker for.
pub open spec fn find_string_plan(req: FindStringRequest) -> Result<PlanV, ToolErrorV> {
    match count_param(req.limit, "limit"@) {
        Err(e) => Err(e),
        Ok(limit) => {
            let limit = capped(limit, 100, 10000);
            match count_param(req.offset, "offset"@) {
                Err(e) => Err(e),
                Ok(offset) => {
                    let offset = or_else(offset, 0usize);
                    match secs_param(req.timeout_secs, "timeout_secs"@) {
                        Err(e) => Err(e),
                        Ok(timeout_secs) => {
                            let exact = or_else(req.exact, false);
                            let case_insensitive = or_else(req.case_insensitive, true);
                            Ok(PlanOf::One(WorkerCallV::FindString {
                                query: req.query@,
                                exact,
                                case_insensitive,
                                offset,
                                limit,
                                timeout_secs,
                            }))
                        },
                    }
                },
            }
        },
    }
}

/// What the tool `find_string` asks a worker for.
pub fn plan_find_string(req: &FindStringRequest) -> (r: Result<Plan, ToolError>)
    ensures
        plan_result(r) == find_string_plan(*req),
{
    let limit: Option<usize> = optional_count(req.limit, "limit")?;
    let limit: usize = cap_count(limit, 100, 10000);
    let offset: Option<usize> = optional_count(req.offset, "offset")?;
    let offset: usize = match offset {
        Some(v) => v,
        None => 0,
    };
    let timeout_secs: Option<u64> = optional_secs(req.timeout_secs, "timeout_secs")?;
    let exact: bool = match req.exact {
        Some(v) => v,
        None => false,
    };
    let case_insensitive: bool = match req.case_insensitive {
        Some(v) => v,
        None => true,
    };
    Ok(PlanOf::One(WorkerCallOf::FindString {
        query: req.query.clone(),
        exact,
        case_insensitive,
        offset,
        limit,
        timeout_secs,
    }))
}

/// What the tool `xrefs_to_string` asks a worker for.
pub open spec fn xrefs_to_string_plan(req: XrefsToStringRequest) -> Result<PlanV, ToolErrorV> {
    match count_param(req.limit, "limit"@) {
        Err(e) => Err(e),
        Ok(limit) => {
            let limit = capped(limit, 100, 10000);
            match count_param(req.offset, "offset"@) {
                Err(e) => Err(e),
                Ok(offset) => {
                    let offset = or_else(offset, 0usize);
                    match count_param(req.max_xrefs, "max_xrefs"@) {
                        Err(e) => Err(e),
                        Ok(max_xrefs) => {
                            let max_xrefs = or_else(max_xrefs, 64usize);
                            match secs_param(req.timeout_secs, "timeout_secs"@) {
                                Err(e) => Err(e),
                                Ok(timeout_secs) => {
                                    let exact = or_else(req.exact, false);
                                    let case_insensitive = or_else(req.case_insensitive, true);
                                    Ok(PlanOf::One(WorkerCallV::XrefsToString {
                                        query: req.query@,
                                        exact,
                                        case_insensitive,
                                        offset,
                                        limit,
                                        max_xrefs,
                                        timeout_secs,
                                    }))
                                },
                            }
                        },
                    }
                },
            }
        },
    }
}

/// What the tool `xrefs_to_string` asks a worker for.
pub fn plan_xrefs_to_string(req: &XrefsToStringRequest) -> (r: Result<Plan, ToolError>)
    ensures
        plan_result(r) == xrefs_to_string_plan(*req),
{
    let limit: Option<usize> = optional_count(req.limit, "limit")?;
    let limit: usize = cap_count(limit, 100, 10000);
    let offset: Option<usize> = optional_count(req.offset, "offset")?;
    let offset: usize = match offset {
        Some(v) => v,
        None => 0,
    };
    let max_xrefs: Option<usize> = optional_count(req.max_xrefs, "max_xrefs")?;
    let max_xrefs: usize = match max_xrefs {
        Some(v) => v,
        None => 64,
    };
    let timeout_secs: Option<u64> = optional_secs(req.timeout_secs, "timeout_secs")?;
    let exact: bool = match req.exact {
        Some(v) => v,
        None => false,
    };
    let case_insensitive: bool = match req.case_insensitive {
        Some(v) => v,
        None => true,
    };
    Ok(PlanOf::One(WorkerCallOf::XrefsToString {
        query: req.query.clone(),
        exact,
        case_insensitive,
        offset,
        limit,
        max_xrefs,
        timeout_secs,
    }))
}

/// What the tool `xrefs_to` asks a worker for.
pub open spec fn xrefs_to_plan(req: AddressRequest) -> Result<PlanV, ToolErrorV> {
    match addresses_in(req.address@) {
        Err(e) => Err(e),
        Ok(addrs) => {
            Ok(over_v(AddrToolV::XrefsTo, addrs))
        },
    }
}

/// What the tool `xrefs_to` asks a worker for.
pub fn plan_xrefs_to(req: &AddressRequest) -> (r: Result<Plan, ToolError>)
    ensures
        plan_result(r) == xrefs_to_plan(*req),
{
    let addrs = value_to_addresses(&req.address)?;
    Ok(over_addresses(&AddrToolOf::XrefsTo, addrs))
}

/// What the tool `xrefs_from` asks a worker for.
pub open spec fn xrefs_from_plan(req: AddressRequest) -> Result<PlanV, ToolErrorV> {
    match addresses_in(req.address@) {
        Err(e) => Err(e),
        Ok(addrs) => {
            Ok(over_v(AddrToolV::XrefsFrom, addrs))
        },
    }
}

/// What the tool `xrefs_from` asks a worker for.
pub fn plan_xrefs_from(req: &AddressRequest) -> (r: Result<Plan, ToolError>)
    ensures
        plan_result(r) == xrefs_from_plan(*req),
{
    let addrs = value_to_addresses(&req.address)?;
    Ok(over_addresses(&AddrToolOf::XrefsFrom, addrs))
}

/// What the tool `imports` asks a worker for.
pub open spec fn imports_plan(req: PaginatedRequest) -> Result<PlanV, ToolErrorV> {
    match count_param(req.limit, "limit"@) {
        Err(e) => Err(e),
        Ok(limit) => {
            let limit = capped(limit, 100, 10000);
            match count_param(req.offset, "offset"@) {
                Err(e) => Err(e),
                Ok(offset) => {
                    let offset = or_else(offset, 0usize);
                    Ok(PlanOf::One(WorkerCallV::Imports {
                        offset,
                        limit,
                    }))
                },
            }
        },
    }
}

/// What the tool `imports` asks a worker for.
pub fn plan_imports(req: &PaginatedRequest) -> (r: Result<Plan, ToolError>)
    ensures
        plan_result(r) == imports_plan(*req),
{
    let limit: Option<usize> = optional_count(req.limit, "limit")?;
    let limit: usize = cap_count(limit, 100, 10000);
    let offset: Option<usize> = optional_count(req.offset, "offset")?;
    let offset: usize = match offset {
        Some(v) => v,
        None => 0,
    };
    Ok(PlanOf::One(WorkerCallOf::Imports {
        offset,
        limit,
    }))
}

/// What the tool `exports` asks a worker for.
pub open spec fn exports_plan(req: PaginatedRequest) -> Result<PlanV, ToolErrorV> {
    match count_param(req.limit, "limit"@) {
        Err(e) => Err(e),
        Ok(limit) => {
            let limit = capped(limit, 100, 10000);
            match count_param(req.offset, "offset"@) {
                Err(e) => Err(e),
                Ok(offset) => {
                    let offset = or_else(offset, 0usize);
                    Ok(PlanOf::One(WorkerCallV::Exports {
                        offset,
                        limit,
                    }))
                },
            }
        },
    }
}

/// What the tool `exports` asks a worker for.
pub fn plan_exports(req: &PaginatedRequest) -> (r: Result<Plan, ToolError>)
    ensures
        plan_result(r) == exports_plan(*req),
{
    let limit: Option<usize> = optional_count(req.limit, "limit")?;
    let limit: usize = cap_count(limit, 100, 10000);
    let offset: Option<usize> = optional_count(req.offset, "offset")?;
    let offset: usize = match offset {
        Some(v) => v,
        None => 0,
    };
    Ok(PlanOf::One(WorkerCallOf::Exports {
        offset,
        limit,
    }))
}

/// What the tool `basic_blocks` asks a worker for.
pub open spec fn basic_blocks_plan(req: AddressRequest) -> Result<PlanV, ToolErrorV> {
    match addresses_in(req.address@) {
        Err(e) => Err(e),
        Ok(addrs) => {
            Ok(over_v(AddrToolV::BasicBlocks, addrs))
        },
    }
}

/// What the tool `basic_blocks` asks a worker for.
pub fn plan_basic_blocks(req: &AddressRequest) -> (r: Result<Plan, ToolError>)
    ensures
        plan_result(r) == basic_blocks_plan(*req),
{
    let addrs = value_to_addresses(&req.address)?;
    Ok(over_addresses(&AddrToolOf::BasicBlocks, addrs))
}

/// What the tool `callees` asks a worker for.
pub open spec fn callees_plan(req: AddressRequest) -> Result<PlanV, ToolErrorV> {
    match addresses_in(req.address@) {
        Err(e) => Err(e),
        Ok(addrs) => {
            Ok(over_v(AddrToolV::Callees, addrs))
        },
    }
}

/// What the tool `callees` asks a worker for.
pub fn plan_callees(req: &AddressRequest) -> (r: Result<Plan, ToolError>)
    ensures
        plan_result(r) == callees_plan(*req),
{
    let addrs = value_to_addresses(&req.address)?;
    Ok(over_addresses(&AddrToolOf::Callees, addrs))
}

/// What the tool `callers` asks a worker for.
pub open spec fn callers_plan(req: AddressRequest) -> Result<PlanV, ToolErrorV> {
    match addresses_in(req.address@) {
        Err(e) => Err(e),
        Ok(addrs) => {
            Ok(over_v(AddrToolV::Callers, addrs))
        },
    }
}

/// What the tool `callers` asks a worker for.
pub fn plan_callers(req: &AddressRequest) -> (r: Result<Plan, ToolError>)
    ensures
        plan_result(r) == callers_plan(*req),
{
    let addrs = value_to_addresses(&req.address)?;
    Ok(over_addresses(&AddrToolOf::Callers, addrs))
}

/// What the tool `lookup_funcs` asks a worker for.
pub open spec fn lookup_funcs_plan(req: LookupFuncsRequest) -> Result<PlanV, ToolErrorV> {
    match texts_in_value(req.queries@) {
        Err(e) => Err(e),
        Ok(queries) => {
            Ok(PlanOf::One(WorkerCallV::LookupFuncs {
                queries,
            }))
        },
    }
}

/// What the tool `lookup_funcs` asks a worker for.
pub fn plan_lookup_funcs(req: &LookupFuncsRequest) -> (r: Result<Plan, ToolError>)
    ensures
        plan_result(r) == lookup_funcs_plan(*req),
{
    let queries = value_to_strings(&req.queries)?;
    Ok(PlanOf::One(WorkerCallOf::LookupFuncs {
        queries,
    }))
}

/// What the tool `list_globals` asks a worker for.
pub open spec fn list_globals_plan(req: QueryPageRequest) -> Result<PlanV, ToolErrorV> {
    match count_param(req.limit, "limit"@) {
        Err(e) => Err(e),
        Ok(limit) => {
            let limit = capped(limit, 100, 10000);
            match count_param(req.offset, "offset"@) {
                Err(e) => Err(e),
                Ok(offset) => {
                    let offset = or_else(offset, 0usize);
                    match secs_param(req.timeout_secs, "timeout_secs"@) {
                        Err(e) => Err(e),
                        Ok(timeout_secs) => {
                            Ok(PlanOf::One(WorkerCallV::ListGlobals {
                                query: opt_view(req.query),
                                offset,
                                limit,
                                timeout_secs,
                            }))
                        },
                    }
                },
            }
        },
    }
}

/// What the tool `list_globals` asks a worker for.
pub fn plan_list_globals(req: &QueryPageRequest) -> (r: Result<Plan, ToolError>)
    ensures
        plan_result(r) == list_globals_plan(*req),
{
    let limit: Option<usize> = optional_count(req.limit, "limit")?;
    let limit: usize = cap_count(limit, 100, 10000);
    let offset: Option<usize> = optional_count(req.offset, "offset")?;
    let offset: usize = match offset {
        Some(v) => v,
        None => 0,
    };
    let timeout_secs: Option<u64> = optional_secs(req.timeout_secs, "timeout_secs")?;
    Ok(PlanOf::One(WorkerCallOf::ListGlobals {
        query: copy_opt(&req.query),
        offset,
        limit,
        timeout_secs,
    }))
}

/// What the tool `analyze_strings` asks a worker for.
pub open spec fn analyze_strings_plan(req: QueryPageRequest) -> Result<PlanV, ToolErrorV> {
    match count_param(req.limit, "limit"@) {
        Err(e) => Err(e),
        Ok(limit) => {
            let limit = capped(limit, 100, 10000);
            match count_param(req.offset, "offset"@) {
                Err(e) => Err(e),
                Ok(offset) => {
                    let offset = or_else(offset, 0usize);
                    match secs_param(req.timeout_secs, "timeout_secs"@) {
                        Err(e) => Err(e),
                        Ok(timeout_secs) => {
                            Ok(PlanOf::One(WorkerCallV::AnalyzeStrings {
                                query: opt_view(req.query),
                                offset,
                                limit,
                                timeout_secs,
                            }))
                        },
                    }
                },
            }
        },
    }
}

/// What the tool `analyze_strings` asks a worker for.
pub fn plan_analyze_strings(req: &QueryPageRequest) -> (r: Result<Plan, ToolError>)
    ensures
        plan_result(r) == analyze_strings_plan(*req),
{
    let limit: Option<usize> = optional_count(req.limit, "limit")?;
    let limit: usize = cap_count(limit, 100, 10000);
    let offset: Option<usize> = optional_count(req.offset, "offset")?;
    let offset: usize = match offset {
        Some(v) => v,
        None => 0,
    };
    let timeout_secs: Option<u64> = optional_secs(req.timeout_secs, "timeout_secs")?;
    Ok(PlanOf::One(WorkerCallOf::AnalyzeStrings {
        query: copy_opt(&req.query),
        offset,
        limit,
        timeout_secs,
    }))
}

/// What the tool `get_string` asks a worker for.
pub open spec fn get_string_plan(req: GetStringRequest) -> Result<PlanV, ToolErrorV> {
    match addresses_in(req.address@) {
        Err(e) => Err(e),
        Ok(addrs) => {
            match count_param(req.max_len, "max_len"@) {
                Err(e) => Err(e),
                Ok(max_len) => {
                    let max_len = capped(max_len, 256, 65536);
                    Ok(over_v(AddrToolV::GetString { max_len }, addrs))
                },
            }
        },
    }
}

/// What the tool `get_string` asks a worker for.
pub fn plan_get_string(req: &GetStringRequest) -> (r: Result<Plan, ToolError>)
    ensures
        plan_result(r) == get_string_plan(*req),
{
    let addrs = value_to_addresses(&req.address)?;
    let max_len: Option<usize> = optional_count(req.max_len, "max_len")?;
    let max_len: usize = cap_count(max_len, 256, 65536);
    Ok(over_addresses(&AddrToolOf::GetString { max_len }, addrs))
}

/// What the tool `find_paths` asks a worker for.
pub open spec fn find_paths_plan(req: FindPathsRequest) -> Result<PlanV, ToolErrorV> {
    match first_address_in(req.start@) {
        Err(e) => Err(e),
        Ok(start) => {
            match first_address_in(req.end@) {
                Err(e) => Err(e),
                Ok(end) => {
                    match count_param(req.max_paths, "max_paths"@) {
                        Err(e) => Err(e),
                        Ok(max_paths) => {
                            let max_paths = capped(max_paths, 8, 128);
                            match count_param(req.max_depth, "max_depth"@) {
                                Err(e) => Err(e),
                                Ok(max_depth) => {
                                    let max_depth = capped(max_depth, 64, 2048);
                                    Ok(PlanOf::One(WorkerCallV::FindPaths {
                                        start,
                                        end,
                                        max_paths,
                                        max_depth,
                                    }))
                                },
                            }
                        },
                    }
                },
            }
        },
    }
}

/// What the tool `find_paths` asks a worker for.
pub fn plan_find_paths(req: &FindPathsRequest) -> (r: Result<Plan, ToolError>)
    ensures
        plan_result(r) == find_paths_plan(*req),
{
    let start: u64 = value_to_single_address(&req.start)?;
    let end: u64 = value_to_single_address(&req.end)?;
    let max_paths: Option<usize> = optional_count(req.max_paths, "max_paths")?;
    let max_paths: usize = cap_count(max_paths, 8, 128);
    let max_depth: Option<usize> = optional_count(req.max_depth, "max_depth")?;
    let max_depth: usize = cap_count(max_depth, 64, 2048);
    Ok(PlanOf::One(WorkerCallOf::FindPaths {
        start,
        end,
        max_paths,
        max_depth,
    }))
}

/// What the tool `callgraph` asks a worker for.
pub open spec fn callgraph_plan(req: CallGraphRequest) -> Result<PlanV, ToolErrorV> {
    match addresses_in(req.roots@) {
        Err(e) => Err(e),
        Ok(addrs) => {
            match count_param(req.max_depth, "max_depth"@) {
                Err(e) => Err(e),
                Ok(max_depth) => {
                    let max_depth = capped(max_depth, 2, 16);
                    match count_param(req.max_nodes, "max_nodes"@) {
                        Err(e) => Err(e),
                        Ok(max_nodes) => {
                            let max_nodes = capped(max_nodes, 256, 10000);
                            Ok(over_v(AddrToolV::Callgraph { max_depth, max_nodes }, addrs))
                        },
                    }
                },
            }
        },
    }
}

/// What the tool `callgraph` asks a worker for.
pub fn plan_callgraph(req: &CallGraphRequest) -> (r: Result<Plan, ToolError>)
    ensures
        plan_result(r) == callgraph_plan(*req),
{
    let addrs = value_to_addresses(&req.roots)?;
    let max_depth: Option<usize> = optional_count(req.max_depth, "max_depth")?;
    let max_depth: usize = cap_count(max_depth, 2, 16);
    let max_nodes: Option<usize> = optional_count(req.max_nodes, "max_nodes")?;
    let max_nodes: usize = cap_count(max_nodes, 256, 10000);
    Ok(over_addresses(&AddrToolOf::Callgraph { max_depth, max_nodes }, addrs))
}

/// What the tool `xref_matrix` asks a worker for.
pub open spec fn xref_matrix_plan(req: XrefMatrixRequest) -> Result<PlanV, ToolErrorV> {
    match addresses_in(req.addrs@) {
        Err(e) => Err(e),
        Ok(addrs) => {
            Ok(PlanOf::One(WorkerCallV::XrefMatrix {
                addrs,
            }))
        },
    }
}

/// What the tool `xref_matrix` asks a worker for.
pub fn plan_xref_matrix(req: &XrefMatrixRequest) -> (r: Result<Plan, ToolError>)
    ensures
        plan_result(r) == xref_matrix_plan(*req),
{
    let addrs = value_to_addresses(&req.addrs)?;
    Ok(PlanOf::One(WorkerCallOf::XrefMatrix {
        addrs,
    }))
}

/// What the tool `local_types` asks a worker for.
pub open spec fn local_types_plan(req: LocalTypesRequest) -> Result<PlanV, ToolErrorV> {
    match count_param(req.offset, "offset"@) {
        Err(e) => Err(e),
        Ok(offset) => {
            let offset = or_else(offset, 0usize);
            match count_param(req.limit, "limit"@) {
                Err(e) => Err(e),
                Ok(limit) => {
                    let limit = or_else(limit, 100usize);
                    match secs_param(req.timeout_secs, "timeout_secs"@) {
                        Err(e) => Err(e),
                        Ok(timeout_secs) => {
                            Ok(PlanOf::One(WorkerCallV::LocalTypes {
                                offset,
                                limit,
                                filter: opt_view(req.filter),
                                timeout_secs,
                            }))
                        },
                    }
                },
            }
        },
    }
}

/// What the tool `local_types` asks a worker for.
pub fn plan_local_types(req: &LocalTypesRequest) -> (r: Result<Plan, ToolError>)
    ensures
        plan_result(r) == local_types_plan(*req),
{
    let offset: Option<usize> = optional_count(req.offset, "offset")?;
    let offset: usize = match offset {
        Some(v) => v,
        None => 0,
    };
    let limit: Option<usize> = optional_count(req.limit, "limit")?;
    let limit: usize = match limit {
        Some(v) => v,
        None => 100,
    };
    let timeout_secs: Option<u64> = optional_secs(req.timeout_secs, "timeout_secs")?;
    Ok(PlanOf::One(WorkerCallOf::LocalTypes {
        offset,
        limit,
        filter: copy_opt(&req.filter),
        timeout_secs,
    }))
}

/// What the tool `xrefs_to_field` asks a worker for.
pub open spec fn xrefs_to_field_plan(req: XrefsToFieldRequest) -> Result<PlanV, ToolErrorV> {
    match count_param(req.limit, "limit"@) {
        Err(e) => Err(e),
        Ok(limit) => {
            let limit = capped(limit, 1000, 10000);
            match ordinal_param(req.ordinal, "ordinal"@) {
                Err(e) => Err(e),
                Ok(ordinal) => {
                    match ordinal_param(req.member_index, "member_index"@) {
                        Err(e) => Err(e),
                        Ok(member_index) => {
                            Ok(PlanOf::One(WorkerCallV::XrefsToField {
                                ordinal,
                                name: opt_view(req.name),
                                member_index,
                                member_name: opt_view(req.member_name),
                                limit,
                            }))
                        },
                    }
                },
            }
        },
    }
}

/// What the tool `xrefs_to_field` asks a worker for.
pub fn plan_xrefs_to_field(req: &XrefsToFieldRequest) -> (r: Result<Plan, ToolError>)
    ensures
        plan_result(r) == xrefs_to_field_plan(*req),
{
    let limit: Option<usize> = optional_count(req.limit, "limit")?;
    let limit: usize = cap_count(limit, 1000, 10000);
    let ordinal: Option<u32> = optional_ordinal(req.ordinal, "ordinal")?;
    let member_index: Option<u32> = optional_ordinal(req.member_index, "member_index")?;
    Ok(PlanOf::One(WorkerCallOf::XrefsToField {
        ordinal,
        name: copy_opt(&req.name),
        member_index,
        member_name: copy_opt(&req.member_name),
        limit,
    }))
}

/// What the tool `set_comments` asks a worker for.
pub open spec fn set_comments_plan(req: SetCommentsRequest) -> Result<PlanV, ToolErrorV> {
    let repeatable = or_else(req.repeatable, false);
    let offset = or_else(req.offset, 0i64);
    match maybe_address_in(opt_json(req.address)) {
        Err(e) => Err(e),
        Ok(addr) => {
            Ok(PlanOf::One(WorkerCallV::SetComments {
                addr,
                name: opt_view(req.target_name),
                offset,
                comment: req.comment@,
                repeatable,
            }))
        },
    }
}

/// What the tool `set_comments` asks a worker for.
pub fn plan_set_comments(req: &SetCommentsRequest) -> (r: Result<Plan, ToolError>)
    ensures
        plan_result(r) == set_comments_plan(*req),
{
    let repeatable: bool = match req.repeatable {
        Some(v) => v,
        None => false,
    };
    let offset: i64 = match req.offset {
        Some(v) => v,
        None => 0,
    };
    let addr: Option<u64> = optional_address(&req.address)?;
    Ok(PlanOf::One(WorkerCallOf::SetComments {
        addr,
        name: copy_opt(&req.target_name),
        offset,
        comment: req.comment.clone(),
        repeatable,
    }))
}

/// What the tool `patch_asm` asks a worker for.
pub open spec fn patch_asm_plan(req: PatchAsmRequest) -> Result<PlanV, ToolErrorV> {
    let offset = or_else(req.offset, 0i64);
    match maybe_address_in(opt_json(req.address)) {
        Err(e) => Err(e),
        Ok(addr) => {
            Ok(PlanOf::One(WorkerCallV::PatchAsm {
                addr,
                name: opt_view(req.target_name),
                offset,
                line: req.line@,
            }))
        },
    }
}

/// What the tool `patch_asm` asks a worker for.
pub fn plan_patch_asm(req: &PatchAsmRequest) -> (r: Result<Plan, ToolError>)
    ensures
        plan_result(r) == patch_asm_plan(*req),
{
    let offset: i64 = match req.offset {
        Some(v) => v,
        None => 0,
    };
    let addr: Option<u64> = optional_address(&req.address)?;
    Ok(PlanOf::One(WorkerCallOf::PatchAsm {
        addr,
        name: copy_opt(&req.target_name),
        offset,
        line: req.line.clone(),
    }))
}

/// What the tool `declare_type` asks a worker for.
pub open spec fn declare_type_plan(req: DeclareTypeRequest) -> Result<PlanV, ToolErrorV> {
    let relaxed = or_else(req.relaxed, false);
    let replace = or_else(req.replace, false);
    let multi = or_else(req.multi, false);
    Ok(PlanOf::One(WorkerCallV::DeclareType {
        decl: req.decl@,
        relaxed,
        replace,
        multi,
    }))
}

/// What the tool `declare_type` asks a worker for.
pub fn plan_declare_type(req: &DeclareTypeRequest) -> (r: Result<Plan, ToolError>)
    ensures
        plan_result(r) == declare_type_plan(*req),
{
    let relaxed: bool = match req.relaxed {
        Some(v) => v,
        None => false,
    };
    let replace: bool = match req.replace {
        Some(v) => v,
        None => false,
    };
    let multi: bool = match req.multi {
        Some(v) => v,
        None => false,
    };
    Ok(PlanOf::One(WorkerCallOf::DeclareType {
        decl: req.decl.clone(),
        relaxed,
        replace,
        multi,
    }))
}

/// What the tool `stack_frame` asks a worker for.
pub open spec fn stack_frame_plan(req: AddressRequest) -> Result<PlanV, ToolErrorV> {
    match first_address_in(req.address@) {
        Err(e) => Err(e),
        Ok(addr) => {
            Ok(PlanOf::One(WorkerCallV::StackFrame {
                addr,
            }))
        },
    }
}

/// What the tool `stack_frame` asks a worker for.
pub fn plan_stack_frame(req: &AddressRequest) -> (r: Result<Plan, ToolError>)
    ensures
        plan_result(r) == stack_frame_plan(*req),
{
    let addr: u64 = value_to_single_address(&req.address)?;
    Ok(PlanOf::One(WorkerCallOf::StackFrame {
        addr,
    }))
}

/// What the tool `declare_stack` asks a worker for.
pub open spec fn declare_stack_plan(req: DeclareStackRequest) -> Result<PlanV, ToolErrorV> {
    match maybe_address_in(opt_json(req.address)) {
        Err(e) => Err(e),
        Ok(addr) => {
            let relaxed = or_else(req.relaxed, false);
            Ok(PlanOf::One(WorkerCallV::DeclareStack {
                addr,
                name: opt_view(req.target_name),
                offset: req.offset,
                var_name: opt_view(req.var_name),
                decl: req.decl@,
                relaxed,
            }))
        },
    }
}

/// What the tool `declare_stack` asks a worker for.
pub fn plan_declare_stack(req: &DeclareStackRequest) -> (r: Result<Plan, ToolError>)
    ensures
        plan_result(r) == declare_stack_plan(*req),
{
    let addr: Option<u64> = optional_address(&req.address)?;
    let relaxed: bool = match req.relaxed {
        Some(v) => v,
        None => false,
    };
    Ok(PlanOf::One(WorkerCallOf::DeclareStack {
        addr,
        name: copy_opt(&req.target_name),
        offset: req.offset,
        var_name: copy_opt(&req.var_name),
        decl: req.decl.clone(),
        relaxed,
    }))
}

/// What the tool `delete_stack` asks a worker for.
pub open spec fn delete_stack_plan(req: DeleteStackRequest) -> Result<PlanV, ToolErrorV> {
    match maybe_address_in(opt_json(req.address)) {
        Err(e) => Err(e),
        Ok(addr) => {
            Ok(PlanOf::One(WorkerCallV::DeleteStack {
                addr,
                name: opt_view(req.target_name),
                offset: req.offset,
                var_name: opt_view(req.var_name),
            }))
        },
    }
}

/// What the tool `delete_stack` asks a worker for.
pub fn plan_delete_stack(req: &DeleteStackRequest) -> (r: Result<Plan, ToolError>)
    ensures
        plan_result(r) == delete_stack_plan(*req),
{
    let addr: Option<u64> = optional_address(&req.address)?;
    Ok(PlanOf::One(WorkerCallOf::DeleteStack {
        addr,
        name: copy_opt(&req.target_name),
        offset: req.offset,
        var_name: copy_opt(&req.var_name),
    }))
}

/// What the tool `structs` asks a worker for.
pub open spec fn structs_plan(req: StructsRequest) -> Result<PlanV, ToolErrorV> {
    match count_param(req.limit, "limit"@) {
        Err(e) => Err(e),
        Ok(limit) => {
            let limit = capped(limit, 100, 10000);
            match count_param(req.offset, "offset"@) {
                Err(e) => Err(e),
                Ok(offset) => {
                    let offset = or_else(offset, 0usize);
                    match secs_param(req.timeout_secs, "timeout_secs"@) {
                        Err(e) => Err(e),
                        Ok(timeout_secs) => {
                            Ok(PlanOf::One(WorkerCallV::Structs {
                                offset,
                                limit,
                                filter: opt_view(req.filter),
                                timeout_secs,
                            }))
                        },
                    }
                },
            }
        },
    }
}

/// What the tool `structs` asks a worker for.
pub fn plan_structs(req: &StructsRequest) -> (r: Result<Plan, ToolError>)
    ensures
        plan_result(r) == structs_plan(*req),
{
    let limit: Option<usize> = optional_count(req.limit, "limit")?;
    let limit: usize = cap_count(limit, 100, 10000);
    let offset: Option<usize> = optional_count(req.offset, "offset")?;
    let offset: usize = match offset {
        Some(v) => v,
        None => 0,
    };
    let timeout_secs: Option<u64> = optional_secs(req.timeout_secs, "timeout_secs")?;
    Ok(PlanOf::One(WorkerCallOf::Structs {
        offset,
        limit,
        filter: copy_opt(&req.filter),
        timeout_secs,
    }))
}

/// What the tool `struct_info` asks a worker for.
pub open spec fn struct_info_plan(req: StructInfoRequest) -> Result<PlanV, ToolErrorV> {
    match ordinal_param(req.ordinal, "ordinal"@) {
        Err(e) => Err(e),
        Ok(ordinal) => {
            Ok(PlanOf::One(WorkerCallV::StructInfo {
                ordinal,
                name: opt_view(req.name),
            }))
        },
    }
}

/// What the tool `struct_info` asks a worker for.
pub fn plan_struct_info(req: &StructInfoRequest) -> (r: Result<Plan, ToolError>)
    ensures
        plan_result(r) == struct_info_plan(*req),
{
    let ordinal: Option<u32> = optional_ordinal(req.ordinal, "ordinal")?;
    Ok(PlanOf::One(WorkerCallOf::StructInfo {
        ordinal,
        name: copy_opt(&req.name),
    }))
}

/// What the tool `search_structs` asks a worker for.
pub open spec fn search_structs_plan(req: StructsRequest) -> Result<PlanV, ToolErrorV> {
    match count_param(req.offset, "offset"@) {
        Err(e) => Err(e),
        Ok(offset) => {
            let offset = or_else(offset, 0usize);
            match count_param(req.limit, "limit"@) {
                Err(e) => Err(e),
                Ok(limit) => {
                    let limit = or_else(limit, 100usize);
                    match secs_param(req.timeout_secs, "timeout_secs"@) {
                        Err(e) => Err(e),
                        Ok(timeout_secs) => {
                            Ok(PlanOf::One(WorkerCallV::Structs {
                                offset,
                                limit,
                                filter: opt_view(req.filter),
                                timeout_secs,
                            }))
                        },
                    }
                },
            }
        },
    }
}

/// What the tool `search_structs` asks a worker for.
pub fn plan_search_structs(req: &StructsRequest) -> (r: Result<Plan, ToolError>)
    ensures
        plan_result(r) == search_structs_plan(*req),
{
    let offset: Option<usize> = optional_count(req.offset, "offset")?;
    let offset: usize = match offset {
        Some(v) => v,
        None => 0,
    };
    let limit: Option<usize> = optional_count(req.limit, "limit")?;
    let limit: usize = match limit {
        Some(v) => v,
        None => 100,
    };
    let timeout_secs: Option<u64> = optional_secs(req.timeout_secs, "timeout_secs")?;
    Ok(PlanOf::One(WorkerCallOf::Structs {
        offset,
        limit,
        filter: copy_opt(&req.filter),
        timeout_secs,
    }))
}

/// What the tool `find_insns` asks a worker for.
pub open spec fn find_insns_plan(req: FindInsnsRequest) -> Result<PlanV, ToolErrorV> {
    match texts_in_value(req.patterns@) {
        Err(e) => Err(e),
        Ok(patterns) => {
            if patterns.len() == 0 {
                Err(ToolErrorOf::InvalidParams("empty patterns"@))
            } else {
                match count_param(req.limit, "limit"@) {
                    Err(e) => Err(e),
                    Ok(max_results) => {
                        let max_results = or_else(max_results, 100usize);
                        match secs_param(req.timeout_secs, "timeout_secs"@) {
                            Err(e) => Err(e),
                            Ok(timeout_secs) => {
                                let case_insensitive = or_else(req.case_insensitive, false);
                                Ok(PlanOf::One(WorkerCallV::FindInsns {
                                    patterns,
                                    max_results,
                                    case_insensitive,
                                    timeout_secs,
                                }))
                            },
                        }
                    },
                }
            }
        },
    }
}

/// What the tool `find_insns` asks a worker for.
pub fn plan_find_insns(req: &FindInsnsRequest) -> (r: Result<Plan, ToolError>)
    ensures
        plan_result(r) == find_insns_plan(*req),
{
    let patterns = value_to_strings(&req.patterns)?;
    if patterns.len() == 0 {
        return Err(ToolErrorOf::InvalidParams("empty patterns".to_owned()));
    }
    let max_results: Option<usize> = optional_count(req.limit, "limit")?;
    let max_results: usize = match max_results {
        Some(v) => v,
        None => 100,
    };
    let timeout_secs: Option<u64> = optional_secs(req.timeout_secs, "timeout_secs")?;
    let case_insensitive: bool = match req.case_insensitive {
        Some(v) => v,
        None => false,
    };
    Ok(PlanOf::One(WorkerCallOf::FindInsns {
        patterns,
        max_results,
        case_insensitive,
        timeout_secs,
    }))
}

/// What the tool `find_insn_operands` asks a worker for.
pub open spec fn find_insn_operands_plan(req: FindInsnsRequest) -> Result<PlanV, ToolErrorV> {
    match texts_in_value(req.patterns@) {
        Err(e) => Err(e),
        Ok(patterns) => {
            if patterns.len() == 0 {
                Err(ToolErrorOf::InvalidParams("empty patterns"@))
            } else {
                match count_param(req.limit, "limit"@) {
                    Err(e) => Err(e),
                    Ok(max_results) => {
                        let max_results = or_else(max_results, 100usize);
                        match secs_param(req.timeout_secs, "timeout_secs"@) {
                            Err(e) => Err(e),
                            Ok(timeout_secs) => {
                                let case_insensitive = or_else(req.case_insensitive, false);
                                Ok(PlanOf::One(WorkerCallV::FindInsnOperands {
                                    patterns,
                                    max_results,
                                    case_insensitive,
                                    timeout_secs,
                                }))
                            },
                        }
                    },
                }
            }
        },
    }
}

/// What the tool `find_insn_operands` asks a worker for.
pub fn plan_find_insn_operands(req: &FindInsnsRequest) -> (r: Result<Plan, ToolError>)
    ensures
        plan_result(r) == find_insn_operands_plan(*req),
{
    let patterns = value_to_strings(&req.patterns)?;
    if patterns.len() == 0 {
        return Err(ToolErrorOf::InvalidParams("empty patterns".to_owned()));
    }
    let max_results: Option<usize> = optional_count(req.limit, "limit")?;
    let max_results: usize = match max_results {
        Some(v) => v,
        None => 100,
    };
    let timeout_secs: Option<u64> = optional_secs(req.timeout_secs, "timeout_secs")?;
    let case_insensitive: bool = match req.case_insensitive {
        Some(v) => v,
        None => false,
    };
    Ok(PlanOf::One(WorkerCallOf::FindInsnOperands {
        patterns,
        max_results,
        case_insensitive,
        timeout_secs,
    }))
}

/// What the tool `apply_types` asks a worker for.
pub open spec fn apply_types_plan(req: ApplyTypesRequest) -> Result<PlanV, ToolErrorV> {
    match maybe_address_in(opt_json(req.address)) {
        Err(e) => Err(e),
        Ok(addr) => {
            let offset = or_else(req.offset, 0i64);
            let relaxed = or_else(req.relaxed, false);
            let delay = or_else(req.delay, false);
            let strict = or_else(req.strict, false);
            Ok(PlanOf::One(WorkerCallV::ApplyTypes {
                addr,
                name: opt_view(req.target_name),
                offset,
                stack_offset: req.stack_offset,
                stack_name: opt_view(req.stack_name),
                decl: opt_view(req.decl),
                named_type: opt_view(req.named_type),
                relaxed,
                delay,
                strict,
            }))
        },
    }
}

/// What the tool `apply_types` asks a worker for.
pub fn plan_apply_types(req: &ApplyTypesRequest) -> (r: Result<Plan, ToolError>)
    ensures
        plan_result(r) == apply_types_plan(*req),
{
    let addr: Option<u64> = optional_address(&req.address)?;
    let offset: i64 = match req.offset {
        Some(v) => v,
        None => 0,
    };
    let relaxed: bool = match req.relaxed {
        Some(v) => v,
        None => false,
    };
    let delay: bool = match req.delay {
        Some(v) => v,
        None => false,
    };
    let strict: bool = match req.strict {
        Some(v) => v,
        None => false,
    };
    Ok(PlanOf::One(WorkerCallOf::ApplyTypes {
        addr,
        name: copy_opt(&req.target_name),
        offset,
        stack_offset: req.stack_offset,
        stack_name: copy_opt(&req.stack_name),
        decl: copy_opt(&req.decl),
        named_type: copy_opt(&req.named_type),
        relaxed,
        delay,
        strict,
    }))
}

/// What the tool `rename` asks a worker for.
pub open spec fn rename_plan(req: RenameRequest) -> Result<PlanV, ToolErrorV> {
    match maybe_address_in(opt_json(req.address)) {
        Err(e) => Err(e),
        Ok(addr) => {
            match flags_param(req.flags, "flags"@) {
                Err(e) => Err(e),
                Ok(flags) => {
                    let flags = or_else(flags, 0i32);
                    Ok(PlanOf::One(WorkerCallV::Rename {
                        addr,
                        current_name: opt_view(req.current_name),
                        new_name: req.name@,
                        flags,
                    }))
                },
            }
        },
    }
}

/// What the tool `rename` asks a worker for.
pub fn plan_rename(req: &RenameRequest) -> (r: Result<Plan, ToolError>)
    ensures
        plan_result(r) == rename_plan(*req),
{
    let addr: Option<u64> = optional_address(&req.address)?;
    let flags: Option<i32> = optional_flags(req.flags, "flags")?;
    let flags: i32 = match flags {
        Some(v) => v,
        None => 0,
    };
    Ok(PlanOf::One(WorkerCallOf::Rename {
        addr,
        current_name: copy_opt(&req.current_name),
        new_name: req.name.clone(),
        flags,
    }))
}

/// What the tool `patch` asks a worker for.
pub open spec fn patch_plan(req: PatchRequest) -> Result<PlanV, ToolErrorV> {
    match maybe_address_in(opt_json(req.address)) {
        Err(e) => Err(e),
        Ok(addr) => {
            let offset = or_else(req.offset, 0i64);
            match bytes_in_value(req.bytes@) {
                Err(e) => Err(e),
                Ok(bytes) => {
                    Ok(PlanOf::One(WorkerCallV::PatchBytes {
                        addr,
                        name: opt_view(req.target_name),
                        offset,
                        bytes,
                    }))
                },
            }
        },
    }
}

/// What the tool `patch` asks a worker for.
pub fn plan_patch(req: &PatchRequest) -> (r: Result<Plan, ToolError>)
    ensures
        plan_result(r) == patch_plan(*req),
{
    let addr: Option<u64> = optional_address(&req.address)?;
    let offset: i64 = match req.offset {
        Some(v) => v,
        None => 0,
    };
    let bytes = value_to_bytes(&req.bytes)?;
    Ok(PlanOf::One(WorkerCallOf::PatchBytes {
        addr,
        name: copy_opt(&req.target_name),
        offset,
        bytes,
    }))
}

/// Arguments: `address`, `ordinal`, `name`.
#[derive(Debug)]
pub struct ReadStructRequest {
    pub address: Json,
    pub ordinal: Option<i64>,
    pub name: Option<String>,
}

/// What the tool `read_struct` asks a worker for.
pub open spec fn read_struct_plan(req: ReadStructRequest) -> Result<PlanV, ToolErrorV> {
    match addresses_in(req.address@) {
        Err(e) => Err(e),
        Ok(addrs) => match ordinal_param(req.ordinal, "ordinal"@) {
            Err(e) => Err(e),
            Ok(ordinal) => Ok(
                over_v(AddrToolV::ReadStruct { ordinal, name: opt_view(req.name) }, addrs),
            ),
        },
    }
}

/// What the tool `read_struct` asks a worker for.
pub fn plan_read_struct(req: &ReadStructRequest) -> (r: Result<Plan, ToolError>)
    ensures
        plan_result(r) == read_struct_plan(*req),
{
    let addrs = value_to_addresses(&req.address)?;
    let ordinal: Option<u32> = optional_ordinal(req.ordinal, "ordinal")?;
    let tool = AddrToolOf::ReadStruct { ordinal, name: copy_opt(&req.name) };
    Ok(over_addresses(&tool, addrs))
}

/// What the tools that read integers of a size ask a worker for.
pub open spec fn int_values_plan(address: JsonV, size: usize) -> Result<PlanV, ToolErrorV> {
    match addresses_in(address) {
        Err(e) => Err(e),
        Ok(addrs) => Ok(over_v(AddrToolV::ReadInt { size }, addrs)),
    }
}

/// What the tools that read integers of a size ask a worker for.
pub fn get_int_values(address: &Json, size: usize) -> (r: Result<Plan, ToolError>)
    ensures
        plan_result(r) == int_values_plan(address@, size),
{
    let addrs = value_to_addresses(address)?;
    Ok(over_addresses(&AddrToolOf::ReadInt { size }, addrs))
}

/// Arguments: `address`, `target_name`, `offset`, `size`.
#[derive(Debug)]
pub struct GetBytesRequest {
    pub address: Option<Json>,
    pub target_name: Option<String>,
    pub offset: Option<i64>,
    pub size: Option<i64>,
}

/// What the tool `get_bytes` asks a worker for: bytes at addresses, else at a name.
pub open spec fn get_bytes_plan(req: GetBytesRequest) -> Result<PlanV, ToolErrorV> {
    match count_param(req.size, "size"@) {
        Err(e) => Err(e),
        Ok(size) => {
            let size = capped(size, 256, 65536);
            match req.address {
                Some(address) => match addresses_in(address@) {
                    Err(e) => Err(e),
                    Ok(addrs) => Ok(over_v(AddrToolV::GetBytes { size }, addrs)),
                },
                None => match opt_view(req.target_name) {
                    Some(name) => Ok(
                        PlanOf::One(
                            WorkerCallV::GetBytes {
                                addr: None,
                                name: Some(name),
                                offset: or_else(req.offset, 0i64),
                                size,
                            },
                        ),
                    ),
                    None => Err(ToolErrorOf::InvalidParams("address or name required"@)),
                },
            }
        },
    }
}

/// What the tool `get_bytes` asks a worker for.
pub fn plan_get_bytes(req: &GetBytesRequest) -> (r: Result<Plan, ToolError>)
    ensures
        plan_result(r) == get_bytes_plan(*req),
{
    let size: Option<usize> = optional_count(req.size, "size")?;
    let size: usize = cap_count(size, 256, 65536);
    match &req.address {
        Some(address) => {
            let addrs = value_to_addresses(address)?;
            Ok(over_addresses(&AddrToolOf::GetBytes { size }, addrs))
        },
        None => match &req.target_name {
            Some(name) => {
                let offset: i64 = match req.offset {
                    Some(v) => v,
                    None => 0,
                };
                Ok(
                    PlanOf::One(
                        WorkerCallOf::GetBytes {
                            addr: None,
                            name: Some(name.clone()),
                            offset,
                            size,
                        },
                    ),
                )
            },
            None => Err(ToolErrorOf::InvalidParams("address or name required".to_owned())),
        },
    }
}

/// What the tool `get_global_value` asks a worker for: one call for one query, else a call for each.
pub open spec fn get_global_value_plan(query: JsonV) -> Result<PlanV, ToolErrorV> {
    match texts_in_value(query) {
        Err(e) => Err(e),
        Ok(queries) => Ok(
            if queries.len() == 1 {
                PlanOf::One(WorkerCallV::GetGlobalValue { query: queries[0] })
            } else {
                PlanOf::Many {
                    label: "query"@,
                    key: "value"@,
                    calls: queries.map_values(
                        |q: Seq<char>| (q, WorkerCallV::GetGlobalValue { query: q }),
                    ),
                }
            },
        ),
    }
}

/// What the tool `get_global_value` asks a worker for.
pub fn plan_get_global_value(query: &Json) -> (r: Result<Plan, ToolError>)
    ensures
        plan_result(r) == get_global_value_plan(query@),
{
    let queries = value_to_strings(query)?;
    let ghost all = views(queries@);
    if queries.len() == 1 {
        assert(all[0] == queries[0]@);
        return Ok(PlanOf::One(WorkerCallOf::GetGlobalValue { query: queries[0].clone() }));
    }
    let mut calls: Vec<(String, WorkerCall)> = Vec::new();
    let mut i: usize = 0;
    while i < queries.len()
        invariant
            i <= queries.len(),
            all == views(queries@),
            calls.len() == i,
            forall|j: int|
                0 <= j < i ==> ((#[trigger] calls[j]).0@, calls[j].1@) == (
                    all[j],
                    (WorkerCallV::GetGlobalValue { query: all[j] }),
                ),
        decreases queries.len() - i,
    {
        calls.push(
            (
                queries[i].clone(),
                WorkerCallOf::GetGlobalValue { query: queries[i].clone() },
            ),
        );
        i = i + 1;
    }
    assert(call_views(calls@) =~= all.map_values(
        |q: Seq<char>| (q, WorkerCallV::GetGlobalValue { query: q }),
    ));
    Ok(PlanOf::Many { label: "query".to_owned(), key: "value".to_owned(), calls })
}

/// A text in lower case, in every script.
pub uninterp spec fn lowercase_of(s: Seq<char>) -> Seq<char>;

/// `str::to_lowercase` of std: the lower case that Unicode gives the text, which the text alone
/// determines.
#[verifier::external_body]
fn lowercase(s: &str) -> (r: String)
    ensures
        r@ == lowercase_of(s@),
{
    s.to_lowercase()
}

/// Arguments: `addrs`, `offset`, `limit`, `format`.
#[derive(Debug)]
pub struct ExportFuncsRequest {
    pub addrs: Option<Json>,
    pub offset: Option<i64>,
    pub limit: Option<i64>,
    pub format: Option<String>,
}

/// What the tool `export_funcs` asks a worker for, given the format in lower case.
pub open spec fn export_plan(req: ExportFuncsRequest, format_lower: Option<Seq<char>>) -> Result<
    PlanV,
    ToolErrorV,
> {
    if req.format is Some && format_lower != Some("json"@) {
        Err(
            ToolErrorOf::NotSupported(
                "format "@ + req.format->0@ + " not supported (only json)"@,
            ),
        )
    } else {
        match req.addrs {
            Some(addrs) => match texts_in_value(addrs@) {
                Err(e) => Err(e),
                Ok(queries) => Ok(PlanOf::One(WorkerCallV::LookupFuncs { queries })),
            },
            None => match count_param(req.limit, "limit"@) {
                Err(e) => Err(e),
                Ok(limit) => match count_param(req.offset, "offset"@) {
                    Err(e) => Err(e),
                    Ok(offset) => Ok(
                        PlanOf::One(
                            WorkerCallV::ExportFuncs {
                                offset: or_else(offset, 0usize),
                                limit: capped(limit, 100, 10000),
                            },
                        ),
                    ),
                },
            },
        }
    }
}

/// What the tool `export_funcs` asks a worker for, given the format in lower case.
pub fn plan_export(req: &ExportFuncsRequest, format_lower: Option<String>) -> (r: Result<
    Plan,
    ToolError,
>)
    ensures
        plan_result(r) == export_plan(*req, opt_view(format_lower)),
{
    if let Some(format) = &req.format {
        let json: bool = match &format_lower {
            Some(low) => same(low.as_str(), "json"),
            None => false,
        };
        if !json {
            let mut m = "format ".to_owned();
            m.push_str(format.as_str());
            m.push_str(" not supported (only json)");
            return Err(ToolErrorOf::NotSupported(m));
        }
    }
    match &req.addrs {
        Some(addrs) => {
            let queries = value_to_strings(addrs)?;
            Ok(PlanOf::One(WorkerCallOf::LookupFuncs { queries }))
        },
        None => {
            let limit: Option<usize> = optional_count(req.limit, "limit")?;
            let limit: usize = cap_count(limit, 100, 10000);
            let offset: Option<usize> = optional_count(req.offset, "offset")?;
            let offset: usize = match offset {
                Some(v) => v,
                None => 0,
            };
            Ok(PlanOf::One(WorkerCallOf::ExportFuncs { offset, limit }))
        },
    }
}

/// What the tool `export_funcs` asks a worker for. Its format counts in any letter case.
pub fn plan_export_funcs(req: &ExportFuncsRequest) -> (r: Result<Plan, ToolError>)
    ensures
        plan_result(r) == export_plan(
            *req,
            match req.format {
                Some(f) => Some(lowercase_of(f@)),
                None => None,
            },
        ),
{
    let low: Option<String> = match &req.format {
        Some(f) => Some(lowercase(f.as_str())),
        None => None,
    };
    plan_export(req, low)
}

// ---------------------------------------------------------------------------
// Listed results
// ---------------------------------------------------------------------------

/// What one of several calls gave: its name, and its result or the text of its error.
#[derive(Debug)]
pub struct Listed {
    pub name: String,
    pub outcome: Result<Json, String>,
}

/// How one of several results is listed.
pub open spec fn listed_v(item: Listed, label: Seq<char>, key: Seq<char>) -> JsonV {
    JsonV::Obj(
        match item.outcome {
            Ok(v) => no_fields().insert(label, text_v(item.name@)).insert(key, v@),
            Err(e) => no_fields().insert(label, text_v(item.name@)).insert("error"@, text_v(e@)),
        },
    )
}

/// The answer that lists several results, in order.
pub open spec fn results_v(items: Seq<JsonV>) -> JsonV {
    JsonV::Obj(no_fields().insert("results"@, JsonV::Arr(items)))
}

/// The answer that lists several results.
pub fn results_reply(items: Vec<Json>) -> (r: Json)
    ensures
        r@ == results_v(values_of(items@)),
{
    let mut o = JsonObject::new();
    o.put("results", Json::list(items));
    Json::Object(o)
}

/// The answer that lists what several calls gave.
pub fn list_results(label: &str, key: &str, items: Vec<Listed>) -> (r: Json)
    ensures
        r@ == results_v(items@.map_values(|i: Listed| listed_v(i, label@, key@))),
{
    let ghost want = items@.map_values(|i: Listed| listed_v(i, label@, key@));
    let mut out: Vec<Json> = Vec::new();
    let mut i: usize = 0;
    while i < items.len()
        invariant
            i <= items.len(),
            want == items@.map_values(|i: Listed| listed_v(i, label@, key@)),
            out.len() == i,
            forall|j: int| 0 <= j < i ==> (#[trigger] out[j])@ == want[j],
        decreases items.len() - i,
    {
        let item = &items[i];
        let mut o = JsonObject::new();
        o.put(label, Json::text(item.name.as_str()));
        match &item.outcome {
            Ok(v) => {
                o.put(key, v.copy());
            },
            Err(e) => {
                o.put("error", Json::text(e.as_str()));
            },
        }
        out.push(Json::Object(o));
        i = i + 1;
    }
    assert(values_of(out@) =~= want);
    results_reply(out)
}

// ---------------------------------------------------------------------------
// Searches
// ---------------------------------------------------------------------------

/// How a search is limited, over the type of numbers.
#[derive(Clone, Copy, Debug, PartialEq, Eq, Structural)]
pub struct SearchLimits {
    pub limit: usize,
    pub offset: usize,
    /// How many results the pool wants, for a worker of a pool.
    pub worker_max_results: Option<usize>,
    pub timeout_secs: Option<u64>,
}

/// How a search is limited.
pub open spec fn search_limits(
    limit: Option<i64>,
    offset: Option<i64>,
    worker_max_results: Option<i64>,
    timeout_secs: Option<i64>,
    worker_mode: bool,
) -> Result<SearchLimits, ToolErrorV> {
    match count_param(limit, "limit"@) {
        Err(e) => Err(e),
        Ok(limit) => match count_param(offset, "offset"@) {
            Err(e) => Err(e),
            Ok(offset) => match (if worker_mode {
                count_param(worker_max_results, "_worker_max_results"@)
            } else {
                Ok(None)
            }) {
                Err(e) => Err(e),
                Ok(worker) => match secs_param(timeout_secs, "timeout_secs"@) {
                    Err(e) => Err(e),
                    Ok(timeout_secs) => Ok(
                        SearchLimits {
                            limit: capped(limit, 100, 10000),
                            offset: or_else(offset, 0usize),
                            worker_max_results: match worker {
                                Some(n) => Some(capped(Some(n), 0, 20000)),
                                None => None,
                            },
                            timeout_secs,
                        },
                    ),
                },
            },
        },
    }
}

/// How a search is limited. What a pool wants counts only for a worker of a pool.
pub fn read_search_limits(
    limit: Option<i64>,
    offset: Option<i64>,
    worker_max_results: Option<i64>,
    timeout_secs: Option<i64>,
    worker_mode: bool,
) -> (r: Result<SearchLimits, ToolError>)
    ensures
        match r {
            Ok(l) => search_limits(limit, offset, worker_max_results, timeout_secs, worker_mode)
                == Ok::<SearchLimits, ToolErrorV>(l),
            Err(e) => search_limits(limit, offset, worker_max_results, timeout_secs, worker_mode)
                == Err::<SearchLimits, ToolErrorV>(e@),
        },
{
    let limit: Option<usize> = optional_count(limit, "limit")?;
    let limit: usize = cap_count(limit, 100, 10000);
    let offset: Option<usize> = optional_count(offset, "offset")?;
    let offset: usize = match offset {
        Some(v) => v,
        None => 0,
    };
    let worker: Option<usize> = if worker_mode {
        optional_count(worker_max_results, "_worker_max_results")?
    } else {
        None
    };
    let worker_max_results: Option<usize> = match worker {
        Some(n) => Some(cap_count(Some(n), 0, 20000)),
        None => None,
    };
    let timeout_secs: Option<u64> = optional_secs(timeout_secs, "timeout_secs")?;
    Ok(SearchLimits { limit, offset, worker_max_results, timeout_secs })
}

impl SearchLimits {
    /// How many results a worker is asked for.
    pub open spec fn wanted(self) -> nat {
        match self.worker_max_results {
            Some(n) => n as nat,
            None => if self.offset + self.limit < 20000 {
                (self.offset + self.limit) as nat
            } else {
                20000
            },
        }
    }

    /// How many results are answered at most.
    pub open spec fn shown(self) -> usize {
        match self.worker_max_results {
            Some(n) => n,
            None => self.limit,
        }
    }

    /// How many results a worker is asked for.
    pub fn max_results(&self) -> (r: usize)
        requires
            self.limit <= 10000,
        ensures
            r == self.wanted(),
    {
        match self.worker_max_results {
            Some(n) => n,
            None => if self.offset < 20000 && self.offset + self.limit < 20000 {
                self.offset + self.limit
            } else {
                20000
            },
        }
    }

    /// How many results are answered at most.
    pub fn response_limit(&self) -> (r: usize)
        ensures
            r == self.shown(),
    {
        match self.worker_max_results {
            Some(n) => n,
            None => self.limit,
        }
    }
}

/// What one search asks a worker for.
pub open spec fn search_call(
    kind: Seq<char>,
    target: Seq<char>,
    max_results: usize,
    timeout_secs: Option<u64>,
) -> Result<WorkerCallV, ToolErrorV> {
    let imm = number_in(target);
    let text = WorkerCallV::SearchText { text: target, max_results, timeout_secs };
    if kind == "imm"@ || kind == "immediate"@ {
        match imm {
            Ok(n) => Ok(WorkerCallV::SearchImm { imm: n, max_results, timeout_secs }),
            Err(e) => Err(e),
        }
    } else if kind == "text"@ || kind == "string"@ {
        Ok(text)
    } else {
        match imm {
            Ok(n) => Ok(WorkerCallV::SearchImm { imm: n, max_results, timeout_secs }),
            Err(_) => Ok(text),
        }
    }
}

/// What one search asks a worker for: a number or a text, as the kind says; where the kind says
/// neither, a number if it is one. `kind` is in lower case.
pub fn plan_search(kind: &str, target: &str, max_results: usize, timeout_secs: Option<u64>) -> (r:
    Result<WorkerCall, ToolError>)
    ensures
        match r {
            Ok(c) => search_call(kind@, target@, max_results, timeout_secs) == Ok::<
                WorkerCallV,
                ToolErrorV,
            >(c@),
            Err(e) => search_call(kind@, target@, max_results, timeout_secs) == Err::<
                WorkerCallV,
                ToolErrorV,
            >(e@),
        },
{
    let imm = parse_address(target);
    if same(kind, "imm") || same(kind, "immediate") {
        let n: u64 = imm?;
        return Ok(WorkerCallOf::SearchImm { imm: n, max_results, timeout_secs });
    }
    if !same(kind, "text") && !same(kind, "string") {
        if let Ok(n) = imm {
            return Ok(WorkerCallOf::SearchImm { imm: n, max_results, timeout_secs });
        }
    }
    Ok(WorkerCallOf::SearchText { text: target.to_owned(), max_results, timeout_secs })
}

/// The kind of a search in lower case; where none is given, it is found out.
pub fn search_kind(kind: &Option<String>) -> (r: String)
    ensures
        r@ == lowercase_of(
            match opt_view(*kind) {
                Some(k) => k,
                None => "auto"@,
            },
        ),
{
    match kind {
        Some(k) => lowercase(k.as_str()),
        None => lowercase("auto"),
    }
}

/// A page of a list: the items from an offset on, and where the next page starts, if there is one.
pub open spec fn page_of(items: Seq<JsonV>, offset: nat, limit: nat) -> (Seq<JsonV>, Option<nat>) {
    let from = if offset < items.len() {
        offset as int
    } else {
        items.len() as int
    };
    let to = if offset + limit < items.len() {
        (offset + limit) as int
    } else {
        items.len() as int
    };
    (
        items.subrange(from, to),
        if offset + limit < items.len() {
            Some((offset + limit) as nat)
        } else {
            None
        },
    )
}

/// A page and all that follow it hold what the list holds from the offset on: the next page starts
/// where this one ends, and there is a next page if and only if something is left.
pub proof fn lemma_pages_cover(items: Seq<JsonV>, offset: nat, limit: nat)
    requires
        offset <= items.len(),
    ensures
        page_of(items, offset, limit).0.len() <= limit,
        match page_of(items, offset, limit).1 {
            Some(next) => {
                &&& page_of(items, offset, limit).0.len() == limit
                &&& next == offset + limit
                &&& page_of(items, offset, limit).0 + items.skip(next as int) == items.skip(
                    offset as int,
                )
            },
            None => page_of(items, offset, limit).0 == items.skip(offset as int),
        },
{
    let page = page_of(items, offset, limit);
    match page.1 {
        Some(next) => {
            assert(page.0 + items.skip(next as int) =~= items.skip(offset as int));
        },
        None => {
            assert(page.0 =~= items.skip(offset as int));
        },
    }
}

/// The matches that a worker found; none where it names none.
pub open spec fn matches_in(v: JsonV) -> Seq<JsonV> {
    match field(v, "matches"@) {
        Some(m) => match list_in(m) {
            Some(items) => items,
            None => seq![],
        },
        None => seq![],
    }
}

/// How one search is listed: a page of its matches, how many there are, and where the next page
/// starts.
pub open spec fn search_entry(
    label: Seq<char>,
    name: Seq<char>,
    value: JsonV,
    offset: usize,
    limit: usize,
) -> JsonV {
    let all = matches_in(value);
    let page = page_of(all, offset as nat, limit as nat);
    JsonV::Obj(
        no_fields().insert(label, text_v(name)).insert("matches"@, JsonV::Arr(page.0)).insert(
            "total"@,
            number_v(all.len()),
        ).insert("next_offset"@, opt_number_v(page.1)),
    )
}

/// How one search is listed that failed.
pub open spec fn search_failure(label: Seq<char>, name: Seq<char>, error: Seq<char>) -> JsonV {
    JsonV::Obj(no_fields().insert(label, text_v(name)).insert("error"@, text_v(error)))
}

/// How one search is listed.
pub fn list_search(
    label: &str,
    name: &str,
    outcome: &Result<Json, String>,
    offset: usize,
    limit: usize,
) -> (r: Json)
    requires
        offset + limit <= usize::MAX,
    ensures
        r@ == (match outcome {
            Ok(v) => search_entry(label@, name@, v@, offset, limit),
            Err(e) => search_failure(label@, name@, e@),
        }),
{
    let mut o = JsonObject::new();
    o.put(label, Json::text(name));
    match outcome {
        Err(e) => {
            o.put("error", Json::text(e.as_str()));
        },
        Ok(v) => {
            let none: Vec<Json> = Vec::new();
            assert(values_of(none@) =~= seq![]);
            let items: &Vec<Json> = match v.get("matches") {
                Some(m) => match m.as_array() {
                    Some(items) => items,
                    None => &none,
                },
                None => &none,
            };
            let ghost all = matches_in(v@);
            assert(values_of(items@) == all);
            let total: usize = items.len();
            let from: usize = if offset < total {
                offset
            } else {
                total
            };
            let to: usize = if offset + limit < total {
                offset + limit
            } else {
                total
            };
            let mut page: Vec<Json> = Vec::new();
            let mut i: usize = from;
            while i < to
                invariant
                    from <= i <= to <= items.len(),
                    all == values_of(items@),
                    page.len() == i - from,
                    forall|j: int| 0 <= j < page.len() ==> (#[trigger] page[j])@ == all[from + j],
                decreases to - i,
            {
                page.push(items[i].copy());
                i = i + 1;
            }
            assert(values_of(page@) =~= all.subrange(from as int, to as int));
            let next: Option<u64> = if offset + limit < total {
                Some((offset + limit) as u64)
            } else {
                None
            };
            o.put("matches", Json::list(page));
            o.put("total", Json::count(total));
            o.put("next_offset", Json::opt_number(next));
        },
    }
    Json::Object(o)
}

/// A search for several things: what each of them asks a worker for, or why it does not, and how
/// the answers are cut.
#[derive(Debug)]
pub struct SearchPlan {
    pub limits: SearchLimits,
    pub names: Vec<String>,
    pub calls: Vec<Result<WorkerCall, ToolError>>,
}

/// What each of several searches is.
pub open spec fn search_calls(calls: Seq<Result<WorkerCall, ToolError>>) -> Seq<
    Result<WorkerCallV, ToolErrorV>,
> {
    calls.map_values(
        |c: Result<WorkerCall, ToolError>|
            match c {
                Ok(v) => Ok(v@),
                Err(e) => Err(e@),
            },
    )
}

/// Arguments: `patterns`, `limit`, `offset`, `timeout_secs`, and what a pool wants.
#[derive(Debug)]
pub struct FindBytesRequest {
    pub patterns: Json,
    pub limit: Option<i64>,
    pub offset: Option<i64>,
    pub timeout_secs: Option<i64>,
    pub worker_max_results: Option<i64>,
}

/// What a search for bytes asks a worker for: one call for each pattern, in order.
pub open spec fn find_bytes_plan(req: FindBytesRequest, worker_mode: bool) -> Result<
    (SearchLimits, Seq<Seq<char>>, Seq<Result<WorkerCallV, ToolErrorV>>),
    ToolErrorV,
> {
    match texts_in_value(req.patterns@) {
        Err(e) => Err(e),
        Ok(patterns) => match search_limits(
            req.limit,
            req.offset,
            req.worker_max_results,
            req.timeout_secs,
            worker_mode,
        ) {
            Err(e) => Err(e),
            Ok(limits) => Ok(
                (
                    limits,
                    patterns,
                    patterns.map_values(
                        |p: Seq<char>|
                            Ok::<WorkerCallV, ToolErrorV>(
                                WorkerCallV::FindBytes {
                                    pattern: p,
                                    max_results: limits.wanted() as usize,
                                    timeout_secs: limits.timeout_secs,
                                },
                            ),
                    ),
                ),
            ),
        },
    }
}

/// What the plan of a search is.
pub open spec fn search_plan_view(r: Result<SearchPlan, ToolError>) -> Result<
    (SearchLimits, Seq<Seq<char>>, Seq<Result<WorkerCallV, ToolErrorV>>),
    ToolErrorV,
> {
    match r {
        Ok(p) => Ok((p.limits, views(p.names@), search_calls(p.calls@))),
        Err(e) => Err(e@),
    }
}

/// What a search for bytes asks a worker for.
pub fn plan_find_bytes(req: &FindBytesRequest, worker_mode: bool) -> (r: Result<
    SearchPlan,
    ToolError,
>)
    ensures
        search_plan_view(r) == find_bytes_plan(*req, worker_mode),
{
    let names = value_to_strings(&req.patterns)?;
    let limits = read_search_limits(
        req.limit,
        req.offset,
        req.worker_max_results,
        req.timeout_secs,
        worker_mode,
    )?;
    let max_results: usize = limits.max_results();
    let ghost all = views(names@);
    let ghost want = all.map_values(
        |p: Seq<char>|
            Ok::<WorkerCallV, ToolErrorV>(
                WorkerCallV::FindBytes {
                    pattern: p,
                    max_results: limits.wanted() as usize,
                    timeout_secs: limits.timeout_secs,
                },
            ),
    );
    let mut calls: Vec<Result<WorkerCall, ToolError>> = Vec::new();
    let mut i: usize = 0;
    while i < names.len()
        invariant
            i <= names.len(),
            all == views(names@),
            max_results == limits.wanted(),
            want == all.map_values(
                |p: Seq<char>|
                    Ok::<WorkerCallV, ToolErrorV>(
                        WorkerCallV::FindBytes {
                            pattern: p,
                            max_results: limits.wanted() as usize,
                            timeout_secs: limits.timeout_secs,
                        },
                    ),
            ),
            calls.len() == i,
            forall|j: int| 0 <= j < i ==> (#[trigger] calls[j]) is Ok && calls[j]->Ok_0@ == want[j]->Ok_0,
        decreases names.len() - i,
    {
        calls.push(
            Ok(
                WorkerCallOf::FindBytes {
                    pattern: names[i].clone(),
                    max_results,
                    timeout_secs: limits.timeout_secs,
                },
            ),
        );
        i = i + 1;
    }
    assert(search_calls(calls@) =~= want);
    Ok(SearchPlan { limits, names, calls })
}

/// Arguments: `targets`, `kind`, `limit`, `offset`, `timeout_secs`, and what a pool wants.
#[derive(Debug)]
pub struct SearchRequest {
    pub targets: Json,
    pub kind: Option<String>,
    pub limit: Option<i64>,
    pub offset: Option<i64>,
    pub timeout_secs: Option<i64>,
    pub worker_max_results: Option<i64>,
}

/// What a search for texts or numbers asks a worker for: one call for each target, in order. `kind`
/// is the kind of the search in lower case.
pub open spec fn search_plan(req: SearchRequest, kind: Seq<char>, worker_mode: bool) -> Result<
    (SearchLimits, Seq<Seq<char>>, Seq<Result<WorkerCallV, ToolErrorV>>),
    ToolErrorV,
> {
    match texts_in_value(req.targets@) {
        Err(e) => Err(e),
        Ok(targets) => match search_limits(
            req.limit,
            req.offset,
            req.worker_max_results,
            req.timeout_secs,
            worker_mode,
        ) {
            Err(e) => Err(e),
            Ok(limits) => Ok(
                (
                    limits,
                    targets,
                    targets.map_values(
                        |t: Seq<char>|
                            search_call(kind, t, limits.wanted() as usize, limits.timeout_secs),
                    ),
                ),
            ),
        },
    }
}

/// What a search for texts or numbers asks a worker for, given its kind in lower case.
pub fn plan_searches(req: &SearchRequest, kind: &str, worker_mode: bool) -> (r: Result<
    SearchPlan,
    ToolError,
>)
    ensures
        search_plan_view(r) == search_plan(*req, kind@, worker_mode),
{
    let names = value_to_strings(&req.targets)?;
    let limits = read_search_limits(
        req.limit,
        req.offset,
        req.worker_max_results,
        req.timeout_secs,
        worker_mode,
    )?;
    let max_results: usize = limits.max_results();
    let ghost all = views(names@);
    let ghost want = all.map_values(
        |t: Seq<char>| search_call(kind@, t, limits.wanted() as usize, limits.timeout_secs),
    );
    let mut calls: Vec<Result<WorkerCall, ToolError>> = Vec::new();
    let mut i: usize = 0;
    while i < names.len()
        invariant
            i <= names.len(),
            all == views(names@),
            max_results == limits.wanted(),
            want == all.map_values(
                |t: Seq<char>| search_call(kind@, t, limits.wanted() as usize, limits.timeout_secs),
            ),
            calls.len() == i,
            forall|j: int|
                0 <= j < i ==> (match #[trigger] calls[j] {
                    Ok(v) => want[j] == Ok::<WorkerCallV, ToolErrorV>(v@),
                    Err(e) => want[j] == Err::<WorkerCallV, ToolErrorV>(e@),
                }),
        decreases names.len() - i,
    {
        let call = plan_search(kind, names[i].as_str(), max_results, limits.timeout_secs);
        calls.push(call);
        i = i + 1;
    }
    assert(search_calls(calls@) =~= want);
    Ok(SearchPlan { limits, names, calls })
}

/// What the tool `search` asks a worker for. Its kind counts in any letter case.
pub fn search(req: &SearchRequest, worker_mode: bool) -> (r: Result<SearchPlan, ToolError>)
    ensures
        search_plan_view(r) == search_plan(
            *req,
            lowercase_of(
                match opt_view(req.kind) {
                    Some(k) => k,
                    None => "auto"@,
                },
            ),
            worker_mode,
        ),
{
    let kind = search_kind(&req.kind);
    plan_searches(req, kind.as_str(), worker_mode)
}

/// The answer that lists what several searches found, in order.
pub open spec fn searches_v(label: Seq<char>, items: Seq<Listed>, limits: SearchLimits) -> JsonV {
    results_v(
        items.map_values(
            |i: Listed|
                match i.outcome {
                    Ok(v) => search_entry(label, i.name@, v@, limits.offset, limits.shown()),
                    Err(e) => search_failure(label, i.name@, e@),
                },
        ),
    )
}

/// The answer that lists what several searches found.
pub fn list_searches(label: &str, items: &Vec<Listed>, limits: &SearchLimits) -> (r: Json)
    requires
        limits.offset + limits.shown() <= usize::MAX,
    ensures
        r@ == searches_v(label@, items@, *limits),
{
    let limit: usize = limits.response_limit();
    let mut out: Vec<Json> = Vec::new();
    let mut i: usize = 0;
    while i < items.len()
        invariant
            i <= items.len(),
            limit == limits.shown(),
            limits.offset + limits.shown() <= usize::MAX,
            out.len() == i,
            forall|j: int|
                0 <= j < i ==> (#[trigger] out[j])@ == (match items[j].outcome {
                    Ok(v) => search_entry(label@, items[j].name@, v@, limits.offset, limits.shown()),
                    Err(e) => search_failure(label@, items[j].name@, e@),
                }),
        decreases items.len() - i,
    {
        let item = &items[i];
        out.push(list_search(label, item.name.as_str(), &item.outcome, limits.offset, limit));
        i = i + 1;
    }
    assert(values_of(out@) =~= items@.map_values(
        |i: Listed|
            match i.outcome {
                Ok(v) => search_entry(label@, i.name@, v@, limits.offset, limits.shown()),
                Err(e) => search_failure(label@, i.name@, e@),
            },
    ));
    results_reply(out)
}

// ---------------------------------------------------------------------------
// Numbers in several forms
// ---------------------------------------------------------------------------

/// A number in several forms: in three bases, as bytes in both orders without the zeros that do not
/// count, and as characters.
pub open spec fn number_forms(input: Seq<char>, n: u64) -> FieldsV {
    let le = without_last_zeros(le_bytes(n as nat, 8));
    let be = without_first_zeros(le_bytes(n as nat, 8).reverse());
    no_fields().insert("input"@, text_v(input)).insert("value"@, number_v(n as nat)).insert(
        "dec"@,
        text_v(decimal(n as nat)),
    ).insert("hex"@, text_v(hex(n as nat))).insert(
        "bin"@,
        text_v("0b"@ + digits(n as nat, 2)),
    ).insert("bytes_le"@, text_v(hex_encoded(le))).insert("bytes_be"@, text_v(hex_encoded(be))).insert(
        "ascii"@,
        text_v(ascii_of(le)),
    )
}

/// The forms of the number in a text.
pub open spec fn forms_of(input: Seq<char>) -> Result<JsonV, ToolErrorV> {
    match number_in(input) {
        Ok(n) => Ok(JsonV::Obj(number_forms(input, n))),
        Err(e) => Err(e),
    }
}

/// The forms of the number in a text.
pub fn convert_number(input: &str) -> (r: Result<Json, ToolError>)
    ensures
        match r {
            Ok(v) => forms_of(input@) == Ok::<JsonV, ToolErrorV>(v@),
            Err(e) => forms_of(input@) == Err::<JsonV, ToolErrorV>(e@),
        },
{
    let n: u64 = parse_address(input)?;
    let word = word_bytes(n);
    let le = trim_bytes_le(&word);
    let be = trim_bytes_be(&reversed(&word));
    let mut o = JsonObject::new();
    o.put("input", Json::text(input));
    o.put("value", Json::number(n));
    o.put("dec", Json::Str(decimal_text(n)));
    o.put("hex", Json::Str(hex_text(n)));
    let mut bin = "0b".to_owned();
    bin.push_str(digits_text(n, 2).as_str());
    o.put("bin", Json::Str(bin));
    o.put("bytes_le", Json::Str(hex_encode(&le)));
    o.put("bytes_be", Json::Str(hex_encode(&be)));
    o.put("ascii", Json::Str(bytes_to_ascii(&le)));
    Ok(Json::Object(o))
}

/// The forms of each of several numbers, with the texts that they stand in, in order.
pub open spec fn conversions(inputs: JsonV) -> Result<
    Seq<(Seq<char>, Result<JsonV, ToolErrorV>)>,
    ToolErrorV,
> {
    match texts_in_value(inputs) {
        Err(e) => Err(e),
        Ok(texts) => Ok(texts.map_values(|t: Seq<char>| (t, forms_of(t)))),
    }
}

/// What several conversions gave.
pub open spec fn conversions_view(items: Seq<(String, Result<Json, ToolError>)>) -> Seq<
    (Seq<char>, Result<JsonV, ToolErrorV>),
> {
    items.map_values(
        |c: (String, Result<Json, ToolError>)|
            (
                c.0@,
                match c.1 {
                    Ok(v) => Ok(v@),
                    Err(e) => Err(e@),
                },
            ),
    )
}

/// The forms of each of several numbers. A text that holds no number stops none of the others.
pub fn int_convert(inputs: &Json) -> (r: Result<
    Vec<(String, Result<Json, ToolError>)>,
    ToolError,
>)
    ensures
        match r {
            Ok(items) => conversions(inputs@) == Ok::<
                Seq<(Seq<char>, Result<JsonV, ToolErrorV>)>,
                ToolErrorV,
            >(conversions_view(items@)),
            Err(e) => conversions(inputs@) == Err::<
                Seq<(Seq<char>, Result<JsonV, ToolErrorV>)>,
                ToolErrorV,
            >(e@),
        },
{
    let texts = value_to_strings(inputs)?;
    let ghost want = views(texts@).map_values(|t: Seq<char>| (t, forms_of(t)));
    let mut out: Vec<(String, Result<Json, ToolError>)> = Vec::new();
    let mut i: usize = 0;
    while i < texts.len()
        invariant
            i <= texts.len(),
            want == views(texts@).map_values(|t: Seq<char>| (t, forms_of(t))),
            out.len() == i,
            forall|j: int|
                0 <= j < i ==> want[j].0 == (#[trigger] out[j]).0@ && (match out[j].1 {
                    Ok(v) => want[j].1 == Ok::<JsonV, ToolErrorV>(v@),
                    Err(e) => want[j].1 == Err::<JsonV, ToolErrorV>(e@),
                }),
        decreases texts.len() - i,
    {
        let forms = convert_number(texts[i].as_str());
        out.push((texts[i].clone(), forms));
        i = i + 1;
    }
    assert(conversions_view(out@) =~= want);
    Ok(out)
}

/// The answer that lists several conversions, in order: the forms of a number, or why a text holds
/// none.
pub open spec fn conversions_v(items: Seq<Listed>) -> JsonV {
    results_v(
        items.map_values(
            |i: Listed|
                match i.outcome {
                    Ok(v) => v@,
                    Err(e) => search_failure("input"@, i.name@, e@),
                },
        ),
    )
}

/// The answer that lists several conversions.
pub fn list_conversions(items: &Vec<Listed>) -> (r: Json)
    ensures
        r@ == conversions_v(items@),
{
    let mut out: Vec<Json> = Vec::new();
    let mut i: usize = 0;
    while i < items.len()
        invariant
            i <= items.len(),
            out.len() == i,
            forall|j: int|
                0 <= j < i ==> (#[trigger] out[j])@ == (match items[j].outcome {
                    Ok(v) => v@,
                    Err(e) => search_failure("input"@, items[j].name@, e@),
                }),
        decreases items.len() - i,
    {
        let item = &items[i];
        match &item.outcome {
            Ok(v) => {
                out.push(v.copy());
            },
            Err(e) => {
                let mut o = JsonObject::new();
                o.put("input", Json::text(item.name.as_str()));
                o.put("error", Json::text(e.as_str()));
                out.push(Json::Object(o));
            },
        }
        i = i + 1;
    }
    assert(values_of(out@) =~= items@.map_values(
        |i: Listed|
            match i.outcome {
                Ok(v) => v@,
                Err(e) => search_failure("input"@, i.name@, e@),
            },
    ));
    results_reply(out)
}

/// Every form of a number is that number: its forms in the three bases read back as it, and its
/// bytes stand for it.
pub proof fn lemma_forms_agree(n: u64)
    ensures
        any_radix(decimal(n as nat)) == Some(n),
        any_radix(hex(n as nat)) == Some(n),
        any_radix("0b"@ + digits(n as nat, 2)) == Some(n),
        le_value(without_last_zeros(le_bytes(n as nat, 8))) == n,
{
    lemma_address_read_back(n);
    lemma_prefixed_read_back(n);
    lemma_word_read_back(n);
}

} // verus!
