//! What reaches a worker of a call: every part of the call, under its name, in a form that reads
//! back as that part.

use crate::calls::{child_args, WorkerCallOf, WorkerCallV};
use crate::json::{signed_in, JsonV, NumV};
use crate::numbers::{any_radix, lemma_address_read_back};
use vstd::prelude::*;

verus! {

/// Whether a value is a text that reads as the address.
pub open spec fn is_address(v: JsonV, addr: u64) -> bool {
    v matches JsonV::Str(t) && any_radix(t) == Some(addr)
}

/// Whether a value is the list of these texts.
pub open spec fn are_texts(v: JsonV, list: Seq<Seq<char>>) -> bool {
    v matches JsonV::Arr(items) && items.len() == list.len() && forall|i: int|
        0 <= i < list.len() ==> #[trigger] items[i] == JsonV::Str(list[i])
}

/// Whether a value is a list of texts that read as these addresses.
pub open spec fn are_addresses(v: JsonV, addrs: Seq<u64>) -> bool {
    v matches JsonV::Arr(items) && items.len() == addrs.len() && forall|i: int|
        0 <= i < addrs.len() ==> is_address(#[trigger] items[i], addrs[i])
}

/// Whether a value is the list of these bytes as numbers.
pub open spec fn are_bytes(v: JsonV, bytes: Seq<u8>) -> bool {
    v matches JsonV::Arr(items) && items.len() == bytes.len() && forall|i: int|
        0 <= i < bytes.len() ==> #[trigger] items[i] == JsonV::Num(NumV::Unsigned(bytes[i] as u64))
}

/// What reaches a worker that is asked for code: each part of the call, as it is.
pub proof fn lemma_arguments_for_code(call: WorkerCallV)
    ensures
        call matches WorkerCallOf::ResolveFunction { name } ==> {
            let m = child_args(call);
            &&& m["name"@] == JsonV::Str(name)
        },
        call matches WorkerCallOf::DisasmByName { name, count } ==> {
            let m = child_args(call);
            &&& m["name"@] == JsonV::Str(name)
            &&& m["count"@] == JsonV::Num(NumV::Unsigned(count as u64))
        },
        call matches WorkerCallOf::Disasm { addr, count } ==> {
            let m = child_args(call);
            &&& is_address(m["address"@], addr)
            &&& m["count"@] == JsonV::Num(NumV::Unsigned(count as u64))
        },
        call matches WorkerCallOf::Decompile { addr } ==> {
            let m = child_args(call);
            &&& is_address(m["address"@], addr)
        },
        call matches WorkerCallOf::PseudocodeAt { addr, end_addr } ==> {
            let m = child_args(call);
            &&& is_address(m["address"@], addr)
            &&& end_addr is Some ==> is_address(m["end_address"@], end_addr->0)
            &&& end_addr is None ==> m["end_address"@] == JsonV::Null
        },
        call matches WorkerCallOf::DisasmFunctionAt { addr, name, offset, count } ==> {
            let m = child_args(call);
            &&& addr is Some ==> is_address(m["address"@], addr->0)
            &&& addr is None ==> m["address"@] == JsonV::Null
            &&& name is Some ==> m["target_name"@] == JsonV::Str(name->0)
            &&& name is None ==> m["target_name"@] == JsonV::Null
            &&& signed_in(m["offset"@]) == Some(offset)
            &&& m["count"@] == JsonV::Num(NumV::Unsigned(count as u64))
        },
        call matches WorkerCallOf::FunctionAt { addr, name, offset } ==> {
            let m = child_args(call);
            &&& addr is Some ==> is_address(m["address"@], addr->0)
            &&& addr is None ==> m["address"@] == JsonV::Null
            &&& name is Some ==> m["target_name"@] == JsonV::Str(name->0)
            &&& name is None ==> m["target_name"@] == JsonV::Null
            &&& signed_in(m["offset"@]) == Some(offset)
        },
        call matches WorkerCallOf::AddrInfo { addr, name, offset } ==> {
            let m = child_args(call);
            &&& addr is Some ==> is_address(m["address"@], addr->0)
            &&& addr is None ==> m["address"@] == JsonV::Null
            &&& name is Some ==> m["target_name"@] == JsonV::Str(name->0)
            &&& name is None ==> m["target_name"@] == JsonV::Null
            &&& signed_in(m["offset"@]) == Some(offset)
        },
{
    match call {
        WorkerCallOf::DisasmByName { .. } => {
            reveal_strlit("name");
            reveal_strlit("count");
            assert("name"@.len() == 4);
            assert("count"@.len() == 5);
        },
        WorkerCallOf::Disasm { addr, .. } => {
            reveal_strlit("address");
            reveal_strlit("count");
            assert("address"@.len() == 7);
            assert("count"@.len() == 5);
            lemma_address_read_back(addr);
        },
        WorkerCallOf::Decompile { addr } => {
            lemma_address_read_back(addr);
        },
        WorkerCallOf::PseudocodeAt { addr, end_addr } => {
            reveal_strlit("address");
            reveal_strlit("end_address");
            assert("address"@.len() == 7);
            assert("end_address"@.len() == 11);
            lemma_address_read_back(addr);
            if end_addr is Some {
                lemma_address_read_back(end_addr->0);
            }
        },
        WorkerCallOf::DisasmFunctionAt { addr, .. } => {
            reveal_strlit("address");
            reveal_strlit("target_name");
            reveal_strlit("offset");
            reveal_strlit("count");
            assert("address"@.len() == 7);
            assert("target_name"@.len() == 11);
            assert("offset"@.len() == 6);
            assert("count"@.len() == 5);
            if addr is Some {
                lemma_address_read_back(addr->0);
            }
        },
        WorkerCallOf::FunctionAt { addr, .. } => {
            reveal_strlit("address");
            reveal_strlit("target_name");
            reveal_strlit("offset");
            assert("address"@.len() == 7);
            assert("target_name"@.len() == 11);
            assert("offset"@.len() == 6);
            if addr is Some {
                lemma_address_read_back(addr->0);
            }
        },
        WorkerCallOf::AddrInfo { addr, .. } => {
            reveal_strlit("address");
            reveal_strlit("target_name");
            reveal_strlit("offset");
            assert("address"@.len() == 7);
            assert("target_name"@.len() == 11);
            assert("offset"@.len() == 6);
            if addr is Some {
                lemma_address_read_back(addr->0);
            }
        },
        _ => {},
    }
}

/// What reaches a worker that is asked how code hangs together: each part of the call, as it is.
pub proof fn lemma_arguments_for_flow(call: WorkerCallV)
    ensures
        call matches WorkerCallOf::XrefsTo { addr } ==> {
            let m = child_args(call);
            &&& is_address(m["address"@], addr)
        },
        call matches WorkerCallOf::XrefsFrom { addr } ==> {
            let m = child_args(call);
            &&& is_address(m["address"@], addr)
        },
        call matches WorkerCallOf::BasicBlocks { addr } ==> {
            let m = child_args(call);
            &&& is_address(m["address"@], addr)
        },
        call matches WorkerCallOf::Callees { addr } ==> {
            let m = child_args(call);
            &&& is_address(m["address"@], addr)
        },
        call matches WorkerCallOf::Callers { addr } ==> {
            let m = child_args(call);
            &&& is_address(m["address"@], addr)
        },
        call matches WorkerCallOf::FindPaths { start, end, max_paths, max_depth } ==> {
            let m = child_args(call);
            &&& is_address(m["start"@], start)
            &&& is_address(m["end"@], end)
            &&& m["max_paths"@] == JsonV::Num(NumV::Unsigned(max_paths as u64))
            &&& m["max_depth"@] == JsonV::Num(NumV::Unsigned(max_depth as u64))
        },
        call matches WorkerCallOf::Callgraph { addr, max_depth, max_nodes } ==> {
            let m = child_args(call);
            &&& is_address(m["roots"@], addr)
            &&& m["max_depth"@] == JsonV::Num(NumV::Unsigned(max_depth as u64))
            &&& m["max_nodes"@] == JsonV::Num(NumV::Unsigned(max_nodes as u64))
        },
        call matches WorkerCallOf::XrefMatrix { addrs } ==> {
            let m = child_args(call);
            &&& are_addresses(m["addrs"@], addrs)
        },
{
    match call {
        WorkerCallOf::XrefsTo { addr } => {
            lemma_address_read_back(addr);
        },
        WorkerCallOf::XrefsFrom { addr } => {
            lemma_address_read_back(addr);
        },
        WorkerCallOf::BasicBlocks { addr } => {
            lemma_address_read_back(addr);
        },
        WorkerCallOf::Callees { addr } => {
            lemma_address_read_back(addr);
        },
        WorkerCallOf::Callers { addr } => {
            lemma_address_read_back(addr);
        },
        WorkerCallOf::FindPaths { start, end, .. } => {
            reveal_strlit("start");
            reveal_strlit("end");
            reveal_strlit("max_paths");
            reveal_strlit("max_depth");
            assert("start"@.len() == 5);
            assert("end"@.len() == 3);
            assert("max_paths"@.len() == 9);
            assert("max_depth"@.len() == 9);
            assert("max_depth"@[4] == 'd');
            assert("max_paths"@[4] == 'p');
            lemma_address_read_back(start);
            lemma_address_read_back(end);
        },
        WorkerCallOf::Callgraph { addr, .. } => {
            reveal_strlit("roots");
            reveal_strlit("max_depth");
            reveal_strlit("max_nodes");
            assert("roots"@.len() == 5);
            assert("max_depth"@.len() == 9);
            assert("max_nodes"@.len() == 9);
            assert("max_nodes"@[4] == 'n');
            assert("max_depth"@[4] == 'd');
            lemma_address_read_back(addr);
        },
        WorkerCallOf::XrefMatrix { addrs } => {
            assert forall|i: int| 0 <= i < addrs.len() implies is_address(
                #[trigger] child_args(call)["addrs"@]->Arr_0[i],
                addrs[i],
            ) by {
                lemma_address_read_back(addrs[i]);
            }
        },
        _ => {},
    }
}

/// What reaches a worker that is asked what memory holds: each part of the call, as it is.
pub proof fn lemma_arguments_for_memory(call: WorkerCallV)
    ensures
        call matches WorkerCallOf::GetBytes { addr, name, offset, size } ==> {
            let m = child_args(call);
            &&& addr is Some ==> is_address(m["address"@], addr->0)
            &&& addr is None ==> m["address"@] == JsonV::Null
            &&& name is Some ==> m["target_name"@] == JsonV::Str(name->0)
            &&& name is None ==> m["target_name"@] == JsonV::Null
            &&& signed_in(m["offset"@]) == Some(offset)
            &&& m["size"@] == JsonV::Num(NumV::Unsigned(size as u64))
        },
        call matches WorkerCallOf::ReadInt { addr, .. } ==> {
            let m = child_args(call);
            &&& is_address(m["address"@], addr)
        },
        call matches WorkerCallOf::GetString { addr, max_len } ==> {
            let m = child_args(call);
            &&& is_address(m["address"@], addr)
            &&& m["max_len"@] == JsonV::Num(NumV::Unsigned(max_len as u64))
        },
        call matches WorkerCallOf::GetGlobalValue { query } ==> {
            let m = child_args(call);
            &&& m["query"@] == JsonV::Str(query)
        },
        call matches WorkerCallOf::AnalyzeFuncs { timeout_secs } ==> {
            let m = child_args(call);
            &&& m["background"@] == JsonV::Bool(false)
            &&& timeout_secs is Some ==> m["timeout_secs"@]
                == JsonV::Num(NumV::Unsigned(timeout_secs->0 as u64))
            &&& timeout_secs is None ==> m["timeout_secs"@] == JsonV::Null
        },
{
    match call {
        WorkerCallOf::GetBytes { addr, .. } => {
            reveal_strlit("address");
            reveal_strlit("target_name");
            reveal_strlit("offset");
            reveal_strlit("size");
            assert("address"@.len() == 7);
            assert("target_name"@.len() == 11);
            assert("offset"@.len() == 6);
            assert("size"@.len() == 4);
            if addr is Some {
                lemma_address_read_back(addr->0);
            }
        },
        WorkerCallOf::ReadInt { addr, .. } => {
            lemma_address_read_back(addr);
        },
        WorkerCallOf::GetString { addr, .. } => {
            reveal_strlit("address");
            reveal_strlit("max_len");
            assert("address"@.len() == 7);
            assert("max_len"@.len() == 7);
            assert("max_len"@[0] == 'm');
            assert("address"@[0] == 'a');
            lemma_address_read_back(addr);
        },
        WorkerCallOf::AnalyzeFuncs { .. } => {
            reveal_strlit("background");
            reveal_strlit("timeout_secs");
            assert("background"@.len() == 10);
            assert("timeout_secs"@.len() == 12);
        },
        _ => {},
    }
}

/// What reaches a worker that is asked for a list: each part of the call, as it is.
pub proof fn lemma_arguments_for_lists(call: WorkerCallV)
    ensures
        call matches WorkerCallOf::ListFunctions { offset, limit, filter, timeout_secs } ==> {
            let m = child_args(call);
            &&& m["offset"@] == JsonV::Num(NumV::Unsigned(offset as u64))
            &&& m["limit"@] == JsonV::Num(NumV::Unsigned(limit as u64))
            &&& filter is Some ==> m["filter"@] == JsonV::Str(filter->0)
            &&& filter is None ==> m["filter"@] == JsonV::Null
            &&& timeout_secs is Some ==> m["timeout_secs"@]
                == JsonV::Num(NumV::Unsigned(timeout_secs->0 as u64))
            &&& timeout_secs is None ==> m["timeout_secs"@] == JsonV::Null
        },
        call matches WorkerCallOf::Strings { offset, limit, filter, timeout_secs } ==> {
            let m = child_args(call);
            &&& m["offset"@] == JsonV::Num(NumV::Unsigned(offset as u64))
            &&& m["limit"@] == JsonV::Num(NumV::Unsigned(limit as u64))
            &&& filter is Some ==> m["filter"@] == JsonV::Str(filter->0)
            &&& filter is None ==> m["filter"@] == JsonV::Null
            &&& timeout_secs is Some ==> m["timeout_secs"@]
                == JsonV::Num(NumV::Unsigned(timeout_secs->0 as u64))
            &&& timeout_secs is None ==> m["timeout_secs"@] == JsonV::Null
        },
        call matches WorkerCallOf::Imports { offset, limit } ==> {
            let m = child_args(call);
            &&& m["offset"@] == JsonV::Num(NumV::Unsigned(offset as u64))
            &&& m["limit"@] == JsonV::Num(NumV::Unsigned(limit as u64))
        },
        call matches WorkerCallOf::Exports { offset, limit } ==> {
            let m = child_args(call);
            &&& m["offset"@] == JsonV::Num(NumV::Unsigned(offset as u64))
            &&& m["limit"@] == JsonV::Num(NumV::Unsigned(limit as u64))
        },
        call matches WorkerCallOf::ListGlobals { query, offset, limit, timeout_secs } ==> {
            let m = child_args(call);
            &&& query is Some ==> m["query"@] == JsonV::Str(query->0)
            &&& query is None ==> m["query"@] == JsonV::Null
            &&& m["offset"@] == JsonV::Num(NumV::Unsigned(offset as u64))
            &&& m["limit"@] == JsonV::Num(NumV::Unsigned(limit as u64))
            &&& timeout_secs is Some ==> m["timeout_secs"@]
                == JsonV::Num(NumV::Unsigned(timeout_secs->0 as u64))
            &&& timeout_secs is None ==> m["timeout_secs"@] == JsonV::Null
        },
        call matches WorkerCallOf::LookupFuncs { queries } ==> {
            let m = child_args(call);
            &&& are_texts(m["queries"@], queries)
        },
        call matches WorkerCallOf::ExportFuncs { offset, limit } ==> {
            let m = child_args(call);
            &&& m["offset"@] == JsonV::Num(NumV::Unsigned(offset as u64))
            &&& m["limit"@] == JsonV::Num(NumV::Unsigned(limit as u64))
            &&& m["format"@] == JsonV::Str("json"@)
        },
        call matches WorkerCallOf::AnalyzeStrings { query, offset, limit, timeout_secs } ==> {
            let m = child_args(call);
            &&& query is Some ==> m["query"@] == JsonV::Str(query->0)
            &&& query is None ==> m["query"@] == JsonV::Null
            &&& m["offset"@] == JsonV::Num(NumV::Unsigned(offset as u64))
            &&& m["limit"@] == JsonV::Num(NumV::Unsigned(limit as u64))
            &&& timeout_secs is Some ==> m["timeout_secs"@]
                == JsonV::Num(NumV::Unsigned(timeout_secs->0 as u64))
            &&& timeout_secs is None ==> m["timeout_secs"@] == JsonV::Null
        },
{
    match call {
        WorkerCallOf::ListFunctions { .. } => {
            reveal_strlit("offset");
            reveal_strlit("limit");
            reveal_strlit("filter");
            reveal_strlit("timeout_secs");
            assert("offset"@.len() == 6);
            assert("limit"@.len() == 5);
            assert("filter"@.len() == 6);
            assert("timeout_secs"@.len() == 12);
            assert("filter"@[0] == 'f');
            assert("offset"@[0] == 'o');
        },
        WorkerCallOf::Strings { .. } => {
            reveal_strlit("offset");
            reveal_strlit("limit");
            reveal_strlit("filter");
            reveal_strlit("timeout_secs");
            assert("offset"@.len() == 6);
            assert("limit"@.len() == 5);
            assert("filter"@.len() == 6);
            assert("timeout_secs"@.len() == 12);
            assert("filter"@[0] == 'f');
            assert("offset"@[0] == 'o');
        },
        WorkerCallOf::Imports { .. } => {
            reveal_strlit("offset");
            reveal_strlit("limit");
            assert("offset"@.len() == 6);
            assert("limit"@.len() == 5);
        },
        WorkerCallOf::Exports { .. } => {
            reveal_strlit("offset");
            reveal_strlit("limit");
            assert("offset"@.len() == 6);
            assert("limit"@.len() == 5);
        },
        WorkerCallOf::ListGlobals { .. } => {
            reveal_strlit("query");
            reveal_strlit("offset");
            reveal_strlit("limit");
            reveal_strlit("timeout_secs");
            assert("query"@.len() == 5);
            assert("offset"@.len() == 6);
            assert("limit"@.len() == 5);
            assert("timeout_secs"@.len() == 12);
            assert("limit"@[0] == 'l');
            assert("query"@[0] == 'q');
        },
        WorkerCallOf::ExportFuncs { .. } => {
            reveal_strlit("offset");
            reveal_strlit("limit");
            reveal_strlit("format");
            assert("offset"@.len() == 6);
            assert("limit"@.len() == 5);
            assert("format"@.len() == 6);
            assert("format"@[0] == 'f');
            assert("offset"@[0] == 'o');
        },
        WorkerCallOf::AnalyzeStrings { .. } => {
            reveal_strlit("query");
            reveal_strlit("offset");
            reveal_strlit("limit");
            reveal_strlit("timeout_secs");
            assert("query"@.len() == 5);
            assert("offset"@.len() == 6);
            assert("limit"@.len() == 5);
            assert("timeout_secs"@.len() == 12);
            assert("limit"@[0] == 'l');
            assert("query"@[0] == 'q');
        },
        _ => {},
    }
}

/// What reaches a worker that is asked for a search: each part of the call, as it is.
pub proof fn lemma_arguments_for_searches(call: WorkerCallV)
    ensures
        call matches WorkerCallOf::FindString {
            query,
            exact,
            case_insensitive,
            offset,
            limit,
            timeout_secs,
        } ==> {
            let m = child_args(call);
            &&& m["query"@] == JsonV::Str(query)
            &&& m["exact"@] == JsonV::Bool(exact)
            &&& m["case_insensitive"@] == JsonV::Bool(case_insensitive)
            &&& m["offset"@] == JsonV::Num(NumV::Unsigned(offset as u64))
            &&& m["limit"@] == JsonV::Num(NumV::Unsigned(limit as u64))
            &&& timeout_secs is Some ==> m["timeout_secs"@]
                == JsonV::Num(NumV::Unsigned(timeout_secs->0 as u64))
            &&& timeout_secs is None ==> m["timeout_secs"@] == JsonV::Null
        },
        call matches WorkerCallOf::XrefsToString {
            query,
            exact,
            case_insensitive,
            offset,
            limit,
            max_xrefs,
            timeout_secs,
        } ==> {
            let m = child_args(call);
            &&& m["query"@] == JsonV::Str(query)
            &&& m["exact"@] == JsonV::Bool(exact)
            &&& m["case_insensitive"@] == JsonV::Bool(case_insensitive)
            &&& m["offset"@] == JsonV::Num(NumV::Unsigned(offset as u64))
            &&& m["limit"@] == JsonV::Num(NumV::Unsigned(limit as u64))
            &&& m["max_xrefs"@] == JsonV::Num(NumV::Unsigned(max_xrefs as u64))
            &&& timeout_secs is Some ==> m["timeout_secs"@]
                == JsonV::Num(NumV::Unsigned(timeout_secs->0 as u64))
            &&& timeout_secs is None ==> m["timeout_secs"@] == JsonV::Null
        },
        call matches WorkerCallOf::FindInsns {
            patterns,
            max_results,
            case_insensitive,
            timeout_secs,
        } ==> {
            let m = child_args(call);
            &&& are_texts(m["patterns"@], patterns)
            &&& m["limit"@] == JsonV::Num(NumV::Unsigned(max_results as u64))
            &&& m["case_insensitive"@] == JsonV::Bool(case_insensitive)
            &&& timeout_secs is Some ==> m["timeout_secs"@]
                == JsonV::Num(NumV::Unsigned(timeout_secs->0 as u64))
            &&& timeout_secs is None ==> m["timeout_secs"@] == JsonV::Null
        },
        call matches WorkerCallOf::FindInsnOperands {
            patterns,
            max_results,
            case_insensitive,
            timeout_secs,
        } ==> {
            let m = child_args(call);
            &&& are_texts(m["patterns"@], patterns)
            &&& m["limit"@] == JsonV::Num(NumV::Unsigned(max_results as u64))
            &&& m["case_insensitive"@] == JsonV::Bool(case_insensitive)
            &&& timeout_secs is Some ==> m["timeout_secs"@]
                == JsonV::Num(NumV::Unsigned(timeout_secs->0 as u64))
            &&& timeout_secs is None ==> m["timeout_secs"@] == JsonV::Null
        },
{
    match call {
        WorkerCallOf::FindString { .. } => {
            reveal_strlit("query");
            reveal_strlit("exact");
            reveal_strlit("case_insensitive");
            reveal_strlit("offset");
            reveal_strlit("limit");
            reveal_strlit("timeout_secs");
            assert("query"@.len() == 5);
            assert("exact"@.len() == 5);
            assert("case_insensitive"@.len() == 16);
            assert("offset"@.len() == 6);
            assert("limit"@.len() == 5);
            assert("timeout_secs"@.len() == 12);
            assert("exact"@[0] == 'e');
            assert("query"@[0] == 'q');
            assert("limit"@[0] == 'l');
        },
        WorkerCallOf::XrefsToString { .. } => {
            reveal_strlit("query");
            reveal_strlit("exact");
            reveal_strlit("case_insensitive");
            reveal_strlit("offset");
            reveal_strlit("limit");
            reveal_strlit("max_xrefs");
            reveal_strlit("timeout_secs");
            assert("query"@.len() == 5);
            assert("exact"@.len() == 5);
            assert("case_insensitive"@.len() == 16);
            assert("offset"@.len() == 6);
            assert("limit"@.len() == 5);
            assert("max_xrefs"@.len() == 9);
            assert("timeout_secs"@.len() == 12);
            assert("exact"@[0] == 'e');
            assert("query"@[0] == 'q');
            assert("limit"@[0] == 'l');
        },
        WorkerCallOf::FindInsns { .. } => {
            reveal_strlit("patterns");
            reveal_strlit("limit");
            reveal_strlit("case_insensitive");
            reveal_strlit("timeout_secs");
            assert("patterns"@.len() == 8);
            assert("limit"@.len() == 5);
            assert("case_insensitive"@.len() == 16);
            assert("timeout_secs"@.len() == 12);
        },
        WorkerCallOf::FindInsnOperands { .. } => {
            reveal_strlit("patterns");
            reveal_strlit("limit");
            reveal_strlit("case_insensitive");
            reveal_strlit("timeout_secs");
            assert("patterns"@.len() == 8);
            assert("limit"@.len() == 5);
            assert("case_insensitive"@.len() == 16);
            assert("timeout_secs"@.len() == 12);
        },
        _ => {},
    }
}

/// What reaches a worker that is asked about types: each part of the call, as it is.
pub proof fn lemma_arguments_for_types(call: WorkerCallV)
    ensures
        call matches WorkerCallOf::LocalTypes { offset, limit, filter, timeout_secs } ==> {
            let m = child_args(call);
            &&& m["offset"@] == JsonV::Num(NumV::Unsigned(offset as u64))
            &&& m["limit"@] == JsonV::Num(NumV::Unsigned(limit as u64))
            &&& filter is Some ==> m["filter"@] == JsonV::Str(filter->0)
            &&& filter is None ==> m["filter"@] == JsonV::Null
            &&& timeout_secs is Some ==> m["timeout_secs"@]
                == JsonV::Num(NumV::Unsigned(timeout_secs->0 as u64))
            &&& timeout_secs is None ==> m["timeout_secs"@] == JsonV::Null
        },
        call matches WorkerCallOf::DeclareType { decl, relaxed, replace, multi } ==> {
            let m = child_args(call);
            &&& m["decl"@] == JsonV::Str(decl)
            &&& m["relaxed"@] == JsonV::Bool(relaxed)
            &&& m["replace"@] == JsonV::Bool(replace)
            &&& m["multi"@] == JsonV::Bool(multi)
        },
        call matches WorkerCallOf::ApplyTypes {
            addr,
            name,
            offset,
            stack_offset,
            stack_name,
            decl,
            named_type,
            relaxed,
            delay,
            strict,
        } ==> {
            let m = child_args(call);
            &&& addr is Some ==> is_address(m["address"@], addr->0)
            &&& addr is None ==> m["address"@] == JsonV::Null
            &&& name is Some ==> m["target_name"@] == JsonV::Str(name->0)
            &&& name is None ==> m["target_name"@] == JsonV::Null
            &&& signed_in(m["offset"@]) == Some(offset)
            &&& stack_offset is Some ==> signed_in(m["stack_offset"@]) == stack_offset
            &&& stack_offset is None ==> m["stack_offset"@] == JsonV::Null
            &&& stack_name is Some ==> m["stack_name"@] == JsonV::Str(stack_name->0)
            &&& stack_name is None ==> m["stack_name"@] == JsonV::Null
            &&& decl is Some ==> m["decl"@] == JsonV::Str(decl->0)
            &&& decl is None ==> m["decl"@] == JsonV::Null
            &&& named_type is Some ==> m["type_name"@] == JsonV::Str(named_type->0)
            &&& named_type is None ==> m["type_name"@] == JsonV::Null
            &&& m["relaxed"@] == JsonV::Bool(relaxed)
            &&& m["delay"@] == JsonV::Bool(delay)
            &&& m["strict"@] == JsonV::Bool(strict)
        },
        call matches WorkerCallOf::InferTypes { addr, name, offset } ==> {
            let m = child_args(call);
            &&& addr is Some ==> is_address(m["address"@], addr->0)
            &&& addr is None ==> m["address"@] == JsonV::Null
            &&& name is Some ==> m["target_name"@] == JsonV::Str(name->0)
            &&& name is None ==> m["target_name"@] == JsonV::Null
            &&& signed_in(m["offset"@]) == Some(offset)
        },
{
    match call {
        WorkerCallOf::LocalTypes { .. } => {
            reveal_strlit("offset");
            reveal_strlit("limit");
            reveal_strlit("filter");
            reveal_strlit("timeout_secs");
            assert("offset"@.len() == 6);
            assert("limit"@.len() == 5);
            assert("filter"@.len() == 6);
            assert("timeout_secs"@.len() == 12);
            assert("filter"@[0] == 'f');
            assert("offset"@[0] == 'o');
        },
        WorkerCallOf::DeclareType { .. } => {
            reveal_strlit("decl");
            reveal_strlit("relaxed");
            reveal_strlit("replace");
            reveal_strlit("multi");
            assert("decl"@.len() == 4);
            assert("relaxed"@.len() == 7);
            assert("replace"@.len() == 7);
            assert("multi"@.len() == 5);
            assert("replace"@[2] == 'p');
            assert("relaxed"@[2] == 'l');
        },
        WorkerCallOf::ApplyTypes { addr, .. } => {
            reveal_strlit("address");
            reveal_strlit("target_name");
            reveal_strlit("offset");
            reveal_strlit("stack_offset");
            reveal_strlit("stack_name");
            reveal_strlit("decl");
            reveal_strlit("type_name");
            reveal_strlit("relaxed");
            reveal_strlit("delay");
            reveal_strlit("strict");
            assert("address"@.len() == 7);
            assert("target_name"@.len() == 11);
            assert("offset"@.len() == 6);
            assert("stack_offset"@.len() == 12);
            assert("stack_name"@.len() == 10);
            assert("decl"@.len() == 4);
            assert("type_name"@.len() == 9);
            assert("relaxed"@.len() == 7);
            assert("delay"@.len() == 5);
            assert("strict"@.len() == 6);
            assert("relaxed"@[0] == 'r');
            assert("address"@[0] == 'a');
            assert("strict"@[0] == 's');
            assert("offset"@[0] == 'o');
            if addr is Some {
                lemma_address_read_back(addr->0);
            }
        },
        WorkerCallOf::InferTypes { addr, .. } => {
            reveal_strlit("address");
            reveal_strlit("target_name");
            reveal_strlit("offset");
            assert("address"@.len() == 7);
            assert("target_name"@.len() == 11);
            assert("offset"@.len() == 6);
            if addr is Some {
                lemma_address_read_back(addr->0);
            }
        },
        _ => {},
    }
}

/// What reaches a worker that is asked about structures: each part of the call, as it is.
pub proof fn lemma_arguments_for_structures(call: WorkerCallV)
    ensures
        call matches WorkerCallOf::Structs { offset, limit, filter, timeout_secs } ==> {
            let m = child_args(call);
            &&& m["offset"@] == JsonV::Num(NumV::Unsigned(offset as u64))
            &&& m["limit"@] == JsonV::Num(NumV::Unsigned(limit as u64))
            &&& filter is Some ==> m["filter"@] == JsonV::Str(filter->0)
            &&& filter is None ==> m["filter"@] == JsonV::Null
            &&& timeout_secs is Some ==> m["timeout_secs"@]
                == JsonV::Num(NumV::Unsigned(timeout_secs->0 as u64))
            &&& timeout_secs is None ==> m["timeout_secs"@] == JsonV::Null
        },
        call matches WorkerCallOf::StructInfo { ordinal, name } ==> {
            let m = child_args(call);
            &&& ordinal is Some ==> m["ordinal"@] == JsonV::Num(NumV::Unsigned(ordinal->0 as u64))
            &&& ordinal is None ==> m["ordinal"@] == JsonV::Null
            &&& name is Some ==> m["name"@] == JsonV::Str(name->0)
            &&& name is None ==> m["name"@] == JsonV::Null
        },
        call matches WorkerCallOf::ReadStruct { addr, ordinal, name } ==> {
            let m = child_args(call);
            &&& is_address(m["address"@], addr)
            &&& ordinal is Some ==> m["ordinal"@] == JsonV::Num(NumV::Unsigned(ordinal->0 as u64))
            &&& ordinal is None ==> m["ordinal"@] == JsonV::Null
            &&& name is Some ==> m["name"@] == JsonV::Str(name->0)
            &&& name is None ==> m["name"@] == JsonV::Null
        },
        call matches WorkerCallOf::XrefsToField {
            ordinal,
            name,
            member_index,
            member_name,
            limit,
        } ==> {
            let m = child_args(call);
            &&& ordinal is Some ==> m["ordinal"@] == JsonV::Num(NumV::Unsigned(ordinal->0 as u64))
            &&& ordinal is None ==> m["ordinal"@] == JsonV::Null
            &&& name is Some ==> m["name"@] == JsonV::Str(name->0)
            &&& name is None ==> m["name"@] == JsonV::Null
            &&& member_index is Some ==> m["member_index"@]
                == JsonV::Num(NumV::Unsigned(member_index->0 as u64))
            &&& member_index is None ==> m["member_index"@] == JsonV::Null
            &&& member_name is Some ==> m["member_name"@] == JsonV::Str(member_name->0)
            &&& member_name is None ==> m["member_name"@] == JsonV::Null
            &&& m["limit"@] == JsonV::Num(NumV::Unsigned(limit as u64))
        },
{
    match call {
        WorkerCallOf::Structs { .. } => {
            reveal_strlit("offset");
            reveal_strlit("limit");
            reveal_strlit("filter");
            reveal_strlit("timeout_secs");
            assert("offset"@.len() == 6);
            assert("limit"@.len() == 5);
            assert("filter"@.len() == 6);
            assert("timeout_secs"@.len() == 12);
            assert("filter"@[0] == 'f');
            assert("offset"@[0] == 'o');
        },
        WorkerCallOf::StructInfo { .. } => {
            reveal_strlit("ordinal");
            reveal_strlit("name");
            assert("ordinal"@.len() == 7);
            assert("name"@.len() == 4);
        },
        WorkerCallOf::ReadStruct { addr, .. } => {
            reveal_strlit("address");
            reveal_strlit("ordinal");
            reveal_strlit("name");
            assert("address"@.len() == 7);
            assert("ordinal"@.len() == 7);
            assert("name"@.len() == 4);
            assert("ordinal"@[0] == 'o');
            assert("address"@[0] == 'a');
            lemma_address_read_back(addr);
        },
        WorkerCallOf::XrefsToField { .. } => {
            reveal_strlit("ordinal");
            reveal_strlit("name");
            reveal_strlit("member_index");
            reveal_strlit("member_name");
            reveal_strlit("limit");
            assert("ordinal"@.len() == 7);
            assert("name"@.len() == 4);
            assert("member_index"@.len() == 12);
            assert("member_name"@.len() == 11);
            assert("limit"@.len() == 5);
        },
        _ => {},
    }
}

/// What reaches a worker that is asked about the stack: each part of the call, as it is.
pub proof fn lemma_arguments_for_stack(call: WorkerCallV)
    ensures
        call matches WorkerCallOf::StackFrame { addr } ==> {
            let m = child_args(call);
            &&& is_address(m["address"@], addr)
        },
        call matches WorkerCallOf::DeclareStack {
            addr,
            name,
            offset,
            var_name,
            decl,
            relaxed,
        } ==> {
            let m = child_args(call);
            &&& addr is Some ==> is_address(m["address"@], addr->0)
            &&& addr is None ==> m["address"@] == JsonV::Null
            &&& name is Some ==> m["target_name"@] == JsonV::Str(name->0)
            &&& name is None ==> m["target_name"@] == JsonV::Null
            &&& signed_in(m["offset"@]) == Some(offset)
            &&& var_name is Some ==> m["var_name"@] == JsonV::Str(var_name->0)
            &&& var_name is None ==> m["var_name"@] == JsonV::Null
            &&& m["decl"@] == JsonV::Str(decl)
            &&& m["relaxed"@] == JsonV::Bool(relaxed)
        },
        call matches WorkerCallOf::DeleteStack { addr, name, offset, var_name } ==> {
            let m = child_args(call);
            &&& addr is Some ==> is_address(m["address"@], addr->0)
            &&& addr is None ==> m["address"@] == JsonV::Null
            &&& name is Some ==> m["target_name"@] == JsonV::Str(name->0)
            &&& name is None ==> m["target_name"@] == JsonV::Null
            &&& offset is Some ==> signed_in(m["offset"@]) == offset
            &&& offset is None ==> m["offset"@] == JsonV::Null
            &&& var_name is Some ==> m["var_name"@] == JsonV::Str(var_name->0)
            &&& var_name is None ==> m["var_name"@] == JsonV::Null
        },
{
    match call {
        WorkerCallOf::StackFrame { addr } => {
            lemma_address_read_back(addr);
        },
        WorkerCallOf::DeclareStack { addr, .. } => {
            reveal_strlit("address");
            reveal_strlit("target_name");
            reveal_strlit("offset");
            reveal_strlit("var_name");
            reveal_strlit("decl");
            reveal_strlit("relaxed");
            assert("address"@.len() == 7);
            assert("target_name"@.len() == 11);
            assert("offset"@.len() == 6);
            assert("var_name"@.len() == 8);
            assert("decl"@.len() == 4);
            assert("relaxed"@.len() == 7);
            assert("relaxed"@[0] == 'r');
            assert("address"@[0] == 'a');
            if addr is Some {
                lemma_address_read_back(addr->0);
            }
        },
        WorkerCallOf::DeleteStack { addr, .. } => {
            reveal_strlit("address");
            reveal_strlit("target_name");
            reveal_strlit("offset");
            reveal_strlit("var_name");
            assert("address"@.len() == 7);
            assert("target_name"@.len() == 11);
            assert("offset"@.len() == 6);
            assert("var_name"@.len() == 8);
            if addr is Some {
                lemma_address_read_back(addr->0);
            }
        },
        _ => {},
    }
}

/// What reaches a worker that is asked for a change: each part of the call, as it is.
pub proof fn lemma_arguments_for_changes(call: WorkerCallV)
    ensures
        call matches WorkerCallOf::SetComments { addr, name, offset, comment, repeatable } ==> {
            let m = child_args(call);
            &&& addr is Some ==> is_address(m["address"@], addr->0)
            &&& addr is None ==> m["address"@] == JsonV::Null
            &&& name is Some ==> m["target_name"@] == JsonV::Str(name->0)
            &&& name is None ==> m["target_name"@] == JsonV::Null
            &&& signed_in(m["offset"@]) == Some(offset)
            &&& m["comment"@] == JsonV::Str(comment)
            &&& m["repeatable"@] == JsonV::Bool(repeatable)
        },
        call matches WorkerCallOf::Rename { addr, current_name, new_name, flags } ==> {
            let m = child_args(call);
            &&& addr is Some ==> is_address(m["address"@], addr->0)
            &&& addr is None ==> m["address"@] == JsonV::Null
            &&& current_name is Some ==> m["current_name"@] == JsonV::Str(current_name->0)
            &&& current_name is None ==> m["current_name"@] == JsonV::Null
            &&& m["name"@] == JsonV::Str(new_name)
            &&& signed_in(m["flags"@]) == Some(flags as i64)
        },
        call matches WorkerCallOf::PatchBytes { addr, name, offset, bytes } ==> {
            let m = child_args(call);
            &&& addr is Some ==> is_address(m["address"@], addr->0)
            &&& addr is None ==> m["address"@] == JsonV::Null
            &&& name is Some ==> m["target_name"@] == JsonV::Str(name->0)
            &&& name is None ==> m["target_name"@] == JsonV::Null
            &&& signed_in(m["offset"@]) == Some(offset)
            &&& are_bytes(m["bytes"@], bytes)
        },
        call matches WorkerCallOf::PatchAsm { addr, name, offset, line } ==> {
            let m = child_args(call);
            &&& addr is Some ==> is_address(m["address"@], addr->0)
            &&& addr is None ==> m["address"@] == JsonV::Null
            &&& name is Some ==> m["target_name"@] == JsonV::Str(name->0)
            &&& name is None ==> m["target_name"@] == JsonV::Null
            &&& signed_in(m["offset"@]) == Some(offset)
            &&& m["line"@] == JsonV::Str(line)
        },
        call matches WorkerCallOf::RunScript { code, timeout_secs } ==> {
            let m = child_args(call);
            &&& m["code"@] == JsonV::Str(code)
            &&& timeout_secs is Some ==> m["timeout_secs"@]
                == JsonV::Num(NumV::Unsigned(timeout_secs->0 as u64))
            &&& timeout_secs is None ==> m["timeout_secs"@] == JsonV::Null
        },
        call matches WorkerCallOf::LoadDebugInfo { path, verbose } ==> {
            let m = child_args(call);
            &&& path is Some ==> m["path"@] == JsonV::Str(path->0)
            &&& path is None ==> m["path"@] == JsonV::Null
            &&& m["verbose"@] == JsonV::Bool(verbose)
        },
{
    match call {
        WorkerCallOf::SetComments { addr, .. } => {
            reveal_strlit("address");
            reveal_strlit("target_name");
            reveal_strlit("offset");
            reveal_strlit("comment");
            reveal_strlit("repeatable");
            assert("address"@.len() == 7);
            assert("target_name"@.len() == 11);
            assert("offset"@.len() == 6);
            assert("comment"@.len() == 7);
            assert("repeatable"@.len() == 10);
            assert("comment"@[0] == 'c');
            assert("address"@[0] == 'a');
            if addr is Some {
                lemma_address_read_back(addr->0);
            }
        },
        WorkerCallOf::Rename { addr, .. } => {
            reveal_strlit("address");
            reveal_strlit("current_name");
            reveal_strlit("name");
            reveal_strlit("flags");
            assert("address"@.len() == 7);
            assert("current_name"@.len() == 12);
            assert("name"@.len() == 4);
            assert("flags"@.len() == 5);
            if addr is Some {
                lemma_address_read_back(addr->0);
            }
        },
        WorkerCallOf::PatchBytes { addr, .. } => {
            reveal_strlit("address");
            reveal_strlit("target_name");
            reveal_strlit("offset");
            reveal_strlit("bytes");
            assert("address"@.len() == 7);
            assert("target_name"@.len() == 11);
            assert("offset"@.len() == 6);
            assert("bytes"@.len() == 5);
            if addr is Some {
                lemma_address_read_back(addr->0);
            }
        },
        WorkerCallOf::PatchAsm { addr, .. } => {
            reveal_strlit("address");
            reveal_strlit("target_name");
            reveal_strlit("offset");
            reveal_strlit("line");
            assert("address"@.len() == 7);
            assert("target_name"@.len() == 11);
            assert("offset"@.len() == 6);
            assert("line"@.len() == 4);
            if addr is Some {
                lemma_address_read_back(addr->0);
            }
        },
        WorkerCallOf::RunScript { .. } => {
            reveal_strlit("code");
            reveal_strlit("timeout_secs");
            assert("code"@.len() == 4);
            assert("timeout_secs"@.len() == 12);
        },
        WorkerCallOf::LoadDebugInfo { .. } => {
            reveal_strlit("path");
            reveal_strlit("verbose");
            assert("path"@.len() == 4);
            assert("verbose"@.len() == 7);
        },
        _ => {},
    }
}

} // verus!
