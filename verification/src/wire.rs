//! What the command line sends, the daemon understands.

use crate::cli::{command_op, command_params, CliCommand};
use crate::dispatch::{
    addr_in, addrs_in, analysis_call, bytes_in, clamped, code_call, data_call, flow_call,
    search_call, texts_among, types_call, CallV, Place,
};
use crate::json::{texts_v, JsonV};
use crate::text::{opt_view, views};
use vstd::prelude::*;

verus! {

/// The address in a text that may be missing.
pub open spec fn maybe_addr(s: Option<Seq<char>>) -> Result<Option<u64>, Seq<char>> {
    match s {
        Some(t) => match addr_in(t) {
            Ok(a) => Ok(Some(a)),
            Err(e) => Err(e),
        },
        None => Ok(None),
    }
}

/// The place that a name and an address give, of which the name counts first.
pub open spec fn place_of(
    name: Option<Seq<char>>,
    address: Option<Seq<char>>,
) -> Result<Place<Seq<char>>, Seq<char>> {
    match name {
        Some(n) => Ok(Place::Name(n)),
        None => match address {
            Some(s) => match addr_in(s) {
                Ok(a) => Ok(Place::Addr(a)),
                Err(e) => Err(e),
            },
            None => Err("Missing parameter: "@ + "address"@),
        },
    }
}

/// The analysis request that a command stands for, or why there is none.
pub open spec fn command_call(cmd: CliCommand) -> Result<CallV, Seq<char>> {
    match cmd {
        CliCommand::Info => Ok(CallV::Info),
        CliCommand::Meta => Ok(CallV::Meta),
        CliCommand::AnalysisStatus => Ok(CallV::AnalysisStatus),
        CliCommand::Functions(a) => Ok(
            CallV::ListFunctions {
                offset: a.offset,
                limit: a.limit,
                filter: opt_view(a.filter),
            },
        ),
        CliCommand::ResolveFunction(a) => Ok(
            CallV::ResolveFunction {
                name: a.name@,
            },
        ),
        CliCommand::FunctionAt(a) => match addr_in(a.address@) {
            Err(e) => Err(e),
            Ok(addr) => Ok(
                CallV::FunctionAt {
                    addr,
                },
            ),
        },
        CliCommand::LookupFuncs(a) => Ok(
            CallV::LookupFuncs {
                queries: views(a.queries@),
            },
        ),
        CliCommand::AnalyzeFuncs => Ok(CallV::AnalyzeFuncs),
        CliCommand::Disasm(a) => match place_of(opt_view(a.name), opt_view(a.address)) {
            Err(e) => Err(e),
            Ok(place) => Ok(
                CallV::Disasm {
                    offset: a.offset,
                    count: a.count,
                    place,
                },
            ),
        },
        CliCommand::DisasmFunctionAt(a) => match addr_in(a.address@) {
            Err(e) => Err(e),
            Ok(addr) => Ok(
                CallV::DisasmFunctionAt {
                    addr,
                    offset: a.offset,
                    count: a.count,
                },
            ),
        },
        CliCommand::Decompile(a) => match place_of(opt_view(a.name), opt_view(a.address)) {
            Err(e) => Err(e),
            Ok(place) => Ok(
                CallV::Decompile {
                    max_lines: a.max_lines,
                    place,
                },
            ),
        },
        CliCommand::PseudocodeAt(a) => match addr_in(a.address@) {
            Err(e) => Err(e),
            Ok(addr) => match maybe_addr(opt_view(a.end_address)) {
                Err(e) => Err(e),
                Ok(end) => Ok(
                    CallV::PseudocodeAt {
                        addr,
                        end,
                    },
                ),
            },
        },
        CliCommand::Strings(a) => Ok(
            CallV::Strings {
                offset: a.offset,
                limit: a.limit,
                filter: opt_view(a.filter),
            },
        ),
        CliCommand::FindString(a) => Ok(
            CallV::FindString {
                query: a.query@,
                exact: a.exact,
                case_insensitive: a.case_insensitive,
                offset: a.offset,
                limit: a.limit,
            },
        ),
        CliCommand::GetString(a) => match addr_in(a.address@) {
            Err(e) => Err(e),
            Ok(addr) => Ok(
                CallV::GetString {
                    addr,
                    max_len: a.max_len,
                },
            ),
        },
        CliCommand::AnalyzeStrings(a) => Ok(
            CallV::AnalyzeStrings {
                query: opt_view(a.query),
                offset: a.offset,
                limit: a.limit,
            },
        ),
        CliCommand::XrefsToString(a) => Ok(
            CallV::XrefsToString {
                query: a.query@,
                exact: a.exact,
                case_insensitive: a.case_insensitive,
                offset: a.offset,
                limit: a.limit,
                max_xrefs: a.max_xrefs,
            },
        ),
        CliCommand::Segments => Ok(CallV::Segments),
        CliCommand::Imports(a) => Ok(
            CallV::Imports {
                offset: a.offset,
                limit: a.limit,
            },
        ),
        CliCommand::Exports(a) => Ok(
            CallV::Exports {
                offset: a.offset,
                limit: a.limit,
            },
        ),
        CliCommand::Entrypoints => Ok(CallV::Entrypoints),
        CliCommand::Globals(a) => Ok(
            CallV::ListGlobals {
                filter: opt_view(a.filter),
                offset: a.offset,
                limit: a.limit,
            },
        ),
        CliCommand::GetGlobalValue(a) => Ok(
            CallV::GetGlobalValue {
                query: a.query@,
            },
        ),
        CliCommand::XrefsTo(a) => match addr_in(a.address@) {
            Err(e) => Err(e),
            Ok(addr) => Ok(
                CallV::XrefsTo {
                    addr,
                    offset: a.offset,
                    limit: clamped(a.limit, 1, 10000),
                },
            ),
        },
        CliCommand::XrefsFrom(a) => match addr_in(a.address@) {
            Err(e) => Err(e),
            Ok(addr) => Ok(
                CallV::XrefsFrom {
                    addr,
                    offset: a.offset,
                    limit: clamped(a.limit, 1, 10000),
                },
            ),
        },
        CliCommand::XrefMatrix(a) => match addrs_in(views(a.addresses@)) {
            Err(e) => Err(e),
            Ok(addrs) => Ok(
                CallV::XrefMatrix {
                    addrs,
                },
            ),
        },
        CliCommand::BasicBlocks(a) => match addr_in(a.address@) {
            Err(e) => Err(e),
            Ok(addr) => Ok(
                CallV::BasicBlocks {
                    addr,
                },
            ),
        },
        CliCommand::Callers(a) => match addr_in(a.address@) {
            Err(e) => Err(e),
            Ok(addr) => Ok(
                CallV::Callers {
                    addr,
                },
            ),
        },
        CliCommand::Callees(a) => match addr_in(a.address@) {
            Err(e) => Err(e),
            Ok(addr) => Ok(
                CallV::Callees {
                    addr,
                },
            ),
        },
        CliCommand::Callgraph(a) => match addr_in(a.address@) {
            Err(e) => Err(e),
            Ok(addr) => Ok(
                CallV::Callgraph {
                    addr,
                    max_depth: a.max_depth,
                    max_nodes: a.max_nodes,
                },
            ),
        },
        CliCommand::FindPaths(a) => match addr_in(a.start@) {
            Err(e) => Err(e),
            Ok(start) => match addr_in(a.end@) {
                Err(e) => Err(e),
                Ok(end) => Ok(
                    CallV::FindPaths {
                        start,
                        end,
                        max_paths: a.max_paths,
                        max_depth: a.max_depth,
                    },
                ),
            },
        },
        CliCommand::GetBytes(a) => match addr_in(a.address@) {
            Err(e) => Err(e),
            Ok(addr) => Ok(
                CallV::GetBytes {
                    addr,
                    size: a.size,
                },
            ),
        },
        CliCommand::ReadInt(a) => match addr_in(a.address@) {
            Err(e) => Err(e),
            Ok(addr) => Ok(
                CallV::ReadInt {
                    addr,
                    size: a.size,
                },
            ),
        },
        CliCommand::FindBytes(a) => Ok(
            CallV::FindBytes {
                pattern: a.pattern@,
                limit: a.limit,
            },
        ),
        CliCommand::SearchText(a) => Ok(
            CallV::SearchText {
                text: a.text@,
                max_results: a.max_results,
            },
        ),
        CliCommand::SearchImm(a) => match addr_in(a.value@) {
            Err(e) => Err(e),
            Ok(imm) => Ok(
                CallV::SearchImm {
                    imm,
                    max_results: a.max_results,
                },
            ),
        },
        CliCommand::FindInsns(a) => Ok(
            CallV::FindInsns {
                patterns: views(a.patterns@),
                max_results: a.max_results,
                case_insensitive: a.case_insensitive,
            },
        ),
        CliCommand::FindInsnOperands(a) => Ok(
            CallV::FindInsnOperands {
                patterns: views(a.patterns@),
                max_results: a.max_results,
                case_insensitive: a.case_insensitive,
            },
        ),
        CliCommand::AddrInfo(a) => match addr_in(a.address@) {
            Err(e) => Err(e),
            Ok(addr) => Ok(
                CallV::AddrInfo {
                    addr,
                },
            ),
        },
        CliCommand::LocalTypes(a) => Ok(
            CallV::LocalTypes {
                offset: a.offset,
                limit: a.limit,
                filter: opt_view(a.filter),
            },
        ),
        CliCommand::DeclareType(a) => Ok(
            CallV::DeclareType {
                decl: a.decl@,
                relaxed: a.relaxed,
                replace: a.replace,
                multi: a.multi,
            },
        ),
        CliCommand::ApplyTypes(a) => match maybe_addr(opt_view(a.address)) {
            Err(e) => Err(e),
            Ok(addr) => Ok(
                CallV::ApplyTypes {
                    addr,
                    name: opt_view(a.name),
                    offset: a.offset,
                    stack_offset: a.stack_offset,
                    stack_name: opt_view(a.stack_name),
                    decl: opt_view(a.decl),
                    named_type: opt_view(a.named_type),
                    relaxed: a.relaxed,
                    delay: a.delay,
                    strict: a.strict,
                },
            ),
        },
        CliCommand::InferTypes(a) => match maybe_addr(opt_view(a.address)) {
            Err(e) => Err(e),
            Ok(addr) => Ok(
                CallV::InferTypes {
                    addr,
                    name: opt_view(a.name),
                    offset: a.offset,
                },
            ),
        },
        CliCommand::StackFrame(a) => match addr_in(a.address@) {
            Err(e) => Err(e),
            Ok(addr) => Ok(
                CallV::StackFrame {
                    addr,
                },
            ),
        },
        CliCommand::DeclareStack(a) => match maybe_addr(opt_view(a.address)) {
            Err(e) => Err(e),
            Ok(addr) => Ok(
                CallV::DeclareStack {
                    addr,
                    name: opt_view(a.name),
                    offset: a.offset,
                    var_name: opt_view(a.var_name),
                    decl: a.decl@,
                    relaxed: a.relaxed,
                },
            ),
        },
        CliCommand::DeleteStack(a) => match maybe_addr(opt_view(a.address)) {
            Err(e) => Err(e),
            Ok(addr) => Ok(
                CallV::DeleteStack {
                    addr,
                    name: opt_view(a.name),
                    offset: a.offset,
                    var_name: opt_view(a.var_name),
                },
            ),
        },
        CliCommand::Structs(a) => Ok(
            CallV::Structs {
                offset: a.offset,
                limit: a.limit,
                filter: opt_view(a.filter),
            },
        ),
        CliCommand::StructInfo(a) => Ok(
            CallV::StructInfo {
                ordinal: a.ordinal,
                name: opt_view(a.name),
            },
        ),
        CliCommand::ReadStruct(a) => match addr_in(a.address@) {
            Err(e) => Err(e),
            Ok(addr) => Ok(
                CallV::ReadStruct {
                    addr,
                    ordinal: a.ordinal,
                    name: opt_view(a.name),
                },
            ),
        },
        CliCommand::XrefsToField(a) => Ok(
            CallV::XrefsToField {
                ordinal: a.ordinal,
                name: opt_view(a.name),
                member_index: a.member_index,
                member_name: opt_view(a.member_name),
                limit: a.limit,
            },
        ),
        CliCommand::SetComment(a) => match maybe_addr(opt_view(a.address)) {
            Err(e) => Err(e),
            Ok(addr) => Ok(
                CallV::SetComment {
                    addr,
                    name: opt_view(a.name),
                    offset: a.offset,
                    comment: a.comment@,
                    repeatable: a.repeatable,
                },
            ),
        },
        CliCommand::Rename(a) => match maybe_addr(opt_view(a.address)) {
            Err(e) => Err(e),
            Ok(addr) => Ok(
                CallV::Rename {
                    addr,
                    current_name: opt_view(a.current_name),
                    new_name: a.name@,
                    flags: a.flags,
                },
            ),
        },
        CliCommand::PatchBytes(a) => match maybe_addr(opt_view(a.address)) {
            Err(e) => Err(e),
            Ok(addr) => match bytes_in(a.bytes@) {
                Err(e) => Err(e),
                Ok(bytes) => Ok(
                    CallV::PatchBytes {
                        addr,
                        name: opt_view(a.name),
                        offset: a.offset,
                        bytes,
                    },
                ),
            },
        },
        CliCommand::PatchAsm(a) => match maybe_addr(opt_view(a.address)) {
            Err(e) => Err(e),
            Ok(addr) => Ok(
                CallV::PatchAsm {
                    addr,
                    name: opt_view(a.name),
                    offset: a.offset,
                    line: a.line@,
                },
            ),
        },
        CliCommand::RunScript(a) => Ok(
            CallV::RunScript {
                code: a.code@,
            },
        ),
        CliCommand::LoadDebugInfo(a) => Ok(
            CallV::LoadDebugInfo {
                path: opt_view(a.path),
                verbose: a.verbose,
            },
        ),
        _ => Err(seq![]),
    }
}

/// A number by which the names of operations, and the names of parameters, are told apart.
#[verifier::opaque]
spec fn code(s: Seq<char>) -> int {
    s.len() * 0x100_0000 + (s[0] as int) * 0x1_0000 + (s[s.len() as int / 2] as int) * 0x100
        + s[s.len() - 2] as int
}

/// The numbers of operation names.
proof fn lemma_code_codes()
    ensures
        code("info"@) == 74016358,
        code("meta"@) == 74282100,
        code("analysis_status"@) == 258044789,
        code("functions"@) == 157709422,
        code("list_functions"@) == 241987182,
        code("resolve_function"@) == 275932783,
        code("function_at"@) == 191261025,
        code("lookup_funcs"@) == 208428899,
        code("analyze_funcs"@) == 224486755,
        code("disasm"@) == 107241843,
        code("disasm_function_at"@) == 308571745,
        code("decompile"@) == 157576556,
        code("pseudocode_at"@) == 225469281,
{
    reveal(code);
    reveal_strlit("info");
    reveal_strlit("meta");
    reveal_strlit("analysis_status");
    reveal_strlit("functions");
    reveal_strlit("list_functions");
    reveal_strlit("resolve_function");
    reveal_strlit("function_at");
    reveal_strlit("lookup_funcs");
    reveal_strlit("analyze_funcs");
    reveal_strlit("disasm");
    reveal_strlit("disasm_function_at");
    reveal_strlit("decompile");
    reveal_strlit("pseudocode_at");
}

/// The numbers of operation names.
proof fn lemma_data_codes()
    ensures
        code("strings"@) == 125004135,
        code("find_string"@) == 191263598,
        code("get_string"@) == 174552174,
        code("analyze_strings"@) == 258039655,
        code("xrefs_to_string"@) == 259551086,
        code("segments"@) == 141780340,
        code("imports"@) == 124350324,
        code("exports"@) == 124088180,
        code("export_funcs"@) == 207970147,
        code("entrypoints"@) == 191197300,
        code("globals"@) == 124215916,
        code("list_globals"@) == 208432236,
        code("get_global_value"@) == 275210613,
{
    reveal(code);
    reveal_strlit("strings");
    reveal_strlit("find_string");
    reveal_strlit("get_string");
    reveal_strlit("analyze_strings");
    reveal_strlit("xrefs_to_string");
    reveal_strlit("segments");
    reveal_strlit("imports");
    reveal_strlit("exports");
    reveal_strlit("export_funcs");
    reveal_strlit("entrypoints");
    reveal_strlit("globals");
    reveal_strlit("list_globals");
    reveal_strlit("get_global_value");
}

/// The numbers of operation names.
proof fn lemma_flow_codes()
    ensures
        code("xrefs_to"@) == 142111604,
        code("xrefs_from"@) == 175660911,
        code("xref_matrix"@) == 192441705,
        code("basic_blocks"@) == 207774315,
        code("callers"@) == 123956338,
        code("callees"@) == 123956325,
        code("callgraph"@) == 157509488,
        code("find_paths"@) == 174485608,
        code("get_bytes"@) == 157770341,
        code("read_int"@) == 141713262,
{
    reveal(code);
    reveal_strlit("xrefs_to");
    reveal_strlit("xrefs_from");
    reveal_strlit("xref_matrix");
    reveal_strlit("basic_blocks");
    reveal_strlit("callers");
    reveal_strlit("callees");
    reveal_strlit("callgraph");
    reveal_strlit("find_paths");
    reveal_strlit("get_bytes");
    reveal_strlit("read_int");
}

/// The numbers of operation names.
proof fn lemma_search_codes()
    ensures
        code("find_bytes"@) == 174482021,
        code("search_text"@) == 192112760,
        code("search_imm"@) == 175335533,
        code("find_insns"@) == 174483822,
        code("find_insn_operands"@) == 308698980,
        code("addr_info"@) == 157376358,
{
    reveal(code);
    reveal_strlit("find_bytes");
    reveal_strlit("search_text");
    reveal_strlit("search_imm");
    reveal_strlit("find_insns");
    reveal_strlit("find_insn_operands");
    reveal_strlit("addr_info");
}

/// The numbers of operation names.
proof fn lemma_types_codes()
    ensures
        code("local_types"@) == 191651685,
        code("declare_type"@) == 207906160,
        code("apply_types"@) == 190930789,
        code("infer_types"@) == 191455077,
        code("stack_frame"@) == 192110445,
        code("declare_stack"@) == 224683363,
        code("delete_stack"@) == 207904611,
        code("structs"@) == 125007220,
        code("struct_info"@) == 192115814,
        code("read_struct"@) == 192050019,
        code("xrefs_to_field"@) == 242773868,
{
    reveal(code);
    reveal_strlit("local_types");
    reveal_strlit("declare_type");
    reveal_strlit("apply_types");
    reveal_strlit("infer_types");
    reveal_strlit("stack_frame");
    reveal_strlit("declare_stack");
    reveal_strlit("delete_stack");
    reveal_strlit("structs");
    reveal_strlit("struct_info");
    reveal_strlit("read_struct");
    reveal_strlit("xrefs_to_field");
}

/// The numbers of operation names.
proof fn lemma_edit_codes()
    ensures
        code("set_comment"@) == 192114542,
        code("rename"@) == 108159341,
        code("patch_bytes"@) == 191913829,
        code("patch_asm"@) == 158361715,
        code("run_script"@) == 175268720,
        code("load_debug_info"@) == 258761318,
{
    reveal(code);
    reveal_strlit("set_comment");
    reveal_strlit("rename");
    reveal_strlit("patch_bytes");
    reveal_strlit("patch_asm");
    reveal_strlit("run_script");
    reveal_strlit("load_debug_info");
}

/// The numbers of parameter names.
proof fn lemma_key_codes()
    ensures
        code("address"@) == 123826803,
        code("addresses"@) == 157377893,
        code("bytes"@) == 90338405,
        code("case_insensitive"@) == 274949494,
        code("code"@) == 73622628,
        code("comment"@) == 123956590,
        code("count"@) == 90404206,
        code("current_name"@) == 207844461,
        code("decl"@) == 73687907,
        code("delay"@) == 90467425,
        code("end"@) == 56979054,
        code("end_address"@) == 191194227,
        code("exact"@) == 90530147,
        code("filter"@) == 107377765,
        code("flags"@) == 90595687,
        code("limit"@) == 90991977,
        code("line"@) == 74215022,
        code("max_depth"@) == 158164084,
        code("max_len"@) == 124608357,
        code("max_lines"@) == 158166117,
        code("max_nodes"@) == 158166629,
        code("max_paths"@) == 158167144,
        code("max_results"@) == 191718772,
        code("max_xrefs"@) == 158169190,
        code("member_index"@) == 208494437,
        code("member_name"@) == 191722093,
        code("multi"@) == 91057268,
        code("name"@) == 74345837,
        code("offset"@) == 107967333,
        code("ordinal"@) == 124741985,
        code("path"@) == 74478708,
        code("pattern"@) == 124810354,
        code("patterns"@) == 141583726,
        code("queries"@) == 124875365,
        code("query"@) == 91317618,
        code("relaxed"@) == 124936549,
        code("repeatable"@) == 175273068,
        code("replace"@) == 124939363,
        code("size"@) == 74676858,
        code("stack_name"@) == 175333229,
        code("stack_offset"@) == 208891749,
        code("start"@) == 91447666,
        code("strict"@) == 108226915,
        code("text"@) == 74741880,
        code("type_name"@) == 158621549,
        code("value"@) == 91647093,
        code("var_name"@) == 141979245,
        code("verbose"@) == 125198963,
{
    reveal(code);
    reveal_strlit("address");
    reveal_strlit("addresses");
    reveal_strlit("bytes");
    reveal_strlit("case_insensitive");
    reveal_strlit("code");
    reveal_strlit("comment");
    reveal_strlit("count");
    reveal_strlit("current_name");
    reveal_strlit("decl");
    reveal_strlit("delay");
    reveal_strlit("end");
    reveal_strlit("end_address");
    reveal_strlit("exact");
    reveal_strlit("filter");
    reveal_strlit("flags");
    reveal_strlit("limit");
    reveal_strlit("line");
    reveal_strlit("max_depth");
    reveal_strlit("max_len");
    reveal_strlit("max_lines");
    reveal_strlit("max_nodes");
    reveal_strlit("max_paths");
    reveal_strlit("max_results");
    reveal_strlit("max_xrefs");
    reveal_strlit("member_index");
    reveal_strlit("member_name");
    reveal_strlit("multi");
    reveal_strlit("name");
    reveal_strlit("offset");
    reveal_strlit("ordinal");
    reveal_strlit("path");
    reveal_strlit("pattern");
    reveal_strlit("patterns");
    reveal_strlit("queries");
    reveal_strlit("query");
    reveal_strlit("relaxed");
    reveal_strlit("repeatable");
    reveal_strlit("replace");
    reveal_strlit("size");
    reveal_strlit("stack_name");
    reveal_strlit("stack_offset");
    reveal_strlit("start");
    reveal_strlit("strict");
    reveal_strlit("text");
    reveal_strlit("type_name");
    reveal_strlit("value");
    reveal_strlit("var_name");
    reveal_strlit("verbose");
}

/// The texts in a list of texts are the list.
proof fn lemma_texts(list: Seq<Seq<char>>)
    ensures
        texts_among(texts_v(list)->Arr_0) == list,
    decreases list.len(),
{
    let items = texts_v(list)->Arr_0;
    if list.len() > 0 {
        lemma_texts(list.drop_last());
        assert(items.drop_last() =~= texts_v(list.drop_last())->Arr_0);
        assert(list.drop_last().push(list.last()) =~= list);
    } else {
        assert(list =~= seq![]);
    }
}

/// The commands whose operations are answered with the `code` group.
proof fn lemma_code_commands(cmd: CliCommand)
    requires
        cmd is Info
            || cmd is Meta
            || cmd is AnalysisStatus
            || cmd is Functions
            || cmd is ResolveFunction
            || cmd is FunctionAt
            || cmd is LookupFuncs
            || cmd is AnalyzeFuncs
            || cmd is Disasm
            || cmd is DisasmFunctionAt
            || cmd is Decompile
            || cmd is PseudocodeAt,
    ensures
        analysis_call(command_op(cmd), JsonV::Obj(command_params(cmd))) == command_call(cmd),
{
    lemma_code_codes();
    lemma_key_codes();
    let op = command_op(cmd);
    let p = JsonV::Obj(command_params(cmd));
    match cmd {
        CliCommand::LookupFuncs(a) => {
            lemma_texts(views(a.queries@));
        },
        _ => {},
    }
}

/// The commands whose operations are answered with the `data` group.
proof fn lemma_data_commands(cmd: CliCommand)
    requires
        cmd is Strings
            || cmd is FindString
            || cmd is GetString
            || cmd is AnalyzeStrings
            || cmd is XrefsToString
            || cmd is Segments
            || cmd is Imports
            || cmd is Exports
            || cmd is Entrypoints
            || cmd is Globals
            || cmd is GetGlobalValue,
    ensures
        analysis_call(command_op(cmd), JsonV::Obj(command_params(cmd))) == command_call(cmd),
{
    lemma_code_codes();
    lemma_data_codes();
    lemma_key_codes();
    let op = command_op(cmd);
    let p = JsonV::Obj(command_params(cmd));
    assert(code_call(op, p) == Ok::<Option<CallV>, Seq<char>>(None));
    match cmd {
        _ => {},
    }
}

/// The commands whose operations are answered with the `flow` group.
proof fn lemma_flow_commands(cmd: CliCommand)
    requires
        cmd is XrefsTo
            || cmd is XrefsFrom
            || cmd is XrefMatrix
            || cmd is BasicBlocks
            || cmd is Callers
            || cmd is Callees
            || cmd is Callgraph
            || cmd is FindPaths
            || cmd is GetBytes
            || cmd is ReadInt,
    ensures
        analysis_call(command_op(cmd), JsonV::Obj(command_params(cmd))) == command_call(cmd),
{
    lemma_code_codes();
    lemma_data_codes();
    lemma_flow_codes();
    lemma_key_codes();
    let op = command_op(cmd);
    let p = JsonV::Obj(command_params(cmd));
    assert(code_call(op, p) == Ok::<Option<CallV>, Seq<char>>(None));
    assert(data_call(op, p) == Ok::<Option<CallV>, Seq<char>>(None));
    match cmd {
        CliCommand::XrefMatrix(a) => {
            lemma_texts(views(a.addresses@));
        },
        _ => {},
    }
}

/// The commands whose operations are answered with the `search` group.
proof fn lemma_search_commands(cmd: CliCommand)
    requires
        cmd is FindBytes
            || cmd is SearchText
            || cmd is SearchImm
            || cmd is FindInsns
            || cmd is FindInsnOperands
            || cmd is AddrInfo,
    ensures
        analysis_call(command_op(cmd), JsonV::Obj(command_params(cmd))) == command_call(cmd),
{
    lemma_code_codes();
    lemma_data_codes();
    lemma_flow_codes();
    lemma_search_codes();
    lemma_key_codes();
    let op = command_op(cmd);
    let p = JsonV::Obj(command_params(cmd));
    assert(code_call(op, p) == Ok::<Option<CallV>, Seq<char>>(None));
    assert(data_call(op, p) == Ok::<Option<CallV>, Seq<char>>(None));
    assert(flow_call(op, p) == Ok::<Option<CallV>, Seq<char>>(None));
    match cmd {
        CliCommand::FindInsns(a) => {
            lemma_texts(views(a.patterns@));
        },
        CliCommand::FindInsnOperands(a) => {
            lemma_texts(views(a.patterns@));
        },
        _ => {},
    }
}

/// The commands whose operations are answered with the `types` group.
proof fn lemma_types_commands(cmd: CliCommand)
    requires
        cmd is LocalTypes
            || cmd is DeclareType
            || cmd is ApplyTypes
            || cmd is InferTypes
            || cmd is StackFrame
            || cmd is DeclareStack
            || cmd is DeleteStack
            || cmd is Structs
            || cmd is StructInfo
            || cmd is ReadStruct
            || cmd is XrefsToField,
    ensures
        analysis_call(command_op(cmd), JsonV::Obj(command_params(cmd))) == command_call(cmd),
{
    lemma_code_codes();
    lemma_data_codes();
    lemma_flow_codes();
    lemma_search_codes();
    lemma_types_codes();
    lemma_key_codes();
    let op = command_op(cmd);
    let p = JsonV::Obj(command_params(cmd));
    assert(code_call(op, p) == Ok::<Option<CallV>, Seq<char>>(None));
    assert(data_call(op, p) == Ok::<Option<CallV>, Seq<char>>(None));
    assert(flow_call(op, p) == Ok::<Option<CallV>, Seq<char>>(None));
    assert(search_call(op, p) == Ok::<Option<CallV>, Seq<char>>(None));
    match cmd {
        _ => {},
    }
}

/// The commands whose operations are answered with the `edit` group.
proof fn lemma_edit_commands(cmd: CliCommand)
    requires
        cmd is SetComment
            || cmd is Rename
            || cmd is PatchBytes
            || cmd is PatchAsm
            || cmd is RunScript
            || cmd is LoadDebugInfo,
    ensures
        analysis_call(command_op(cmd), JsonV::Obj(command_params(cmd))) == command_call(cmd),
{
    lemma_code_codes();
    lemma_data_codes();
    lemma_flow_codes();
    lemma_search_codes();
    lemma_types_codes();
    lemma_edit_codes();
    lemma_key_codes();
    let op = command_op(cmd);
    let p = JsonV::Obj(command_params(cmd));
    assert(code_call(op, p) == Ok::<Option<CallV>, Seq<char>>(None));
    assert(data_call(op, p) == Ok::<Option<CallV>, Seq<char>>(None));
    assert(flow_call(op, p) == Ok::<Option<CallV>, Seq<char>>(None));
    assert(search_call(op, p) == Ok::<Option<CallV>, Seq<char>>(None));
    assert(types_call(op, p) == Ok::<Option<CallV>, Seq<char>>(None));
    match cmd {
        _ => {},
    }
}

/// What a command asks for is what the daemon makes of the request: each argument reaches the
/// analysis as it was given, texts that stand for addresses and bytes are read, and where one
/// cannot be read the reply says so.
pub proof fn lemma_command_understood(cmd: CliCommand)
    requires
        !(cmd is Daemon),
        !(cmd is Target),
        !(cmd is IntConvert),
    ensures
        analysis_call(command_op(cmd), JsonV::Obj(command_params(cmd))) == command_call(cmd),
{
    match cmd {
        CliCommand::Info
        | CliCommand::Meta
        | CliCommand::AnalysisStatus
        | CliCommand::Functions(_)
        | CliCommand::ResolveFunction(_)
        | CliCommand::FunctionAt(_)
        | CliCommand::LookupFuncs(_)
        | CliCommand::AnalyzeFuncs
        | CliCommand::Disasm(_)
        | CliCommand::DisasmFunctionAt(_)
        | CliCommand::Decompile(_)
        | CliCommand::PseudocodeAt(_) => lemma_code_commands(cmd),
        CliCommand::Strings(_)
        | CliCommand::FindString(_)
        | CliCommand::GetString(_)
        | CliCommand::AnalyzeStrings(_)
        | CliCommand::XrefsToString(_)
        | CliCommand::Segments
        | CliCommand::Imports(_)
        | CliCommand::Exports(_)
        | CliCommand::Entrypoints
        | CliCommand::Globals(_)
        | CliCommand::GetGlobalValue(_) => lemma_data_commands(cmd),
        CliCommand::XrefsTo(_)
        | CliCommand::XrefsFrom(_)
        | CliCommand::XrefMatrix(_)
        | CliCommand::BasicBlocks(_)
        | CliCommand::Callers(_)
        | CliCommand::Callees(_)
        | CliCommand::Callgraph(_)
        | CliCommand::FindPaths(_)
        | CliCommand::GetBytes(_)
        | CliCommand::ReadInt(_) => lemma_flow_commands(cmd),
        CliCommand::FindBytes(_)
        | CliCommand::SearchText(_)
        | CliCommand::SearchImm(_)
        | CliCommand::FindInsns(_)
        | CliCommand::FindInsnOperands(_)
        | CliCommand::AddrInfo(_) => lemma_search_commands(cmd),
        CliCommand::LocalTypes(_)
        | CliCommand::DeclareType(_)
        | CliCommand::ApplyTypes(_)
        | CliCommand::InferTypes(_)
        | CliCommand::StackFrame(_)
        | CliCommand::DeclareStack(_)
        | CliCommand::DeleteStack(_)
        | CliCommand::Structs(_)
        | CliCommand::StructInfo(_)
        | CliCommand::ReadStruct(_)
        | CliCommand::XrefsToField(_) => lemma_types_commands(cmd),
        _ => lemma_edit_commands(cmd),
    }
}

/// Whether two commands are the same one, whatever their arguments are.
pub open spec fn same_command(a: CliCommand, b: CliCommand) -> bool {
    match a {
        CliCommand::Daemon(_) => b is Daemon,
        CliCommand::Target(_) => b is Target,
        CliCommand::Info => b is Info,
        CliCommand::Meta => b is Meta,
        CliCommand::AnalysisStatus => b is AnalysisStatus,
        CliCommand::Functions(_) => b is Functions,
        CliCommand::ResolveFunction(_) => b is ResolveFunction,
        CliCommand::FunctionAt(_) => b is FunctionAt,
        CliCommand::LookupFuncs(_) => b is LookupFuncs,
        CliCommand::AnalyzeFuncs => b is AnalyzeFuncs,
        CliCommand::Disasm(_) => b is Disasm,
        CliCommand::DisasmFunctionAt(_) => b is DisasmFunctionAt,
        CliCommand::Decompile(_) => b is Decompile,
        CliCommand::PseudocodeAt(_) => b is PseudocodeAt,
        CliCommand::Strings(_) => b is Strings,
        CliCommand::FindString(_) => b is FindString,
        CliCommand::GetString(_) => b is GetString,
        CliCommand::AnalyzeStrings(_) => b is AnalyzeStrings,
        CliCommand::XrefsToString(_) => b is XrefsToString,
        CliCommand::Segments => b is Segments,
        CliCommand::Imports(_) => b is Imports,
        CliCommand::Exports(_) => b is Exports,
        CliCommand::Entrypoints => b is Entrypoints,
        CliCommand::Globals(_) => b is Globals,
        CliCommand::GetGlobalValue(_) => b is GetGlobalValue,
        CliCommand::XrefsTo(_) => b is XrefsTo,
        CliCommand::XrefsFrom(_) => b is XrefsFrom,
        CliCommand::XrefMatrix(_) => b is XrefMatrix,
        CliCommand::BasicBlocks(_) => b is BasicBlocks,
        CliCommand::Callers(_) => b is Callers,
        CliCommand::Callees(_) => b is Callees,
        CliCommand::Callgraph(_) => b is Callgraph,
        CliCommand::FindPaths(_) => b is FindPaths,
        CliCommand::GetBytes(_) => b is GetBytes,
        CliCommand::ReadInt(_) => b is ReadInt,
        CliCommand::FindBytes(_) => b is FindBytes,
        CliCommand::SearchText(_) => b is SearchText,
        CliCommand::SearchImm(_) => b is SearchImm,
        CliCommand::FindInsns(_) => b is FindInsns,
        CliCommand::FindInsnOperands(_) => b is FindInsnOperands,
        CliCommand::AddrInfo(_) => b is AddrInfo,
        CliCommand::LocalTypes(_) => b is LocalTypes,
        CliCommand::DeclareType(_) => b is DeclareType,
        CliCommand::ApplyTypes(_) => b is ApplyTypes,
        CliCommand::InferTypes(_) => b is InferTypes,
        CliCommand::StackFrame(_) => b is StackFrame,
        CliCommand::DeclareStack(_) => b is DeclareStack,
        CliCommand::DeleteStack(_) => b is DeleteStack,
        CliCommand::Structs(_) => b is Structs,
        CliCommand::StructInfo(_) => b is StructInfo,
        CliCommand::ReadStruct(_) => b is ReadStruct,
        CliCommand::XrefsToField(_) => b is XrefsToField,
        CliCommand::SetComment(_) => b is SetComment,
        CliCommand::Rename(_) => b is Rename,
        CliCommand::PatchBytes(_) => b is PatchBytes,
        CliCommand::PatchAsm(_) => b is PatchAsm,
        CliCommand::RunScript(_) => b is RunScript,
        CliCommand::LoadDebugInfo(_) => b is LoadDebugInfo,
        CliCommand::IntConvert(_) => b is IntConvert,
    }
}

/// The number of the name of a command's operation.
spec fn command_code(cmd: CliCommand) -> int {
    match cmd {
        CliCommand::Daemon(_) => 0,
        CliCommand::Target(_) => 0,
        CliCommand::Info => 74016358,
        CliCommand::Meta => 74282100,
        CliCommand::AnalysisStatus => 258044789,
        CliCommand::Functions(_) => 157709422,
        CliCommand::ResolveFunction(_) => 275932783,
        CliCommand::FunctionAt(_) => 191261025,
        CliCommand::LookupFuncs(_) => 208428899,
        CliCommand::AnalyzeFuncs => 224486755,
        CliCommand::Disasm(_) => 107241843,
        CliCommand::DisasmFunctionAt(_) => 308571745,
        CliCommand::Decompile(_) => 157576556,
        CliCommand::PseudocodeAt(_) => 225469281,
        CliCommand::Strings(_) => 125004135,
        CliCommand::FindString(_) => 191263598,
        CliCommand::GetString(_) => 174552174,
        CliCommand::AnalyzeStrings(_) => 258039655,
        CliCommand::XrefsToString(_) => 259551086,
        CliCommand::Segments => 141780340,
        CliCommand::Imports(_) => 124350324,
        CliCommand::Exports(_) => 124088180,
        CliCommand::Entrypoints => 191197300,
        CliCommand::Globals(_) => 124215916,
        CliCommand::GetGlobalValue(_) => 275210613,
        CliCommand::XrefsTo(_) => 142111604,
        CliCommand::XrefsFrom(_) => 175660911,
        CliCommand::XrefMatrix(_) => 192441705,
        CliCommand::BasicBlocks(_) => 207774315,
        CliCommand::Callers(_) => 123956338,
        CliCommand::Callees(_) => 123956325,
        CliCommand::Callgraph(_) => 157509488,
        CliCommand::FindPaths(_) => 174485608,
        CliCommand::GetBytes(_) => 157770341,
        CliCommand::ReadInt(_) => 141713262,
        CliCommand::FindBytes(_) => 174482021,
        CliCommand::SearchText(_) => 192112760,
        CliCommand::SearchImm(_) => 175335533,
        CliCommand::FindInsns(_) => 174483822,
        CliCommand::FindInsnOperands(_) => 308698980,
        CliCommand::AddrInfo(_) => 157376358,
        CliCommand::LocalTypes(_) => 191651685,
        CliCommand::DeclareType(_) => 207906160,
        CliCommand::ApplyTypes(_) => 190930789,
        CliCommand::InferTypes(_) => 191455077,
        CliCommand::StackFrame(_) => 192110445,
        CliCommand::DeclareStack(_) => 224683363,
        CliCommand::DeleteStack(_) => 207904611,
        CliCommand::Structs(_) => 125007220,
        CliCommand::StructInfo(_) => 192115814,
        CliCommand::ReadStruct(_) => 192050019,
        CliCommand::XrefsToField(_) => 242773868,
        CliCommand::SetComment(_) => 192114542,
        CliCommand::Rename(_) => 108159341,
        CliCommand::PatchBytes(_) => 191913829,
        CliCommand::PatchAsm(_) => 158361715,
        CliCommand::RunScript(_) => 175268720,
        CliCommand::LoadDebugInfo(_) => 258761318,
        CliCommand::IntConvert(_) => 191459186,
    }
}

proof fn lemma_command_code(cmd: CliCommand)
    requires
        !(cmd is Daemon),
        !(cmd is Target),
    ensures
        code(command_op(cmd)) == command_code(cmd),
{
    lemma_code_codes();
    lemma_data_codes();
    lemma_flow_codes();
    lemma_search_codes();
    lemma_types_codes();
    lemma_edit_codes();
    if cmd is IntConvert {
        reveal(code);
        reveal_strlit("int_convert");
    }
}

/// No two commands that are sent to the daemon share the name of their operation.
pub proof fn lemma_operations_are_distinct(a: CliCommand, b: CliCommand)
    requires
        !(a is Daemon),
        !(a is Target),
        !(b is Daemon),
        !(b is Target),
        command_op(a) == command_op(b),
    ensures
        same_command(a, b),
{
    lemma_command_code(a);
    lemma_command_code(b);
}

} // verus!
