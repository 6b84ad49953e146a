//! What a worker can be asked for, and how a pool hands it to a worker of its own.

use crate::cli::opt_nat;
use crate::errors::{ToolError, ToolErrorOf, ToolErrorV};
use crate::json::{
    field, no_fields, number_v, opt_number_v, opt_signed_v, opt_text_v, signed_v, text_field,
    text_v, texts_v, values_of, FieldsV, Json, JsonObject, JsonV, NumV,
};
use crate::numbers::{decimal, decimal_text, hex, hex_text};
use crate::text::{opt_view, views};
use crate::worker_loop::RequestKind;
use vstd::prelude::*;

verus! {

/// An address in hexadecimal, or null.
pub open spec fn opt_hex_v(a: Option<u64>) -> JsonV {
    match a {
        Some(n) => text_v(hex(n as nat)),
        None => JsonV::Null,
    }
}

/// The value of an optional number.
pub open spec fn wide_nat(n: Option<u64>) -> Option<nat> {
    match n {
        Some(v) => Some(v as nat),
        None => None,
    }
}

/// A list of bytes as numbers.
pub open spec fn bytes_v(bytes: Seq<u8>) -> JsonV {
    JsonV::Arr(bytes.map_values(|b: u8| number_v(b as nat)))
}

/// A list of addresses in hexadecimal.
pub open spec fn hexes_v(addrs: Seq<u64>) -> JsonV {
    JsonV::Arr(addrs.map_values(|a: u64| text_v(hex(a as nat))))
}

fn opt_hex(a: Option<u64>) -> (r: Json)
    ensures
        r@ == opt_hex_v(a),
{
    match a {
        Some(n) => Json::Str(hex_text(n)),
        None => Json::Null,
    }
}

fn widen(n: Option<u32>) -> (r: Option<u64>)
    ensures
        opt_nat(n) == wide_nat(r),
{
    match n {
        Some(v) => Some(v as u64),
        None => None,
    }
}

fn bytes_json(bytes: &Vec<u8>) -> (r: Json)
    ensures
        r@ == bytes_v(bytes@),
{
    let mut out: Vec<Json> = Vec::new();
    let mut i: usize = 0;
    while i < bytes.len()
        invariant
            i <= bytes.len(),
            out.len() == i,
            forall|j: int| 0 <= j < i ==> (#[trigger] out[j])@ == number_v(bytes[j] as nat),
        decreases bytes.len() - i,
    {
        out.push(Json::number(bytes[i] as u64));
        i = i + 1;
    }
    assert(values_of(out@) =~= bytes_v(bytes@)->Arr_0);
    Json::list(out)
}

fn hexes_json(addrs: &Vec<u64>) -> (r: Json)
    ensures
        r@ == hexes_v(addrs@),
{
    let mut out: Vec<Json> = Vec::new();
    let mut i: usize = 0;
    while i < addrs.len()
        invariant
            i <= addrs.len(),
            out.len() == i,
            forall|j: int| 0 <= j < i ==> (#[trigger] out[j])@ == text_v(hex(addrs[j] as nat)),
        decreases addrs.len() - i,
    {
        out.push(Json::Str(hex_text(addrs[i])));
        i = i + 1;
    }
    assert(values_of(out@) =~= hexes_v(addrs@)->Arr_0);
    Json::list(out)
}

/// The tool that reads an integer of a size, or why there is none.
pub open spec fn int_tool(size: usize) -> Result<Seq<char>, ToolErrorV> {
    if size == 1 {
        Ok("get_u8"@)
    } else if size == 2 {
        Ok("get_u16"@)
    } else if size == 4 {
        Ok("get_u32"@)
    } else if size == 8 {
        Ok("get_u64"@)
    } else {
        Err(ToolErrorOf::InvalidParams("unsupported integer size: "@ + decimal(size as nat)))
    }
}

fn read_int_tool(size: usize) -> (r: Result<&'static str, ToolError>)
    ensures
        match r {
            Ok(t) => int_tool(size) == Ok::<Seq<char>, ToolErrorV>(t@),
            Err(e) => int_tool(size) == Err::<Seq<char>, ToolErrorV>(e@),
        },
{
    if size == 1 {
        Ok("get_u8")
    } else if size == 2 {
        Ok("get_u16")
    } else if size == 4 {
        Ok("get_u32")
    } else if size == 8 {
        Ok("get_u64")
    } else {
        let mut m = "unsupported integer size: ".to_owned();
        m.push_str(decimal_text(size as u64).as_str());
        Err(ToolErrorOf::InvalidParams(m))
    }
}

// ---------------------------------------------------------------------------
// Arguments that only a worker of the pool gets
// ---------------------------------------------------------------------------

/// The arguments of a worker that opens a database.
pub struct ChildOpen {
    pub path: String,
    pub load_debug_info: bool,
    pub debug_info_path: Option<String>,
    pub debug_info_verbose: bool,
    pub force: bool,
    pub rebuild: bool,
    pub file_type: Option<String>,
    pub auto_analyse: bool,
    pub extra_args: Vec<String>,
    pub timeout_secs: Option<u64>,
}

/// The arguments of a worker that opens a database.
pub open spec fn open_args(c: ChildOpen) -> FieldsV {
    no_fields().insert("path"@, text_v(c.path@)).insert(
        "load_debug_info"@,
        JsonV::Bool(c.load_debug_info),
    ).insert("debug_info_path"@, opt_text_v(opt_view(c.debug_info_path))).insert(
        "debug_info_verbose"@,
        JsonV::Bool(c.debug_info_verbose),
    ).insert("force"@, JsonV::Bool(c.force)).insert("rebuild"@, JsonV::Bool(c.rebuild)).insert(
        "file_type"@,
        opt_text_v(opt_view(c.file_type)),
    ).insert("auto_analyse"@, JsonV::Bool(c.auto_analyse)).insert(
        "_worker_extra_args"@,
        texts_v(views(c.extra_args@)),
    ).insert("timeout_secs"@, opt_number_v(wide_nat(c.timeout_secs)))
}

/// The arguments of a worker that opens a database.
pub fn open_idb_child_args(c: &ChildOpen) -> (r: JsonObject)
    ensures
        r@ == open_args(*c),
{
    let mut o = JsonObject::new();
    o.put("path", Json::text(c.path.as_str()));
    o.put("load_debug_info", Json::Bool(c.load_debug_info));
    o.put("debug_info_path", Json::opt_text(&c.debug_info_path));
    o.put("debug_info_verbose", Json::Bool(c.debug_info_verbose));
    o.put("force", Json::Bool(c.force));
    o.put("rebuild", Json::Bool(c.rebuild));
    o.put("file_type", Json::opt_text(&c.file_type));
    o.put("auto_analyse", Json::Bool(c.auto_analyse));
    o.put("_worker_extra_args", Json::texts(&c.extra_args));
    o.put("timeout_secs", Json::opt_number(c.timeout_secs));
    o
}

/// The arguments of a worker that analyses.
pub open spec fn analyze_funcs_args(timeout_secs: Option<u64>, no_timeout: bool) -> FieldsV {
    no_fields().insert("background"@, JsonV::Bool(false)).insert(
        "timeout_secs"@,
        opt_number_v(wide_nat(timeout_secs)),
    ).insert("_worker_no_timeout"@, JsonV::Bool(no_timeout))
}

/// The arguments of a worker that analyses.
pub fn analyze_funcs_child_args(timeout_secs: Option<u64>, worker_no_timeout: bool) -> (r: JsonObject)
    ensures
        r@ == analyze_funcs_args(timeout_secs, worker_no_timeout),
{
    let mut o = JsonObject::new();
    o.put("background", Json::Bool(false));
    o.put("timeout_secs", Json::opt_number(timeout_secs));
    o.put("_worker_no_timeout", Json::Bool(worker_no_timeout));
    o
}

/// The arguments of a worker that runs a script.
pub fn run_script_child_args(code: &str, timeout_secs: Option<u64>) -> (r: JsonObject)
    ensures
        r@ == no_fields().insert("code"@, text_v(code@)).insert(
            "timeout_secs"@,
            opt_number_v(wide_nat(timeout_secs)),
        ),
{
    let mut o = JsonObject::new();
    o.put("code", Json::text(code));
    o.put("timeout_secs", Json::opt_number(timeout_secs));
    o
}

/// The number of results that is asked for, as far as a page can hold them.
pub open spec fn page_limit(max_results: usize) -> nat {
    if max_results < 10000 {
        max_results as nat
    } else {
        10000
    }
}

/// What a search of a worker is limited by: one page from the start, and the number of results that
/// the pool wants.
pub open spec fn with_limits(o: FieldsV, max_results: usize, timeout_secs: Option<u64>) -> FieldsV {
    o.insert("limit"@, number_v(page_limit(max_results))).insert("offset"@, number_v(0)).insert(
        "timeout_secs"@,
        opt_number_v(wide_nat(timeout_secs)),
    ).insert("_worker_max_results"@, number_v(max_results as nat))
}

/// The arguments of a worker that searches for bytes.
pub open spec fn find_bytes_args(
    pattern: Seq<char>,
    max_results: usize,
    timeout_secs: Option<u64>,
) -> FieldsV {
    with_limits(
        no_fields().insert("patterns"@, texts_v(seq![pattern])),
        max_results,
        timeout_secs,
    )
}

/// The arguments of a worker that searches for a text or an immediate value.
pub open spec fn search_args(
    target: Seq<char>,
    kind: Seq<char>,
    max_results: usize,
    timeout_secs: Option<u64>,
) -> FieldsV {
    with_limits(
        no_fields().insert("targets"@, texts_v(seq![target])).insert("kind"@, text_v(kind)),
        max_results,
        timeout_secs,
    )
}

fn put_limits(o: &mut JsonObject, max_results: usize, timeout_secs: Option<u64>)
    ensures
        final(o)@ == with_limits(old(o)@, max_results, timeout_secs),
{
    let page: usize = if max_results < 10000 {
        max_results
    } else {
        10000
    };
    o.put("limit", Json::count(page));
    o.put("offset", Json::count(0));
    o.put("timeout_secs", Json::opt_number(timeout_secs));
    o.put("_worker_max_results", Json::count(max_results));
}

fn single(t: &str) -> (r: Json)
    ensures
        r@ == texts_v(seq![t@]),
{
    let mut list: Vec<String> = Vec::new();
    list.push(t.to_owned());
    assert(views(list@) =~= seq![t@]);
    Json::texts(&list)
}

/// The arguments of a worker that searches for bytes.
pub fn find_bytes_child_args(pattern: &str, max_results: usize, timeout_secs: Option<u64>) -> (r:
    JsonObject)
    ensures
        r@ == find_bytes_args(pattern@, max_results, timeout_secs),
{
    let mut o = JsonObject::new();
    o.put("patterns", single(pattern));
    put_limits(&mut o, max_results, timeout_secs);
    o
}

/// The arguments of a worker that searches for a text or an immediate value.
pub fn search_child_args(
    target: &str,
    kind: &str,
    max_results: usize,
    timeout_secs: Option<u64>,
) -> (r: JsonObject)
    ensures
        r@ == search_args(target@, kind@, max_results, timeout_secs),
{
    let mut o = JsonObject::new();
    o.put("targets", single(target));
    o.put("kind", Json::text(kind));
    put_limits(&mut o, max_results, timeout_secs);
    o
}

/// What a pool asks a worker for: a tool, its arguments, and the time that it has.
#[derive(Debug)]
pub struct ChildRequest {
    pub tool: String,
    pub args: Json,
    pub timeout_secs: Option<u64>,
}

/// The matches in the answer of a worker that searched for one thing.
pub open spec fn first_matches(value: JsonV, tool: Seq<char>) -> Result<JsonV, ToolErrorV> {
    match field(value, "results"@) {
        Some(JsonV::Arr(results)) => if results.len() == 0 {
            Ok(JsonV::Obj(no_fields().insert("matches"@, JsonV::Arr(seq![]))))
        } else {
            match text_field(results[0], "error"@) {
                Some(e) => Err(ToolErrorOf::IdaError(e)),
                None => match field(results[0], "matches"@) {
                    Some(m) => Ok(JsonV::Obj(no_fields().insert("matches"@, m))),
                    None => Err(
                        ToolErrorOf::RemoteProtocol(
                            tool
                                + " response did not include results[0].matches or results[0].error"@,
                        ),
                    ),
                },
            }
        },
        _ => Err(ToolErrorOf::RemoteProtocol(tool + " response did not include results"@)),
    }
}

fn matches_only(m: Json) -> (r: Json)
    ensures
        r@ == JsonV::Obj(no_fields().insert("matches"@, m@)),
{
    let mut o = JsonObject::new();
    o.put("matches", m);
    Json::Object(o)
}

/// The matches in the answer of a worker that searched for one thing.
pub fn extract_first_matches(value: &Json, tool: &str) -> (r: Result<Json, ToolError>)
    ensures
        match r {
            Ok(v) => first_matches(value@, tool@) == Ok::<JsonV, ToolErrorV>(v@),
            Err(e) => first_matches(value@, tool@) == Err::<JsonV, ToolErrorV>(e@),
        },
{
    let results: Option<&Vec<Json>> = match value.get("results") {
        Some(v) => v.as_array(),
        None => None,
    };
    match results {
        None => {
            let mut m = tool.to_owned();
            m.push_str(" response did not include results");
            Err(ToolErrorOf::RemoteProtocol(m))
        },
        Some(items) => {
            if items.len() == 0 {
                let none: Vec<Json> = Vec::new();
                assert(values_of(none@) =~= seq![]);
                return Ok(matches_only(Json::list(none)));
            }
            assert(values_of(items@)[0] == items[0]@);
            if let Some(e) = items[0].str_field("error") {
                return Err(ToolErrorOf::IdaError(e.clone()));
            }
            match items[0].get("matches") {
                Some(m) => Ok(matches_only(m.copy())),
                None => {
                    let mut m = tool.to_owned();
                    m.push_str(
                        " response did not include results[0].matches or results[0].error",
                    );
                    Err(ToolErrorOf::RemoteProtocol(m))
                },
            }
        },
    }
}

// ---------------------------------------------------------------------------
// Calls
// ---------------------------------------------------------------------------

/// What a worker is asked for, over the types of texts, lists of texts, lists of addresses and
/// bytes.
#[derive(Debug)]
#[allow(inconsistent_fields)]
pub enum WorkerCallOf<T, L, A, B> {
    /// Loads debug information.
    LoadDebugInfo { path: Option<T>, verbose: bool },
    /// How far the automatic analysis has come.
    AnalysisStatus,
    /// A page of the functions.
    ListFunctions { offset: usize, limit: usize, filter: Option<T>, timeout_secs: Option<u64> },
    /// The function with a name.
    ResolveFunction { name: T },
    /// Instructions of a function with a name.
    DisasmByName { name: T, count: usize },
    /// Instructions from an address on.
    Disasm { addr: u64, count: usize },
    /// The pseudocode of a function.
    Decompile { addr: u64 },
    /// The segments.
    Segments,
    /// A page of the strings.
    Strings { offset: usize, limit: usize, filter: Option<T>, timeout_secs: Option<u64> },
    /// A page of the local types.
    LocalTypes { offset: usize, limit: usize, filter: Option<T>, timeout_secs: Option<u64> },
    /// Declares a type.
    DeclareType { decl: T, relaxed: bool, replace: bool, multi: bool },
    /// Gives an address or a stack variable a type.
    ApplyTypes {
        addr: Option<u64>,
        name: Option<T>,
        offset: i64,
        stack_offset: Option<i64>,
        stack_name: Option<T>,
        decl: Option<T>,
        named_type: Option<T>,
        relaxed: bool,
        delay: bool,
        strict: bool,
    },
    /// Guesses a type.
    InferTypes { addr: Option<u64>, name: Option<T>, offset: i64 },
    /// What is known of an address.
    AddrInfo { addr: Option<u64>, name: Option<T>, offset: i64 },
    /// The function around an address.
    FunctionAt { addr: Option<u64>, name: Option<T>, offset: i64 },
    /// The instructions of the function around an address.
    DisasmFunctionAt { addr: Option<u64>, name: Option<T>, offset: i64, count: usize },
    /// Declares a stack variable.
    DeclareStack {
        addr: Option<u64>,
        name: Option<T>,
        offset: i64,
        var_name: Option<T>,
        decl: T,
        relaxed: bool,
    },
    /// Deletes a stack variable.
    DeleteStack { addr: Option<u64>, name: Option<T>, offset: Option<i64>, var_name: Option<T> },
    /// The stack frame of a function.
    StackFrame { addr: u64 },
    /// A page of the structures.
    Structs { offset: usize, limit: usize, filter: Option<T>, timeout_secs: Option<u64> },
    /// The layout of a structure.
    StructInfo { ordinal: Option<u32>, name: Option<T> },
    /// The fields of a structure in memory.
    ReadStruct { addr: u64, ordinal: Option<u32>, name: Option<T> },
    /// The references to an address.
    XrefsTo { addr: u64 },
    /// The references from an address.
    XrefsFrom { addr: u64 },
    /// The references to a structure field.
    XrefsToField {
        ordinal: Option<u32>,
        name: Option<T>,
        member_index: Option<u32>,
        member_name: Option<T>,
        limit: usize,
    },
    /// A page of the imports.
    Imports { offset: usize, limit: usize },
    /// A page of the exports.
    Exports { offset: usize, limit: usize },
    /// The entry points.
    Entrypoints,
    /// Bytes in memory.
    GetBytes { addr: Option<u64>, name: Option<T>, offset: i64, size: usize },
    /// Sets a comment.
    SetComments { addr: Option<u64>, name: Option<T>, offset: i64, comment: T, repeatable: bool },
    /// Renames a symbol.
    Rename { addr: Option<u64>, current_name: Option<T>, new_name: T, flags: i32 },
    /// Overwrites bytes.
    PatchBytes { addr: Option<u64>, name: Option<T>, offset: i64, bytes: B },
    /// Overwrites an instruction.
    PatchAsm { addr: Option<u64>, name: Option<T>, offset: i64, line: T },
    /// The basic blocks of a function.
    BasicBlocks { addr: u64 },
    /// The functions that a function calls.
    Callees { addr: u64 },
    /// The functions that call a function.
    Callers { addr: u64 },
    /// The metadata of the database.
    IdbMeta,
    /// The functions that queries name.
    LookupFuncs { queries: L },
    /// A page of the global names.
    ListGlobals { query: Option<T>, offset: usize, limit: usize, timeout_secs: Option<u64> },
    /// A page of the strings with their references.
    AnalyzeStrings { query: Option<T>, offset: usize, limit: usize, timeout_secs: Option<u64> },
    /// A page of the strings that match.
    FindString {
        query: T,
        exact: bool,
        case_insensitive: bool,
        offset: usize,
        limit: usize,
        timeout_secs: Option<u64>,
    },
    /// The references to the strings that match.
    XrefsToString {
        query: T,
        exact: bool,
        case_insensitive: bool,
        offset: usize,
        limit: usize,
        max_xrefs: usize,
        timeout_secs: Option<u64>,
    },
    /// Runs the automatic analysis.
    AnalyzeFuncs { timeout_secs: Option<u64> },
    /// Runs the automatic analysis and reports its progress.
    AnalyzeFuncsObserved { timeout_secs: Option<u64> },
    /// Runs the automatic analysis for as long as it takes.
    AnalyzeFuncsUnbounded,
    /// The places that match a byte pattern.
    FindBytes { pattern: T, max_results: usize, timeout_secs: Option<u64> },
    /// The places that hold a text.
    SearchText { text: T, max_results: usize, timeout_secs: Option<u64> },
    /// The places that use an immediate value.
    SearchImm { imm: u64, max_results: usize, timeout_secs: Option<u64> },
    /// The places that match instructions.
    FindInsns {
        patterns: L,
        max_results: usize,
        case_insensitive: bool,
        timeout_secs: Option<u64>,
    },
    /// The places that match operands.
    FindInsnOperands {
        patterns: L,
        max_results: usize,
        case_insensitive: bool,
        timeout_secs: Option<u64>,
    },
    /// The integer at an address.
    ReadInt { addr: u64, size: usize },
    /// The string at an address.
    GetString { addr: u64, max_len: usize },
    /// The value of a global.
    GetGlobalValue { query: T },
    /// The paths between two addresses.
    FindPaths { start: u64, end: u64, max_paths: usize, max_depth: usize },
    /// The calls that start at a function.
    Callgraph { addr: u64, max_depth: usize, max_nodes: usize },
    /// Which of some addresses refer to which.
    XrefMatrix { addrs: A },
    /// A page of the functions, for export.
    ExportFuncs { offset: usize, limit: usize },
    /// Runs a script.
    RunScript { code: T, timeout_secs: Option<u64> },
    /// The pseudocode of an address or a range.
    PseudocodeAt { addr: u64, end_addr: Option<u64> },
}

/// What a worker is asked for.
pub type WorkerCall = WorkerCallOf<String, Vec<String>, Vec<u64>, Vec<u8>>;

/// What a [`WorkerCall`] is.
pub type WorkerCallV = WorkerCallOf<Seq<char>, Seq<Seq<char>>, Seq<u64>, Seq<u8>>;

impl View for WorkerCallOf<String, Vec<String>, Vec<u64>, Vec<u8>> {
    type V = WorkerCallV;

    open spec fn view(&self) -> WorkerCallV {
        match self {
            WorkerCallOf::LoadDebugInfo { path, verbose } => WorkerCallOf::LoadDebugInfo {
                path: opt_view(*path),
                verbose: *verbose,
            },
            WorkerCallOf::AnalysisStatus => WorkerCallOf::AnalysisStatus,
            WorkerCallOf::ListFunctions {
                offset,
                limit,
                filter,
                timeout_secs,
            } => WorkerCallOf::ListFunctions {
                offset: *offset,
                limit: *limit,
                filter: opt_view(*filter),
                timeout_secs: *timeout_secs,
            },
            WorkerCallOf::ResolveFunction { name } => WorkerCallOf::ResolveFunction { name: name@ },
            WorkerCallOf::DisasmByName { name, count } => WorkerCallOf::DisasmByName {
                name: name@,
                count: *count,
            },
            WorkerCallOf::Disasm { addr, count } => WorkerCallOf::Disasm {
                addr: *addr,
                count: *count,
            },
            WorkerCallOf::Decompile { addr } => WorkerCallOf::Decompile { addr: *addr },
            WorkerCallOf::Segments => WorkerCallOf::Segments,
            WorkerCallOf::Strings { offset, limit, filter, timeout_secs } => WorkerCallOf::Strings {
                offset: *offset,
                limit: *limit,
                filter: opt_view(*filter),
                timeout_secs: *timeout_secs,
            },
            WorkerCallOf::LocalTypes {
                offset,
                limit,
                filter,
                timeout_secs,
            } => WorkerCallOf::LocalTypes {
                offset: *offset,
                limit: *limit,
                filter: opt_view(*filter),
                timeout_secs: *timeout_secs,
            },
            WorkerCallOf::DeclareType {
                decl,
                relaxed,
                replace,
                multi,
            } => WorkerCallOf::DeclareType {
                decl: decl@,
                relaxed: *relaxed,
                replace: *replace,
                multi: *multi,
            },
            WorkerCallOf::ApplyTypes {
                addr,
                name,
                offset,
                stack_offset,
                stack_name,
                decl,
                named_type,
                relaxed,
                delay,
                strict,
            } => WorkerCallOf::ApplyTypes {
                addr: *addr,
                name: opt_view(*name),
                offset: *offset,
                stack_offset: *stack_offset,
                stack_name: opt_view(*stack_name),
                decl: opt_view(*decl),
                named_type: opt_view(*named_type),
                relaxed: *relaxed,
                delay: *delay,
                strict: *strict,
            },
            WorkerCallOf::InferTypes { addr, name, offset } => WorkerCallOf::InferTypes {
                addr: *addr,
                name: opt_view(*name),
                offset: *offset,
            },
            WorkerCallOf::AddrInfo { addr, name, offset } => WorkerCallOf::AddrInfo {
                addr: *addr,
                name: opt_view(*name),
                offset: *offset,
            },
            WorkerCallOf::FunctionAt { addr, name, offset } => WorkerCallOf::FunctionAt {
                addr: *addr,
                name: opt_view(*name),
                offset: *offset,
            },
            WorkerCallOf::DisasmFunctionAt {
                addr,
                name,
                offset,
                count,
            } => WorkerCallOf::DisasmFunctionAt {
                addr: *addr,
                name: opt_view(*name),
                offset: *offset,
                count: *count,
            },
            WorkerCallOf::DeclareStack {
                addr,
                name,
                offset,
                var_name,
                decl,
                relaxed,
            } => WorkerCallOf::DeclareStack {
                addr: *addr,
                name: opt_view(*name),
                offset: *offset,
                var_name: opt_view(*var_name),
                decl: decl@,
                relaxed: *relaxed,
            },
            WorkerCallOf::DeleteStack {
                addr,
                name,
                offset,
                var_name,
            } => WorkerCallOf::DeleteStack {
                addr: *addr,
                name: opt_view(*name),
                offset: *offset,
                var_name: opt_view(*var_name),
            },
            WorkerCallOf::StackFrame { addr } => WorkerCallOf::StackFrame { addr: *addr },
            WorkerCallOf::Structs { offset, limit, filter, timeout_secs } => WorkerCallOf::Structs {
                offset: *offset,
                limit: *limit,
                filter: opt_view(*filter),
                timeout_secs: *timeout_secs,
            },
            WorkerCallOf::StructInfo { ordinal, name } => WorkerCallOf::StructInfo {
                ordinal: *ordinal,
                name: opt_view(*name),
            },
            WorkerCallOf::ReadStruct { addr, ordinal, name } => WorkerCallOf::ReadStruct {
                addr: *addr,
                ordinal: *ordinal,
                name: opt_view(*name),
            },
            WorkerCallOf::XrefsTo { addr } => WorkerCallOf::XrefsTo { addr: *addr },
            WorkerCallOf::XrefsFrom { addr } => WorkerCallOf::XrefsFrom { addr: *addr },
            WorkerCallOf::XrefsToField {
                ordinal,
                name,
                member_index,
                member_name,
                limit,
            } => WorkerCallOf::XrefsToField {
                ordinal: *ordinal,
                name: opt_view(*name),
                member_index: *member_index,
                member_name: opt_view(*member_name),
                limit: *limit,
            },
            WorkerCallOf::Imports { offset, limit } => WorkerCallOf::Imports {
                offset: *offset,
                limit: *limit,
            },
            WorkerCallOf::Exports { offset, limit } => WorkerCallOf::Exports {
                offset: *offset,
                limit: *limit,
            },
            WorkerCallOf::Entrypoints => WorkerCallOf::Entrypoints,
            WorkerCallOf::GetBytes { addr, name, offset, size } => WorkerCallOf::GetBytes {
                addr: *addr,
                name: opt_view(*name),
                offset: *offset,
                size: *size,
            },
            WorkerCallOf::SetComments {
                addr,
                name,
                offset,
                comment,
                repeatable,
            } => WorkerCallOf::SetComments {
                addr: *addr,
                name: opt_view(*name),
                offset: *offset,
                comment: comment@,
                repeatable: *repeatable,
            },
            WorkerCallOf::Rename { addr, current_name, new_name, flags } => WorkerCallOf::Rename {
                addr: *addr,
                current_name: opt_view(*current_name),
                new_name: new_name@,
                flags: *flags,
            },
            WorkerCallOf::PatchBytes { addr, name, offset, bytes } => WorkerCallOf::PatchBytes {
                addr: *addr,
                name: opt_view(*name),
                offset: *offset,
                bytes: bytes@,
            },
            WorkerCallOf::PatchAsm { addr, name, offset, line } => WorkerCallOf::PatchAsm {
                addr: *addr,
                name: opt_view(*name),
                offset: *offset,
                line: line@,
            },
            WorkerCallOf::BasicBlocks { addr } => WorkerCallOf::BasicBlocks { addr: *addr },
            WorkerCallOf::Callees { addr } => WorkerCallOf::Callees { addr: *addr },
            WorkerCallOf::Callers { addr } => WorkerCallOf::Callers { addr: *addr },
            WorkerCallOf::IdbMeta => WorkerCallOf::IdbMeta,
            WorkerCallOf::LookupFuncs { queries } => WorkerCallOf::LookupFuncs {
                queries: views(queries@),
            },
            WorkerCallOf::ListGlobals {
                query,
                offset,
                limit,
                timeout_secs,
            } => WorkerCallOf::ListGlobals {
                query: opt_view(*query),
                offset: *offset,
                limit: *limit,
                timeout_secs: *timeout_secs,
            },
            WorkerCallOf::AnalyzeStrings {
                query,
                offset,
                limit,
                timeout_secs,
            } => WorkerCallOf::AnalyzeStrings {
                query: opt_view(*query),
                offset: *offset,
                limit: *limit,
                timeout_secs: *timeout_secs,
            },
            WorkerCallOf::FindString {
                query,
                exact,
                case_insensitive,
                offset,
                limit,
                timeout_secs,
            } => WorkerCallOf::FindString {
                query: query@,
                exact: *exact,
                case_insensitive: *case_insensitive,
                offset: *offset,
                limit: *limit,
                timeout_secs: *timeout_secs,
            },
            WorkerCallOf::XrefsToString {
                query,
                exact,
                case_insensitive,
                offset,
                limit,
                max_xrefs,
                timeout_secs,
            } => WorkerCallOf::XrefsToString {
                query: query@,
                exact: *exact,
                case_insensitive: *case_insensitive,
                offset: *offset,
                limit: *limit,
                max_xrefs: *max_xrefs,
                timeout_secs: *timeout_secs,
            },
            WorkerCallOf::AnalyzeFuncs { timeout_secs } => WorkerCallOf::AnalyzeFuncs {
                timeout_secs: *timeout_secs,
            },
            WorkerCallOf::AnalyzeFuncsObserved {
                timeout_secs,
            } => WorkerCallOf::AnalyzeFuncsObserved {
                timeout_secs: *timeout_secs,
            },
            WorkerCallOf::AnalyzeFuncsUnbounded => WorkerCallOf::AnalyzeFuncsUnbounded,
            WorkerCallOf::FindBytes {
                pattern,
                max_results,
                timeout_secs,
            } => WorkerCallOf::FindBytes {
                pattern: pattern@,
                max_results: *max_results,
                timeout_secs: *timeout_secs,
            },
            WorkerCallOf::SearchText {
                text,
                max_results,
                timeout_secs,
            } => WorkerCallOf::SearchText {
                text: text@,
                max_results: *max_results,
                timeout_secs: *timeout_secs,
            },
            WorkerCallOf::SearchImm { imm, max_results, timeout_secs } => WorkerCallOf::SearchImm {
                imm: *imm,
                max_results: *max_results,
                timeout_secs: *timeout_secs,
            },
            WorkerCallOf::FindInsns {
                patterns,
                max_results,
                case_insensitive,
                timeout_secs,
            } => WorkerCallOf::FindInsns {
                patterns: views(patterns@),
                max_results: *max_results,
                case_insensitive: *case_insensitive,
                timeout_secs: *timeout_secs,
            },
            WorkerCallOf::FindInsnOperands {
                patterns,
                max_results,
                case_insensitive,
                timeout_secs,
            } => WorkerCallOf::FindInsnOperands {
                patterns: views(patterns@),
                max_results: *max_results,
                case_insensitive: *case_insensitive,
                timeout_secs: *timeout_secs,
            },
            WorkerCallOf::ReadInt { addr, size } => WorkerCallOf::ReadInt {
                addr: *addr,
                size: *size,
            },
            WorkerCallOf::GetString { addr, max_len } => WorkerCallOf::GetString {
                addr: *addr,
                max_len: *max_len,
            },
            WorkerCallOf::GetGlobalValue { query } => WorkerCallOf::GetGlobalValue {
                query: query@,
            },
            WorkerCallOf::FindPaths {
                start,
                end,
                max_paths,
                max_depth,
            } => WorkerCallOf::FindPaths {
                start: *start,
                end: *end,
                max_paths: *max_paths,
                max_depth: *max_depth,
            },
            WorkerCallOf::Callgraph { addr, max_depth, max_nodes } => WorkerCallOf::Callgraph {
                addr: *addr,
                max_depth: *max_depth,
                max_nodes: *max_nodes,
            },
            WorkerCallOf::XrefMatrix { addrs } => WorkerCallOf::XrefMatrix { addrs: addrs@ },
            WorkerCallOf::ExportFuncs { offset, limit } => WorkerCallOf::ExportFuncs {
                offset: *offset,
                limit: *limit,
            },
            WorkerCallOf::RunScript { code, timeout_secs } => WorkerCallOf::RunScript {
                code: code@,
                timeout_secs: *timeout_secs,
            },
            WorkerCallOf::PseudocodeAt { addr, end_addr } => WorkerCallOf::PseudocodeAt {
                addr: *addr,
                end_addr: *end_addr,
            },
        }
    }
}

/// The tool that a worker is asked for, or why there is none.
pub open spec fn child_tool(call: WorkerCallV) -> Result<Seq<char>, ToolErrorV> {
    match call {
        WorkerCallOf::LoadDebugInfo { .. } => Ok("load_debug_info"@),
        WorkerCallOf::AnalysisStatus => Ok("analysis_status"@),
        WorkerCallOf::ListFunctions { .. } => Ok("list_functions"@),
        WorkerCallOf::ResolveFunction { .. } => Ok("resolve_function"@),
        WorkerCallOf::DisasmByName { .. } => Ok("disasm_by_name"@),
        WorkerCallOf::Disasm { .. } => Ok("disasm"@),
        WorkerCallOf::Decompile { .. } => Ok("decompile"@),
        WorkerCallOf::Segments => Ok("segments"@),
        WorkerCallOf::Strings { .. } => Ok("strings"@),
        WorkerCallOf::LocalTypes { .. } => Ok("local_types"@),
        WorkerCallOf::DeclareType { .. } => Ok("declare_type"@),
        WorkerCallOf::ApplyTypes { .. } => Ok("apply_types"@),
        WorkerCallOf::InferTypes { .. } => Ok("infer_types"@),
        WorkerCallOf::AddrInfo { .. } => Ok("addr_info"@),
        WorkerCallOf::FunctionAt { .. } => Ok("function_at"@),
        WorkerCallOf::DisasmFunctionAt { .. } => Ok("disasm_function_at"@),
        WorkerCallOf::DeclareStack { .. } => Ok("declare_stack"@),
        WorkerCallOf::DeleteStack { .. } => Ok("delete_stack"@),
        WorkerCallOf::StackFrame { .. } => Ok("stack_frame"@),
        WorkerCallOf::Structs { .. } => Ok("structs"@),
        WorkerCallOf::StructInfo { .. } => Ok("struct_info"@),
        WorkerCallOf::ReadStruct { .. } => Ok("read_struct"@),
        WorkerCallOf::XrefsTo { .. } => Ok("xrefs_to"@),
        WorkerCallOf::XrefsFrom { .. } => Ok("xrefs_from"@),
        WorkerCallOf::XrefsToField { .. } => Ok("xrefs_to_field"@),
        WorkerCallOf::Imports { .. } => Ok("imports"@),
        WorkerCallOf::Exports { .. } => Ok("exports"@),
        WorkerCallOf::Entrypoints => Ok("entrypoints"@),
        WorkerCallOf::GetBytes { .. } => Ok("get_bytes"@),
        WorkerCallOf::SetComments { .. } => Ok("set_comments"@),
        WorkerCallOf::Rename { .. } => Ok("rename"@),
        WorkerCallOf::PatchBytes { .. } => Ok("patch"@),
        WorkerCallOf::PatchAsm { .. } => Ok("patch_asm"@),
        WorkerCallOf::BasicBlocks { .. } => Ok("basic_blocks"@),
        WorkerCallOf::Callees { .. } => Ok("callees"@),
        WorkerCallOf::Callers { .. } => Ok("callers"@),
        WorkerCallOf::IdbMeta => Ok("idb_meta"@),
        WorkerCallOf::LookupFuncs { .. } => Ok("lookup_funcs"@),
        WorkerCallOf::ListGlobals { .. } => Ok("list_globals"@),
        WorkerCallOf::AnalyzeStrings { .. } => Ok("analyze_strings"@),
        WorkerCallOf::FindString { .. } => Ok("find_string"@),
        WorkerCallOf::XrefsToString { .. } => Ok("xrefs_to_string"@),
        WorkerCallOf::AnalyzeFuncs { .. } => Ok("analyze_funcs"@),
        WorkerCallOf::AnalyzeFuncsObserved { .. } => Ok("analyze_funcs"@),
        WorkerCallOf::AnalyzeFuncsUnbounded => Ok("analyze_funcs"@),
        WorkerCallOf::FindBytes { .. } => Ok("find_bytes"@),
        WorkerCallOf::SearchText { .. } => Ok("search"@),
        WorkerCallOf::SearchImm { .. } => Ok("search"@),
        WorkerCallOf::FindInsns { .. } => Ok("find_insns"@),
        WorkerCallOf::FindInsnOperands { .. } => Ok("find_insn_operands"@),
        WorkerCallOf::ReadInt { size, .. } => int_tool(size),
        WorkerCallOf::GetString { .. } => Ok("get_string"@),
        WorkerCallOf::GetGlobalValue { .. } => Ok("get_global_value"@),
        WorkerCallOf::FindPaths { .. } => Ok("find_paths"@),
        WorkerCallOf::Callgraph { .. } => Ok("callgraph"@),
        WorkerCallOf::XrefMatrix { .. } => Ok("xref_matrix"@),
        WorkerCallOf::ExportFuncs { .. } => Ok("export_funcs"@),
        WorkerCallOf::RunScript { .. } => Ok("run_script"@),
        WorkerCallOf::PseudocodeAt { .. } => Ok("pseudocode_at"@),
    }
}

/// The arguments of the tool that a worker is asked for.
pub open spec fn child_args(call: WorkerCallV) -> FieldsV {
    match call {
        WorkerCallOf::LoadDebugInfo { path, verbose } => no_fields()
            .insert("path"@, opt_text_v(path))
            .insert("verbose"@, JsonV::Bool(verbose)),
        WorkerCallOf::AnalysisStatus => no_fields(),
        WorkerCallOf::ListFunctions { offset, limit, filter, timeout_secs } => no_fields()
            .insert("offset"@, number_v(offset as nat))
            .insert("limit"@, number_v(limit as nat))
            .insert("filter"@, opt_text_v(filter))
            .insert("timeout_secs"@, opt_number_v(wide_nat(timeout_secs))),
        WorkerCallOf::ResolveFunction { name } => no_fields()
            .insert("name"@, text_v(name)),
        WorkerCallOf::DisasmByName { name, count } => no_fields()
            .insert("name"@, text_v(name))
            .insert("count"@, number_v(count as nat)),
        WorkerCallOf::Disasm { addr, count } => no_fields()
            .insert("address"@, text_v(hex(addr as nat)))
            .insert("count"@, number_v(count as nat)),
        WorkerCallOf::Decompile { addr } => no_fields()
            .insert("address"@, text_v(hex(addr as nat))),
        WorkerCallOf::Segments => no_fields(),
        WorkerCallOf::Strings { offset, limit, filter, timeout_secs } => no_fields()
            .insert("offset"@, number_v(offset as nat))
            .insert("limit"@, number_v(limit as nat))
            .insert("filter"@, opt_text_v(filter))
            .insert("timeout_secs"@, opt_number_v(wide_nat(timeout_secs))),
        WorkerCallOf::LocalTypes { offset, limit, filter, timeout_secs } => no_fields()
            .insert("offset"@, number_v(offset as nat))
            .insert("limit"@, number_v(limit as nat))
            .insert("filter"@, opt_text_v(filter))
            .insert("timeout_secs"@, opt_number_v(wide_nat(timeout_secs))),
        WorkerCallOf::DeclareType { decl, relaxed, replace, multi } => no_fields()
            .insert("decl"@, text_v(decl))
            .insert("relaxed"@, JsonV::Bool(relaxed))
            .insert("replace"@, JsonV::Bool(replace))
            .insert("multi"@, JsonV::Bool(multi)),
        WorkerCallOf::ApplyTypes {
            addr,
            name,
            offset,
            stack_offset,
            stack_name,
            decl,
            named_type,
            relaxed,
            delay,
            strict,
        } => no_fields()
            .insert("address"@, opt_hex_v(addr))
            .insert("target_name"@, opt_text_v(name))
            .insert("offset"@, signed_v(offset))
            .insert("stack_offset"@, opt_signed_v(stack_offset))
            .insert("stack_name"@, opt_text_v(stack_name))
            .insert("decl"@, opt_text_v(decl))
            .insert("type_name"@, opt_text_v(named_type))
            .insert("relaxed"@, JsonV::Bool(relaxed))
            .insert("delay"@, JsonV::Bool(delay))
            .insert("strict"@, JsonV::Bool(strict)),
        WorkerCallOf::InferTypes { addr, name, offset } => no_fields()
            .insert("address"@, opt_hex_v(addr))
            .insert("target_name"@, opt_text_v(name))
            .insert("offset"@, signed_v(offset)),
        WorkerCallOf::AddrInfo { addr, name, offset } => no_fields()
            .insert("address"@, opt_hex_v(addr))
            .insert("target_name"@, opt_text_v(name))
            .insert("offset"@, signed_v(offset)),
        WorkerCallOf::FunctionAt { addr, name, offset } => no_fields()
            .insert("address"@, opt_hex_v(addr))
            .insert("target_name"@, opt_text_v(name))
            .insert("offset"@, signed_v(offset)),
        WorkerCallOf::DisasmFunctionAt { addr, name, offset, count } => no_fields()
            .insert("address"@, opt_hex_v(addr))
            .insert("target_name"@, opt_text_v(name))
            .insert("offset"@, signed_v(offset))
            .insert("count"@, number_v(count as nat)),
        WorkerCallOf::DeclareStack { addr, name, offset, var_name, decl, relaxed } => no_fields()
            .insert("address"@, opt_hex_v(addr))
            .insert("target_name"@, opt_text_v(name))
            .insert("offset"@, signed_v(offset))
            .insert("var_name"@, opt_text_v(var_name))
            .insert("decl"@, text_v(decl))
            .insert("relaxed"@, JsonV::Bool(relaxed)),
        WorkerCallOf::DeleteStack { addr, name, offset, var_name } => no_fields()
            .insert("address"@, opt_hex_v(addr))
            .insert("target_name"@, opt_text_v(name))
            .insert("offset"@, opt_signed_v(offset))
            .insert("var_name"@, opt_text_v(var_name)),
        WorkerCallOf::StackFrame { addr } => no_fields()
            .insert("address"@, text_v(hex(addr as nat))),
        WorkerCallOf::Structs { offset, limit, filter, timeout_secs } => no_fields()
            .insert("offset"@, number_v(offset as nat))
            .insert("limit"@, number_v(limit as nat))
            .insert("filter"@, opt_text_v(filter))
            .insert("timeout_secs"@, opt_number_v(wide_nat(timeout_secs))),
        WorkerCallOf::StructInfo { ordinal, name } => no_fields()
            .insert("ordinal"@, opt_number_v(opt_nat(ordinal)))
            .insert("name"@, opt_text_v(name)),
        WorkerCallOf::ReadStruct { addr, ordinal, name } => no_fields()
            .insert("address"@, text_v(hex(addr as nat)))
            .insert("ordinal"@, opt_number_v(opt_nat(ordinal)))
            .insert("name"@, opt_text_v(name)),
        WorkerCallOf::XrefsTo { addr } => no_fields()
            .insert("address"@, text_v(hex(addr as nat))),
        WorkerCallOf::XrefsFrom { addr } => no_fields()
            .insert("address"@, text_v(hex(addr as nat))),
        WorkerCallOf::XrefsToField {
            ordinal,
            name,
            member_index,
            member_name,
            limit,
        } => no_fields()
            .insert("ordinal"@, opt_number_v(opt_nat(ordinal)))
            .insert("name"@, opt_text_v(name))
            .insert("member_index"@, opt_number_v(opt_nat(member_index)))
            .insert("member_name"@, opt_text_v(member_name))
            .insert("limit"@, number_v(limit as nat)),
        WorkerCallOf::Imports { offset, limit } => no_fields()
            .insert("offset"@, number_v(offset as nat))
            .insert("limit"@, number_v(limit as nat)),
        WorkerCallOf::Exports { offset, limit } => no_fields()
            .insert("offset"@, number_v(offset as nat))
            .insert("limit"@, number_v(limit as nat)),
        WorkerCallOf::Entrypoints => no_fields(),
        WorkerCallOf::GetBytes { addr, name, offset, size } => no_fields()
            .insert("address"@, opt_hex_v(addr))
            .insert("target_name"@, opt_text_v(name))
            .insert("offset"@, signed_v(offset))
            .insert("size"@, number_v(size as nat)),
        WorkerCallOf::SetComments { addr, name, offset, comment, repeatable } => no_fields()
            .insert("address"@, opt_hex_v(addr))
            .insert("target_name"@, opt_text_v(name))
            .insert("offset"@, signed_v(offset))
            .insert("comment"@, text_v(comment))
            .insert("repeatable"@, JsonV::Bool(repeatable)),
        WorkerCallOf::Rename { addr, current_name, new_name, flags } => no_fields()
            .insert("address"@, opt_hex_v(addr))
            .insert("current_name"@, opt_text_v(current_name))
            .insert("name"@, text_v(new_name))
            .insert("flags"@, signed_v(flags as i64)),
        WorkerCallOf::PatchBytes { addr, name, offset, bytes } => no_fields()
            .insert("address"@, opt_hex_v(addr))
            .insert("target_name"@, opt_text_v(name))
            .insert("offset"@, signed_v(offset))
            .insert("bytes"@, bytes_v(bytes)),
        WorkerCallOf::PatchAsm { addr, name, offset, line } => no_fields()
            .insert("address"@, opt_hex_v(addr))
            .insert("target_name"@, opt_text_v(name))
            .insert("offset"@, signed_v(offset))
            .insert("line"@, text_v(line)),
        WorkerCallOf::BasicBlocks { addr } => no_fields()
            .insert("address"@, text_v(hex(addr as nat))),
        WorkerCallOf::Callees { addr } => no_fields()
            .insert("address"@, text_v(hex(addr as nat))),
        WorkerCallOf::Callers { addr } => no_fields()
            .insert("address"@, text_v(hex(addr as nat))),
        WorkerCallOf::IdbMeta => no_fields(),
        WorkerCallOf::LookupFuncs { queries } => no_fields()
            .insert("queries"@, texts_v(queries)),
        WorkerCallOf::ListGlobals { query, offset, limit, timeout_secs } => no_fields()
            .insert("query"@, opt_text_v(query))
            .insert("offset"@, number_v(offset as nat))
            .insert("limit"@, number_v(limit as nat))
            .insert("timeout_secs"@, opt_number_v(wide_nat(timeout_secs))),
        WorkerCallOf::AnalyzeStrings { query, offset, limit, timeout_secs } => no_fields()
            .insert("query"@, opt_text_v(query))
            .insert("offset"@, number_v(offset as nat))
            .insert("limit"@, number_v(limit as nat))
            .insert("timeout_secs"@, opt_number_v(wide_nat(timeout_secs))),
        WorkerCallOf::FindString {
            query,
            exact,
            case_insensitive,
            offset,
            limit,
            timeout_secs,
        } => no_fields()
            .insert("query"@, text_v(query))
            .insert("exact"@, JsonV::Bool(exact))
            .insert("case_insensitive"@, JsonV::Bool(case_insensitive))
            .insert("offset"@, number_v(offset as nat))
            .insert("limit"@, number_v(limit as nat))
            .insert("timeout_secs"@, opt_number_v(wide_nat(timeout_secs))),
        WorkerCallOf::XrefsToString {
            query,
            exact,
            case_insensitive,
            offset,
            limit,
            max_xrefs,
            timeout_secs,
        } => no_fields()
            .insert("query"@, text_v(query))
            .insert("exact"@, JsonV::Bool(exact))
            .insert("case_insensitive"@, JsonV::Bool(case_insensitive))
            .insert("offset"@, number_v(offset as nat))
            .insert("limit"@, number_v(limit as nat))
            .insert("max_xrefs"@, number_v(max_xrefs as nat))
            .insert("timeout_secs"@, opt_number_v(wide_nat(timeout_secs))),
        WorkerCallOf::AnalyzeFuncs { timeout_secs } => no_fields()
            .insert("background"@, JsonV::Bool(false))
            .insert("timeout_secs"@, opt_number_v(wide_nat(timeout_secs))),
        WorkerCallOf::AnalyzeFuncsObserved {
            timeout_secs,
        } => analyze_funcs_args(timeout_secs, false),
        WorkerCallOf::AnalyzeFuncsUnbounded => analyze_funcs_args(None, true),
        WorkerCallOf::FindBytes {
            pattern,
            max_results,
            timeout_secs,
        } => find_bytes_args(pattern, max_results, timeout_secs),
        WorkerCallOf::SearchText {
            text,
            max_results,
            timeout_secs,
        } => search_args(text, "text"@, max_results, timeout_secs),
        WorkerCallOf::SearchImm {
            imm,
            max_results,
            timeout_secs,
        } => search_args(hex(imm as nat), "imm"@, max_results, timeout_secs),
        WorkerCallOf::FindInsns {
            patterns,
            max_results,
            case_insensitive,
            timeout_secs,
        } => no_fields()
            .insert("patterns"@, texts_v(patterns))
            .insert("limit"@, number_v(max_results as nat))
            .insert("case_insensitive"@, JsonV::Bool(case_insensitive))
            .insert("timeout_secs"@, opt_number_v(wide_nat(timeout_secs))),
        WorkerCallOf::FindInsnOperands {
            patterns,
            max_results,
            case_insensitive,
            timeout_secs,
        } => no_fields()
            .insert("patterns"@, texts_v(patterns))
            .insert("limit"@, number_v(max_results as nat))
            .insert("case_insensitive"@, JsonV::Bool(case_insensitive))
            .insert("timeout_secs"@, opt_number_v(wide_nat(timeout_secs))),
        WorkerCallOf::ReadInt { addr, .. } => no_fields()
            .insert("address"@, text_v(hex(addr as nat))),
        WorkerCallOf::GetString { addr, max_len } => no_fields()
            .insert("address"@, text_v(hex(addr as nat)))
            .insert("max_len"@, number_v(max_len as nat)),
        WorkerCallOf::GetGlobalValue { query } => no_fields()
            .insert("query"@, text_v(query)),
        WorkerCallOf::FindPaths { start, end, max_paths, max_depth } => no_fields()
            .insert("start"@, text_v(hex(start as nat)))
            .insert("end"@, text_v(hex(end as nat)))
            .insert("max_paths"@, number_v(max_paths as nat))
            .insert("max_depth"@, number_v(max_depth as nat)),
        WorkerCallOf::Callgraph { addr, max_depth, max_nodes } => no_fields()
            .insert("roots"@, text_v(hex(addr as nat)))
            .insert("max_depth"@, number_v(max_depth as nat))
            .insert("max_nodes"@, number_v(max_nodes as nat)),
        WorkerCallOf::XrefMatrix { addrs } => no_fields()
            .insert("addrs"@, hexes_v(addrs)),
        WorkerCallOf::ExportFuncs { offset, limit } => no_fields()
            .insert("offset"@, number_v(offset as nat))
            .insert("limit"@, number_v(limit as nat))
            .insert("format"@, text_v("json"@)),
        WorkerCallOf::RunScript { code, timeout_secs } => no_fields()
            .insert("code"@, text_v(code))
            .insert("timeout_secs"@, opt_number_v(wide_nat(timeout_secs))),
        WorkerCallOf::PseudocodeAt { addr, end_addr } => no_fields()
            .insert("address"@, text_v(hex(addr as nat)))
            .insert("end_address"@, opt_hex_v(end_addr)),
    }
}

/// The time that a worker is given, where a call gives one.
pub open spec fn child_timeout(call: WorkerCallV) -> Option<u64> {
    match call {
        WorkerCallOf::ListFunctions { timeout_secs, .. } => timeout_secs,
        WorkerCallOf::Strings { timeout_secs, .. } => timeout_secs,
        WorkerCallOf::LocalTypes { timeout_secs, .. } => timeout_secs,
        WorkerCallOf::Structs { timeout_secs, .. } => timeout_secs,
        WorkerCallOf::ListGlobals { timeout_secs, .. } => timeout_secs,
        WorkerCallOf::AnalyzeStrings { timeout_secs, .. } => timeout_secs,
        WorkerCallOf::FindString { timeout_secs, .. } => timeout_secs,
        WorkerCallOf::XrefsToString { timeout_secs, .. } => timeout_secs,
        WorkerCallOf::AnalyzeFuncs { timeout_secs } => timeout_secs,
        WorkerCallOf::AnalyzeFuncsObserved { timeout_secs } => timeout_secs,
        WorkerCallOf::FindBytes { timeout_secs, .. } => timeout_secs,
        WorkerCallOf::SearchText { timeout_secs, .. } => timeout_secs,
        WorkerCallOf::SearchImm { timeout_secs, .. } => timeout_secs,
        WorkerCallOf::FindInsns { timeout_secs, .. } => timeout_secs,
        WorkerCallOf::FindInsnOperands { timeout_secs, .. } => timeout_secs,
        WorkerCallOf::RunScript { timeout_secs, .. } => timeout_secs,
        _ => None,
    }
}

/// The tool, its arguments and the time that a worker is asked for, or why it is not.
pub fn child_request(call: &WorkerCall) -> (r: Result<ChildRequest, ToolError>)
    ensures
        match r {
            Ok(req) => {
                &&& child_tool(call@) == Ok::<Seq<char>, ToolErrorV>(req.tool@)
                &&& req.args@ == JsonV::Obj(child_args(call@))
                &&& req.timeout_secs == child_timeout(call@)
            },
            Err(e) => child_tool(call@) == Err::<Seq<char>, ToolErrorV>(e@),
        },
{
    let mut o = JsonObject::new();
    let mut timeout: Option<u64> = None;
    let tool: &'static str = match call {
        WorkerCallOf::LoadDebugInfo { path, verbose } => {
            o.put("path", Json::opt_text(path));
            o.put("verbose", Json::Bool(*verbose));
            "load_debug_info"
        },
        WorkerCallOf::AnalysisStatus => "analysis_status",
        WorkerCallOf::ListFunctions { offset, limit, filter, timeout_secs } => {
            timeout = *timeout_secs;
            o.put("offset", Json::count(*offset));
            o.put("limit", Json::count(*limit));
            o.put("filter", Json::opt_text(filter));
            o.put("timeout_secs", Json::opt_number(*timeout_secs));
            "list_functions"
        },
        WorkerCallOf::ResolveFunction { name } => {
            o.put("name", Json::text(name.as_str()));
            "resolve_function"
        },
        WorkerCallOf::DisasmByName { name, count } => {
            o.put("name", Json::text(name.as_str()));
            o.put("count", Json::count(*count));
            "disasm_by_name"
        },
        WorkerCallOf::Disasm { addr, count } => {
            o.put("address", Json::Str(hex_text(*addr)));
            o.put("count", Json::count(*count));
            "disasm"
        },
        WorkerCallOf::Decompile { addr } => {
            o.put("address", Json::Str(hex_text(*addr)));
            "decompile"
        },
        WorkerCallOf::Segments => "segments",
        WorkerCallOf::Strings { offset, limit, filter, timeout_secs } => {
            timeout = *timeout_secs;
            o.put("offset", Json::count(*offset));
            o.put("limit", Json::count(*limit));
            o.put("filter", Json::opt_text(filter));
            o.put("timeout_secs", Json::opt_number(*timeout_secs));
            "strings"
        },
        WorkerCallOf::LocalTypes { offset, limit, filter, timeout_secs } => {
            timeout = *timeout_secs;
            o.put("offset", Json::count(*offset));
            o.put("limit", Json::count(*limit));
            o.put("filter", Json::opt_text(filter));
            o.put("timeout_secs", Json::opt_number(*timeout_secs));
            "local_types"
        },
        WorkerCallOf::DeclareType { decl, relaxed, replace, multi } => {
            o.put("decl", Json::text(decl.as_str()));
            o.put("relaxed", Json::Bool(*relaxed));
            o.put("replace", Json::Bool(*replace));
            o.put("multi", Json::Bool(*multi));
            "declare_type"
        },
        WorkerCallOf::ApplyTypes {
            addr,
            name,
            offset,
            stack_offset,
            stack_name,
            decl,
            named_type,
            relaxed,
            delay,
            strict,
        } => {
            o.put("address", opt_hex(*addr));
            o.put("target_name", Json::opt_text(name));
            o.put("offset", Json::signed(*offset));
            o.put("stack_offset", Json::opt_signed(*stack_offset));
            o.put("stack_name", Json::opt_text(stack_name));
            o.put("decl", Json::opt_text(decl));
            o.put("type_name", Json::opt_text(named_type));
            o.put("relaxed", Json::Bool(*relaxed));
            o.put("delay", Json::Bool(*delay));
            o.put("strict", Json::Bool(*strict));
            "apply_types"
        },
        WorkerCallOf::InferTypes { addr, name, offset } => {
            o.put("address", opt_hex(*addr));
            o.put("target_name", Json::opt_text(name));
            o.put("offset", Json::signed(*offset));
            "infer_types"
        },
        WorkerCallOf::AddrInfo { addr, name, offset } => {
            o.put("address", opt_hex(*addr));
            o.put("target_name", Json::opt_text(name));
            o.put("offset", Json::signed(*offset));
            "addr_info"
        },
        WorkerCallOf::FunctionAt { addr, name, offset } => {
            o.put("address", opt_hex(*addr));
            o.put("target_name", Json::opt_text(name));
            o.put("offset", Json::signed(*offset));
            "function_at"
        },
        WorkerCallOf::DisasmFunctionAt { addr, name, offset, count } => {
            o.put("address", opt_hex(*addr));
            o.put("target_name", Json::opt_text(name));
            o.put("offset", Json::signed(*offset));
            o.put("count", Json::count(*count));
            "disasm_function_at"
        },
        WorkerCallOf::DeclareStack { addr, name, offset, var_name, decl, relaxed } => {
            o.put("address", opt_hex(*addr));
            o.put("target_name", Json::opt_text(name));
            o.put("offset", Json::signed(*offset));
            o.put("var_name", Json::opt_text(var_name));
            o.put("decl", Json::text(decl.as_str()));
            o.put("relaxed", Json::Bool(*relaxed));
            "declare_stack"
        },
        WorkerCallOf::DeleteStack { addr, name, offset, var_name } => {
            o.put("address", opt_hex(*addr));
            o.put("target_name", Json::opt_text(name));
            o.put("offset", Json::opt_signed(*offset));
            o.put("var_name", Json::opt_text(var_name));
            "delete_stack"
        },
        WorkerCallOf::StackFrame { addr } => {
            o.put("address", Json::Str(hex_text(*addr)));
            "stack_frame"
        },
        WorkerCallOf::Structs { offset, limit, filter, timeout_secs } => {
            timeout = *timeout_secs;
            o.put("offset", Json::count(*offset));
            o.put("limit", Json::count(*limit));
            o.put("filter", Json::opt_text(filter));
            o.put("timeout_secs", Json::opt_number(*timeout_secs));
            "structs"
        },
        WorkerCallOf::StructInfo { ordinal, name } => {
            o.put("ordinal", Json::opt_number(widen(*ordinal)));
            o.put("name", Json::opt_text(name));
            "struct_info"
        },
        WorkerCallOf::ReadStruct { addr, ordinal, name } => {
            o.put("address", Json::Str(hex_text(*addr)));
            o.put("ordinal", Json::opt_number(widen(*ordinal)));
            o.put("name", Json::opt_text(name));
            "read_struct"
        },
        WorkerCallOf::XrefsTo { addr } => {
            o.put("address", Json::Str(hex_text(*addr)));
            "xrefs_to"
        },
        WorkerCallOf::XrefsFrom { addr } => {
            o.put("address", Json::Str(hex_text(*addr)));
            "xrefs_from"
        },
        WorkerCallOf::XrefsToField { ordinal, name, member_index, member_name, limit } => {
            o.put("ordinal", Json::opt_number(widen(*ordinal)));
            o.put("name", Json::opt_text(name));
            o.put("member_index", Json::opt_number(widen(*member_index)));
            o.put("member_name", Json::opt_text(member_name));
            o.put("limit", Json::count(*limit));
            "xrefs_to_field"
        },
        WorkerCallOf::Imports { offset, limit } => {
            o.put("offset", Json::count(*offset));
            o.put("limit", Json::count(*limit));
            "imports"
        },
        WorkerCallOf::Exports { offset, limit } => {
            o.put("offset", Json::count(*offset));
            o.put("limit", Json::count(*limit));
            "exports"
        },
        WorkerCallOf::Entrypoints => "entrypoints",
        WorkerCallOf::GetBytes { addr, name, offset, size } => {
            o.put("address", opt_hex(*addr));
            o.put("target_name", Json::opt_text(name));
            o.put("offset", Json::signed(*offset));
            o.put("size", Json::count(*size));
            "get_bytes"
        },
        WorkerCallOf::SetComments { addr, name, offset, comment, repeatable } => {
            o.put("address", opt_hex(*addr));
            o.put("target_name", Json::opt_text(name));
            o.put("offset", Json::signed(*offset));
            o.put("comment", Json::text(comment.as_str()));
            o.put("repeatable", Json::Bool(*repeatable));
            "set_comments"
        },
        WorkerCallOf::Rename { addr, current_name, new_name, flags } => {
            o.put("address", opt_hex(*addr));
            o.put("current_name", Json::opt_text(current_name));
            o.put("name", Json::text(new_name.as_str()));
            o.put("flags", Json::signed(*flags as i64));
            "rename"
        },
        WorkerCallOf::PatchBytes { addr, name, offset, bytes } => {
            o.put("address", opt_hex(*addr));
            o.put("target_name", Json::opt_text(name));
            o.put("offset", Json::signed(*offset));
            o.put("bytes", bytes_json(bytes));
            "patch"
        },
        WorkerCallOf::PatchAsm { addr, name, offset, line } => {
            o.put("address", opt_hex(*addr));
            o.put("target_name", Json::opt_text(name));
            o.put("offset", Json::signed(*offset));
            o.put("line", Json::text(line.as_str()));
            "patch_asm"
        },
        WorkerCallOf::BasicBlocks { addr } => {
            o.put("address", Json::Str(hex_text(*addr)));
            "basic_blocks"
        },
        WorkerCallOf::Callees { addr } => {
            o.put("address", Json::Str(hex_text(*addr)));
            "callees"
        },
        WorkerCallOf::Callers { addr } => {
            o.put("address", Json::Str(hex_text(*addr)));
            "callers"
        },
        WorkerCallOf::IdbMeta => "idb_meta",
        WorkerCallOf::LookupFuncs { queries } => {
            o.put("queries", Json::texts(queries));
            "lookup_funcs"
        },
        WorkerCallOf::ListGlobals { query, offset, limit, timeout_secs } => {
            timeout = *timeout_secs;
            o.put("query", Json::opt_text(query));
            o.put("offset", Json::count(*offset));
            o.put("limit", Json::count(*limit));
            o.put("timeout_secs", Json::opt_number(*timeout_secs));
            "list_globals"
        },
        WorkerCallOf::AnalyzeStrings { query, offset, limit, timeout_secs } => {
            timeout = *timeout_secs;
            o.put("query", Json::opt_text(query));
            o.put("offset", Json::count(*offset));
            o.put("limit", Json::count(*limit));
            o.put("timeout_secs", Json::opt_number(*timeout_secs));
            "analyze_strings"
        },
        WorkerCallOf::FindString {
            query,
            exact,
            case_insensitive,
            offset,
            limit,
            timeout_secs,
        } => {
            timeout = *timeout_secs;
            o.put("query", Json::text(query.as_str()));
            o.put("exact", Json::Bool(*exact));
            o.put("case_insensitive", Json::Bool(*case_insensitive));
            o.put("offset", Json::count(*offset));
            o.put("limit", Json::count(*limit));
            o.put("timeout_secs", Json::opt_number(*timeout_secs));
            "find_string"
        },
        WorkerCallOf::XrefsToString {
            query,
            exact,
            case_insensitive,
            offset,
            limit,
            max_xrefs,
            timeout_secs,
        } => {
            timeout = *timeout_secs;
            o.put("query", Json::text(query.as_str()));
            o.put("exact", Json::Bool(*exact));
            o.put("case_insensitive", Json::Bool(*case_insensitive));
            o.put("offset", Json::count(*offset));
            o.put("limit", Json::count(*limit));
            o.put("max_xrefs", Json::count(*max_xrefs));
            o.put("timeout_secs", Json::opt_number(*timeout_secs));
            "xrefs_to_string"
        },
        WorkerCallOf::AnalyzeFuncs { timeout_secs } => {
            timeout = *timeout_secs;
            o.put("background", Json::Bool(false));
            o.put("timeout_secs", Json::opt_number(*timeout_secs));
            "analyze_funcs"
        },
        WorkerCallOf::AnalyzeFuncsObserved { timeout_secs } => {
            timeout = *timeout_secs;
            o = analyze_funcs_child_args(*timeout_secs, false);
            "analyze_funcs"
        },
        WorkerCallOf::AnalyzeFuncsUnbounded => {
            o = analyze_funcs_child_args(None, true);
            "analyze_funcs"
        },
        WorkerCallOf::FindBytes { pattern, max_results, timeout_secs } => {
            timeout = *timeout_secs;
            o = find_bytes_child_args(pattern.as_str(), *max_results, *timeout_secs);
            "find_bytes"
        },
        WorkerCallOf::SearchText { text, max_results, timeout_secs } => {
            timeout = *timeout_secs;
            o = search_child_args(text.as_str(), "text", *max_results, *timeout_secs);
            "search"
        },
        WorkerCallOf::SearchImm { imm, max_results, timeout_secs } => {
            timeout = *timeout_secs;
            o = search_child_args(hex_text(*imm).as_str(), "imm", *max_results, *timeout_secs);
            "search"
        },
        WorkerCallOf::FindInsns { patterns, max_results, case_insensitive, timeout_secs } => {
            timeout = *timeout_secs;
            o.put("patterns", Json::texts(patterns));
            o.put("limit", Json::count(*max_results));
            o.put("case_insensitive", Json::Bool(*case_insensitive));
            o.put("timeout_secs", Json::opt_number(*timeout_secs));
            "find_insns"
        },
        WorkerCallOf::FindInsnOperands {
            patterns,
            max_results,
            case_insensitive,
            timeout_secs,
        } => {
            timeout = *timeout_secs;
            o.put("patterns", Json::texts(patterns));
            o.put("limit", Json::count(*max_results));
            o.put("case_insensitive", Json::Bool(*case_insensitive));
            o.put("timeout_secs", Json::opt_number(*timeout_secs));
            "find_insn_operands"
        },
        WorkerCallOf::ReadInt { addr, size } => {
            let tool: &'static str = read_int_tool(*size)?;
            o.put("address", Json::Str(hex_text(*addr)));
            tool
        },
        WorkerCallOf::GetString { addr, max_len } => {
            o.put("address", Json::Str(hex_text(*addr)));
            o.put("max_len", Json::count(*max_len));
            "get_string"
        },
        WorkerCallOf::GetGlobalValue { query } => {
            o.put("query", Json::text(query.as_str()));
            "get_global_value"
        },
        WorkerCallOf::FindPaths { start, end, max_paths, max_depth } => {
            o.put("start", Json::Str(hex_text(*start)));
            o.put("end", Json::Str(hex_text(*end)));
            o.put("max_paths", Json::count(*max_paths));
            o.put("max_depth", Json::count(*max_depth));
            "find_paths"
        },
        WorkerCallOf::Callgraph { addr, max_depth, max_nodes } => {
            o.put("roots", Json::Str(hex_text(*addr)));
            o.put("max_depth", Json::count(*max_depth));
            o.put("max_nodes", Json::count(*max_nodes));
            "callgraph"
        },
        WorkerCallOf::XrefMatrix { addrs } => {
            o.put("addrs", hexes_json(addrs));
            "xref_matrix"
        },
        WorkerCallOf::ExportFuncs { offset, limit } => {
            o.put("offset", Json::count(*offset));
            o.put("limit", Json::count(*limit));
            o.put("format", Json::text("json"));
            "export_funcs"
        },
        WorkerCallOf::RunScript { code, timeout_secs } => {
            timeout = *timeout_secs;
            o.put("code", Json::text(code.as_str()));
            o.put("timeout_secs", Json::opt_number(*timeout_secs));
            "run_script"
        },
        WorkerCallOf::PseudocodeAt { addr, end_addr } => {
            o.put("address", Json::Str(hex_text(*addr)));
            o.put("end_address", opt_hex(*end_addr));
            "pseudocode_at"
        },
    };
    Ok(ChildRequest { tool: tool.to_owned(), args: Json::Object(o), timeout_secs: timeout })
}

/// The kind of request that a call is in the loop of a worker.
pub open spec fn kind_of(call: WorkerCallV) -> RequestKind {
    match call {
        WorkerCallOf::LoadDebugInfo { .. } => RequestKind::LoadDebugInfo,
        WorkerCallOf::AnalysisStatus => RequestKind::AnalysisStatus,
        WorkerCallOf::ListFunctions { .. } => RequestKind::ListFunctions,
        WorkerCallOf::ResolveFunction { .. } => RequestKind::ResolveFunction,
        WorkerCallOf::DisasmByName { .. } => RequestKind::DisasmByName,
        WorkerCallOf::Disasm { .. } => RequestKind::Disasm,
        WorkerCallOf::Decompile { .. } => RequestKind::Decompile,
        WorkerCallOf::Segments => RequestKind::Segments,
        WorkerCallOf::Strings { .. } => RequestKind::Strings,
        WorkerCallOf::LocalTypes { .. } => RequestKind::LocalTypes,
        WorkerCallOf::DeclareType { .. } => RequestKind::DeclareType,
        WorkerCallOf::ApplyTypes { .. } => RequestKind::ApplyTypes,
        WorkerCallOf::InferTypes { .. } => RequestKind::InferTypes,
        WorkerCallOf::AddrInfo { .. } => RequestKind::AddrInfo,
        WorkerCallOf::FunctionAt { .. } => RequestKind::FunctionAt,
        WorkerCallOf::DisasmFunctionAt { .. } => RequestKind::DisasmFunctionAt,
        WorkerCallOf::DeclareStack { .. } => RequestKind::DeclareStack,
        WorkerCallOf::DeleteStack { .. } => RequestKind::DeleteStack,
        WorkerCallOf::StackFrame { .. } => RequestKind::StackFrame,
        WorkerCallOf::Structs { .. } => RequestKind::Structs,
        WorkerCallOf::StructInfo { .. } => RequestKind::StructInfo,
        WorkerCallOf::ReadStruct { .. } => RequestKind::ReadStruct,
        WorkerCallOf::XrefsTo { .. } => RequestKind::XRefsTo,
        WorkerCallOf::XrefsFrom { .. } => RequestKind::XRefsFrom,
        WorkerCallOf::XrefsToField { .. } => RequestKind::XRefsToField,
        WorkerCallOf::Imports { .. } => RequestKind::Imports,
        WorkerCallOf::Exports { .. } => RequestKind::Exports,
        WorkerCallOf::Entrypoints => RequestKind::Entrypoints,
        WorkerCallOf::GetBytes { .. } => RequestKind::GetBytes,
        WorkerCallOf::SetComments { .. } => RequestKind::SetComments,
        WorkerCallOf::Rename { .. } => RequestKind::Rename,
        WorkerCallOf::PatchBytes { .. } => RequestKind::PatchBytes,
        WorkerCallOf::PatchAsm { .. } => RequestKind::PatchAsm,
        WorkerCallOf::BasicBlocks { .. } => RequestKind::BasicBlocks,
        WorkerCallOf::Callees { .. } => RequestKind::Callees,
        WorkerCallOf::Callers { .. } => RequestKind::Callers,
        WorkerCallOf::IdbMeta => RequestKind::IdbMeta,
        WorkerCallOf::LookupFuncs { .. } => RequestKind::LookupFunctions,
        WorkerCallOf::ListGlobals { .. } => RequestKind::ListGlobals,
        WorkerCallOf::AnalyzeStrings { .. } => RequestKind::AnalyzeStrings,
        WorkerCallOf::FindString { .. } => RequestKind::FindString,
        WorkerCallOf::XrefsToString { .. } => RequestKind::XrefsToString,
        WorkerCallOf::AnalyzeFuncs { .. } => RequestKind::AnalyzeFuncs,
        WorkerCallOf::AnalyzeFuncsObserved { .. } => RequestKind::AnalyzeFuncs,
        WorkerCallOf::AnalyzeFuncsUnbounded => RequestKind::AnalyzeFuncs,
        WorkerCallOf::FindBytes { .. } => RequestKind::FindBytes,
        WorkerCallOf::SearchText { .. } => RequestKind::SearchText,
        WorkerCallOf::SearchImm { .. } => RequestKind::SearchImm,
        WorkerCallOf::FindInsns { .. } => RequestKind::FindInsns,
        WorkerCallOf::FindInsnOperands { .. } => RequestKind::FindInsnOperands,
        WorkerCallOf::ReadInt { .. } => RequestKind::ReadInt,
        WorkerCallOf::GetString { .. } => RequestKind::GetString,
        WorkerCallOf::GetGlobalValue { .. } => RequestKind::GetGlobalValue,
        WorkerCallOf::FindPaths { .. } => RequestKind::FindPaths,
        WorkerCallOf::Callgraph { .. } => RequestKind::CallGraph,
        WorkerCallOf::XrefMatrix { .. } => RequestKind::XrefMatrix,
        WorkerCallOf::ExportFuncs { .. } => RequestKind::ExportFuncs,
        WorkerCallOf::RunScript { .. } => RequestKind::RunScript,
        WorkerCallOf::PseudocodeAt { .. } => RequestKind::PseudocodeAt,
    }
}

/// The kind of request that a call is in the loop of a worker.
pub fn request_kind(call: &WorkerCall) -> (r: RequestKind)
    ensures
        r == kind_of(call@),
{
    match call {
        WorkerCallOf::LoadDebugInfo { .. } => RequestKind::LoadDebugInfo,
        WorkerCallOf::AnalysisStatus => RequestKind::AnalysisStatus,
        WorkerCallOf::ListFunctions { .. } => RequestKind::ListFunctions,
        WorkerCallOf::ResolveFunction { .. } => RequestKind::ResolveFunction,
        WorkerCallOf::DisasmByName { .. } => RequestKind::DisasmByName,
        WorkerCallOf::Disasm { .. } => RequestKind::Disasm,
        WorkerCallOf::Decompile { .. } => RequestKind::Decompile,
        WorkerCallOf::Segments => RequestKind::Segments,
        WorkerCallOf::Strings { .. } => RequestKind::Strings,
        WorkerCallOf::LocalTypes { .. } => RequestKind::LocalTypes,
        WorkerCallOf::DeclareType { .. } => RequestKind::DeclareType,
        WorkerCallOf::ApplyTypes { .. } => RequestKind::ApplyTypes,
        WorkerCallOf::InferTypes { .. } => RequestKind::InferTypes,
        WorkerCallOf::AddrInfo { .. } => RequestKind::AddrInfo,
        WorkerCallOf::FunctionAt { .. } => RequestKind::FunctionAt,
        WorkerCallOf::DisasmFunctionAt { .. } => RequestKind::DisasmFunctionAt,
        WorkerCallOf::DeclareStack { .. } => RequestKind::DeclareStack,
        WorkerCallOf::DeleteStack { .. } => RequestKind::DeleteStack,
        WorkerCallOf::StackFrame { .. } => RequestKind::StackFrame,
        WorkerCallOf::Structs { .. } => RequestKind::Structs,
        WorkerCallOf::StructInfo { .. } => RequestKind::StructInfo,
        WorkerCallOf::ReadStruct { .. } => RequestKind::ReadStruct,
        WorkerCallOf::XrefsTo { .. } => RequestKind::XRefsTo,
        WorkerCallOf::XrefsFrom { .. } => RequestKind::XRefsFrom,
        WorkerCallOf::XrefsToField { .. } => RequestKind::XRefsToField,
        WorkerCallOf::Imports { .. } => RequestKind::Imports,
        WorkerCallOf::Exports { .. } => RequestKind::Exports,
        WorkerCallOf::Entrypoints => RequestKind::Entrypoints,
        WorkerCallOf::GetBytes { .. } => RequestKind::GetBytes,
        WorkerCallOf::SetComments { .. } => RequestKind::SetComments,
        WorkerCallOf::Rename { .. } => RequestKind::Rename,
        WorkerCallOf::PatchBytes { .. } => RequestKind::PatchBytes,
        WorkerCallOf::PatchAsm { .. } => RequestKind::PatchAsm,
        WorkerCallOf::BasicBlocks { .. } => RequestKind::BasicBlocks,
        WorkerCallOf::Callees { .. } => RequestKind::Callees,
        WorkerCallOf::Callers { .. } => RequestKind::Callers,
        WorkerCallOf::IdbMeta => RequestKind::IdbMeta,
        WorkerCallOf::LookupFuncs { .. } => RequestKind::LookupFunctions,
        WorkerCallOf::ListGlobals { .. } => RequestKind::ListGlobals,
        WorkerCallOf::AnalyzeStrings { .. } => RequestKind::AnalyzeStrings,
        WorkerCallOf::FindString { .. } => RequestKind::FindString,
        WorkerCallOf::XrefsToString { .. } => RequestKind::XrefsToString,
        WorkerCallOf::AnalyzeFuncs { .. } => RequestKind::AnalyzeFuncs,
        WorkerCallOf::AnalyzeFuncsObserved { .. } => RequestKind::AnalyzeFuncs,
        WorkerCallOf::AnalyzeFuncsUnbounded => RequestKind::AnalyzeFuncs,
        WorkerCallOf::FindBytes { .. } => RequestKind::FindBytes,
        WorkerCallOf::SearchText { .. } => RequestKind::SearchText,
        WorkerCallOf::SearchImm { .. } => RequestKind::SearchImm,
        WorkerCallOf::FindInsns { .. } => RequestKind::FindInsns,
        WorkerCallOf::FindInsnOperands { .. } => RequestKind::FindInsnOperands,
        WorkerCallOf::ReadInt { .. } => RequestKind::ReadInt,
        WorkerCallOf::GetString { .. } => RequestKind::GetString,
        WorkerCallOf::GetGlobalValue { .. } => RequestKind::GetGlobalValue,
        WorkerCallOf::FindPaths { .. } => RequestKind::FindPaths,
        WorkerCallOf::Callgraph { .. } => RequestKind::CallGraph,
        WorkerCallOf::XrefMatrix { .. } => RequestKind::XrefMatrix,
        WorkerCallOf::ExportFuncs { .. } => RequestKind::ExportFuncs,
        WorkerCallOf::RunScript { .. } => RequestKind::RunScript,
        WorkerCallOf::PseudocodeAt { .. } => RequestKind::PseudocodeAt,
    }
}

/// Every call is a request that a handler answers.
pub proof fn lemma_calls_have_handlers(call: WorkerCallV)
    ensures
        crate::worker_loop::handler_of(kind_of(call)) is Some,
{
}

/// A pool asks for no more results than a page holds, whatever it wants itself.
pub proof fn lemma_page_limit(max_results: usize)
    ensures
        page_limit(max_results) <= 10000,
        page_limit(max_results) <= max_results,
{
}

/// A call is handled in the worker by the handler that has the name of its tool.
pub proof fn lemma_tools_have_their_handlers(call: WorkerCallV)
    requires
        !(call is PatchBytes || call is SearchText || call is SearchImm || call is ExportFuncs || call
            is ReadInt),
    ensures
        child_tool(call) matches Ok(tool) && crate::worker_loop::handler_of(kind_of(call)) == Some(
            "handle_"@ + tool,
        ),
{
    reveal_strlit("handle_");
    match call {
        WorkerCallOf::LoadDebugInfo { .. } => {
            reveal_strlit("load_debug_info");
            reveal_strlit("handle_load_debug_info");
            assert("handle_"@ + "load_debug_info"@ =~= "handle_load_debug_info"@);
        },
        WorkerCallOf::AnalysisStatus => {
            reveal_strlit("analysis_status");
            reveal_strlit("handle_analysis_status");
            assert("handle_"@ + "analysis_status"@ =~= "handle_analysis_status"@);
        },
        WorkerCallOf::ListFunctions { .. } => {
            reveal_strlit("list_functions");
            reveal_strlit("handle_list_functions");
            assert("handle_"@ + "list_functions"@ =~= "handle_list_functions"@);
        },
        WorkerCallOf::ResolveFunction { .. } => {
            reveal_strlit("resolve_function");
            reveal_strlit("handle_resolve_function");
            assert("handle_"@ + "resolve_function"@ =~= "handle_resolve_function"@);
        },
        WorkerCallOf::DisasmByName { .. } => {
            reveal_strlit("disasm_by_name");
            reveal_strlit("handle_disasm_by_name");
            assert("handle_"@ + "disasm_by_name"@ =~= "handle_disasm_by_name"@);
        },
        WorkerCallOf::Disasm { .. } => {
            reveal_strlit("disasm");
            reveal_strlit("handle_disasm");
            assert("handle_"@ + "disasm"@ =~= "handle_disasm"@);
        },
        WorkerCallOf::Decompile { .. } => {
            reveal_strlit("decompile");
            reveal_strlit("handle_decompile");
            assert("handle_"@ + "decompile"@ =~= "handle_decompile"@);
        },
        WorkerCallOf::Segments => {
            reveal_strlit("segments");
            reveal_strlit("handle_segments");
            assert("handle_"@ + "segments"@ =~= "handle_segments"@);
        },
        WorkerCallOf::Strings { .. } => {
            reveal_strlit("strings");
            reveal_strlit("handle_strings");
            assert("handle_"@ + "strings"@ =~= "handle_strings"@);
        },
        WorkerCallOf::LocalTypes { .. } => {
            reveal_strlit("local_types");
            reveal_strlit("handle_local_types");
            assert("handle_"@ + "local_types"@ =~= "handle_local_types"@);
        },
        WorkerCallOf::DeclareType { .. } => {
            reveal_strlit("declare_type");
            reveal_strlit("handle_declare_type");
            assert("handle_"@ + "declare_type"@ =~= "handle_declare_type"@);
        },
        WorkerCallOf::ApplyTypes { .. } => {
            reveal_strlit("apply_types");
            reveal_strlit("handle_apply_types");
            assert("handle_"@ + "apply_types"@ =~= "handle_apply_types"@);
        },
        WorkerCallOf::InferTypes { .. } => {
            reveal_strlit("infer_types");
            reveal_strlit("handle_infer_types");
            assert("handle_"@ + "infer_types"@ =~= "handle_infer_types"@);
        },
        WorkerCallOf::AddrInfo { .. } => {
            reveal_strlit("addr_info");
            reveal_strlit("handle_addr_info");
            assert("handle_"@ + "addr_info"@ =~= "handle_addr_info"@);
        },
        WorkerCallOf::FunctionAt { .. } => {
            reveal_strlit("function_at");
            reveal_strlit("handle_function_at");
            assert("handle_"@ + "function_at"@ =~= "handle_function_at"@);
        },
        WorkerCallOf::DisasmFunctionAt { .. } => {
            reveal_strlit("disasm_function_at");
            reveal_strlit("handle_disasm_function_at");
            assert("handle_"@ + "disasm_function_at"@ =~= "handle_disasm_function_at"@);
        },
        WorkerCallOf::DeclareStack { .. } => {
            reveal_strlit("declare_stack");
            reveal_strlit("handle_declare_stack");
            assert("handle_"@ + "declare_stack"@ =~= "handle_declare_stack"@);
        },
        WorkerCallOf::DeleteStack { .. } => {
            reveal_strlit("delete_stack");
            reveal_strlit("handle_delete_stack");
            assert("handle_"@ + "delete_stack"@ =~= "handle_delete_stack"@);
        },
        WorkerCallOf::StackFrame { .. } => {
            reveal_strlit("stack_frame");
            reveal_strlit("handle_stack_frame");
            assert("handle_"@ + "stack_frame"@ =~= "handle_stack_frame"@);
        },
        WorkerCallOf::Structs { .. } => {
            reveal_strlit("structs");
            reveal_strlit("handle_structs");
            assert("handle_"@ + "structs"@ =~= "handle_structs"@);
        },
        WorkerCallOf::StructInfo { .. } => {
            reveal_strlit("struct_info");
            reveal_strlit("handle_struct_info");
            assert("handle_"@ + "struct_info"@ =~= "handle_struct_info"@);
        },
        WorkerCallOf::ReadStruct { .. } => {
            reveal_strlit("read_struct");
            reveal_strlit("handle_read_struct");
            assert("handle_"@ + "read_struct"@ =~= "handle_read_struct"@);
        },
        WorkerCallOf::XrefsTo { .. } => {
            reveal_strlit("xrefs_to");
            reveal_strlit("handle_xrefs_to");
            assert("handle_"@ + "xrefs_to"@ =~= "handle_xrefs_to"@);
        },
        WorkerCallOf::XrefsFrom { .. } => {
            reveal_strlit("xrefs_from");
            reveal_strlit("handle_xrefs_from");
            assert("handle_"@ + "xrefs_from"@ =~= "handle_xrefs_from"@);
        },
        WorkerCallOf::XrefsToField { .. } => {
            reveal_strlit("xrefs_to_field");
            reveal_strlit("handle_xrefs_to_field");
            assert("handle_"@ + "xrefs_to_field"@ =~= "handle_xrefs_to_field"@);
        },
        WorkerCallOf::Imports { .. } => {
            reveal_strlit("imports");
            reveal_strlit("handle_imports");
            assert("handle_"@ + "imports"@ =~= "handle_imports"@);
        },
        WorkerCallOf::Exports { .. } => {
            reveal_strlit("exports");
            reveal_strlit("handle_exports");
            assert("handle_"@ + "exports"@ =~= "handle_exports"@);
        },
        WorkerCallOf::Entrypoints => {
            reveal_strlit("entrypoints");
            reveal_strlit("handle_entrypoints");
            assert("handle_"@ + "entrypoints"@ =~= "handle_entrypoints"@);
        },
        WorkerCallOf::GetBytes { .. } => {
            reveal_strlit("get_bytes");
            reveal_strlit("handle_get_bytes");
            assert("handle_"@ + "get_bytes"@ =~= "handle_get_bytes"@);
        },
        WorkerCallOf::SetComments { .. } => {
            reveal_strlit("set_comments");
            reveal_strlit("handle_set_comments");
            assert("handle_"@ + "set_comments"@ =~= "handle_set_comments"@);
        },
        WorkerCallOf::Rename { .. } => {
            reveal_strlit("rename");
            reveal_strlit("handle_rename");
            assert("handle_"@ + "rename"@ =~= "handle_rename"@);
        },
        WorkerCallOf::PatchAsm { .. } => {
            reveal_strlit("patch_asm");
            reveal_strlit("handle_patch_asm");
            assert("handle_"@ + "patch_asm"@ =~= "handle_patch_asm"@);
        },
        WorkerCallOf::BasicBlocks { .. } => {
            reveal_strlit("basic_blocks");
            reveal_strlit("handle_basic_blocks");
            assert("handle_"@ + "basic_blocks"@ =~= "handle_basic_blocks"@);
        },
        WorkerCallOf::Callees { .. } => {
            reveal_strlit("callees");
            reveal_strlit("handle_callees");
            assert("handle_"@ + "callees"@ =~= "handle_callees"@);
        },
        WorkerCallOf::Callers { .. } => {
            reveal_strlit("callers");
            reveal_strlit("handle_callers");
            assert("handle_"@ + "callers"@ =~= "handle_callers"@);
        },
        WorkerCallOf::IdbMeta => {
            reveal_strlit("idb_meta");
            reveal_strlit("handle_idb_meta");
            assert("handle_"@ + "idb_meta"@ =~= "handle_idb_meta"@);
        },
        WorkerCallOf::LookupFuncs { .. } => {
            reveal_strlit("lookup_funcs");
            reveal_strlit("handle_lookup_funcs");
            assert("handle_"@ + "lookup_funcs"@ =~= "handle_lookup_funcs"@);
        },
        WorkerCallOf::ListGlobals { .. } => {
            reveal_strlit("list_globals");
            reveal_strlit("handle_list_globals");
            assert("handle_"@ + "list_globals"@ =~= "handle_list_globals"@);
        },
        WorkerCallOf::AnalyzeStrings { .. } => {
            reveal_strlit("analyze_strings");
            reveal_strlit("handle_analyze_strings");
            assert("handle_"@ + "analyze_strings"@ =~= "handle_analyze_strings"@);
        },
        WorkerCallOf::FindString { .. } => {
            reveal_strlit("find_string");
            reveal_strlit("handle_find_string");
            assert("handle_"@ + "find_string"@ =~= "handle_find_string"@);
        },
        WorkerCallOf::XrefsToString { .. } => {
            reveal_strlit("xrefs_to_string");
            reveal_strlit("handle_xrefs_to_string");
            assert("handle_"@ + "xrefs_to_string"@ =~= "handle_xrefs_to_string"@);
        },
        WorkerCallOf::AnalyzeFuncs { .. } => {
            reveal_strlit("analyze_funcs");
            reveal_strlit("handle_analyze_funcs");
            assert("handle_"@ + "analyze_funcs"@ =~= "handle_analyze_funcs"@);
        },
        WorkerCallOf::AnalyzeFuncsObserved { .. } => {
            reveal_strlit("analyze_funcs");
            reveal_strlit("handle_analyze_funcs");
            assert("handle_"@ + "analyze_funcs"@ =~= "handle_analyze_funcs"@);
        },
        WorkerCallOf::AnalyzeFuncsUnbounded => {
            reveal_strlit("analyze_funcs");
            reveal_strlit("handle_analyze_funcs");
            assert("handle_"@ + "analyze_funcs"@ =~= "handle_analyze_funcs"@);
        },
        WorkerCallOf::FindBytes { .. } => {
            reveal_strlit("find_bytes");
            reveal_strlit("handle_find_bytes");
            assert("handle_"@ + "find_bytes"@ =~= "handle_find_bytes"@);
        },
        WorkerCallOf::FindInsns { .. } => {
            reveal_strlit("find_insns");
            reveal_strlit("handle_find_insns");
            assert("handle_"@ + "find_insns"@ =~= "handle_find_insns"@);
        },
        WorkerCallOf::FindInsnOperands { .. } => {
            reveal_strlit("find_insn_operands");
            reveal_strlit("handle_find_insn_operands");
            assert("handle_"@ + "find_insn_operands"@ =~= "handle_find_insn_operands"@);
        },
        WorkerCallOf::GetString { .. } => {
            reveal_strlit("get_string");
            reveal_strlit("handle_get_string");
            assert("handle_"@ + "get_string"@ =~= "handle_get_string"@);
        },
        WorkerCallOf::GetGlobalValue { .. } => {
            reveal_strlit("get_global_value");
            reveal_strlit("handle_get_global_value");
            assert("handle_"@ + "get_global_value"@ =~= "handle_get_global_value"@);
        },
        WorkerCallOf::FindPaths { .. } => {
            reveal_strlit("find_paths");
            reveal_strlit("handle_find_paths");
            assert("handle_"@ + "find_paths"@ =~= "handle_find_paths"@);
        },
        WorkerCallOf::Callgraph { .. } => {
            reveal_strlit("callgraph");
            reveal_strlit("handle_callgraph");
            assert("handle_"@ + "callgraph"@ =~= "handle_callgraph"@);
        },
        WorkerCallOf::XrefMatrix { .. } => {
            reveal_strlit("xref_matrix");
            reveal_strlit("handle_xref_matrix");
            assert("handle_"@ + "xref_matrix"@ =~= "handle_xref_matrix"@);
        },
        WorkerCallOf::RunScript { .. } => {
            reveal_strlit("run_script");
            reveal_strlit("handle_run_script");
            assert("handle_"@ + "run_script"@ =~= "handle_run_script"@);
        },
        WorkerCallOf::PseudocodeAt { .. } => {
            reveal_strlit("pseudocode_at");
            reveal_strlit("handle_pseudocode_at");
            assert("handle_"@ + "pseudocode_at"@ =~= "handle_pseudocode_at"@);
        },
        _ => {},
    }
}

/// An integer is read by the tool for its size in bytes; no other size is read.
pub proof fn lemma_integer_tools(size: usize)
    ensures
        int_tool(1) == Ok::<Seq<char>, ToolErrorV>("get_u8"@),
        int_tool(2) == Ok::<Seq<char>, ToolErrorV>("get_u16"@),
        int_tool(4) == Ok::<Seq<char>, ToolErrorV>("get_u32"@),
        int_tool(8) == Ok::<Seq<char>, ToolErrorV>("get_u64"@),
        int_tool(size) is Ok <==> size == 1 || size == 2 || size == 4 || size == 8,
{
}

/// The time that a call has is told to the worker too.
pub proof fn lemma_time_is_sent(call: WorkerCallV)
    ensures
        child_timeout(call) matches Some(t) ==> child_args(call)["timeout_secs"@] == JsonV::Num(
            NumV::Unsigned(t),
        ),
{
    reveal_strlit("timeout_secs");
    reveal_strlit("_worker_no_timeout");
    reveal_strlit("_worker_max_results");
    assert("timeout_secs"@.len() == 12);
    assert("_worker_no_timeout"@.len() == 18);
    assert("_worker_max_results"@.len() == 19);
}

/// A search of a worker starts at the first match and asks for as many as a page
/// holds, up to what the pool wants; what the pool wants is told too.
pub proof fn lemma_search_limits_sent(
    pattern: Seq<char>,
    kind: Seq<char>,
    max_results: usize,
    timeout_secs: Option<u64>,
)
    ensures
        forall|m: FieldsV|
            #![trigger m["limit"@]]
            m == find_bytes_args(pattern, max_results, timeout_secs) || m == search_args(
                pattern,
                kind,
                max_results,
                timeout_secs,
            ) ==> {
                &&& m["offset"@] == JsonV::Num(NumV::Unsigned(0))
                &&& m["limit"@] == JsonV::Num(
                    NumV::Unsigned(if max_results < 10000 { max_results as u64 } else { 10000 }),
                )
                &&& m["_worker_max_results"@] == JsonV::Num(NumV::Unsigned(max_results as u64))
            },
        find_bytes_args(pattern, max_results, timeout_secs)["patterns"@] == JsonV::Arr(
            seq![JsonV::Str(pattern)],
        ),
        search_args(pattern, kind, max_results, timeout_secs)["targets"@] == JsonV::Arr(
            seq![JsonV::Str(pattern)],
        ),
        search_args(pattern, kind, max_results, timeout_secs)["kind"@] == JsonV::Str(kind),
{
    reveal_strlit("limit");
    reveal_strlit("offset");
    reveal_strlit("timeout_secs");
    reveal_strlit("_worker_max_results");
    reveal_strlit("patterns");
    reveal_strlit("targets");
    reveal_strlit("kind");
    assert("limit"@.len() == 5);
    assert("offset"@.len() == 6);
    assert("timeout_secs"@.len() == 12);
    assert("_worker_max_results"@.len() == 19);
    assert("patterns"@.len() == 8);
    assert("targets"@.len() == 7);
    assert("kind"@.len() == 4);
    assert(seq![pattern].map_values(|s: Seq<char>| JsonV::Str(s)) =~= seq![JsonV::Str(pattern)]);
}

/// What a worker is told of an open: every part of it, under its name.
pub proof fn lemma_open_is_sent_whole(c: ChildOpen)
    ensures
        ({
            let m = open_args(c);
            &&& m["path"@] == JsonV::Str(c.path@)
            &&& m["load_debug_info"@] == JsonV::Bool(c.load_debug_info)
            &&& m["debug_info_verbose"@] == JsonV::Bool(c.debug_info_verbose)
            &&& m["force"@] == JsonV::Bool(c.force)
            &&& m["rebuild"@] == JsonV::Bool(c.rebuild)
            &&& m["auto_analyse"@] == JsonV::Bool(c.auto_analyse)
            &&& c.debug_info_path is Some ==> m["debug_info_path"@] == JsonV::Str(
                c.debug_info_path->0@,
            )
            &&& c.debug_info_path is None ==> m["debug_info_path"@] == JsonV::Null
            &&& c.file_type is Some ==> m["file_type"@] == JsonV::Str(c.file_type->0@)
            &&& c.file_type is None ==> m["file_type"@] == JsonV::Null
            &&& c.timeout_secs is Some ==> m["timeout_secs"@] == JsonV::Num(
                NumV::Unsigned(c.timeout_secs->0),
            )
            &&& c.timeout_secs is None ==> m["timeout_secs"@] == JsonV::Null
            &&& m["_worker_extra_args"@] matches JsonV::Arr(items) && items.len()
                == c.extra_args.len() && forall|i: int|
                0 <= i < items.len() ==> #[trigger] items[i] == JsonV::Str(c.extra_args[i]@)
        }),
{
    reveal_strlit("path");
    reveal_strlit("load_debug_info");
    reveal_strlit("debug_info_path");
    reveal_strlit("debug_info_verbose");
    reveal_strlit("force");
    reveal_strlit("rebuild");
    reveal_strlit("file_type");
    reveal_strlit("auto_analyse");
    reveal_strlit("_worker_extra_args");
    reveal_strlit("timeout_secs");
    assert("path"@.len() == 4);
    assert("load_debug_info"@.len() == 15);
    assert("debug_info_path"@.len() == 15);
    assert("debug_info_verbose"@.len() == 18);
    assert("force"@.len() == 5);
    assert("rebuild"@.len() == 7);
    assert("file_type"@.len() == 9);
    assert("auto_analyse"@.len() == 12);
    assert("_worker_extra_args"@.len() == 18);
    assert("timeout_secs"@.len() == 12);
    assert("debug_info_path"@[0] == 'd');
    assert("load_debug_info"@[0] == 'l');
    assert("_worker_extra_args"@[0] == '_');
    assert("debug_info_verbose"@[0] == 'd');
    assert("timeout_secs"@[0] == 't');
    assert("auto_analyse"@[0] == 'a');
}

} // verus!
