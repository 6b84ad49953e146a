//! From an operation name and its parameters to the analysis request that they stand for.

use crate::bytes::{
    byte_len, hex_encoded, lemma_hex_read_back, pair_bytes, parse_hex_bytes, without_white,
};
use crate::json::{
    bool_in, field, list_in, signed_in, text_field, text_in, unsigned_in, values_of,
    FieldsV, Json, JsonV, NumV,
};
use crate::numbers::{address, decimal, hex, lemma_address_read_back, parse_addr};
use crate::text::{opt_view, same, trimmed, views};
use vstd::prelude::*;

verus! {

// ---------------------------------------------------------------------------
// Parameters
// ---------------------------------------------------------------------------

/// The text of a required parameter.
pub open spec fn need_text(p: JsonV, key: Seq<char>) -> Result<Seq<char>, Seq<char>> {
    match text_field(p, key) {
        Some(s) => Ok(s),
        None => Err("Missing parameter: "@ + key),
    }
}

/// The address in a text.
pub open spec fn addr_in(s: Seq<char>) -> Result<u64, Seq<char>> {
    match address(s) {
        Some(a) => Ok(a),
        None => Err("Invalid address: "@ + trimmed(s)),
    }
}

/// The address of a required parameter.
pub open spec fn need_addr(p: JsonV, key: Seq<char>) -> Result<u64, Seq<char>> {
    match need_text(p, key) {
        Ok(s) => addr_in(s),
        Err(e) => Err(e),
    }
}

/// The address of a parameter that may be left out.
pub open spec fn opt_addr(p: JsonV, key: Seq<char>) -> Result<Option<u64>, Seq<char>> {
    match text_field(p, key) {
        Some(s) => match addr_in(s) {
            Ok(a) => Ok(Some(a)),
            Err(e) => Err(e),
        },
        None => Ok(None),
    }
}

/// The count of a parameter, or a default where it is left out or no unsigned integer.
pub open spec fn usize_or(p: JsonV, key: Seq<char>, default: usize) -> usize {
    match field(p, key) {
        Some(v) => match unsigned_in(v) {
            Some(n) => n as usize,
            None => default,
        },
        None => default,
    }
}

/// The boolean of a parameter, or a default where it is left out or no boolean.
pub open spec fn bool_or(p: JsonV, key: Seq<char>, default: bool) -> bool {
    match field(p, key) {
        Some(v) => match bool_in(v) {
            Some(b) => b,
            None => default,
        },
        None => default,
    }
}

/// The signed integer of a parameter, if it is there and is one.
pub open spec fn signed_field(p: JsonV, key: Seq<char>) -> Option<i64> {
    match field(p, key) {
        Some(v) => signed_in(v),
        None => None,
    }
}

/// The signed integer of a parameter, or a default.
pub open spec fn signed_or(p: JsonV, key: Seq<char>, default: i64) -> i64 {
    match signed_field(p, key) {
        Some(n) => n,
        None => default,
    }
}

/// The type ordinal of a parameter, if it is there and is an unsigned integer.
pub open spec fn ordinal_field(p: JsonV, key: Seq<char>) -> Option<u32> {
    match field(p, key) {
        Some(v) => match unsigned_in(v) {
            Some(n) => Some(n as u32),
            None => None,
        },
        None => None,
    }
}

/// The texts among the items of a list, in order.
pub open spec fn texts_among(items: Seq<JsonV>) -> Seq<Seq<char>>
    decreases items.len(),
{
    if items.len() == 0 {
        seq![]
    } else {
        match text_in(items.last()) {
            Some(s) => texts_among(items.drop_last()).push(s),
            None => texts_among(items.drop_last()),
        }
    }
}

/// The texts in the list that a parameter holds; none where it holds no list.
pub open spec fn texts_in(p: JsonV, key: Seq<char>) -> Seq<Seq<char>> {
    match field(p, key) {
        Some(v) => match list_in(v) {
            Some(items) => texts_among(items),
            None => seq![],
        },
        None => seq![],
    }
}

/// The addresses in texts, or why the first bad one is none.
pub open spec fn addrs_in(texts: Seq<Seq<char>>) -> Result<Seq<u64>, Seq<char>>
    decreases texts.len(),
{
    if texts.len() == 0 {
        Ok(seq![])
    } else {
        match addrs_in(texts.drop_last()) {
            Err(e) => Err(e),
            Ok(front) => match addr_in(texts.last()) {
                Err(e) => Err(e),
                Ok(a) => Ok(front.push(a)),
            },
        }
    }
}

/// The addresses in the list that a parameter holds.
pub open spec fn need_addrs(p: JsonV, key: Seq<char>) -> Result<Seq<u64>, Seq<char>> {
    addrs_in(texts_in(p, key))
}

/// The bytes that a text of hexadecimal digits stands for.
pub open spec fn bytes_in(s: Seq<char>) -> Result<Seq<u8>, Seq<char>> {
    let t = without_white(s);
    if byte_len(t) % 2 == 1 {
        Err("Hex bytes string has odd length"@)
    } else {
        match pair_bytes(t, 0) {
            Ok(bytes) => Ok(bytes),
            Err(at) => Err("Invalid hex byte at position "@ + decimal(at as nat)),
        }
    }
}

/// The bytes of a required parameter in hexadecimal.
pub open spec fn need_bytes(p: JsonV, key: Seq<char>) -> Result<Seq<u8>, Seq<char>> {
    match need_text(p, key) {
        Ok(s) => bytes_in(s),
        Err(e) => Err(e),
    }
}

/// The value, or the nearer of the two bounds where it lies outside them.
pub open spec fn clamped(v: usize, low: usize, high: usize) -> usize {
    if v < low {
        low
    } else if v > high {
        high
    } else {
        v
    }
}

/// A place in the code: the name of a function, or an address.
#[derive(Debug)]
pub enum Place<T> {
    Name(T),
    Addr(u64),
}

impl View for Place<String> {
    type V = Place<Seq<char>>;

    open spec fn view(&self) -> Place<Seq<char>> {
        match self {
            Place::Name(n) => Place::Name(n@),
            Place::Addr(a) => Place::Addr(*a),
        }
    }
}

/// The place that the parameters give: by name where there is one, else by address.
pub open spec fn need_place(p: JsonV) -> Result<Place<Seq<char>>, Seq<char>> {
    match text_field(p, "name"@) {
        Some(n) => Ok(Place::Name(n)),
        None => match need_addr(p, "address"@) {
            Ok(a) => Ok(Place::Addr(a)),
            Err(e) => Err(e),
        },
    }
}

/// A result with the error's text in place of the error.
pub open spec fn err_view<V>(r: Result<V, String>) -> Result<V, Seq<char>> {
    match r {
        Ok(v) => Ok(v),
        Err(e) => Err(e@),
    }
}

/// The text of a required parameter.
pub fn param_str(p: &Json, key: &str) -> (r: Result<String, String>)
    ensures
        match r {
            Ok(s) => need_text(p@, key@) == Ok::<Seq<char>, Seq<char>>(s@),
            Err(e) => need_text(p@, key@) == Err::<Seq<char>, Seq<char>>(e@),
        },
{
    match p.str_field(key) {
        Some(s) => Ok(s.clone()),
        None => {
            let mut e = "Missing parameter: ".to_owned();
            e.push_str(key);
            Err(e)
        },
    }
}

/// The text of a parameter that may be left out.
pub fn param_opt_str(p: &Json, key: &str) -> (r: Option<String>)
    ensures
        opt_view(r) == text_field(p@, key@),
{
    match p.str_field(key) {
        Some(s) => Some(s.clone()),
        None => None,
    }
}

/// The count of a parameter, or `default`.
pub fn param_usize(p: &Json, key: &str, default: usize) -> (r: usize)
    ensures
        r == usize_or(p@, key@, default),
{
    match p.get(key) {
        Some(v) => match v.as_u64() {
            Some(n) => n as usize,
            None => default,
        },
        None => default,
    }
}

/// The boolean of a parameter, or `default`.
pub fn param_bool(p: &Json, key: &str, default: bool) -> (r: bool)
    ensures
        r == bool_or(p@, key@, default),
{
    match p.get(key) {
        Some(v) => match v.as_bool() {
            Some(b) => b,
            None => default,
        },
        None => default,
    }
}

/// The signed integer of a parameter, if it is there and is one.
pub fn param_opt_i64(p: &Json, key: &str) -> (r: Option<i64>)
    ensures
        r == signed_field(p@, key@),
{
    match p.get(key) {
        Some(v) => v.as_i64(),
        None => None,
    }
}

/// The signed integer of a parameter, or `default`.
pub fn param_i64(p: &Json, key: &str, default: i64) -> (r: i64)
    ensures
        r == signed_or(p@, key@, default),
{
    match param_opt_i64(p, key) {
        Some(n) => n,
        None => default,
    }
}

/// The low 32 bits of the signed integer of a parameter, or zero.
pub fn param_flags(p: &Json, key: &str) -> (r: i32)
    ensures
        r == signed_or(p@, key@, 0) as i32,
{
    let n: i64 = param_i64(p, key, 0);
    n as i32
}

/// The type ordinal of a parameter, if it is there and is an unsigned integer.
pub fn param_ordinal(p: &Json, key: &str) -> (r: Option<u32>)
    ensures
        r == ordinal_field(p@, key@),
{
    match p.get(key) {
        Some(v) => match v.as_u64() {
            Some(n) => Some(n as u32),
            None => None,
        },
        None => None,
    }
}

/// The address in a text.
fn read_addr(s: &str) -> (r: Result<u64, String>)
    ensures
        err_view(r) == addr_in(s@),
{
    parse_addr(s)
}

/// The address of a required parameter.
pub fn param_addr(p: &Json, key: &str) -> (r: Result<u64, String>)
    ensures
        err_view(r) == need_addr(p@, key@),
{
    let s = param_str(p, key)?;
    read_addr(s.as_str())
}

/// The address of a parameter that may be left out.
pub fn param_opt_addr(p: &Json, key: &str) -> (r: Result<Option<u64>, String>)
    ensures
        err_view(r) == opt_addr(p@, key@),
{
    match p.str_field(key) {
        Some(s) => {
            let a: u64 = read_addr(s.as_str())?;
            Ok(Some(a))
        },
        None => Ok(None),
    }
}

/// The texts in the list that a parameter holds; none where it holds no list.
pub fn param_str_vec(p: &Json, key: &str) -> (r: Vec<String>)
    ensures
        views(r@) == texts_in(p@, key@),
{
    let mut out: Vec<String> = Vec::new();
    assert(views(out@) =~= seq![]);
    if let Some(v) = p.get(key) {
        if let Some(items) = v.as_array() {
            let ghost all = values_of(items@);
            let mut i: usize = 0;
            assert(all.take(0) =~= seq![]);
            while i < items.len()
                invariant
                    i <= items.len(),
                    all == values_of(items@),
                    views(out@) == texts_among(all.take(i as int)),
                decreases items.len() - i,
            {
                let ghost before = out@;
                proof {
                    let now = all.take(i + 1);
                    assert(now.drop_last() =~= all.take(i as int));
                    assert(now.last() == items[i as int]@);
                }
                if let Some(s) = items[i].as_str() {
                    out.push(s.clone());
                    assert(views(out@) =~= views(before).push(s@));
                }
                i = i + 1;
            }
            assert(all.take(items.len() as int) =~= all);
        }
    }
    out
}

/// The addresses in the list that a parameter holds.
pub fn param_addr_vec(p: &Json, key: &str) -> (r: Result<Vec<u64>, String>)
    ensures
        match r {
            Ok(v) => need_addrs(p@, key@) == Ok::<Seq<u64>, Seq<char>>(v@),
            Err(e) => need_addrs(p@, key@) == Err::<Seq<u64>, Seq<char>>(e@),
        },
{
    let texts = param_str_vec(p, key);
    let ghost all = views(texts@);
    let mut out: Vec<u64> = Vec::new();
    let mut i: usize = 0;
    assert(out@ =~= seq![]);
    assert(all.take(0) =~= seq![]);
    while i < texts.len()
        invariant
            i <= texts.len(),
            all == views(texts@),
            all == texts_in(p@, key@),
            addrs_in(all.take(i as int)) == Ok::<Seq<u64>, Seq<char>>(out@),
        decreases texts.len() - i,
    {
        proof {
            let now = all.take(i + 1);
            assert(now.drop_last() =~= all.take(i as int));
            assert(now.last() == texts[i as int]@);
        }
        match read_addr(texts[i].as_str()) {
            Ok(a) => {
                out.push(a);
            },
            Err(e) => {
                proof {
                    lemma_first_bad(all, i + 1);
                }
                return Err(e);
            },
        }
        i = i + 1;
    }
    assert(all.take(texts.len() as int) =~= all);
    Ok(out)
}

/// A bad text among the first ones is what the whole list fails with.
proof fn lemma_first_bad(texts: Seq<Seq<char>>, k: int)
    requires
        0 <= k <= texts.len(),
        addrs_in(texts.take(k)) is Err,
    ensures
        addrs_in(texts) == addrs_in(texts.take(k)),
    decreases texts.len() - k,
{
    if k < texts.len() {
        assert(texts.take(k + 1).drop_last() =~= texts.take(k));
        lemma_first_bad(texts, k + 1);
    } else {
        assert(texts.take(k) =~= texts);
    }
}

/// The bytes of a required parameter in hexadecimal.
pub fn param_bytes(p: &Json, key: &str) -> (r: Result<Vec<u8>, String>)
    ensures
        match r {
            Ok(v) => need_bytes(p@, key@) == Ok::<Seq<u8>, Seq<char>>(v@),
            Err(e) => need_bytes(p@, key@) == Err::<Seq<u8>, Seq<char>>(e@),
        },
{
    let s = param_str(p, key)?;
    parse_hex_bytes(s.as_str())
}

/// The place that the parameters give: by name where there is one, else by address.
pub fn param_place(p: &Json) -> (r: Result<Place<String>, String>)
    ensures
        match r {
            Ok(v) => need_place(p@) == Ok::<Place<Seq<char>>, Seq<char>>(v@),
            Err(e) => need_place(p@) == Err::<Place<Seq<char>>, Seq<char>>(e@),
        },
{
    match p.str_field("name") {
        Some(n) => Ok(Place::Name(n.clone())),
        None => {
            let a: u64 = param_addr(p, "address")?;
            Ok(Place::Addr(a))
        },
    }
}

/// The value, or the nearer of the two bounds where it lies outside them.
pub fn clamp(v: usize, low: usize, high: usize) -> (r: usize)
    requires
        low <= high,
    ensures
        r == clamped(v, low, high),
{
    if v < low {
        low
    } else if v > high {
        high
    } else {
        v
    }
}

// ---------------------------------------------------------------------------
// Analysis requests
// ---------------------------------------------------------------------------

/// What a planning step gives: no request where the operation is not one of its own.
pub open spec fn planned(r: Result<Option<Call>, String>) -> Result<Option<CallV>, Seq<char>> {
    match r {
        Ok(Some(call)) => Ok(Some(call@)),
        Ok(None) => Ok(None),
        Err(e) => Err(e@),
    }
}

/// An analysis request, over the types of its texts, lists of texts, lists of addresses and bytes.
#[derive(Debug)]
#[allow(inconsistent_fields)]
pub enum CallOf<T, L, A, B> {
    /// A summary of the open database.
    Info,
    /// The metadata of the open database.
    Meta,
    /// How far the automatic analysis has come.
    AnalysisStatus,
    /// A page of the functions.
    ListFunctions { offset: usize, limit: usize, filter: Option<T> },
    /// The function with a name.
    ResolveFunction { name: T },
    /// The function around an address.
    FunctionAt { addr: u64 },
    /// The functions that queries name.
    LookupFuncs { queries: L },
    /// Runs the automatic analysis.
    AnalyzeFuncs,
    /// Instructions from a place on.
    Disasm { offset: usize, count: usize, place: Place<T> },
    /// The instructions of the function around an address.
    DisasmFunctionAt { addr: u64, offset: usize, count: usize },
    /// The pseudocode of a function.
    Decompile { max_lines: usize, place: Place<T> },
    /// The pseudocode of an address or a range.
    PseudocodeAt { addr: u64, end: Option<u64> },
    /// A page of the strings.
    Strings { offset: usize, limit: usize, filter: Option<T> },
    /// A page of the strings that match.
    FindString { query: T, exact: bool, case_insensitive: bool, offset: usize, limit: usize },
    /// The string at an address.
    GetString { addr: u64, max_len: usize },
    /// A page of the strings with their references.
    AnalyzeStrings { query: Option<T>, offset: usize, limit: usize },
    /// The references to the strings that match.
    XrefsToString {
        query: T,
        exact: bool,
        case_insensitive: bool,
        offset: usize,
        limit: usize,
        max_xrefs: usize,
    },
    /// The segments.
    Segments,
    /// A page of the imports.
    Imports { offset: usize, limit: usize },
    /// A page of the exports.
    Exports { offset: usize, limit: usize },
    /// The entry points.
    Entrypoints,
    /// A page of the global names.
    ListGlobals { filter: Option<T>, offset: usize, limit: usize },
    /// The value of a global.
    GetGlobalValue { query: T },
    /// A page of the references to an address.
    XrefsTo { addr: u64, offset: usize, limit: usize },
    /// A page of the references from an address.
    XrefsFrom { addr: u64, offset: usize, limit: usize },
    /// Which of some addresses refer to which.
    XrefMatrix { addrs: A },
    /// The basic blocks of a function.
    BasicBlocks { addr: u64 },
    /// The functions that call a function.
    Callers { addr: u64 },
    /// The functions that a function calls.
    Callees { addr: u64 },
    /// The calls that start at a function.
    Callgraph { addr: u64, max_depth: usize, max_nodes: usize },
    /// The paths between two addresses.
    FindPaths { start: u64, end: u64, max_paths: usize, max_depth: usize },
    /// The bytes at an address.
    GetBytes { addr: u64, size: usize },
    /// The integer at an address.
    ReadInt { addr: u64, size: usize },
    /// The places that match a byte pattern.
    FindBytes { pattern: T, limit: usize },
    /// The places that hold a text.
    SearchText { text: T, max_results: usize },
    /// The places that use an immediate value.
    SearchImm { imm: u64, max_results: usize },
    /// The places that match instructions.
    FindInsns { patterns: L, max_results: usize, case_insensitive: bool },
    /// The places that match operands.
    FindInsnOperands { patterns: L, max_results: usize, case_insensitive: bool },
    /// What is known of an address.
    AddrInfo { addr: u64 },
    /// A page of the local types.
    LocalTypes { offset: usize, limit: usize, filter: Option<T> },
    /// Declares a type.
    DeclareType { decl: T, relaxed: bool, replace: bool, multi: bool },
    /// Gives an address or a stack variable a type.
    ApplyTypes {
        addr: Option<u64>,
        name: Option<T>,
        offset: i64,
        stack_offset: Option<i64>,
        stack_name: Option<T>,
        decl: Option<T>,
        named_type: Option<T>,
        relaxed: bool,
        delay: bool,
        strict: bool,
    },
    /// Guesses a type.
    InferTypes { addr: Option<u64>, name: Option<T>, offset: i64 },
    /// The stack frame of a function.
    StackFrame { addr: u64 },
    /// Declares a stack variable.
    DeclareStack {
        addr: Option<u64>,
        name: Option<T>,
        offset: i64,
        var_name: Option<T>,
        decl: T,
        relaxed: bool,
    },
    /// Deletes a stack variable.
    DeleteStack { addr: Option<u64>, name: Option<T>, offset: Option<i64>, var_name: Option<T> },
    /// A page of the structures.
    Structs { offset: usize, limit: usize, filter: Option<T> },
    /// The layout of a structure.
    StructInfo { ordinal: Option<u32>, name: Option<T> },
    /// The fields of a structure in memory.
    ReadStruct { addr: u64, ordinal: Option<u32>, name: Option<T> },
    /// The references to a structure field.
    XrefsToField {
        ordinal: Option<u32>,
        name: Option<T>,
        member_index: Option<u32>,
        member_name: Option<T>,
        limit: usize,
    },
    /// Sets a comment.
    SetComment { addr: Option<u64>, name: Option<T>, offset: i64, comment: T, repeatable: bool },
    /// Renames a symbol.
    Rename { addr: Option<u64>, current_name: Option<T>, new_name: T, flags: i32 },
    /// Overwrites bytes.
    PatchBytes { addr: Option<u64>, name: Option<T>, offset: i64, bytes: B },
    /// Overwrites an instruction.
    PatchAsm { addr: Option<u64>, name: Option<T>, offset: i64, line: T },
    /// Runs a script.
    RunScript { code: T },
    /// Loads debug information.
    LoadDebugInfo { path: Option<T>, verbose: bool },
}

/// An analysis request.
pub type Call = CallOf<String, Vec<String>, Vec<u64>, Vec<u8>>;

/// What an analysis request is.
pub type CallV = CallOf<Seq<char>, Seq<Seq<char>>, Seq<u64>, Seq<u8>>;

impl View for CallOf<String, Vec<String>, Vec<u64>, Vec<u8>> {
    type V = CallV;

    open spec fn view(&self) -> CallV {
        match self {
            CallOf::Info => CallOf::Info,
            CallOf::Meta => CallOf::Meta,
            CallOf::AnalysisStatus => CallOf::AnalysisStatus,
            CallOf::ListFunctions { offset, limit, filter } => CallOf::ListFunctions {
                offset: *offset,
                limit: *limit,
                filter: opt_view(*filter),
            },
            CallOf::ResolveFunction { name } => CallOf::ResolveFunction { name: name@ },
            CallOf::FunctionAt { addr } => CallOf::FunctionAt { addr: *addr },
            CallOf::LookupFuncs { queries } => CallOf::LookupFuncs { queries: views(queries@) },
            CallOf::AnalyzeFuncs => CallOf::AnalyzeFuncs,
            CallOf::Disasm { offset, count, place } => CallOf::Disasm {
                offset: *offset,
                count: *count,
                place: place@,
            },
            CallOf::DisasmFunctionAt { addr, offset, count } => CallOf::DisasmFunctionAt {
                addr: *addr,
                offset: *offset,
                count: *count,
            },
            CallOf::Decompile { max_lines, place } => CallOf::Decompile {
                max_lines: *max_lines,
                place: place@,
            },
            CallOf::PseudocodeAt { addr, end } => CallOf::PseudocodeAt { addr: *addr, end: *end },
            CallOf::Strings { offset, limit, filter } => CallOf::Strings {
                offset: *offset,
                limit: *limit,
                filter: opt_view(*filter),
            },
            CallOf::FindString {
                query,
                exact,
                case_insensitive,
                offset,
                limit,
            } => CallOf::FindString {
                query: query@,
                exact: *exact,
                case_insensitive: *case_insensitive,
                offset: *offset,
                limit: *limit,
            },
            CallOf::GetString { addr, max_len } => CallOf::GetString {
                addr: *addr,
                max_len: *max_len,
            },
            CallOf::AnalyzeStrings { query, offset, limit } => CallOf::AnalyzeStrings {
                query: opt_view(*query),
                offset: *offset,
                limit: *limit,
            },
            CallOf::XrefsToString {
                query,
                exact,
                case_insensitive,
                offset,
                limit,
                max_xrefs,
            } => CallOf::XrefsToString {
                query: query@,
                exact: *exact,
                case_insensitive: *case_insensitive,
                offset: *offset,
                limit: *limit,
                max_xrefs: *max_xrefs,
            },
            CallOf::Segments => CallOf::Segments,
            CallOf::Imports { offset, limit } => CallOf::Imports { offset: *offset, limit: *limit },
            CallOf::Exports { offset, limit } => CallOf::Exports { offset: *offset, limit: *limit },
            CallOf::Entrypoints => CallOf::Entrypoints,
            CallOf::ListGlobals { filter, offset, limit } => CallOf::ListGlobals {
                filter: opt_view(*filter),
                offset: *offset,
                limit: *limit,
            },
            CallOf::GetGlobalValue { query } => CallOf::GetGlobalValue { query: query@ },
            CallOf::XrefsTo { addr, offset, limit } => CallOf::XrefsTo {
                addr: *addr,
                offset: *offset,
                limit: *limit,
            },
            CallOf::XrefsFrom { addr, offset, limit } => CallOf::XrefsFrom {
                addr: *addr,
                offset: *offset,
                limit: *limit,
            },
            CallOf::XrefMatrix { addrs } => CallOf::XrefMatrix { addrs: addrs@ },
            CallOf::BasicBlocks { addr } => CallOf::BasicBlocks { addr: *addr },
            CallOf::Callers { addr } => CallOf::Callers { addr: *addr },
            CallOf::Callees { addr } => CallOf::Callees { addr: *addr },
            CallOf::Callgraph { addr, max_depth, max_nodes } => CallOf::Callgraph {
                addr: *addr,
                max_depth: *max_depth,
                max_nodes: *max_nodes,
            },
            CallOf::FindPaths { start, end, max_paths, max_depth } => CallOf::FindPaths {
                start: *start,
                end: *end,
                max_paths: *max_paths,
                max_depth: *max_depth,
            },
            CallOf::GetBytes { addr, size } => CallOf::GetBytes { addr: *addr, size: *size },
            CallOf::ReadInt { addr, size } => CallOf::ReadInt { addr: *addr, size: *size },
            CallOf::FindBytes { pattern, limit } => CallOf::FindBytes {
                pattern: pattern@,
                limit: *limit,
            },
            CallOf::SearchText { text, max_results } => CallOf::SearchText {
                text: text@,
                max_results: *max_results,
            },
            CallOf::SearchImm { imm, max_results } => CallOf::SearchImm {
                imm: *imm,
                max_results: *max_results,
            },
            CallOf::FindInsns { patterns, max_results, case_insensitive } => CallOf::FindInsns {
                patterns: views(patterns@),
                max_results: *max_results,
                case_insensitive: *case_insensitive,
            },
            CallOf::FindInsnOperands {
                patterns,
                max_results,
                case_insensitive,
            } => CallOf::FindInsnOperands {
                patterns: views(patterns@),
                max_results: *max_results,
                case_insensitive: *case_insensitive,
            },
            CallOf::AddrInfo { addr } => CallOf::AddrInfo { addr: *addr },
            CallOf::LocalTypes { offset, limit, filter } => CallOf::LocalTypes {
                offset: *offset,
                limit: *limit,
                filter: opt_view(*filter),
            },
            CallOf::DeclareType { decl, relaxed, replace, multi } => CallOf::DeclareType {
                decl: decl@,
                relaxed: *relaxed,
                replace: *replace,
                multi: *multi,
            },
            CallOf::ApplyTypes {
                addr,
                name,
                offset,
                stack_offset,
                stack_name,
                decl,
                named_type,
                relaxed,
                delay,
                strict,
            } => CallOf::ApplyTypes {
                addr: *addr,
                name: opt_view(*name),
                offset: *offset,
                stack_offset: *stack_offset,
                stack_name: opt_view(*stack_name),
                decl: opt_view(*decl),
                named_type: opt_view(*named_type),
                relaxed: *relaxed,
                delay: *delay,
                strict: *strict,
            },
            CallOf::InferTypes { addr, name, offset } => CallOf::InferTypes {
                addr: *addr,
                name: opt_view(*name),
                offset: *offset,
            },
            CallOf::StackFrame { addr } => CallOf::StackFrame { addr: *addr },
            CallOf::DeclareStack {
                addr,
                name,
                offset,
                var_name,
                decl,
                relaxed,
            } => CallOf::DeclareStack {
                addr: *addr,
                name: opt_view(*name),
                offset: *offset,
                var_name: opt_view(*var_name),
                decl: decl@,
                relaxed: *relaxed,
            },
            CallOf::DeleteStack { addr, name, offset, var_name } => CallOf::DeleteStack {
                addr: *addr,
                name: opt_view(*name),
                offset: *offset,
                var_name: opt_view(*var_name),
            },
            CallOf::Structs { offset, limit, filter } => CallOf::Structs {
                offset: *offset,
                limit: *limit,
                filter: opt_view(*filter),
            },
            CallOf::StructInfo { ordinal, name } => CallOf::StructInfo {
                ordinal: *ordinal,
                name: opt_view(*name),
            },
            CallOf::ReadStruct { addr, ordinal, name } => CallOf::ReadStruct {
                addr: *addr,
                ordinal: *ordinal,
                name: opt_view(*name),
            },
            CallOf::XrefsToField {
                ordinal,
                name,
                member_index,
                member_name,
                limit,
            } => CallOf::XrefsToField {
                ordinal: *ordinal,
                name: opt_view(*name),
                member_index: *member_index,
                member_name: opt_view(*member_name),
                limit: *limit,
            },
            CallOf::SetComment { addr, name, offset, comment, repeatable } => CallOf::SetComment {
                addr: *addr,
                name: opt_view(*name),
                offset: *offset,
                comment: comment@,
                repeatable: *repeatable,
            },
            CallOf::Rename { addr, current_name, new_name, flags } => CallOf::Rename {
                addr: *addr,
                current_name: opt_view(*current_name),
                new_name: new_name@,
                flags: *flags,
            },
            CallOf::PatchBytes { addr, name, offset, bytes } => CallOf::PatchBytes {
                addr: *addr,
                name: opt_view(*name),
                offset: *offset,
                bytes: bytes@,
            },
            CallOf::PatchAsm { addr, name, offset, line } => CallOf::PatchAsm {
                addr: *addr,
                name: opt_view(*name),
                offset: *offset,
                line: line@,
            },
            CallOf::RunScript { code } => CallOf::RunScript { code: code@ },
            CallOf::LoadDebugInfo { path, verbose } => CallOf::LoadDebugInfo {
                path: opt_view(*path),
                verbose: *verbose,
            },
        }
    }
}

/// What a request about code asks for.
pub open spec fn code_call(op: Seq<char>, p: JsonV) -> Result<Option<CallV>, Seq<char>> {
    if op == "info"@ {
        Ok(Some(CallV::Info))
    } else if op == "meta"@ {
        Ok(Some(CallV::Meta))
    } else if op == "analysis_status"@ {
        Ok(Some(CallV::AnalysisStatus))
    } else if op == "functions"@ || op == "list_functions"@ {
        Ok(
            Some(
                CallV::ListFunctions {
                    offset: usize_or(p, "offset"@, 0),
                    limit: usize_or(p, "limit"@, 100),
                    filter: text_field(p, "filter"@),
                },
            ),
        )
    } else if op == "resolve_function"@ {
        match need_text(p, "name"@) {
            Err(e) => Err(e),
            Ok(name) => {
                Ok(
                    Some(
                        CallV::ResolveFunction {
                            name,
                        },
                    ),
                )
            },
        }
    } else if op == "function_at"@ {
        match need_addr(p, "address"@) {
            Err(e) => Err(e),
            Ok(addr) => {
                Ok(
                    Some(
                        CallV::FunctionAt {
                            addr,
                        },
                    ),
                )
            },
        }
    } else if op == "lookup_funcs"@ {
        Ok(
            Some(
                CallV::LookupFuncs {
                    queries: texts_in(p, "queries"@),
                },
            ),
        )
    } else if op == "analyze_funcs"@ {
        Ok(Some(CallV::AnalyzeFuncs))
    } else if op == "disasm"@ {
        match need_place(p) {
            Err(e) => Err(e),
            Ok(place) => {
                Ok(
                    Some(
                        CallV::Disasm {
                            offset: usize_or(p, "offset"@, 0),
                            count: usize_or(p, "count"@, 20),
                            place,
                        },
                    ),
                )
            },
        }
    } else if op == "disasm_function_at"@ {
        match need_addr(p, "address"@) {
            Err(e) => Err(e),
            Ok(addr) => {
                Ok(
                    Some(
                        CallV::DisasmFunctionAt {
                            addr,
                            offset: usize_or(p, "offset"@, 0),
                            count: usize_or(p, "count"@, 200),
                        },
                    ),
                )
            },
        }
    } else if op == "decompile"@ {
        match need_place(p) {
            Err(e) => Err(e),
            Ok(place) => {
                Ok(
                    Some(
                        CallV::Decompile {
                            max_lines: usize_or(p, "max_lines"@, 0),
                            place,
                        },
                    ),
                )
            },
        }
    } else if op == "pseudocode_at"@ {
        match need_addr(p, "address"@) {
            Err(e) => Err(e),
            Ok(addr) => {
                match opt_addr(p, "end_address"@) {
                    Err(e) => Err(e),
                    Ok(end) => {
                        Ok(
                            Some(
                                CallV::PseudocodeAt {
                                    addr,
                                    end,
                                },
                            ),
                        )
                    },
                }
            },
        }
    } else {
        Ok(None)
    }
}

/// What a request about code asks for.
fn plan_code(op: &str, p: &Json) -> (r: Result<Option<Call>, String>)
    ensures
        planned(r) == code_call(op@, p@),
{
    if same(op, "info") {
        return Ok(Some(CallOf::Info));
    }
    if same(op, "meta") {
        return Ok(Some(CallOf::Meta));
    }
    if same(op, "analysis_status") {
        return Ok(Some(CallOf::AnalysisStatus));
    }
    if same(op, "functions") || same(op, "list_functions") {
        let offset: usize = param_usize(p, "offset", 0);
        let limit: usize = param_usize(p, "limit", 100);
        let filter = param_opt_str(p, "filter");
        return Ok(Some(CallOf::ListFunctions { offset, limit, filter }));
    }
    if same(op, "resolve_function") {
        let name = param_str(p, "name")?;
        return Ok(Some(CallOf::ResolveFunction { name }));
    }
    if same(op, "function_at") {
        let addr: u64 = param_addr(p, "address")?;
        return Ok(Some(CallOf::FunctionAt { addr }));
    }
    if same(op, "lookup_funcs") {
        let queries = param_str_vec(p, "queries");
        return Ok(Some(CallOf::LookupFuncs { queries }));
    }
    if same(op, "analyze_funcs") {
        return Ok(Some(CallOf::AnalyzeFuncs));
    }
    if same(op, "disasm") {
        let offset: usize = param_usize(p, "offset", 0);
        let count: usize = param_usize(p, "count", 20);
        let place = param_place(p)?;
        return Ok(Some(CallOf::Disasm { offset, count, place }));
    }
    if same(op, "disasm_function_at") {
        let addr: u64 = param_addr(p, "address")?;
        let offset: usize = param_usize(p, "offset", 0);
        let count: usize = param_usize(p, "count", 200);
        return Ok(Some(CallOf::DisasmFunctionAt { addr, offset, count }));
    }
    if same(op, "decompile") {
        let max_lines: usize = param_usize(p, "max_lines", 0);
        let place = param_place(p)?;
        return Ok(Some(CallOf::Decompile { max_lines, place }));
    }
    if same(op, "pseudocode_at") {
        let addr: u64 = param_addr(p, "address")?;
        let end = param_opt_addr(p, "end_address")?;
        return Ok(Some(CallOf::PseudocodeAt { addr, end }));
    }
    Ok(None)
}

/// What a request about strings, segments and names asks for.
pub open spec fn data_call(op: Seq<char>, p: JsonV) -> Result<Option<CallV>, Seq<char>> {
    if op == "strings"@ {
        Ok(
            Some(
                CallV::Strings {
                    offset: usize_or(p, "offset"@, 0),
                    limit: usize_or(p, "limit"@, 100),
                    filter: text_field(p, "filter"@),
                },
            ),
        )
    } else if op == "find_string"@ {
        match need_text(p, "query"@) {
            Err(e) => Err(e),
            Ok(query) => {
                Ok(
                    Some(
                        CallV::FindString {
                            query,
                            exact: bool_or(p, "exact"@, false),
                            case_insensitive: bool_or(p, "case_insensitive"@, false),
                            offset: usize_or(p, "offset"@, 0),
                            limit: usize_or(p, "limit"@, 100),
                        },
                    ),
                )
            },
        }
    } else if op == "get_string"@ {
        match need_addr(p, "address"@) {
            Err(e) => Err(e),
            Ok(addr) => {
                Ok(
                    Some(
                        CallV::GetString {
                            addr,
                            max_len: usize_or(p, "max_len"@, 1024),
                        },
                    ),
                )
            },
        }
    } else if op == "analyze_strings"@ {
        Ok(
            Some(
                CallV::AnalyzeStrings {
                    query: text_field(p, "query"@),
                    offset: usize_or(p, "offset"@, 0),
                    limit: usize_or(p, "limit"@, 100),
                },
            ),
        )
    } else if op == "xrefs_to_string"@ {
        match need_text(p, "query"@) {
            Err(e) => Err(e),
            Ok(query) => {
                Ok(
                    Some(
                        CallV::XrefsToString {
                            query,
                            exact: bool_or(p, "exact"@, false),
                            case_insensitive: bool_or(p, "case_insensitive"@, false),
                            offset: usize_or(p, "offset"@, 0),
                            limit: usize_or(p, "limit"@, 100),
                            max_xrefs: usize_or(p, "max_xrefs"@, 10),
                        },
                    ),
                )
            },
        }
    } else if op == "segments"@ {
        Ok(Some(CallV::Segments))
    } else if op == "imports"@ {
        Ok(
            Some(
                CallV::Imports {
                    offset: usize_or(p, "offset"@, 0),
                    limit: usize_or(p, "limit"@, 100),
                },
            ),
        )
    } else if op == "exports"@ || op == "export_funcs"@ {
        Ok(
            Some(
                CallV::Exports {
                    offset: usize_or(p, "offset"@, 0),
                    limit: usize_or(p, "limit"@, 100),
                },
            ),
        )
    } else if op == "entrypoints"@ {
        Ok(Some(CallV::Entrypoints))
    } else if op == "globals"@ || op == "list_globals"@ {
        Ok(
            Some(
                CallV::ListGlobals {
                    filter: text_field(p, "filter"@),
                    offset: usize_or(p, "offset"@, 0),
                    limit: usize_or(p, "limit"@, 100),
                },
            ),
        )
    } else if op == "get_global_value"@ {
        match need_text(p, "query"@) {
            Err(e) => Err(e),
            Ok(query) => {
                Ok(
                    Some(
                        CallV::GetGlobalValue {
                            query,
                        },
                    ),
                )
            },
        }
    } else {
        Ok(None)
    }
}

/// What a request about strings, segments and names asks for.
fn plan_data(op: &str, p: &Json) -> (r: Result<Option<Call>, String>)
    ensures
        planned(r) == data_call(op@, p@),
{
    if same(op, "strings") {
        let offset: usize = param_usize(p, "offset", 0);
        let limit: usize = param_usize(p, "limit", 100);
        let filter = param_opt_str(p, "filter");
        return Ok(Some(CallOf::Strings { offset, limit, filter }));
    }
    if same(op, "find_string") {
        let query = param_str(p, "query")?;
        let exact = param_bool(p, "exact", false);
        let case_insensitive = param_bool(p, "case_insensitive", false);
        let offset: usize = param_usize(p, "offset", 0);
        let limit: usize = param_usize(p, "limit", 100);
        return Ok(Some(CallOf::FindString { query, exact, case_insensitive, offset, limit }));
    }
    if same(op, "get_string") {
        let addr: u64 = param_addr(p, "address")?;
        let max_len: usize = param_usize(p, "max_len", 1024);
        return Ok(Some(CallOf::GetString { addr, max_len }));
    }
    if same(op, "analyze_strings") {
        let query = param_opt_str(p, "query");
        let offset: usize = param_usize(p, "offset", 0);
        let limit: usize = param_usize(p, "limit", 100);
        return Ok(Some(CallOf::AnalyzeStrings { query, offset, limit }));
    }
    if same(op, "xrefs_to_string") {
        let query = param_str(p, "query")?;
        let exact = param_bool(p, "exact", false);
        let case_insensitive = param_bool(p, "case_insensitive", false);
        let offset: usize = param_usize(p, "offset", 0);
        let limit: usize = param_usize(p, "limit", 100);
        let max_xrefs: usize = param_usize(p, "max_xrefs", 10);
        return Ok(
            Some(
                CallOf::XrefsToString {
                    query,
                    exact,
                    case_insensitive,
                    offset,
                    limit,
                    max_xrefs,
                },
            ),
        );
    }
    if same(op, "segments") {
        return Ok(Some(CallOf::Segments));
    }
    if same(op, "imports") {
        let offset: usize = param_usize(p, "offset", 0);
        let limit: usize = param_usize(p, "limit", 100);
        return Ok(Some(CallOf::Imports { offset, limit }));
    }
    if same(op, "exports") || same(op, "export_funcs") {
        let offset: usize = param_usize(p, "offset", 0);
        let limit: usize = param_usize(p, "limit", 100);
        return Ok(Some(CallOf::Exports { offset, limit }));
    }
    if same(op, "entrypoints") {
        return Ok(Some(CallOf::Entrypoints));
    }
    if same(op, "globals") || same(op, "list_globals") {
        let filter = param_opt_str(p, "filter");
        let offset: usize = param_usize(p, "offset", 0);
        let limit: usize = param_usize(p, "limit", 100);
        return Ok(Some(CallOf::ListGlobals { filter, offset, limit }));
    }
    if same(op, "get_global_value") {
        let query = param_str(p, "query")?;
        return Ok(Some(CallOf::GetGlobalValue { query }));
    }
    Ok(None)
}

/// What a request about references, control flow and memory asks for.
pub open spec fn flow_call(op: Seq<char>, p: JsonV) -> Result<Option<CallV>, Seq<char>> {
    if op == "xrefs_to"@ {
        match need_addr(p, "address"@) {
            Err(e) => Err(e),
            Ok(addr) => {
                Ok(
                    Some(
                        CallV::XrefsTo {
                            addr,
                            offset: usize_or(p, "offset"@, 0),
                            limit: clamped(usize_or(p, "limit"@, 1000), 1, 10000),
                        },
                    ),
                )
            },
        }
    } else if op == "xrefs_from"@ {
        match need_addr(p, "address"@) {
            Err(e) => Err(e),
            Ok(addr) => {
                Ok(
                    Some(
                        CallV::XrefsFrom {
                            addr,
                            offset: usize_or(p, "offset"@, 0),
                            limit: clamped(usize_or(p, "limit"@, 1000), 1, 10000),
                        },
                    ),
                )
            },
        }
    } else if op == "xref_matrix"@ {
        match need_addrs(p, "addresses"@) {
            Err(e) => Err(e),
            Ok(addrs) => {
                Ok(
                    Some(
                        CallV::XrefMatrix {
                            addrs,
                        },
                    ),
                )
            },
        }
    } else if op == "basic_blocks"@ {
        match need_addr(p, "address"@) {
            Err(e) => Err(e),
            Ok(addr) => {
                Ok(
                    Some(
                        CallV::BasicBlocks {
                            addr,
                        },
                    ),
                )
            },
        }
    } else if op == "callers"@ {
        match need_addr(p, "address"@) {
            Err(e) => Err(e),
            Ok(addr) => {
                Ok(
                    Some(
                        CallV::Callers {
                            addr,
                        },
                    ),
                )
            },
        }
    } else if op == "callees"@ {
        match need_addr(p, "address"@) {
            Err(e) => Err(e),
            Ok(addr) => {
                Ok(
                    Some(
                        CallV::Callees {
                            addr,
                        },
                    ),
                )
            },
        }
    } else if op == "callgraph"@ {
        match need_addr(p, "address"@) {
            Err(e) => Err(e),
            Ok(addr) => {
                Ok(
                    Some(
                        CallV::Callgraph {
                            addr,
                            max_depth: usize_or(p, "max_depth"@, 3),
                            max_nodes: usize_or(p, "max_nodes"@, 100),
                        },
                    ),
                )
            },
        }
    } else if op == "find_paths"@ {
        match need_addr(p, "start"@) {
            Err(e) => Err(e),
            Ok(start) => {
                match need_addr(p, "end"@) {
                    Err(e) => Err(e),
                    Ok(end) => {
                        Ok(
                            Some(
                                CallV::FindPaths {
                                    start,
                                    end,
                                    max_paths: usize_or(p, "max_paths"@, 5),
                                    max_depth: usize_or(p, "max_depth"@, 10),
                                },
                            ),
                        )
                    },
                }
            },
        }
    } else if op == "get_bytes"@ {
        match need_addr(p, "address"@) {
            Err(e) => Err(e),
            Ok(addr) => {
                Ok(
                    Some(
                        CallV::GetBytes {
                            addr,
                            size: usize_or(p, "size"@, 64),
                        },
                    ),
                )
            },
        }
    } else if op == "read_int"@ {
        match need_addr(p, "address"@) {
            Err(e) => Err(e),
            Ok(addr) => {
                Ok(
                    Some(
                        CallV::ReadInt {
                            addr,
                            size: usize_or(p, "size"@, 4),
                        },
                    ),
                )
            },
        }
    } else {
        Ok(None)
    }
}

/// What a request about references, control flow and memory asks for.
fn plan_flow(op: &str, p: &Json) -> (r: Result<Option<Call>, String>)
    ensures
        planned(r) == flow_call(op@, p@),
{
    if same(op, "xrefs_to") {
        let addr: u64 = param_addr(p, "address")?;
        let offset: usize = param_usize(p, "offset", 0);
        let limit: usize = clamp(param_usize(p, "limit", 1000), 1, 10000);
        return Ok(Some(CallOf::XrefsTo { addr, offset, limit }));
    }
    if same(op, "xrefs_from") {
        let addr: u64 = param_addr(p, "address")?;
        let offset: usize = param_usize(p, "offset", 0);
        let limit: usize = clamp(param_usize(p, "limit", 1000), 1, 10000);
        return Ok(Some(CallOf::XrefsFrom { addr, offset, limit }));
    }
    if same(op, "xref_matrix") {
        let addrs = param_addr_vec(p, "addresses")?;
        return Ok(Some(CallOf::XrefMatrix { addrs }));
    }
    if same(op, "basic_blocks") {
        let addr: u64 = param_addr(p, "address")?;
        return Ok(Some(CallOf::BasicBlocks { addr }));
    }
    if same(op, "callers") {
        let addr: u64 = param_addr(p, "address")?;
        return Ok(Some(CallOf::Callers { addr }));
    }
    if same(op, "callees") {
        let addr: u64 = param_addr(p, "address")?;
        return Ok(Some(CallOf::Callees { addr }));
    }
    if same(op, "callgraph") {
        let addr: u64 = param_addr(p, "address")?;
        let max_depth: usize = param_usize(p, "max_depth", 3);
        let max_nodes: usize = param_usize(p, "max_nodes", 100);
        return Ok(Some(CallOf::Callgraph { addr, max_depth, max_nodes }));
    }
    if same(op, "find_paths") {
        let start: u64 = param_addr(p, "start")?;
        let end: u64 = param_addr(p, "end")?;
        let max_paths: usize = param_usize(p, "max_paths", 5);
        let max_depth: usize = param_usize(p, "max_depth", 10);
        return Ok(Some(CallOf::FindPaths { start, end, max_paths, max_depth }));
    }
    if same(op, "get_bytes") {
        let addr: u64 = param_addr(p, "address")?;
        let size: usize = param_usize(p, "size", 64);
        return Ok(Some(CallOf::GetBytes { addr, size }));
    }
    if same(op, "read_int") {
        let addr: u64 = param_addr(p, "address")?;
        let size: usize = param_usize(p, "size", 4);
        return Ok(Some(CallOf::ReadInt { addr, size }));
    }
    Ok(None)
}

/// What a request that searches asks for.
pub open spec fn search_call(op: Seq<char>, p: JsonV) -> Result<Option<CallV>, Seq<char>> {
    if op == "find_bytes"@ {
        match need_text(p, "pattern"@) {
            Err(e) => Err(e),
            Ok(pattern) => {
                Ok(
                    Some(
                        CallV::FindBytes {
                            pattern,
                            limit: usize_or(p, "limit"@, 100),
                        },
                    ),
                )
            },
        }
    } else if op == "search_text"@ {
        match need_text(p, "text"@) {
            Err(e) => Err(e),
            Ok(text) => {
                Ok(
                    Some(
                        CallV::SearchText {
                            text,
                            max_results: usize_or(p, "max_results"@, 100),
                        },
                    ),
                )
            },
        }
    } else if op == "search_imm"@ {
        match need_addr(p, "value"@) {
            Err(e) => Err(e),
            Ok(imm) => {
                Ok(
                    Some(
                        CallV::SearchImm {
                            imm,
                            max_results: usize_or(p, "max_results"@, 100),
                        },
                    ),
                )
            },
        }
    } else if op == "find_insns"@ {
        Ok(
            Some(
                CallV::FindInsns {
                    patterns: texts_in(p, "patterns"@),
                    max_results: usize_or(p, "max_results"@, 100),
                    case_insensitive: bool_or(p, "case_insensitive"@, false),
                },
            ),
        )
    } else if op == "find_insn_operands"@ {
        Ok(
            Some(
                CallV::FindInsnOperands {
                    patterns: texts_in(p, "patterns"@),
                    max_results: usize_or(p, "max_results"@, 100),
                    case_insensitive: bool_or(p, "case_insensitive"@, false),
                },
            ),
        )
    } else if op == "addr_info"@ {
        match need_addr(p, "address"@) {
            Err(e) => Err(e),
            Ok(addr) => {
                Ok(
                    Some(
                        CallV::AddrInfo {
                            addr,
                        },
                    ),
                )
            },
        }
    } else {
        Ok(None)
    }
}

/// What a request that searches asks for.
fn plan_search(op: &str, p: &Json) -> (r: Result<Option<Call>, String>)
    ensures
        planned(r) == search_call(op@, p@),
{
    if same(op, "find_bytes") {
        let pattern = param_str(p, "pattern")?;
        let limit: usize = param_usize(p, "limit", 100);
        return Ok(Some(CallOf::FindBytes { pattern, limit }));
    }
    if same(op, "search_text") {
        let text = param_str(p, "text")?;
        let max_results: usize = param_usize(p, "max_results", 100);
        return Ok(Some(CallOf::SearchText { text, max_results }));
    }
    if same(op, "search_imm") {
        let imm: u64 = param_addr(p, "value")?;
        let max_results: usize = param_usize(p, "max_results", 100);
        return Ok(Some(CallOf::SearchImm { imm, max_results }));
    }
    if same(op, "find_insns") {
        let patterns = param_str_vec(p, "patterns");
        let max_results: usize = param_usize(p, "max_results", 100);
        let case_insensitive = param_bool(p, "case_insensitive", false);
        return Ok(Some(CallOf::FindInsns { patterns, max_results, case_insensitive }));
    }
    if same(op, "find_insn_operands") {
        let patterns = param_str_vec(p, "patterns");
        let max_results: usize = param_usize(p, "max_results", 100);
        let case_insensitive = param_bool(p, "case_insensitive", false);
        return Ok(Some(CallOf::FindInsnOperands { patterns, max_results, case_insensitive }));
    }
    if same(op, "addr_info") {
        let addr: u64 = param_addr(p, "address")?;
        return Ok(Some(CallOf::AddrInfo { addr }));
    }
    Ok(None)
}

/// What a request about types asks for.
pub open spec fn types_call(op: Seq<char>, p: JsonV) -> Result<Option<CallV>, Seq<char>> {
    if op == "local_types"@ {
        Ok(
            Some(
                CallV::LocalTypes {
                    offset: usize_or(p, "offset"@, 0),
                    limit: usize_or(p, "limit"@, 100),
                    filter: text_field(p, "filter"@),
                },
            ),
        )
    } else if op == "declare_type"@ {
        match need_text(p, "decl"@) {
            Err(e) => Err(e),
            Ok(decl) => {
                Ok(
                    Some(
                        CallV::DeclareType {
                            decl,
                            relaxed: bool_or(p, "relaxed"@, false),
                            replace: bool_or(p, "replace"@, false),
                            multi: bool_or(p, "multi"@, false),
                        },
                    ),
                )
            },
        }
    } else if op == "apply_types"@ {
        match opt_addr(p, "address"@) {
            Err(e) => Err(e),
            Ok(addr) => {
                Ok(
                    Some(
                        CallV::ApplyTypes {
                            addr,
                            name: text_field(p, "name"@),
                            offset: signed_or(p, "offset"@, 0),
                            stack_offset: signed_field(p, "stack_offset"@),
                            stack_name: text_field(p, "stack_name"@),
                            decl: text_field(p, "decl"@),
                            named_type: text_field(p, "type_name"@),
                            relaxed: bool_or(p, "relaxed"@, false),
                            delay: bool_or(p, "delay"@, false),
                            strict: bool_or(p, "strict"@, false),
                        },
                    ),
                )
            },
        }
    } else if op == "infer_types"@ {
        match opt_addr(p, "address"@) {
            Err(e) => Err(e),
            Ok(addr) => {
                Ok(
                    Some(
                        CallV::InferTypes {
                            addr,
                            name: text_field(p, "name"@),
                            offset: signed_or(p, "offset"@, 0),
                        },
                    ),
                )
            },
        }
    } else if op == "stack_frame"@ {
        match need_addr(p, "address"@) {
            Err(e) => Err(e),
            Ok(addr) => {
                Ok(
                    Some(
                        CallV::StackFrame {
                            addr,
                        },
                    ),
                )
            },
        }
    } else if op == "declare_stack"@ {
        match opt_addr(p, "address"@) {
            Err(e) => Err(e),
            Ok(addr) => {
                match need_text(p, "decl"@) {
                    Err(e) => Err(e),
                    Ok(decl) => {
                        Ok(
                            Some(
                                CallV::DeclareStack {
                                    addr,
                                    name: text_field(p, "name"@),
                                    offset: signed_or(p, "offset"@, 0),
                                    var_name: text_field(p, "var_name"@),
                                    decl,
                                    relaxed: bool_or(p, "relaxed"@, false),
                                },
                            ),
                        )
                    },
                }
            },
        }
    } else if op == "delete_stack"@ {
        match opt_addr(p, "address"@) {
            Err(e) => Err(e),
            Ok(addr) => {
                Ok(
                    Some(
                        CallV::DeleteStack {
                            addr,
                            name: text_field(p, "name"@),
                            offset: signed_field(p, "offset"@),
                            var_name: text_field(p, "var_name"@),
                        },
                    ),
                )
            },
        }
    } else if op == "structs"@ {
        Ok(
            Some(
                CallV::Structs {
                    offset: usize_or(p, "offset"@, 0),
                    limit: usize_or(p, "limit"@, 100),
                    filter: text_field(p, "filter"@),
                },
            ),
        )
    } else if op == "struct_info"@ {
        Ok(
            Some(
                CallV::StructInfo {
                    ordinal: ordinal_field(p, "ordinal"@),
                    name: text_field(p, "name"@),
                },
            ),
        )
    } else if op == "read_struct"@ {
        match need_addr(p, "address"@) {
            Err(e) => Err(e),
            Ok(addr) => {
                Ok(
                    Some(
                        CallV::ReadStruct {
                            addr,
                            ordinal: ordinal_field(p, "ordinal"@),
                            name: text_field(p, "name"@),
                        },
                    ),
                )
            },
        }
    } else if op == "xrefs_to_field"@ {
        Ok(
            Some(
                CallV::XrefsToField {
                    ordinal: ordinal_field(p, "ordinal"@),
                    name: text_field(p, "name"@),
                    member_index: ordinal_field(p, "member_index"@),
                    member_name: text_field(p, "member_name"@),
                    limit: usize_or(p, "limit"@, 100),
                },
            ),
        )
    } else {
        Ok(None)
    }
}

/// What a request about types asks for.
fn plan_types(op: &str, p: &Json) -> (r: Result<Option<Call>, String>)
    ensures
        planned(r) == types_call(op@, p@),
{
    if same(op, "local_types") {
        let offset: usize = param_usize(p, "offset", 0);
        let limit: usize = param_usize(p, "limit", 100);
        let filter = param_opt_str(p, "filter");
        return Ok(Some(CallOf::LocalTypes { offset, limit, filter }));
    }
    if same(op, "declare_type") {
        let decl = param_str(p, "decl")?;
        let relaxed = param_bool(p, "relaxed", false);
        let replace = param_bool(p, "replace", false);
        let multi = param_bool(p, "multi", false);
        return Ok(Some(CallOf::DeclareType { decl, relaxed, replace, multi }));
    }
    if same(op, "apply_types") {
        let addr = param_opt_addr(p, "address")?;
        let name = param_opt_str(p, "name");
        let offset: i64 = param_i64(p, "offset", 0);
        let stack_offset = param_opt_i64(p, "stack_offset");
        let stack_name = param_opt_str(p, "stack_name");
        let decl = param_opt_str(p, "decl");
        let named_type = param_opt_str(p, "type_name");
        let relaxed = param_bool(p, "relaxed", false);
        let delay = param_bool(p, "delay", false);
        let strict = param_bool(p, "strict", false);
        return Ok(
            Some(
                CallOf::ApplyTypes {
                    addr,
                    name,
                    offset,
                    stack_offset,
                    stack_name,
                    decl,
                    named_type,
                    relaxed,
                    delay,
                    strict,
                },
            ),
        );
    }
    if same(op, "infer_types") {
        let addr = param_opt_addr(p, "address")?;
        let name = param_opt_str(p, "name");
        let offset: i64 = param_i64(p, "offset", 0);
        return Ok(Some(CallOf::InferTypes { addr, name, offset }));
    }
    if same(op, "stack_frame") {
        let addr: u64 = param_addr(p, "address")?;
        return Ok(Some(CallOf::StackFrame { addr }));
    }
    if same(op, "declare_stack") {
        let addr = param_opt_addr(p, "address")?;
        let name = param_opt_str(p, "name");
        let offset: i64 = param_i64(p, "offset", 0);
        let var_name = param_opt_str(p, "var_name");
        let decl = param_str(p, "decl")?;
        let relaxed = param_bool(p, "relaxed", false);
        return Ok(Some(CallOf::DeclareStack { addr, name, offset, var_name, decl, relaxed }));
    }
    if same(op, "delete_stack") {
        let addr = param_opt_addr(p, "address")?;
        let name = param_opt_str(p, "name");
        let offset = param_opt_i64(p, "offset");
        let var_name = param_opt_str(p, "var_name");
        return Ok(Some(CallOf::DeleteStack { addr, name, offset, var_name }));
    }
    if same(op, "structs") {
        let offset: usize = param_usize(p, "offset", 0);
        let limit: usize = param_usize(p, "limit", 100);
        let filter = param_opt_str(p, "filter");
        return Ok(Some(CallOf::Structs { offset, limit, filter }));
    }
    if same(op, "struct_info") {
        let ordinal = param_ordinal(p, "ordinal");
        let name = param_opt_str(p, "name");
        return Ok(Some(CallOf::StructInfo { ordinal, name }));
    }
    if same(op, "read_struct") {
        let addr: u64 = param_addr(p, "address")?;
        let ordinal = param_ordinal(p, "ordinal");
        let name = param_opt_str(p, "name");
        return Ok(Some(CallOf::ReadStruct { addr, ordinal, name }));
    }
    if same(op, "xrefs_to_field") {
        let ordinal = param_ordinal(p, "ordinal");
        let name = param_opt_str(p, "name");
        let member_index = param_ordinal(p, "member_index");
        let member_name = param_opt_str(p, "member_name");
        let limit: usize = param_usize(p, "limit", 100);
        return Ok(Some(CallOf::XrefsToField { ordinal, name, member_index, member_name, limit }));
    }
    Ok(None)
}

/// What a request that changes the database asks for.
pub open spec fn edit_call(op: Seq<char>, p: JsonV) -> Result<Option<CallV>, Seq<char>> {
    if op == "set_comment"@ {
        match opt_addr(p, "address"@) {
            Err(e) => Err(e),
            Ok(addr) => {
                match need_text(p, "comment"@) {
                    Err(e) => Err(e),
                    Ok(comment) => {
                        Ok(
                            Some(
                                CallV::SetComment {
                                    addr,
                                    name: text_field(p, "name"@),
                                    offset: signed_or(p, "offset"@, 0),
                                    comment,
                                    repeatable: bool_or(p, "repeatable"@, false),
                                },
                            ),
                        )
                    },
                }
            },
        }
    } else if op == "rename"@ {
        match opt_addr(p, "address"@) {
            Err(e) => Err(e),
            Ok(addr) => {
                match need_text(p, "name"@) {
                    Err(e) => Err(e),
                    Ok(new_name) => {
                        Ok(
                            Some(
                                CallV::Rename {
                                    addr,
                                    current_name: text_field(p, "current_name"@),
                                    new_name,
                                    flags: signed_or(p, "flags"@, 0) as i32,
                                },
                            ),
                        )
                    },
                }
            },
        }
    } else if op == "patch_bytes"@ {
        match opt_addr(p, "address"@) {
            Err(e) => Err(e),
            Ok(addr) => {
                match need_bytes(p, "bytes"@) {
                    Err(e) => Err(e),
                    Ok(bytes) => {
                        Ok(
                            Some(
                                CallV::PatchBytes {
                                    addr,
                                    name: text_field(p, "name"@),
                                    offset: signed_or(p, "offset"@, 0),
                                    bytes,
                                },
                            ),
                        )
                    },
                }
            },
        }
    } else if op == "patch_asm"@ {
        match opt_addr(p, "address"@) {
            Err(e) => Err(e),
            Ok(addr) => {
                match need_text(p, "line"@) {
                    Err(e) => Err(e),
                    Ok(line) => {
                        Ok(
                            Some(
                                CallV::PatchAsm {
                                    addr,
                                    name: text_field(p, "name"@),
                                    offset: signed_or(p, "offset"@, 0),
                                    line,
                                },
                            ),
                        )
                    },
                }
            },
        }
    } else if op == "run_script"@ {
        match need_text(p, "code"@) {
            Err(e) => Err(e),
            Ok(code) => {
                Ok(
                    Some(
                        CallV::RunScript {
                            code,
                        },
                    ),
                )
            },
        }
    } else if op == "load_debug_info"@ {
        Ok(
            Some(
                CallV::LoadDebugInfo {
                    path: text_field(p, "path"@),
                    verbose: bool_or(p, "verbose"@, false),
                },
            ),
        )
    } else {
        Ok(None)
    }
}

/// What a request that changes the database asks for.
fn plan_edit(op: &str, p: &Json) -> (r: Result<Option<Call>, String>)
    ensures
        planned(r) == edit_call(op@, p@),
{
    if same(op, "set_comment") {
        let addr = param_opt_addr(p, "address")?;
        let name = param_opt_str(p, "name");
        let offset: i64 = param_i64(p, "offset", 0);
        let comment = param_str(p, "comment")?;
        let repeatable = param_bool(p, "repeatable", false);
        return Ok(Some(CallOf::SetComment { addr, name, offset, comment, repeatable }));
    }
    if same(op, "rename") {
        let addr = param_opt_addr(p, "address")?;
        let current_name = param_opt_str(p, "current_name");
        let new_name = param_str(p, "name")?;
        let flags: i32 = param_flags(p, "flags");
        return Ok(Some(CallOf::Rename { addr, current_name, new_name, flags }));
    }
    if same(op, "patch_bytes") {
        let addr = param_opt_addr(p, "address")?;
        let name = param_opt_str(p, "name");
        let offset: i64 = param_i64(p, "offset", 0);
        let bytes = param_bytes(p, "bytes")?;
        return Ok(Some(CallOf::PatchBytes { addr, name, offset, bytes }));
    }
    if same(op, "patch_asm") {
        let addr = param_opt_addr(p, "address")?;
        let name = param_opt_str(p, "name");
        let offset: i64 = param_i64(p, "offset", 0);
        let line = param_str(p, "line")?;
        return Ok(Some(CallOf::PatchAsm { addr, name, offset, line }));
    }
    if same(op, "run_script") {
        let code = param_str(p, "code")?;
        return Ok(Some(CallOf::RunScript { code }));
    }
    if same(op, "load_debug_info") {
        let path = param_opt_str(p, "path");
        let verbose = param_bool(p, "verbose", false);
        return Ok(Some(CallOf::LoadDebugInfo { path, verbose }));
    }
    Ok(None)
}

/// The request that an operation with its parameters stands for, or why there is none.
pub open spec fn analysis_call(op: Seq<char>, p: JsonV) -> Result<CallV, Seq<char>> {
    match code_call(op, p) {
        Err(e) => Err(e),
        Ok(Some(call)) => Ok(call),
        Ok(None) => {
            match data_call(op, p) {
                Err(e) => Err(e),
                Ok(Some(call)) => Ok(call),
                Ok(None) => {
                    match flow_call(op, p) {
                        Err(e) => Err(e),
                        Ok(Some(call)) => Ok(call),
                        Ok(None) => {
                            match search_call(op, p) {
                                Err(e) => Err(e),
                                Ok(Some(call)) => Ok(call),
                                Ok(None) => {
                                    match types_call(op, p) {
                                        Err(e) => Err(e),
                                        Ok(Some(call)) => Ok(call),
                                        Ok(None) => {
                                            match edit_call(op, p) {
                                                Err(e) => Err(e),
                                                Ok(Some(call)) => Ok(call),
                                                Ok(None) => {
                                                    Err("Unknown operation: "@ + op)
                                                },
                                            }
                                        },
                                    }
                                },
                            }
                        },
                    }
                },
            }
        },
    }
}

/// The request that an operation with its parameters stands for, or why there is none.
pub fn plan_analysis(op: &str, p: &Json) -> (r: Result<Call, String>)
    ensures
        match r {
            Ok(call) => analysis_call(op@, p@) == Ok::<CallV, Seq<char>>(call@),
            Err(e) => analysis_call(op@, p@) == Err::<CallV, Seq<char>>(e@),
        },
{
    if let Some(call) = plan_code(op, p)? {
        return Ok(call);
    }
    if let Some(call) = plan_data(op, p)? {
        return Ok(call);
    }
    if let Some(call) = plan_flow(op, p)? {
        return Ok(call);
    }
    if let Some(call) = plan_search(op, p)? {
        return Ok(call);
    }
    if let Some(call) = plan_types(op, p)? {
        return Ok(call);
    }
    if let Some(call) = plan_edit(op, p)? {
        return Ok(call);
    }
    let mut e = "Unknown operation: ".to_owned();
    e.push_str(op);
    Err(e)
}

/// Whether an operation is one that the worker answers.
pub open spec fn is_analysis_op(op: Seq<char>) -> bool {
    ||| op == "info"@
    ||| op == "meta"@
    ||| op == "analysis_status"@
    ||| op == "functions"@
    ||| op == "list_functions"@
    ||| op == "resolve_function"@
    ||| op == "function_at"@
    ||| op == "lookup_funcs"@
    ||| op == "analyze_funcs"@
    ||| op == "disasm"@
    ||| op == "disasm_function_at"@
    ||| op == "decompile"@
    ||| op == "pseudocode_at"@
    ||| op == "strings"@
    ||| op == "find_string"@
    ||| op == "get_string"@
    ||| op == "analyze_strings"@
    ||| op == "xrefs_to_string"@
    ||| op == "segments"@
    ||| op == "imports"@
    ||| op == "exports"@
    ||| op == "export_funcs"@
    ||| op == "entrypoints"@
    ||| op == "globals"@
    ||| op == "list_globals"@
    ||| op == "get_global_value"@
    ||| op == "xrefs_to"@
    ||| op == "xrefs_from"@
    ||| op == "xref_matrix"@
    ||| op == "basic_blocks"@
    ||| op == "callers"@
    ||| op == "callees"@
    ||| op == "callgraph"@
    ||| op == "find_paths"@
    ||| op == "get_bytes"@
    ||| op == "read_int"@
    ||| op == "find_bytes"@
    ||| op == "search_text"@
    ||| op == "search_imm"@
    ||| op == "find_insns"@
    ||| op == "find_insn_operands"@
    ||| op == "addr_info"@
    ||| op == "local_types"@
    ||| op == "declare_type"@
    ||| op == "apply_types"@
    ||| op == "infer_types"@
    ||| op == "stack_frame"@
    ||| op == "declare_stack"@
    ||| op == "delete_stack"@
    ||| op == "structs"@
    ||| op == "struct_info"@
    ||| op == "read_struct"@
    ||| op == "xrefs_to_field"@
    ||| op == "set_comment"@
    ||| op == "rename"@
    ||| op == "patch_bytes"@
    ||| op == "patch_asm"@
    ||| op == "run_script"@
    ||| op == "load_debug_info"@
}
/// An error that no unknown operation gives.
spec fn names_a_parameter<V>(r: Result<V, Seq<char>>) -> bool {
    r matches Err(e) ==> e.len() > 0 && e[0] != 'U'
}

proof fn lemma_addr_errors(s: Seq<char>)
    ensures
        names_a_parameter(addr_in(s)),
{
    reveal_strlit("Invalid address: ");
}

proof fn lemma_addrs_errors(texts: Seq<Seq<char>>)
    ensures
        names_a_parameter(addrs_in(texts)),
    decreases texts.len(),
{
    if texts.len() > 0 {
        lemma_addrs_errors(texts.drop_last());
        lemma_addr_errors(texts.last());
    }
}

proof fn lemma_param_errors(p: JsonV)
    ensures
        forall|key: Seq<char>| names_a_parameter(#[trigger] need_text(p, key)),
        forall|key: Seq<char>| names_a_parameter(#[trigger] need_addr(p, key)),
        forall|key: Seq<char>| names_a_parameter(#[trigger] opt_addr(p, key)),
        forall|key: Seq<char>| names_a_parameter(#[trigger] need_addrs(p, key)),
        forall|key: Seq<char>| names_a_parameter(#[trigger] need_bytes(p, key)),
        names_a_parameter(need_place(p)),
{
    reveal_strlit("Missing parameter: ");
    reveal_strlit("Hex bytes string has odd length");
    reveal_strlit("Invalid hex byte at position ");
    assert forall|key: Seq<char>| names_a_parameter(#[trigger] need_addr(p, key)) by {
        if need_text(p, key) is Ok {
            lemma_addr_errors(need_text(p, key)->Ok_0);
        }
    }
    assert forall|key: Seq<char>| names_a_parameter(#[trigger] opt_addr(p, key)) by {
        if text_field(p, key) is Some {
            lemma_addr_errors(text_field(p, key)->0);
        }
    }
    assert forall|key: Seq<char>| names_a_parameter(#[trigger] need_addrs(p, key)) by {
        lemma_addrs_errors(texts_in(p, key));
    }
    assert(names_a_parameter(need_place(p))) by {
        assert(names_a_parameter(need_addr(p, "address"@)));
    }
}

/// The reply "Unknown operation" comes for the operations that are no analysis operations, and
/// for no other, whatever the parameters are.
pub proof fn lemma_known_operations(op: Seq<char>, p: JsonV)
    ensures
        !is_analysis_op(op) <==> analysis_call(op, p) == Err::<CallV, Seq<char>>(
            "Unknown operation: "@ + op,
        ),
{
    reveal_strlit("Unknown operation: ");
    lemma_param_errors(p);
    assert(("Unknown operation: "@ + op)[0] == 'U');
    assert(names_a_parameter(code_call(op, p)));
    assert(names_a_parameter(data_call(op, p)));
    assert(names_a_parameter(flow_call(op, p)));
    assert(names_a_parameter(search_call(op, p)));
    assert(names_a_parameter(types_call(op, p)));
    assert(names_a_parameter(edit_call(op, p)));
}

// ---------------------------------------------------------------------------
// What parameters stand for
// ---------------------------------------------------------------------------

/// Whether a count is what the parameter `key` says: its number where it is
/// one, and `default` where it is not given.
pub open spec fn count_is(p: JsonV, key: Seq<char>, default: usize, v: usize) -> bool {
    &&& field(p, key) is None ==> v == default
    &&& field(p, key) matches Some(JsonV::Num(NumV::Unsigned(n))) ==> v == n as usize
    &&& field(p, key) is Some && !(field(p, key)->0 is Num) ==> v == default
}

/// Whether a flag is what the parameter `key` says, and `default` where it is
/// not given.
pub open spec fn flag_is(p: JsonV, key: Seq<char>, default: bool, v: bool) -> bool {
    &&& field(p, key) is None ==> v == default
    &&& field(p, key) matches Some(JsonV::Bool(b)) ==> v == b
    &&& field(p, key) is Some && !(field(p, key)->0 is Bool) ==> v == default
}

/// Whether a text is what the parameter `key` says, and none where it is not
/// given.
pub open spec fn text_is(p: JsonV, key: Seq<char>, v: Option<Seq<char>>) -> bool {
    &&& field(p, key) is None ==> v is None
    &&& field(p, key) matches Some(JsonV::Str(s)) ==> v == Some(s)
    &&& field(p, key) is Some && !(field(p, key)->0 is Str) ==> v is None
}

/// Whether a signed number is what the parameter `key` says, and none where it
/// is not given.
pub open spec fn signed_is(p: JsonV, key: Seq<char>, v: Option<i64>) -> bool {
    &&& field(p, key) is None ==> v is None
    &&& field(p, key) matches Some(JsonV::Num(NumV::Unsigned(n))) ==> n <= i64::MAX ==> v == Some(
        n as i64,
    )
    &&& field(p, key) matches Some(JsonV::Num(NumV::Negative(n))) ==> v == Some(n)
    &&& field(p, key) is Some && !(field(p, key)->0 is Num) ==> v is None
}

/// Whether an ordinal is what the parameter `key` says, and none where it is
/// not given.
pub open spec fn ordinal_is(p: JsonV, key: Seq<char>, v: Option<u32>) -> bool {
    &&& field(p, key) is None ==> v is None
    &&& field(p, key) matches Some(JsonV::Num(NumV::Unsigned(n))) ==> n <= u32::MAX ==> v == Some(
        n as u32,
    )
}

/// What the optional parameters of the operations on functions and code stand for, and
/// what is taken where one is not given.
pub proof fn lemma_code_parameters(op: Seq<char>, p: JsonV)
    ensures
        code_call(op, p) matches Ok(Some(CallV::ListFunctions { offset, limit, filter, .. })) ==> {
            &&& count_is(p, "offset"@, 0, offset)
            &&& count_is(p, "limit"@, 100, limit)
            &&& text_is(p, "filter"@, filter)
        },
        code_call(op, p) matches Ok(Some(CallV::Disasm { offset, count, .. })) ==> {
            &&& count_is(p, "offset"@, 0, offset)
            &&& count_is(p, "count"@, 20, count)
        },
        code_call(op, p) matches Ok(Some(CallV::DisasmFunctionAt { offset, count, .. })) ==> {
            &&& count_is(p, "offset"@, 0, offset)
            &&& count_is(p, "count"@, 200, count)
        },
        code_call(op, p) matches Ok(Some(CallV::Decompile { max_lines, .. })) ==> {
            &&& count_is(p, "max_lines"@, 0, max_lines)
        },
{
}

/// What the optional parameters of the operations on strings and names stand for, and
/// what is taken where one is not given.
pub proof fn lemma_data_parameters(op: Seq<char>, p: JsonV)
    ensures
        data_call(op, p) matches Ok(Some(CallV::Strings { offset, limit, filter, .. })) ==> {
            &&& count_is(p, "offset"@, 0, offset)
            &&& count_is(p, "limit"@, 100, limit)
            &&& text_is(p, "filter"@, filter)
        },
        data_call(op, p) matches Ok(Some(CallV::FindString { exact, case_insensitive, offset, limit, .. })) ==> {
            &&& flag_is(p, "exact"@, false, exact)
            &&& flag_is(p, "case_insensitive"@, false, case_insensitive)
            &&& count_is(p, "offset"@, 0, offset)
            &&& count_is(p, "limit"@, 100, limit)
        },
        data_call(op, p) matches Ok(Some(CallV::GetString { max_len, .. })) ==> {
            &&& count_is(p, "max_len"@, 1024, max_len)
        },
        data_call(op, p) matches Ok(Some(CallV::AnalyzeStrings { query, offset, limit, .. })) ==> {
            &&& text_is(p, "query"@, query)
            &&& count_is(p, "offset"@, 0, offset)
            &&& count_is(p, "limit"@, 100, limit)
        },
        data_call(op, p) matches Ok(Some(CallV::XrefsToString { exact, case_insensitive, offset, limit, max_xrefs, .. })) ==> {
            &&& flag_is(p, "exact"@, false, exact)
            &&& flag_is(p, "case_insensitive"@, false, case_insensitive)
            &&& count_is(p, "offset"@, 0, offset)
            &&& count_is(p, "limit"@, 100, limit)
            &&& count_is(p, "max_xrefs"@, 10, max_xrefs)
        },
        data_call(op, p) matches Ok(Some(CallV::Imports { offset, limit, .. })) ==> {
            &&& count_is(p, "offset"@, 0, offset)
            &&& count_is(p, "limit"@, 100, limit)
        },
        data_call(op, p) matches Ok(Some(CallV::Exports { offset, limit, .. })) ==> {
            &&& count_is(p, "offset"@, 0, offset)
            &&& count_is(p, "limit"@, 100, limit)
        },
        data_call(op, p) matches Ok(Some(CallV::ListGlobals { filter, offset, limit, .. })) ==> {
            &&& text_is(p, "filter"@, filter)
            &&& count_is(p, "offset"@, 0, offset)
            &&& count_is(p, "limit"@, 100, limit)
        },
{
}

/// What the optional parameters of the operations on references and memory stand for, and
/// what is taken where one is not given.
pub proof fn lemma_flow_parameters(op: Seq<char>, p: JsonV)
    ensures
        flow_call(op, p) matches Ok(Some(CallV::XrefsTo { offset, limit, .. })) ==> {
            &&& count_is(p, "offset"@, 0, offset)
            &&& 1 <= limit <= 10000
            &&& field(p, "limit"@) is None ==> limit == 1000
            &&& field(p, "limit"@) matches Some(JsonV::Num(NumV::Unsigned(n))) ==> 1 <= n <= 10000
                ==> limit == n
        },
        flow_call(op, p) matches Ok(Some(CallV::XrefsFrom { offset, limit, .. })) ==> {
            &&& count_is(p, "offset"@, 0, offset)
            &&& 1 <= limit <= 10000
            &&& field(p, "limit"@) is None ==> limit == 1000
            &&& field(p, "limit"@) matches Some(JsonV::Num(NumV::Unsigned(n))) ==> 1 <= n <= 10000
                ==> limit == n
        },
        flow_call(op, p) matches Ok(Some(CallV::Callgraph { max_depth, max_nodes, .. })) ==> {
            &&& count_is(p, "max_depth"@, 3, max_depth)
            &&& count_is(p, "max_nodes"@, 100, max_nodes)
        },
        flow_call(op, p) matches Ok(Some(CallV::FindPaths { max_paths, max_depth, .. })) ==> {
            &&& count_is(p, "max_paths"@, 5, max_paths)
            &&& count_is(p, "max_depth"@, 10, max_depth)
        },
        flow_call(op, p) matches Ok(Some(CallV::GetBytes { size, .. })) ==> {
            &&& count_is(p, "size"@, 64, size)
        },
        flow_call(op, p) matches Ok(Some(CallV::ReadInt { size, .. })) ==> {
            &&& count_is(p, "size"@, 4, size)
        },
{
}

/// What the optional parameters of the operations on searches stand for, and
/// what is taken where one is not given.
pub proof fn lemma_search_parameters(op: Seq<char>, p: JsonV)
    ensures
        search_call(op, p) matches Ok(Some(CallV::FindBytes { limit, .. })) ==> {
            &&& count_is(p, "limit"@, 100, limit)
        },
        search_call(op, p) matches Ok(Some(CallV::SearchText { max_results, .. })) ==> {
            &&& count_is(p, "max_results"@, 100, max_results)
        },
        search_call(op, p) matches Ok(Some(CallV::SearchImm { max_results, .. })) ==> {
            &&& count_is(p, "max_results"@, 100, max_results)
        },
        search_call(op, p) matches Ok(Some(CallV::FindInsns { max_results, case_insensitive, .. })) ==> {
            &&& count_is(p, "max_results"@, 100, max_results)
            &&& flag_is(p, "case_insensitive"@, false, case_insensitive)
        },
        search_call(op, p) matches Ok(Some(CallV::FindInsnOperands { max_results, case_insensitive, .. })) ==> {
            &&& count_is(p, "max_results"@, 100, max_results)
            &&& flag_is(p, "case_insensitive"@, false, case_insensitive)
        },
{
}

/// What the optional parameters of the operations on types stand for, and
/// what is taken where one is not given.
pub proof fn lemma_types_parameters(op: Seq<char>, p: JsonV)
    ensures
        types_call(op, p) matches Ok(Some(CallV::LocalTypes { offset, limit, filter, .. })) ==> {
            &&& count_is(p, "offset"@, 0, offset)
            &&& count_is(p, "limit"@, 100, limit)
            &&& text_is(p, "filter"@, filter)
        },
        types_call(op, p) matches Ok(Some(CallV::DeclareType { relaxed, replace, multi, .. })) ==> {
            &&& flag_is(p, "relaxed"@, false, relaxed)
            &&& flag_is(p, "replace"@, false, replace)
            &&& flag_is(p, "multi"@, false, multi)
        },
        types_call(op, p) matches Ok(Some(CallV::ApplyTypes { name, offset, stack_offset, stack_name, decl, named_type, relaxed, delay, strict, .. })) ==> {
            &&& text_is(p, "name"@, name)
            &&& signed_is(p, "offset"@, Some(offset)) || (signed_is(p, "offset"@, None) && offset == 0)
            &&& signed_is(p, "stack_offset"@, stack_offset)
            &&& text_is(p, "stack_name"@, stack_name)
            &&& text_is(p, "decl"@, decl)
            &&& text_is(p, "type_name"@, named_type)
            &&& flag_is(p, "relaxed"@, false, relaxed)
            &&& flag_is(p, "delay"@, false, delay)
            &&& flag_is(p, "strict"@, false, strict)
        },
        types_call(op, p) matches Ok(Some(CallV::InferTypes { name, offset, .. })) ==> {
            &&& text_is(p, "name"@, name)
            &&& signed_is(p, "offset"@, Some(offset)) || (signed_is(p, "offset"@, None) && offset == 0)
        },
        types_call(op, p) matches Ok(Some(CallV::DeclareStack { name, offset, var_name, relaxed, .. })) ==> {
            &&& text_is(p, "name"@, name)
            &&& signed_is(p, "offset"@, Some(offset)) || (signed_is(p, "offset"@, None) && offset == 0)
            &&& text_is(p, "var_name"@, var_name)
            &&& flag_is(p, "relaxed"@, false, relaxed)
        },
        types_call(op, p) matches Ok(Some(CallV::DeleteStack { name, offset, var_name, .. })) ==> {
            &&& text_is(p, "name"@, name)
            &&& signed_is(p, "offset"@, offset)
            &&& text_is(p, "var_name"@, var_name)
        },
        types_call(op, p) matches Ok(Some(CallV::Structs { offset, limit, filter, .. })) ==> {
            &&& count_is(p, "offset"@, 0, offset)
            &&& count_is(p, "limit"@, 100, limit)
            &&& text_is(p, "filter"@, filter)
        },
        types_call(op, p) matches Ok(Some(CallV::StructInfo { ordinal, name, .. })) ==> {
            &&& ordinal_is(p, "ordinal"@, ordinal)
            &&& text_is(p, "name"@, name)
        },
        types_call(op, p) matches Ok(Some(CallV::ReadStruct { ordinal, name, .. })) ==> {
            &&& ordinal_is(p, "ordinal"@, ordinal)
            &&& text_is(p, "name"@, name)
        },
        types_call(op, p) matches Ok(Some(CallV::XrefsToField { ordinal, name, member_index, member_name, limit, .. })) ==> {
            &&& ordinal_is(p, "ordinal"@, ordinal)
            &&& text_is(p, "name"@, name)
            &&& ordinal_is(p, "member_index"@, member_index)
            &&& text_is(p, "member_name"@, member_name)
            &&& count_is(p, "limit"@, 100, limit)
        },
{
}

/// What the optional parameters of the operations on changes stand for, and
/// what is taken where one is not given.
pub proof fn lemma_edit_parameters(op: Seq<char>, p: JsonV)
    ensures
        edit_call(op, p) matches Ok(Some(CallV::SetComment { name, offset, repeatable, .. })) ==> {
            &&& text_is(p, "name"@, name)
            &&& signed_is(p, "offset"@, Some(offset)) || (signed_is(p, "offset"@, None) && offset == 0)
            &&& flag_is(p, "repeatable"@, false, repeatable)
        },
        edit_call(op, p) matches Ok(Some(CallV::Rename { current_name, .. })) ==> {
            &&& text_is(p, "current_name"@, current_name)
        },
        edit_call(op, p) matches Ok(Some(CallV::PatchBytes { name, offset, .. })) ==> {
            &&& text_is(p, "name"@, name)
            &&& signed_is(p, "offset"@, Some(offset)) || (signed_is(p, "offset"@, None) && offset == 0)
        },
        edit_call(op, p) matches Ok(Some(CallV::PatchAsm { name, offset, .. })) ==> {
            &&& text_is(p, "name"@, name)
            &&& signed_is(p, "offset"@, Some(offset)) || (signed_is(p, "offset"@, None) && offset == 0)
        },
        edit_call(op, p) matches Ok(Some(CallV::LoadDebugInfo { path, verbose, .. })) ==> {
            &&& text_is(p, "path"@, path)
            &&& flag_is(p, "verbose"@, false, verbose)
        },
{
}

/// A number between the two bounds stays; one outside them becomes the nearer.
pub proof fn lemma_clamped(v: usize, low: usize, high: usize)
    requires
        low <= high,
    ensures
        low <= clamped(v, low, high) <= high,
        low <= v <= high ==> clamped(v, low, high) == v,
        v < low ==> clamped(v, low, high) == low,
        v > high ==> clamped(v, low, high) == high,
{
}

/// A place is the name where one is given, whatever the address says, else the
/// address; without either it is an error.
pub proof fn lemma_place_is_name_or_address(m: FieldsV, name: Seq<char>, n: u64)
    ensures
        m.dom().contains("name"@) && m["name"@] == JsonV::Str(name) ==> need_place(JsonV::Obj(m))
            == Ok::<Place<Seq<char>>, Seq<char>>(Place::Name(name)),
        !m.dom().contains("name"@) && m.dom().contains("address"@) && m["address"@] == JsonV::Str(
            hex(n as nat),
        ) ==> need_place(JsonV::Obj(m)) == Ok::<Place<Seq<char>>, Seq<char>>(Place::Addr(n)),
        !m.dom().contains("name"@) && !m.dom().contains("address"@) ==> need_place(JsonV::Obj(m))
            is Err,
{
    lemma_address_read_back(n);
}

/// A parameter that holds an address is that address, in hexadecimal or in
/// decimal; without the parameter a required one is an error and an optional
/// one is none.
pub proof fn lemma_address_parameter(m: FieldsV, key: Seq<char>, n: u64)
    ensures
        m.dom().contains(key) && (m[key] == JsonV::Str(hex(n as nat)) || m[key] == JsonV::Str(
            decimal(n as nat),
        )) ==> need_addr(JsonV::Obj(m), key) == Ok::<u64, Seq<char>>(n) && opt_addr(
            JsonV::Obj(m),
            key,
        ) == Ok::<Option<u64>, Seq<char>>(Some(n)),
        !m.dom().contains(key) ==> need_addr(JsonV::Obj(m), key) == Err::<u64, Seq<char>>(
            "Missing parameter: "@ + key,
        ) && opt_addr(JsonV::Obj(m), key) == Ok::<Option<u64>, Seq<char>>(None),
{
    lemma_address_read_back(n);
}

/// A list of texts is read as it stands: each text, in order.
pub proof fn lemma_list_parameter(m: FieldsV, key: Seq<char>, list: Seq<Seq<char>>)
    requires
        m.dom().contains(key),
        m[key] == JsonV::Arr(list.map_values(|s: Seq<char>| JsonV::Str(s))),
    ensures
        texts_in(JsonV::Obj(m), key) == list,
{
    lemma_texts_among(list);
}

proof fn lemma_texts_among(list: Seq<Seq<char>>)
    ensures
        texts_among(list.map_values(|s: Seq<char>| JsonV::Str(s))) == list,
    decreases list.len(),
{
    let items = list.map_values(|s: Seq<char>| JsonV::Str(s));
    if list.len() > 0 {
        lemma_texts_among(list.drop_last());
        assert(items.drop_last() =~= list.drop_last().map_values(|s: Seq<char>| JsonV::Str(s)));
        assert(list.drop_last().push(list.last()) =~= list);
    }
}

/// A list of addresses is read address by address, in order; one that is no
/// address makes the whole list an error.
pub proof fn lemma_addresses_one_by_one(texts: Seq<Seq<char>>, n: u64, bad: Seq<char>)
    ensures
        addrs_in(texts) matches Ok(list) ==> list.len() == texts.len() && addrs_in(
            texts.push(hex(n as nat)),
        ) == Ok::<Seq<u64>, Seq<char>>(list.push(n)),
        address(bad) is None ==> addrs_in(texts.push(bad)) is Err,
        addrs_in(Seq::empty()) == Ok::<Seq<u64>, Seq<char>>(Seq::empty()),
    decreases texts.len(),
{
    lemma_address_read_back(n);
    assert(texts.push(hex(n as nat)).drop_last() =~= texts);
    assert(texts.push(bad).drop_last() =~= texts);
    if texts.len() > 0 {
        lemma_addresses_one_by_one(texts.drop_last(), n, bad);
    }
}

/// Bytes that are written in hexadecimal are read as those bytes; an odd
/// number of digits is an error.
pub proof fn lemma_bytes_parameter(m: FieldsV, key: Seq<char>, bytes: Seq<u8>)
    requires
        m.dom().contains(key),
        m[key] == JsonV::Str(hex_encoded(bytes)),
    ensures
        need_bytes(JsonV::Obj(m), key) == Ok::<Seq<u8>, Seq<char>>(bytes),
{
    lemma_hex_read_back(bytes);
}

/// A required text is the text that is given; one that is missing, or is no text,
/// is an error that names it.
pub proof fn lemma_text_parameter(m: FieldsV, key: Seq<char>, s: Seq<char>)
    ensures
        m.dom().contains(key) && m[key] == JsonV::Str(s) ==> need_text(JsonV::Obj(m), key) == Ok::<
            Seq<char>,
            Seq<char>,
        >(s),
        !m.dom().contains(key) || !(m[key] is Str) ==> need_text(JsonV::Obj(m), key) == Err::<
            Seq<char>,
            Seq<char>,
        >("Missing parameter: "@ + key),
{
}

} // verus!
