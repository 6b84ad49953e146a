//! What the command line asks for, and how each command becomes a request to the daemon.

use crate::daemon::{
    CLIENT_DEFAULT_TIMEOUT_SECS, CLIENT_STOP_TIMEOUT_SECS, WORKER_OP_TIMEOUT_SECS,
};
use crate::dispatch::is_analysis_op;
use crate::json::{
    field, no_fields, number_v, opt_number_v, opt_signed_v, opt_text_v, signed_v, text_field,
    text_v, texts_v, unsigned_in, FieldsV, Json, JsonObject, JsonV, NumV,
};
use crate::numbers::{
    decimal, decimal_text, digits, digits_value, lemma_digits_read_back, lemma_padding_keeps_the_number,
    lemma_parse_written, parse_digits, parsed, push_padded, zero_padded,
};
use crate::protocol::{answer, opt_json, Response, ResponseV};
use crate::text::{copy_opt, join, joined, lines, lines_of, opt_view, views};
use vstd::prelude::*;

verus! {

/// The whole command line.
#[derive(Debug)]
pub struct Cli {
    /// Target selector (ID or filename substring) for daemon queries
    pub target: Option<String>,
    /// Auto-spill token threshold. Outputs exceeding this estimated token count
    /// are written to a temporary file instead of stdout. Set to 0 to disable spilling.
    pub spill_threshold: usize,
    pub command: CliCommand,
}

/// Arguments of the commands that manage the daemon.
#[derive(Debug)]
pub struct DaemonArgs {
    pub command: DaemonCommand,
}

/// The commands that manage the daemon.
#[derive(Debug)]
pub enum DaemonCommand {
    /// Start the daemon
    Start { background: bool },
    /// Stop the running daemon
    Stop,
    /// Show daemon status
    Status,
    /// Run the worker that serves one target
    Worker { sock: String, id: String },
}

/// Arguments of the commands that manage targets.
#[derive(Debug)]
pub struct TargetArgs {
    pub command: TargetCommand,
}

/// The commands that manage targets.
#[derive(Debug)]
pub enum TargetCommand {
    /// Load a binary or a database
    Load { file: String, idb_out: Option<String>, no_analyse: bool },
    /// List the loaded targets
    List,
    /// Close a target
    Close { id: String },
    /// Make a target the active one
    Switch { id: String },
}

/// The value of an optional small number.
pub open spec fn opt_nat(n: Option<u32>) -> Option<nat> {
    match n {
        Some(v) => Some(v as nat),
        None => None,
    }
}

fn wide(n: Option<u32>) -> (r: Option<u64>)
    ensures
        opt_nat(n) == (match r {
            Some(v) => Some(v as nat),
            None => None,
        }),
{
    match n {
        Some(v) => Some(v as u64),
        None => None,
    }
}

/// What the command line asks for.
#[derive(Debug)]
pub enum CliCommand {
    /// Manage the background daemon process (start/stop/status)
    Daemon(DaemonArgs),
    /// Manage loaded analysis targets (load/list/close/switch)
    Target(TargetArgs),
    /// Show target info (file type, processor, bitness, function count)
    Info,
    /// Show IDB metadata (compiler, ABI, etc.)
    Meta,
    /// Show analysis status (auto_is_ok, auto_state)
    AnalysisStatus,
    /// List functions (paginated, filterable)
    Functions(FunctionsArgs),
    /// Resolve a function by name (returns address and size)
    ResolveFunction(ResolveFunctionArgs),
    /// Find the function containing a given address
    FunctionAt(AddressArgs),
    /// Batch lookup functions by name or address
    LookupFuncs(LookupFuncsArgs),
    /// Trigger re-analysis of all functions (mutating)
    AnalyzeFuncs,
    /// Disassemble at an address or by function name
    Disasm(DisasmArgs),
    /// Disassemble the entire function containing an address
    DisasmFunctionAt(DisasmFunctionAtArgs),
    /// Decompile a function to pseudocode (requires Hex-Rays)
    Decompile(DecompileArgs),
    /// Get decompiled pseudocode at an address or address range
    PseudocodeAt(PseudocodeAtArgs),
    /// List or filter strings in the binary
    Strings(StringsArgs),
    /// Find strings matching a query (supports exact/case-insensitive)
    FindString(FindStringArgs),
    /// Read the string value at a specific address
    GetString(GetStringArgs),
    /// List strings with their cross-references
    AnalyzeStrings(AnalyzeStringsArgs),
    /// Find cross-references to strings matching a query
    XrefsToString(XrefsToStringArgs),
    /// List all segments with permissions and types
    Segments,
    /// List imported symbols (paginated)
    Imports(PaginationArgs),
    /// List exported/public symbols (paginated)
    Exports(PaginationArgs),
    /// List binary entry points
    Entrypoints,
    /// List named global variables (non-function symbols)
    Globals(GlobalsArgs),
    /// Get a global variable's value by name or address
    GetGlobalValue(QueryArgs),
    /// Show cross-references TO an address (paginated)
    XrefsTo(XrefPageArgs),
    /// Show cross-references FROM an address (paginated)
    XrefsFrom(XrefPageArgs),
    /// Build an xref adjacency matrix for multiple addresses
    XrefMatrix(MultiAddressArgs),
    /// Show basic blocks (CFG) for the function at an address
    BasicBlocks(AddressArgs),
    /// Show all callers of a function
    Callers(AddressArgs),
    /// Show all callees of a function
    Callees(AddressArgs),
    /// Build a call graph rooted at a function
    Callgraph(CallgraphArgs),
    /// Find call paths between two addresses
    FindPaths(FindPathsArgs),
    /// Read raw bytes at an address
    GetBytes(GetBytesArgs),
    /// Read an integer value at an address (1/2/4/8 bytes)
    ReadInt(ReadIntArgs),
    /// Search for a byte pattern (supports wildcards)
    FindBytes(FindBytesArgs),
    /// Search for text in disassembly listings
    SearchText(SearchTextArgs),
    /// Search for immediate values in instructions
    SearchImm(SearchImmArgs),
    /// Find instructions matching mnemonic patterns
    FindInsns(FindInsnsArgs),
    /// Find instructions by operand patterns
    FindInsnOperands(FindInsnsArgs),
    /// Resolve an address to its segment/function/symbol context
    AddrInfo(AddressArgs),
    /// List local types in the database (paginated)
    LocalTypes(LocalTypesArgs),
    /// Declare a new type (C syntax)
    DeclareType(DeclareTypeArgs),
    /// Apply a type to an address or stack variable
    ApplyTypes(ApplyTypesArgs),
    /// Infer/guess types at an address
    InferTypes(InferTypesArgs),
    /// Show stack frame layout for a function
    StackFrame(AddressArgs),
    /// Declare a stack variable type
    DeclareStack(DeclareStackArgs),
    /// Delete a stack variable
    DeleteStack(DeleteStackArgs),
    /// List structs/unions in the database (paginated)
    Structs(StructsArgs),
    /// Show detailed struct information and members
    StructInfo(StructInfoArgs),
    /// Read struct data at a memory address
    ReadStruct(ReadStructArgs),
    /// Find cross-references to a struct field
    XrefsToField(XrefsToFieldArgs),
    /// Set a comment at an address
    SetComment(SetCommentArgs),
    /// Rename a symbol at an address
    Rename(RenameArgs),
    /// Patch raw bytes at an address
    PatchBytes(PatchBytesArgs),
    /// Assemble and patch an instruction at an address
    PatchAsm(PatchAsmArgs),
    /// Run an IDAPython script in the database context
    RunScript(RunScriptArgs),
    /// Load external debug info (dSYM/DWARF) into the database
    LoadDebugInfo(LoadDebugInfoArgs),
    /// Convert an integer between decimal, hex, octal, and binary
    IntConvert(IntConvertArgs),
}

/// Arguments: `offset`, `limit`, `filter`.
#[derive(Debug)]
pub struct FunctionsArgs {
    /// Number of items to skip
    pub offset: usize,
    /// Maximum number of items to return (use --offset to paginate)
    pub limit: usize,
    /// Filter functions by name substring
    pub filter: Option<String>,
}

/// Arguments: `name`.
#[derive(Debug)]
pub struct ResolveFunctionArgs {
    /// Function name (or substring) to search for
    pub name: String,
}

/// Arguments: `queries`.
#[derive(Debug)]
pub struct LookupFuncsArgs {
    /// Queries (names or hex addresses) separated by commas
    pub queries: Vec<String>,
}

/// Arguments: `address`, `name`, `count`, `offset`.
#[derive(Debug)]
pub struct DisasmArgs {
    /// Address to disassemble (hex 0x... or decimal, e.g. 0x100001234)
    pub address: Option<String>,
    /// Function name to disassemble
    pub name: Option<String>,
    /// Number of instructions to disassemble
    pub count: usize,
    /// Number of instructions to skip (for pagination)
    pub offset: usize,
}

/// Arguments: `address`, `count`, `offset`.
#[derive(Debug)]
pub struct DisasmFunctionAtArgs {
    /// Address within the function (hex 0x... or decimal, e.g. 0x100001234)
    pub address: String,
    /// Maximum number of instructions to return
    pub count: usize,
    /// Number of instructions to skip (for pagination through large functions)
    pub offset: usize,
}

/// Arguments: `address`, `name`, `max_lines`.
#[derive(Debug)]
pub struct DecompileArgs {
    /// Function address to decompile (hex 0x... or decimal, e.g. 0x100001234)
    pub address: Option<String>,
    /// Function name to decompile
    pub name: Option<String>,
    /// Maximum number of pseudocode lines to return (0 = unlimited)
    pub max_lines: usize,
}

/// Arguments: `address`, `end_address`.
#[derive(Debug)]
pub struct PseudocodeAtArgs {
    /// Start address (hex 0x... or decimal)
    pub address: String,
    /// End address for range decompilation (optional)
    pub end_address: Option<String>,
}

/// Arguments: `offset`, `limit`, `filter`.
#[derive(Debug)]
pub struct StringsArgs {
    /// Number of items to skip
    pub offset: usize,
    /// Maximum number of items to return (use --offset to paginate)
    pub limit: usize,
    /// Filter strings by content substring
    pub filter: Option<String>,
}

/// Arguments: `query`, `exact`, `case_insensitive`, `offset`, `limit`.
#[derive(Debug)]
pub struct FindStringArgs {
    /// String content to search for
    pub query: String,
    /// Require exact match (not substring)
    pub exact: bool,
    /// Case insensitive search
    pub case_insensitive: bool,
    /// Number of items to skip
    pub offset: usize,
    /// Maximum number of items to return (use --offset to paginate)
    pub limit: usize,
}

/// Arguments: `address`, `max_len`.
#[derive(Debug)]
pub struct GetStringArgs {
    /// Address of the string (hex 0x... or decimal)
    pub address: String,
    /// Maximum string length to read
    pub max_len: usize,
}

/// Arguments: `query`, `offset`, `limit`.
#[derive(Debug)]
pub struct AnalyzeStringsArgs {
    /// Optional query to filter strings
    pub query: Option<String>,
    /// Number of items to skip
    pub offset: usize,
    /// Maximum number of items to return (use --offset to paginate)
    pub limit: usize,
}

/// Arguments: `query`, `exact`, `case_insensitive`, `offset`, `limit`, `max_xrefs`.
#[derive(Debug)]
pub struct XrefsToStringArgs {
    /// String content to search for
    pub query: String,
    /// Require exact match
    pub exact: bool,
    /// Case insensitive search
    pub case_insensitive: bool,
    /// Number of items to skip
    pub offset: usize,
    /// Maximum number of items to return (use --offset to paginate)
    pub limit: usize,
    /// Maximum cross-references per string
    pub max_xrefs: usize,
}

/// Arguments: `offset`, `limit`.
#[derive(Debug)]
pub struct PaginationArgs {
    /// Number of items to skip
    pub offset: usize,
    /// Maximum number of items to return (use --offset to paginate)
    pub limit: usize,
}

/// Arguments: `offset`, `limit`, `filter`.
#[derive(Debug)]
pub struct GlobalsArgs {
    /// Number of items to skip
    pub offset: usize,
    /// Maximum number of items to return (use --offset to paginate)
    pub limit: usize,
    /// Filter globals by name substring
    pub filter: Option<String>,
}

/// Arguments: `query`.
#[derive(Debug)]
pub struct QueryArgs {
    /// Query string (name or hex address)
    pub query: String,
}

/// Arguments: `address`.
#[derive(Debug)]
pub struct AddressArgs {
    /// Target address (hex 0x... or decimal)
    pub address: String,
}

/// Arguments: `address`, `offset`, `limit`.
#[derive(Debug)]
pub struct XrefPageArgs {
    /// Target address (hex 0x... or decimal)
    pub address: String,
    /// Number of xrefs to skip
    pub offset: usize,
    /// Maximum number of xrefs to return (max 10000)
    pub limit: usize,
}

/// Arguments: `addresses`.
#[derive(Debug)]
pub struct MultiAddressArgs {
    /// Addresses (comma-separated, hex or decimal)
    pub addresses: Vec<String>,
}

/// Arguments: `address`, `max_depth`, `max_nodes`.
#[derive(Debug)]
pub struct CallgraphArgs {
    /// Root function address (hex 0x... or decimal, e.g. 0x100001234)
    pub address: String,
    /// Maximum call depth to traverse
    pub max_depth: usize,
    /// Maximum number of nodes in the graph (keep small to avoid truncation)
    pub max_nodes: usize,
}

/// Arguments: `start`, `end`, `max_paths`, `max_depth`.
#[derive(Debug)]
pub struct FindPathsArgs {
    /// Start address (hex 0x... or decimal)
    pub start: String,
    /// End address (hex 0x... or decimal)
    pub end: String,
    /// Maximum number of paths to find
    pub max_paths: usize,
    /// Maximum search depth
    pub max_depth: usize,
}

/// Arguments: `address`, `size`.
#[derive(Debug)]
pub struct GetBytesArgs {
    /// Address to read from (hex 0x... or decimal)
    pub address: String,
    /// Number of bytes to read
    pub size: usize,
}

/// Arguments: `address`, `size`.
#[derive(Debug)]
pub struct ReadIntArgs {
    /// Address to read from (hex 0x... or decimal)
    pub address: String,
    /// Integer size in bytes (1, 2, 4, or 8)
    pub size: usize,
}

/// Arguments: `pattern`, `limit`.
#[derive(Debug)]
pub struct FindBytesArgs {
    /// Hex byte pattern with optional wildcards (e.g., "48 89 5C 24" or "48 ?? 5C")
    pub pattern: String,
    /// Maximum number of results
    pub limit: usize,
}

/// Arguments: `text`, `max_results`.
#[derive(Debug)]
pub struct SearchTextArgs {
    /// Text to search for in disassembly
    pub text: String,
    /// Maximum number of results
    pub max_results: usize,
}

/// Arguments: `value`, `max_results`.
#[derive(Debug)]
pub struct SearchImmArgs {
    /// Immediate value to search for (hex 0x... or decimal)
    pub value: String,
    /// Maximum number of results
    pub max_results: usize,
}

/// Arguments: `patterns`, `max_results`, `case_insensitive`.
#[derive(Debug)]
pub struct FindInsnsArgs {
    /// Instruction mnemonic/operand patterns (comma-separated)
    pub patterns: Vec<String>,
    /// Maximum number of results
    pub max_results: usize,
    /// Case insensitive pattern matching
    pub case_insensitive: bool,
}

/// Arguments: `offset`, `limit`, `filter`.
#[derive(Debug)]
pub struct LocalTypesArgs {
    /// Number of items to skip
    pub offset: usize,
    /// Maximum number of items to return (use --offset to paginate)
    pub limit: usize,
    /// Filter types by name substring
    pub filter: Option<String>,
}

/// Arguments: `decl`, `relaxed`, `replace`, `multi`.
#[derive(Debug)]
pub struct DeclareTypeArgs {
    /// Type declaration in C syntax (e.g., "struct foo { int x; };")
    pub decl: String,
    /// Use relaxed parsing (tolerates some errors)
    pub relaxed: bool,
    /// Replace existing type with same name
    pub replace: bool,
    /// Allow multiple declarations in one string
    pub multi: bool,
}

/// Arguments: `address`, `name`, `offset`, `stack_offset`, `stack_name`, `decl`, `named_type`, `relaxed`, `delay`, `strict`.
#[derive(Debug)]
pub struct ApplyTypesArgs {
    /// Target address (hex 0x... or decimal)
    pub address: Option<String>,
    /// Symbol name to apply type to
    pub name: Option<String>,
    /// Offset from address/name
    pub offset: i64,
    /// Stack variable offset (for stack var typing)
    pub stack_offset: Option<i64>,
    /// Stack variable name (for stack var typing)
    pub stack_name: Option<String>,
    /// C type declaration to apply
    pub decl: Option<String>,
    /// Named type from local types to apply
    pub named_type: Option<String>,
    /// Use relaxed parsing
    pub relaxed: bool,
    /// Delay type application
    pub delay: bool,
    /// Use strict mode
    pub strict: bool,
}

/// Arguments: `address`, `name`, `offset`.
#[derive(Debug)]
pub struct InferTypesArgs {
    /// Target address (hex 0x... or decimal)
    pub address: Option<String>,
    /// Symbol name
    pub name: Option<String>,
    /// Offset from address/name
    pub offset: i64,
}

/// Arguments: `address`, `name`, `offset`, `var_name`, `decl`, `relaxed`.
#[derive(Debug)]
pub struct DeclareStackArgs {
    /// Function address (hex 0x... or decimal)
    pub address: Option<String>,
    /// Function name
    pub name: Option<String>,
    /// Stack offset for the variable
    pub offset: i64,
    /// Variable name
    pub var_name: Option<String>,
    /// Type declaration for the stack variable
    pub decl: String,
    /// Use relaxed parsing
    pub relaxed: bool,
}

/// Arguments: `address`, `name`, `offset`, `var_name`.
#[derive(Debug)]
pub struct DeleteStackArgs {
    /// Function address (hex 0x... or decimal)
    pub address: Option<String>,
    /// Function name
    pub name: Option<String>,
    /// Stack offset of the variable to delete
    pub offset: Option<i64>,
    /// Name of the variable to delete
    pub var_name: Option<String>,
}

/// Arguments: `offset`, `limit`, `filter`.
#[derive(Debug)]
pub struct StructsArgs {
    /// Number of items to skip
    pub offset: usize,
    /// Maximum number of items to return (use --offset to paginate)
    pub limit: usize,
    /// Filter structs by name substring
    pub filter: Option<String>,
}

/// Arguments: `ordinal`, `name`.
#[derive(Debug)]
pub struct StructInfoArgs {
    /// Struct ordinal number
    pub ordinal: Option<u32>,
    /// Struct name
    pub name: Option<String>,
}

/// Arguments: `address`, `ordinal`, `name`.
#[derive(Debug)]
pub struct ReadStructArgs {
    /// Memory address to read struct from (hex 0x... or decimal)
    pub address: String,
    /// Struct ordinal number
    pub ordinal: Option<u32>,
    /// Struct name
    pub name: Option<String>,
}

/// Arguments: `ordinal`, `name`, `member_index`, `member_name`, `limit`.
#[derive(Debug)]
pub struct XrefsToFieldArgs {
    /// Struct ordinal number
    pub ordinal: Option<u32>,
    /// Struct name
    pub name: Option<String>,
    /// Member index within the struct
    pub member_index: Option<u32>,
    /// Member name within the struct
    pub member_name: Option<String>,
    /// Maximum number of results
    pub limit: usize,
}

/// Arguments: `address`, `name`, `offset`, `comment`, `repeatable`.
#[derive(Debug)]
pub struct SetCommentArgs {
    /// Address to comment (hex 0x... or decimal)
    pub address: Option<String>,
    /// Symbol name to comment
    pub name: Option<String>,
    /// Offset from address/name
    pub offset: i64,
    /// Comment text
    pub comment: String,
    /// Make it a repeatable comment
    pub repeatable: bool,
}

/// Arguments: `address`, `current_name`, `name`, `flags`.
#[derive(Debug)]
pub struct RenameArgs {
    /// Address of the symbol (hex 0x... or decimal)
    pub address: Option<String>,
    /// Current name of the symbol to rename
    pub current_name: Option<String>,
    /// New name to assign
    pub name: String,
    /// IDA rename flags (0 = default)
    pub flags: i32,
}

/// Arguments: `address`, `name`, `offset`, `bytes`.
#[derive(Debug)]
pub struct PatchBytesArgs {
    /// Address to patch (hex 0x... or decimal)
    pub address: Option<String>,
    /// Symbol name to patch at
    pub name: Option<String>,
    /// Offset from address/name
    pub offset: i64,
    /// Hex bytes to write (e.g., "90 90 90" or "909090")
    pub bytes: String,
}

/// Arguments: `address`, `name`, `offset`, `line`.
#[derive(Debug)]
pub struct PatchAsmArgs {
    /// Address to patch (hex 0x... or decimal)
    pub address: Option<String>,
    /// Symbol name to patch at
    pub name: Option<String>,
    /// Offset from address/name
    pub offset: i64,
    /// Assembly instruction to assemble and patch (e.g., "nop" or "mov x0, #0")
    pub line: String,
}

/// Arguments: `code`.
#[derive(Debug)]
pub struct RunScriptArgs {
    /// IDAPython code to execute
    pub code: String,
}

/// Arguments: `path`, `verbose`.
#[derive(Debug)]
pub struct LoadDebugInfoArgs {
    /// Path to debug info file (dSYM directory or DWARF file)
    pub path: Option<String>,
    /// Show verbose output during loading
    pub verbose: bool,
}

/// Arguments: `value`.
#[derive(Debug)]
pub struct IntConvertArgs {
    /// Value to convert (hex 0x.., decimal, octal 0o.., binary 0b..)
    pub value: String,
}

/// The operation that a command asks the daemon for.
pub open spec fn command_op(cmd: CliCommand) -> Seq<char> {
    match cmd {
        CliCommand::Daemon(_) => seq![],
        CliCommand::Target(_) => seq![],
        CliCommand::Info => "info"@,
        CliCommand::Meta => "meta"@,
        CliCommand::AnalysisStatus => "analysis_status"@,
        CliCommand::Functions(_) => "functions"@,
        CliCommand::ResolveFunction(_) => "resolve_function"@,
        CliCommand::FunctionAt(_) => "function_at"@,
        CliCommand::LookupFuncs(_) => "lookup_funcs"@,
        CliCommand::AnalyzeFuncs => "analyze_funcs"@,
        CliCommand::Disasm(_) => "disasm"@,
        CliCommand::DisasmFunctionAt(_) => "disasm_function_at"@,
        CliCommand::Decompile(_) => "decompile"@,
        CliCommand::PseudocodeAt(_) => "pseudocode_at"@,
        CliCommand::Strings(_) => "strings"@,
        CliCommand::FindString(_) => "find_string"@,
        CliCommand::GetString(_) => "get_string"@,
        CliCommand::AnalyzeStrings(_) => "analyze_strings"@,
        CliCommand::XrefsToString(_) => "xrefs_to_string"@,
        CliCommand::Segments => "segments"@,
        CliCommand::Imports(_) => "imports"@,
        CliCommand::Exports(_) => "exports"@,
        CliCommand::Entrypoints => "entrypoints"@,
        CliCommand::Globals(_) => "globals"@,
        CliCommand::GetGlobalValue(_) => "get_global_value"@,
        CliCommand::XrefsTo(_) => "xrefs_to"@,
        CliCommand::XrefsFrom(_) => "xrefs_from"@,
        CliCommand::XrefMatrix(_) => "xref_matrix"@,
        CliCommand::BasicBlocks(_) => "basic_blocks"@,
        CliCommand::Callers(_) => "callers"@,
        CliCommand::Callees(_) => "callees"@,
        CliCommand::Callgraph(_) => "callgraph"@,
        CliCommand::FindPaths(_) => "find_paths"@,
        CliCommand::GetBytes(_) => "get_bytes"@,
        CliCommand::ReadInt(_) => "read_int"@,
        CliCommand::FindBytes(_) => "find_bytes"@,
        CliCommand::SearchText(_) => "search_text"@,
        CliCommand::SearchImm(_) => "search_imm"@,
        CliCommand::FindInsns(_) => "find_insns"@,
        CliCommand::FindInsnOperands(_) => "find_insn_operands"@,
        CliCommand::AddrInfo(_) => "addr_info"@,
        CliCommand::LocalTypes(_) => "local_types"@,
        CliCommand::DeclareType(_) => "declare_type"@,
        CliCommand::ApplyTypes(_) => "apply_types"@,
        CliCommand::InferTypes(_) => "infer_types"@,
        CliCommand::StackFrame(_) => "stack_frame"@,
        CliCommand::DeclareStack(_) => "declare_stack"@,
        CliCommand::DeleteStack(_) => "delete_stack"@,
        CliCommand::Structs(_) => "structs"@,
        CliCommand::StructInfo(_) => "struct_info"@,
        CliCommand::ReadStruct(_) => "read_struct"@,
        CliCommand::XrefsToField(_) => "xrefs_to_field"@,
        CliCommand::SetComment(_) => "set_comment"@,
        CliCommand::Rename(_) => "rename"@,
        CliCommand::PatchBytes(_) => "patch_bytes"@,
        CliCommand::PatchAsm(_) => "patch_asm"@,
        CliCommand::RunScript(_) => "run_script"@,
        CliCommand::LoadDebugInfo(_) => "load_debug_info"@,
        CliCommand::IntConvert(_) => "int_convert"@,
    }
}

/// The parameters that a command hands to the daemon.
pub open spec fn command_params(cmd: CliCommand) -> FieldsV {
    match cmd {
        CliCommand::Functions(a) => no_fields()
            .insert("offset"@, number_v(a.offset as nat))
            .insert("limit"@, number_v(a.limit as nat))
            .insert("filter"@, opt_text_v(opt_view(a.filter))),
        CliCommand::ResolveFunction(a) => no_fields()
            .insert("name"@, text_v(a.name@)),
        CliCommand::FunctionAt(a) => no_fields()
            .insert("address"@, text_v(a.address@)),
        CliCommand::LookupFuncs(a) => no_fields()
            .insert("queries"@, texts_v(views(a.queries@))),
        CliCommand::Disasm(a) => no_fields()
            .insert("address"@, opt_text_v(opt_view(a.address)))
            .insert("name"@, opt_text_v(opt_view(a.name)))
            .insert("count"@, number_v(a.count as nat))
            .insert("offset"@, number_v(a.offset as nat)),
        CliCommand::DisasmFunctionAt(a) => no_fields()
            .insert("address"@, text_v(a.address@))
            .insert("count"@, number_v(a.count as nat))
            .insert("offset"@, number_v(a.offset as nat)),
        CliCommand::Decompile(a) => no_fields()
            .insert("address"@, opt_text_v(opt_view(a.address)))
            .insert("name"@, opt_text_v(opt_view(a.name)))
            .insert("max_lines"@, number_v(a.max_lines as nat)),
        CliCommand::PseudocodeAt(a) => no_fields()
            .insert("address"@, text_v(a.address@))
            .insert("end_address"@, opt_text_v(opt_view(a.end_address))),
        CliCommand::Strings(a) => no_fields()
            .insert("offset"@, number_v(a.offset as nat))
            .insert("limit"@, number_v(a.limit as nat))
            .insert("filter"@, opt_text_v(opt_view(a.filter))),
        CliCommand::FindString(a) => no_fields()
            .insert("query"@, text_v(a.query@))
            .insert("exact"@, JsonV::Bool(a.exact))
            .insert("case_insensitive"@, JsonV::Bool(a.case_insensitive))
            .insert("offset"@, number_v(a.offset as nat))
            .insert("limit"@, number_v(a.limit as nat)),
        CliCommand::GetString(a) => no_fields()
            .insert("address"@, text_v(a.address@))
            .insert("max_len"@, number_v(a.max_len as nat)),
        CliCommand::AnalyzeStrings(a) => no_fields()
            .insert("query"@, opt_text_v(opt_view(a.query)))
            .insert("offset"@, number_v(a.offset as nat))
            .insert("limit"@, number_v(a.limit as nat)),
        CliCommand::XrefsToString(a) => no_fields()
            .insert("query"@, text_v(a.query@))
            .insert("exact"@, JsonV::Bool(a.exact))
            .insert("case_insensitive"@, JsonV::Bool(a.case_insensitive))
            .insert("offset"@, number_v(a.offset as nat))
            .insert("limit"@, number_v(a.limit as nat))
            .insert("max_xrefs"@, number_v(a.max_xrefs as nat)),
        CliCommand::Imports(a) => no_fields()
            .insert("offset"@, number_v(a.offset as nat))
            .insert("limit"@, number_v(a.limit as nat)),
        CliCommand::Exports(a) => no_fields()
            .insert("offset"@, number_v(a.offset as nat))
            .insert("limit"@, number_v(a.limit as nat)),
        CliCommand::Globals(a) => no_fields()
            .insert("offset"@, number_v(a.offset as nat))
            .insert("limit"@, number_v(a.limit as nat))
            .insert("filter"@, opt_text_v(opt_view(a.filter))),
        CliCommand::GetGlobalValue(a) => no_fields()
            .insert("query"@, text_v(a.query@)),
        CliCommand::XrefsTo(a) => no_fields()
            .insert("address"@, text_v(a.address@))
            .insert("offset"@, number_v(a.offset as nat))
            .insert("limit"@, number_v(a.limit as nat)),
        CliCommand::XrefsFrom(a) => no_fields()
            .insert("address"@, text_v(a.address@))
            .insert("offset"@, number_v(a.offset as nat))
            .insert("limit"@, number_v(a.limit as nat)),
        CliCommand::XrefMatrix(a) => no_fields()
            .insert("addresses"@, texts_v(views(a.addresses@))),
        CliCommand::BasicBlocks(a) => no_fields()
            .insert("address"@, text_v(a.address@)),
        CliCommand::Callers(a) => no_fields()
            .insert("address"@, text_v(a.address@)),
        CliCommand::Callees(a) => no_fields()
            .insert("address"@, text_v(a.address@)),
        CliCommand::Callgraph(a) => no_fields()
            .insert("address"@, text_v(a.address@))
            .insert("max_depth"@, number_v(a.max_depth as nat))
            .insert("max_nodes"@, number_v(a.max_nodes as nat)),
        CliCommand::FindPaths(a) => no_fields()
            .insert("start"@, text_v(a.start@))
            .insert("end"@, text_v(a.end@))
            .insert("max_paths"@, number_v(a.max_paths as nat))
            .insert("max_depth"@, number_v(a.max_depth as nat)),
        CliCommand::GetBytes(a) => no_fields()
            .insert("address"@, text_v(a.address@))
            .insert("size"@, number_v(a.size as nat)),
        CliCommand::ReadInt(a) => no_fields()
            .insert("address"@, text_v(a.address@))
            .insert("size"@, number_v(a.size as nat)),
        CliCommand::FindBytes(a) => no_fields()
            .insert("pattern"@, text_v(a.pattern@))
            .insert("limit"@, number_v(a.limit as nat)),
        CliCommand::SearchText(a) => no_fields()
            .insert("text"@, text_v(a.text@))
            .insert("max_results"@, number_v(a.max_results as nat)),
        CliCommand::SearchImm(a) => no_fields()
            .insert("value"@, text_v(a.value@))
            .insert("max_results"@, number_v(a.max_results as nat)),
        CliCommand::FindInsns(a) => no_fields()
            .insert("patterns"@, texts_v(views(a.patterns@)))
            .insert("max_results"@, number_v(a.max_results as nat))
            .insert("case_insensitive"@, JsonV::Bool(a.case_insensitive)),
        CliCommand::FindInsnOperands(a) => no_fields()
            .insert("patterns"@, texts_v(views(a.patterns@)))
            .insert("max_results"@, number_v(a.max_results as nat))
            .insert("case_insensitive"@, JsonV::Bool(a.case_insensitive)),
        CliCommand::AddrInfo(a) => no_fields()
            .insert("address"@, text_v(a.address@)),
        CliCommand::LocalTypes(a) => no_fields()
            .insert("offset"@, number_v(a.offset as nat))
            .insert("limit"@, number_v(a.limit as nat))
            .insert("filter"@, opt_text_v(opt_view(a.filter))),
        CliCommand::DeclareType(a) => no_fields()
            .insert("decl"@, text_v(a.decl@))
            .insert("relaxed"@, JsonV::Bool(a.relaxed))
            .insert("replace"@, JsonV::Bool(a.replace))
            .insert("multi"@, JsonV::Bool(a.multi)),
        CliCommand::ApplyTypes(a) => no_fields()
            .insert("address"@, opt_text_v(opt_view(a.address)))
            .insert("name"@, opt_text_v(opt_view(a.name)))
            .insert("offset"@, signed_v(a.offset))
            .insert("stack_offset"@, opt_signed_v(a.stack_offset))
            .insert("stack_name"@, opt_text_v(opt_view(a.stack_name)))
            .insert("decl"@, opt_text_v(opt_view(a.decl)))
            .insert("type_name"@, opt_text_v(opt_view(a.named_type)))
            .insert("relaxed"@, JsonV::Bool(a.relaxed))
            .insert("delay"@, JsonV::Bool(a.delay))
            .insert("strict"@, JsonV::Bool(a.strict)),
        CliCommand::InferTypes(a) => no_fields()
            .insert("address"@, opt_text_v(opt_view(a.address)))
            .insert("name"@, opt_text_v(opt_view(a.name)))
            .insert("offset"@, signed_v(a.offset)),
        CliCommand::StackFrame(a) => no_fields()
            .insert("address"@, text_v(a.address@)),
        CliCommand::DeclareStack(a) => no_fields()
            .insert("address"@, opt_text_v(opt_view(a.address)))
            .insert("name"@, opt_text_v(opt_view(a.name)))
            .insert("offset"@, signed_v(a.offset))
            .insert("var_name"@, opt_text_v(opt_view(a.var_name)))
            .insert("decl"@, text_v(a.decl@))
            .insert("relaxed"@, JsonV::Bool(a.relaxed)),
        CliCommand::DeleteStack(a) => no_fields()
            .insert("address"@, opt_text_v(opt_view(a.address)))
            .insert("name"@, opt_text_v(opt_view(a.name)))
            .insert("offset"@, opt_signed_v(a.offset))
            .insert("var_name"@, opt_text_v(opt_view(a.var_name))),
        CliCommand::Structs(a) => no_fields()
            .insert("offset"@, number_v(a.offset as nat))
            .insert("limit"@, number_v(a.limit as nat))
            .insert("filter"@, opt_text_v(opt_view(a.filter))),
        CliCommand::StructInfo(a) => no_fields()
            .insert("ordinal"@, opt_number_v(opt_nat(a.ordinal)))
            .insert("name"@, opt_text_v(opt_view(a.name))),
        CliCommand::ReadStruct(a) => no_fields()
            .insert("address"@, text_v(a.address@))
            .insert("ordinal"@, opt_number_v(opt_nat(a.ordinal)))
            .insert("name"@, opt_text_v(opt_view(a.name))),
        CliCommand::XrefsToField(a) => no_fields()
            .insert("ordinal"@, opt_number_v(opt_nat(a.ordinal)))
            .insert("name"@, opt_text_v(opt_view(a.name)))
            .insert("member_index"@, opt_number_v(opt_nat(a.member_index)))
            .insert("member_name"@, opt_text_v(opt_view(a.member_name)))
            .insert("limit"@, number_v(a.limit as nat)),
        CliCommand::SetComment(a) => no_fields()
            .insert("address"@, opt_text_v(opt_view(a.address)))
            .insert("name"@, opt_text_v(opt_view(a.name)))
            .insert("offset"@, signed_v(a.offset))
            .insert("comment"@, text_v(a.comment@))
            .insert("repeatable"@, JsonV::Bool(a.repeatable)),
        CliCommand::Rename(a) => no_fields()
            .insert("address"@, opt_text_v(opt_view(a.address)))
            .insert("current_name"@, opt_text_v(opt_view(a.current_name)))
            .insert("name"@, text_v(a.name@))
            .insert("flags"@, signed_v(a.flags as i64)),
        CliCommand::PatchBytes(a) => no_fields()
            .insert("address"@, opt_text_v(opt_view(a.address)))
            .insert("name"@, opt_text_v(opt_view(a.name)))
            .insert("offset"@, signed_v(a.offset))
            .insert("bytes"@, text_v(a.bytes@)),
        CliCommand::PatchAsm(a) => no_fields()
            .insert("address"@, opt_text_v(opt_view(a.address)))
            .insert("name"@, opt_text_v(opt_view(a.name)))
            .insert("offset"@, signed_v(a.offset))
            .insert("line"@, text_v(a.line@)),
        CliCommand::RunScript(a) => no_fields()
            .insert("code"@, text_v(a.code@)),
        CliCommand::LoadDebugInfo(a) => no_fields()
            .insert("path"@, opt_text_v(opt_view(a.path)))
            .insert("verbose"@, JsonV::Bool(a.verbose)),
        CliCommand::IntConvert(a) => no_fields()
            .insert("value"@, text_v(a.value@)),
        _ => no_fields(),
    }
}

/// The operation and parameters that a command asks the daemon for.
pub fn cli_command_to_request(cmd: &CliCommand) -> (r: (String, Json))
    requires
        !(cmd is Daemon),
        !(cmd is Target),
    ensures
        r.0@ == command_op(*cmd),
        r.1@ == JsonV::Obj(command_params(*cmd)),
{
    let mut p = JsonObject::new();
    let op: &str = match cmd {
        CliCommand::Daemon(_) => "",
        CliCommand::Target(_) => "",
        CliCommand::Info => "info",
        CliCommand::Meta => "meta",
        CliCommand::AnalysisStatus => "analysis_status",
        CliCommand::Functions(a) => {
            p.put("offset", Json::count(a.offset));
            p.put("limit", Json::count(a.limit));
            p.put("filter", Json::opt_text(&a.filter));
            "functions"
        },
        CliCommand::ResolveFunction(a) => {
            p.put("name", Json::text(a.name.as_str()));
            "resolve_function"
        },
        CliCommand::FunctionAt(a) => {
            p.put("address", Json::text(a.address.as_str()));
            "function_at"
        },
        CliCommand::LookupFuncs(a) => {
            p.put("queries", Json::texts(&a.queries));
            "lookup_funcs"
        },
        CliCommand::AnalyzeFuncs => "analyze_funcs",
        CliCommand::Disasm(a) => {
            p.put("address", Json::opt_text(&a.address));
            p.put("name", Json::opt_text(&a.name));
            p.put("count", Json::count(a.count));
            p.put("offset", Json::count(a.offset));
            "disasm"
        },
        CliCommand::DisasmFunctionAt(a) => {
            p.put("address", Json::text(a.address.as_str()));
            p.put("count", Json::count(a.count));
            p.put("offset", Json::count(a.offset));
            "disasm_function_at"
        },
        CliCommand::Decompile(a) => {
            p.put("address", Json::opt_text(&a.address));
            p.put("name", Json::opt_text(&a.name));
            p.put("max_lines", Json::count(a.max_lines));
            "decompile"
        },
        CliCommand::PseudocodeAt(a) => {
            p.put("address", Json::text(a.address.as_str()));
            p.put("end_address", Json::opt_text(&a.end_address));
            "pseudocode_at"
        },
        CliCommand::Strings(a) => {
            p.put("offset", Json::count(a.offset));
            p.put("limit", Json::count(a.limit));
            p.put("filter", Json::opt_text(&a.filter));
            "strings"
        },
        CliCommand::FindString(a) => {
            p.put("query", Json::text(a.query.as_str()));
            p.put("exact", Json::Bool(a.exact));
            p.put("case_insensitive", Json::Bool(a.case_insensitive));
            p.put("offset", Json::count(a.offset));
            p.put("limit", Json::count(a.limit));
            "find_string"
        },
        CliCommand::GetString(a) => {
            p.put("address", Json::text(a.address.as_str()));
            p.put("max_len", Json::count(a.max_len));
            "get_string"
        },
        CliCommand::AnalyzeStrings(a) => {
            p.put("query", Json::opt_text(&a.query));
            p.put("offset", Json::count(a.offset));
            p.put("limit", Json::count(a.limit));
            "analyze_strings"
        },
        CliCommand::XrefsToString(a) => {
            p.put("query", Json::text(a.query.as_str()));
            p.put("exact", Json::Bool(a.exact));
            p.put("case_insensitive", Json::Bool(a.case_insensitive));
            p.put("offset", Json::count(a.offset));
            p.put("limit", Json::count(a.limit));
            p.put("max_xrefs", Json::count(a.max_xrefs));
            "xrefs_to_string"
        },
        CliCommand::Segments => "segments",
        CliCommand::Imports(a) => {
            p.put("offset", Json::count(a.offset));
            p.put("limit", Json::count(a.limit));
            "imports"
        },
        CliCommand::Exports(a) => {
            p.put("offset", Json::count(a.offset));
            p.put("limit", Json::count(a.limit));
            "exports"
        },
        CliCommand::Entrypoints => "entrypoints",
        CliCommand::Globals(a) => {
            p.put("offset", Json::count(a.offset));
            p.put("limit", Json::count(a.limit));
            p.put("filter", Json::opt_text(&a.filter));
            "globals"
        },
        CliCommand::GetGlobalValue(a) => {
            p.put("query", Json::text(a.query.as_str()));
            "get_global_value"
        },
        CliCommand::XrefsTo(a) => {
            p.put("address", Json::text(a.address.as_str()));
            p.put("offset", Json::count(a.offset));
            p.put("limit", Json::count(a.limit));
            "xrefs_to"
        },
        CliCommand::XrefsFrom(a) => {
            p.put("address", Json::text(a.address.as_str()));
            p.put("offset", Json::count(a.offset));
            p.put("limit", Json::count(a.limit));
            "xrefs_from"
        },
        CliCommand::XrefMatrix(a) => {
            p.put("addresses", Json::texts(&a.addresses));
            "xref_matrix"
        },
        CliCommand::BasicBlocks(a) => {
            p.put("address", Json::text(a.address.as_str()));
            "basic_blocks"
        },
        CliCommand::Callers(a) => {
            p.put("address", Json::text(a.address.as_str()));
            "callers"
        },
        CliCommand::Callees(a) => {
            p.put("address", Json::text(a.address.as_str()));
            "callees"
        },
        CliCommand::Callgraph(a) => {
            p.put("address", Json::text(a.address.as_str()));
            p.put("max_depth", Json::count(a.max_depth));
            p.put("max_nodes", Json::count(a.max_nodes));
            "callgraph"
        },
        CliCommand::FindPaths(a) => {
            p.put("start", Json::text(a.start.as_str()));
            p.put("end", Json::text(a.end.as_str()));
            p.put("max_paths", Json::count(a.max_paths));
            p.put("max_depth", Json::count(a.max_depth));
            "find_paths"
        },
        CliCommand::GetBytes(a) => {
            p.put("address", Json::text(a.address.as_str()));
            p.put("size", Json::count(a.size));
            "get_bytes"
        },
        CliCommand::ReadInt(a) => {
            p.put("address", Json::text(a.address.as_str()));
            p.put("size", Json::count(a.size));
            "read_int"
        },
        CliCommand::FindBytes(a) => {
            p.put("pattern", Json::text(a.pattern.as_str()));
            p.put("limit", Json::count(a.limit));
            "find_bytes"
        },
        CliCommand::SearchText(a) => {
            p.put("text", Json::text(a.text.as_str()));
            p.put("max_results", Json::count(a.max_results));
            "search_text"
        },
        CliCommand::SearchImm(a) => {
            p.put("value", Json::text(a.value.as_str()));
            p.put("max_results", Json::count(a.max_results));
            "search_imm"
        },
        CliCommand::FindInsns(a) => {
            p.put("patterns", Json::texts(&a.patterns));
            p.put("max_results", Json::count(a.max_results));
            p.put("case_insensitive", Json::Bool(a.case_insensitive));
            "find_insns"
        },
        CliCommand::FindInsnOperands(a) => {
            p.put("patterns", Json::texts(&a.patterns));
            p.put("max_results", Json::count(a.max_results));
            p.put("case_insensitive", Json::Bool(a.case_insensitive));
            "find_insn_operands"
        },
        CliCommand::AddrInfo(a) => {
            p.put("address", Json::text(a.address.as_str()));
            "addr_info"
        },
        CliCommand::LocalTypes(a) => {
            p.put("offset", Json::count(a.offset));
            p.put("limit", Json::count(a.limit));
            p.put("filter", Json::opt_text(&a.filter));
            "local_types"
        },
        CliCommand::DeclareType(a) => {
            p.put("decl", Json::text(a.decl.as_str()));
            p.put("relaxed", Json::Bool(a.relaxed));
            p.put("replace", Json::Bool(a.replace));
            p.put("multi", Json::Bool(a.multi));
            "declare_type"
        },
        CliCommand::ApplyTypes(a) => {
            p.put("address", Json::opt_text(&a.address));
            p.put("name", Json::opt_text(&a.name));
            p.put("offset", Json::signed(a.offset));
            p.put("stack_offset", Json::opt_signed(a.stack_offset));
            p.put("stack_name", Json::opt_text(&a.stack_name));
            p.put("decl", Json::opt_text(&a.decl));
            p.put("type_name", Json::opt_text(&a.named_type));
            p.put("relaxed", Json::Bool(a.relaxed));
            p.put("delay", Json::Bool(a.delay));
            p.put("strict", Json::Bool(a.strict));
            "apply_types"
        },
        CliCommand::InferTypes(a) => {
            p.put("address", Json::opt_text(&a.address));
            p.put("name", Json::opt_text(&a.name));
            p.put("offset", Json::signed(a.offset));
            "infer_types"
        },
        CliCommand::StackFrame(a) => {
            p.put("address", Json::text(a.address.as_str()));
            "stack_frame"
        },
        CliCommand::DeclareStack(a) => {
            p.put("address", Json::opt_text(&a.address));
            p.put("name", Json::opt_text(&a.name));
            p.put("offset", Json::signed(a.offset));
            p.put("var_name", Json::opt_text(&a.var_name));
            p.put("decl", Json::text(a.decl.as_str()));
            p.put("relaxed", Json::Bool(a.relaxed));
            "declare_stack"
        },
        CliCommand::DeleteStack(a) => {
            p.put("address", Json::opt_text(&a.address));
            p.put("name", Json::opt_text(&a.name));
            p.put("offset", Json::opt_signed(a.offset));
            p.put("var_name", Json::opt_text(&a.var_name));
            "delete_stack"
        },
        CliCommand::Structs(a) => {
            p.put("offset", Json::count(a.offset));
            p.put("limit", Json::count(a.limit));
            p.put("filter", Json::opt_text(&a.filter));
            "structs"
        },
        CliCommand::StructInfo(a) => {
            p.put("ordinal", Json::opt_number(wide(a.ordinal)));
            p.put("name", Json::opt_text(&a.name));
            "struct_info"
        },
        CliCommand::ReadStruct(a) => {
            p.put("address", Json::text(a.address.as_str()));
            p.put("ordinal", Json::opt_number(wide(a.ordinal)));
            p.put("name", Json::opt_text(&a.name));
            "read_struct"
        },
        CliCommand::XrefsToField(a) => {
            p.put("ordinal", Json::opt_number(wide(a.ordinal)));
            p.put("name", Json::opt_text(&a.name));
            p.put("member_index", Json::opt_number(wide(a.member_index)));
            p.put("member_name", Json::opt_text(&a.member_name));
            p.put("limit", Json::count(a.limit));
            "xrefs_to_field"
        },
        CliCommand::SetComment(a) => {
            p.put("address", Json::opt_text(&a.address));
            p.put("name", Json::opt_text(&a.name));
            p.put("offset", Json::signed(a.offset));
            p.put("comment", Json::text(a.comment.as_str()));
            p.put("repeatable", Json::Bool(a.repeatable));
            "set_comment"
        },
        CliCommand::Rename(a) => {
            p.put("address", Json::opt_text(&a.address));
            p.put("current_name", Json::opt_text(&a.current_name));
            p.put("name", Json::text(a.name.as_str()));
            p.put("flags", Json::signed(a.flags as i64));
            "rename"
        },
        CliCommand::PatchBytes(a) => {
            p.put("address", Json::opt_text(&a.address));
            p.put("name", Json::opt_text(&a.name));
            p.put("offset", Json::signed(a.offset));
            p.put("bytes", Json::text(a.bytes.as_str()));
            "patch_bytes"
        },
        CliCommand::PatchAsm(a) => {
            p.put("address", Json::opt_text(&a.address));
            p.put("name", Json::opt_text(&a.name));
            p.put("offset", Json::signed(a.offset));
            p.put("line", Json::text(a.line.as_str()));
            "patch_asm"
        },
        CliCommand::RunScript(a) => {
            p.put("code", Json::text(a.code.as_str()));
            "run_script"
        },
        CliCommand::LoadDebugInfo(a) => {
            p.put("path", Json::opt_text(&a.path));
            p.put("verbose", Json::Bool(a.verbose));
            "load_debug_info"
        },
        CliCommand::IntConvert(a) => {
            p.put("value", Json::text(a.value.as_str()));
            "int_convert"
        },
    };
    (op.to_owned(), Json::Object(p))
}
/// Every command but those that manage the daemon and its targets is sent under a name that the
/// daemon answers.
pub proof fn lemma_commands_are_known(cmd: CliCommand)
    requires
        !(cmd is Daemon),
        !(cmd is Target),
    ensures
        is_analysis_op(command_op(cmd)) || command_op(cmd) == "int_convert"@,
{
}

// ---------------------------------------------------------------------------
// What is to be done
// ---------------------------------------------------------------------------

/// What becomes of the daemon's answer, over the type of texts.
#[derive(Debug)]
pub enum ShowOf<T> {
    /// Print the result as it is.
    Value,
    /// Print the result of the operation, or spill it where it is large.
    Spill { op: T, threshold: usize },
    /// Report that the target was closed.
    Closed { id: T },
    /// Report that the target is now the active one.
    Switched { id: T },
    /// Report that the daemon has stopped.
    Stopped,
}

/// What is to be done for a command line, over the types of texts and values.
#[derive(Debug)]
pub enum CliActionOf<T, J> {
    /// Start the daemon in a process of its own.
    StartBackground,
    /// Be the daemon.
    RunRouter,
    /// Show whether the daemon runs.
    Status,
    /// Be the worker of a target.
    RunWorker { sock: T, id: T },
    /// Send a request, wait for at most so many seconds, and show the answer.
    Send { op: T, params: J, target: Option<T>, timeout_secs: u64, show: ShowOf<T> },
}

/// What becomes of the daemon's answer.
pub type Show = ShowOf<String>;

/// What is to be done for a command line.
pub type CliAction = CliActionOf<String, Json>;

/// What a [`CliAction`] is.
pub type CliActionV = CliActionOf<Seq<char>, JsonV>;

impl View for ShowOf<String> {
    type V = ShowOf<Seq<char>>;

    open spec fn view(&self) -> ShowOf<Seq<char>> {
        match self {
            ShowOf::Value => ShowOf::Value,
            ShowOf::Spill { op, threshold } => ShowOf::Spill { op: op@, threshold: *threshold },
            ShowOf::Closed { id } => ShowOf::Closed { id: id@ },
            ShowOf::Switched { id } => ShowOf::Switched { id: id@ },
            ShowOf::Stopped => ShowOf::Stopped,
        }
    }
}

impl View for CliActionOf<String, Json> {
    type V = CliActionV;

    open spec fn view(&self) -> CliActionV {
        match self {
            CliActionOf::StartBackground => CliActionOf::StartBackground,
            CliActionOf::RunRouter => CliActionOf::RunRouter,
            CliActionOf::Status => CliActionOf::Status,
            CliActionOf::RunWorker { sock, id } => CliActionOf::RunWorker { sock: sock@, id: id@ },
            CliActionOf::Send { op, params, target, timeout_secs, show } => CliActionOf::Send {
                op: op@,
                params: params@,
                target: opt_view(*target),
                timeout_secs: *timeout_secs,
                show: show@,
            },
        }
    }
}

/// How long a command waits for its answer: the seconds that the setting gives, if it gives a
/// positive number, else the default.
pub open spec fn wait_secs(setting: Option<Seq<char>>) -> u64 {
    match setting {
        Some(s) => match parsed(s, 10) {
            Some(n) => if n > 0 {
                n
            } else {
                CLIENT_DEFAULT_TIMEOUT_SECS
            },
            None => CLIENT_DEFAULT_TIMEOUT_SECS,
        },
        None => CLIENT_DEFAULT_TIMEOUT_SECS,
    }
}

/// How long a command waits for its answer, in seconds.
pub fn client_timeout(setting: &Option<String>) -> (r: u64)
    ensures
        r == wait_secs(opt_view(*setting)),
{
    match setting {
        Some(s) => match parse_digits(s.as_str(), 10) {
            Some(n) => if n > 0 {
                n
            } else {
                CLIENT_DEFAULT_TIMEOUT_SECS
            },
            None => CLIENT_DEFAULT_TIMEOUT_SECS,
        },
        None => CLIENT_DEFAULT_TIMEOUT_SECS,
    }
}

/// A command never waits for no time at all, and by default it outlasts the time that the daemon
/// gives a worker, so that the daemon's own timeout reaches it first.
pub proof fn lemma_client_outlasts_worker(setting: Option<Seq<char>>)
    ensures
        wait_secs(setting) > 0,
        wait_secs(None) > WORKER_OP_TIMEOUT_SECS,
{
}

/// What is to be done for a command that manages the daemon.
pub open spec fn daemon_action(cmd: DaemonCommand) -> CliActionV {
    match cmd {
        DaemonCommand::Start { background } => if background {
            CliActionV::StartBackground
        } else {
            CliActionV::RunRouter
        },
        DaemonCommand::Stop => CliActionV::Send {
            op: "shutdown"@,
            params: JsonV::Obj(no_fields()),
            target: None,
            timeout_secs: CLIENT_STOP_TIMEOUT_SECS,
            show: ShowOf::Stopped,
        },
        DaemonCommand::Status => CliActionV::Status,
        DaemonCommand::Worker { sock, id } => CliActionV::RunWorker { sock: sock@, id: id@ },
    }
}

/// What is to be done for a command that manages the daemon.
pub fn run_daemon_command(cmd: &DaemonCommand) -> (r: CliAction)
    ensures
        r@ == daemon_action(*cmd),
{
    match cmd {
        DaemonCommand::Start { background } => if *background {
            CliActionOf::StartBackground
        } else {
            CliActionOf::RunRouter
        },
        DaemonCommand::Stop => CliActionOf::Send {
            op: "shutdown".to_owned(),
            params: Json::Object(JsonObject::new()),
            target: None,
            timeout_secs: CLIENT_STOP_TIMEOUT_SECS,
            show: ShowOf::Stopped,
        },
        DaemonCommand::Status => CliActionOf::Status,
        DaemonCommand::Worker { sock, id } => CliActionOf::RunWorker {
            sock: sock.clone(),
            id: id.clone(),
        },
    }
}

/// The parameters of a request to load a target.
pub open spec fn load_params(
    file: Seq<char>,
    idb_out: Option<Seq<char>>,
    no_analyse: bool,
) -> FieldsV {
    let base = no_fields().insert("path"@, text_v(file)).insert(
        "auto_analyse"@,
        JsonV::Bool(!no_analyse),
    );
    match idb_out {
        Some(out) => base.insert("idb_out"@, text_v(out)),
        None => base,
    }
}

/// What is to be done for a command that manages targets.
pub open spec fn target_action(cmd: TargetCommand, timeout_secs: u64) -> CliActionV {
    match cmd {
        TargetCommand::Load { file, idb_out, no_analyse } => CliActionV::Send {
            op: "target.load"@,
            params: JsonV::Obj(load_params(file@, opt_view(idb_out), no_analyse)),
            target: None,
            timeout_secs,
            show: ShowOf::Value,
        },
        TargetCommand::List => CliActionV::Send {
            op: "target.list"@,
            params: JsonV::Obj(no_fields()),
            target: None,
            timeout_secs,
            show: ShowOf::Value,
        },
        TargetCommand::Close { id } => CliActionV::Send {
            op: "target.close"@,
            params: JsonV::Obj(no_fields().insert("id"@, text_v(id@))),
            target: None,
            timeout_secs,
            show: ShowOf::Closed { id: id@ },
        },
        TargetCommand::Switch { id } => CliActionV::Send {
            op: "target.switch"@,
            params: JsonV::Obj(no_fields().insert("id"@, text_v(id@))),
            target: None,
            timeout_secs,
            show: ShowOf::Switched { id: id@ },
        },
    }
}

/// What is to be done for a command that manages targets.
pub fn run_target_command(cmd: &TargetCommand, timeout_secs: u64) -> (r: CliAction)
    ensures
        r@ == target_action(*cmd, timeout_secs),
{
    let mut p = JsonObject::new();
    match cmd {
        TargetCommand::Load { file, idb_out, no_analyse } => {
            p.put("path", Json::text(file.as_str()));
            p.put("auto_analyse", Json::Bool(!*no_analyse));
            if let Some(out) = idb_out {
                p.put("idb_out", Json::text(out.as_str()));
            }
            CliActionOf::Send {
                op: "target.load".to_owned(),
                params: Json::Object(p),
                target: None,
                timeout_secs,
                show: ShowOf::Value,
            }
        },
        TargetCommand::List => CliActionOf::Send {
            op: "target.list".to_owned(),
            params: Json::Object(p),
            target: None,
            timeout_secs,
            show: ShowOf::Value,
        },
        TargetCommand::Close { id } => {
            p.put("id", Json::text(id.as_str()));
            CliActionOf::Send {
                op: "target.close".to_owned(),
                params: Json::Object(p),
                target: None,
                timeout_secs,
                show: ShowOf::Closed { id: id.clone() },
            }
        },
        TargetCommand::Switch { id } => {
            p.put("id", Json::text(id.as_str()));
            CliActionOf::Send {
                op: "target.switch".to_owned(),
                params: Json::Object(p),
                target: None,
                timeout_secs,
                show: ShowOf::Switched { id: id.clone() },
            }
        },
    }
}

/// What is to be done for a command that the daemon answers.
pub open spec fn analysis_action(cli: Cli, timeout_secs: u64) -> CliActionV {
    CliActionV::Send {
        op: command_op(cli.command),
        params: JsonV::Obj(command_params(cli.command)),
        target: opt_view(cli.target),
        timeout_secs,
        show: ShowOf::Spill { op: command_op(cli.command), threshold: cli.spill_threshold },
    }
}

/// What is to be done for a command that the daemon answers.
pub fn run_via_daemon(cli: &Cli, timeout_secs: u64) -> (r: CliAction)
    requires
        !(cli.command is Daemon),
        !(cli.command is Target),
    ensures
        r@ == analysis_action(*cli, timeout_secs),
{
    let (op, params) = cli_command_to_request(&cli.command);
    CliActionOf::Send {
        op: op.clone(),
        params,
        target: copy_opt(&cli.target),
        timeout_secs,
        show: ShowOf::Spill { op, threshold: cli.spill_threshold },
    }
}

/// What is to be done for a command line.
pub open spec fn cli_action(cli: Cli, setting: Option<Seq<char>>) -> CliActionV {
    match cli.command {
        CliCommand::Daemon(args) => daemon_action(args.command),
        CliCommand::Target(args) => target_action(args.command, wait_secs(setting)),
        _ => analysis_action(cli, wait_secs(setting)),
    }
}

/// What is to be done for a command line, given the setting of the time to wait.
pub fn run_cli(cli: &Cli, setting: &Option<String>) -> (r: CliAction)
    ensures
        r@ == cli_action(*cli, opt_view(*setting)),
{
    match &cli.command {
        CliCommand::Daemon(args) => run_daemon_command(&args.command),
        CliCommand::Target(args) => run_target_command(&args.command, client_timeout(setting)),
        _ => run_via_daemon(cli, client_timeout(setting)),
    }
}

// ---------------------------------------------------------------------------
// The request and what became of it
// ---------------------------------------------------------------------------

/// The ID of a request: the time in nanoseconds and the process, in hexadecimal.
pub open spec fn request_id(nanos: nat, pid: nat) -> Seq<char> {
    zero_padded(digits(nanos, 16), 16) + zero_padded(digits(pid, 16), 8)
}

/// The ID of a request that a process makes at a time.
pub fn make_request_id(nanos: u128, pid: u32) -> (r: String)
    ensures
        r@ == request_id(nanos as nat, pid as nat),
{
    let mut out = String::new();
    push_padded(&mut out, nanos, 16, 16);
    push_padded(&mut out, pid as u128, 16, 8);
    assert(out@ =~= request_id(nanos as nat, pid as nat));
    out
}

/// What is printed where no answer came in time.
pub open spec fn no_answer(secs: nat, op: Seq<char>) -> Seq<char> {
    "Daemon did not respond within "@ + decimal(secs) + "s (op '"@ + op
        + "'). It may be busy or wedged; check 'ida-rs-cli daemon status'."@
}

/// What is printed where no answer came in time.
pub fn no_answer_message(secs: u64, op: &str) -> (r: String)
    ensures
        r@ == no_answer(secs as nat, op@),
{
    let mut out = "Daemon did not respond within ".to_owned();
    out.push_str(decimal_text(secs).as_str());
    out.push_str("s (op '");
    out.push_str(op);
    out.push_str("'). It may be busy or wedged; check 'ida-rs-cli daemon status'.");
    out
}

/// What an answer leads to, over the types of texts and values.
#[derive(Debug)]
pub enum OutputOf<T, J> {
    /// Print this value; nothing stands for null.
    Value(Option<J>),
    /// Print or spill this value; there is nothing to print where there is none.
    Spill { op: T, threshold: usize, value: Option<J> },
    /// Tell the user.
    Note(T),
}

/// What an answer leads to.
pub type Output = OutputOf<String, Json>;

/// What an [`Output`] is.
pub type OutputV = OutputOf<Seq<char>, JsonV>;

impl View for OutputOf<String, Json> {
    type V = OutputV;

    open spec fn view(&self) -> OutputV {
        match self {
            OutputOf::Value(v) => OutputOf::Value(opt_json(*v)),
            OutputOf::Spill { op, threshold, value } => OutputOf::Spill {
                op: op@,
                threshold: *threshold,
                value: opt_json(*value),
            },
            OutputOf::Note(t) => OutputOf::Note(t@),
        }
    }
}

/// The text of a field of the result, or a text in its place.
pub open spec fn told(result: Option<JsonV>, key: Seq<char>, other: Seq<char>) -> Seq<char> {
    match result {
        Some(v) => match text_field(v, key) {
            Some(t) => t,
            None => other,
        },
        None => other,
    }
}

/// What an answer leads to, or the error that it reports.
pub open spec fn shown(show: ShowOf<Seq<char>>, response: ResponseV) -> Result<OutputV, Seq<char>> {
    if response.ok {
        Ok(
            match show {
                ShowOf::Value => OutputV::Value(response.result),
                ShowOf::Spill { op, threshold } => OutputV::Spill {
                    op,
                    threshold,
                    value: response.result,
                },
                ShowOf::Closed { id } => OutputV::Note(
                    "Target '"@ + told(response.result, "closed"@, id) + "' closed."@,
                ),
                ShowOf::Switched { id } => OutputV::Note(
                    "Switched to target '"@ + told(response.result, "active"@, id) + "'."@,
                ),
                ShowOf::Stopped => OutputV::Note("Daemon stopped."@),
            },
        )
    } else {
        match show {
            ShowOf::Stopped => Err(
                "Failed to stop daemon: "@ + (match response.error {
                    Some(e) => e,
                    None => seq![],
                }),
            ),
            _ => Err(
                match response.error {
                    Some(e) => e,
                    None => "Unknown error"@,
                },
            ),
        }
    }
}

fn told_text(result: &Option<Json>, key: &str, other: String) -> (r: String)
    ensures
        r@ == told(opt_json(*result), key@, other@),
{
    match result {
        Some(v) => match v.str_field(key) {
            Some(t) => t.clone(),
            None => other,
        },
        None => other,
    }
}

/// What an answer leads to, or the error that it reports.
pub fn show_response(show: Show, response: Response) -> (r: Result<Output, String>)
    ensures
        match r {
            Ok(out) => shown(show@, response@) == Ok::<OutputV, Seq<char>>(out@),
            Err(e) => shown(show@, response@) == Err::<OutputV, Seq<char>>(e@),
        },
{
    if response.ok {
        match show {
            ShowOf::Value => Ok(OutputOf::Value(response.result)),
            ShowOf::Spill { op, threshold } => Ok(
                OutputOf::Spill { op, threshold, value: response.result },
            ),
            ShowOf::Closed { id } => {
                let mut out = "Target '".to_owned();
                out.push_str(told_text(&response.result, "closed", id).as_str());
                out.push_str("' closed.");
                Ok(OutputOf::Note(out))
            },
            ShowOf::Switched { id } => {
                let mut out = "Switched to target '".to_owned();
                out.push_str(told_text(&response.result, "active", id).as_str());
                out.push_str("'.");
                Ok(OutputOf::Note(out))
            },
            ShowOf::Stopped => Ok(OutputOf::Note("Daemon stopped.".to_owned())),
        }
    } else {
        match show {
            ShowOf::Stopped => {
                let mut out = "Failed to stop daemon: ".to_owned();
                if let Some(e) = response.error {
                    out.push_str(e.as_str());
                }
                assert("Failed to stop daemon: "@ + seq![] =~= "Failed to stop daemon: "@);
                Err(out)
            },
            _ => match response.error {
                Some(e) => Err(e),
                None => Err("Unknown error".to_owned()),
            },
        }
    }
}

// ---------------------------------------------------------------------------
// The state of the daemon
// ---------------------------------------------------------------------------

/// The process that a registry names; zero stands for none.
pub open spec fn registry_pid_in(registry: JsonV) -> u64 {
    match field(registry, "pid"@) {
        Some(v) => match unsigned_in(v) {
            Some(n) => n,
            None => 0,
        },
        None => 0,
    }
}

/// The process that a registry names; zero stands for none.
pub fn registry_pid(registry: &Json) -> (r: u64)
    ensures
        r == registry_pid_in(registry@),
{
    match registry.get("pid") {
        Some(v) => match v.as_u64() {
            Some(n) => n,
            None => 0,
        },
        None => 0,
    }
}

/// What is told of a daemon that answers: first that it runs, then what the registry says of it,
/// then how many targets it has, then that it is healthy.
pub open spec fn status_report(
    registry: Option<JsonV>,
    alive: bool,
    result: Option<JsonV>,
) -> Seq<Seq<char>> {
    let first = seq!["Daemon is running:"@];
    let about = match registry {
        Some(reg) => seq![
            "  PID: "@ + decimal(registry_pid_in(reg) as nat) + (if registry_pid_in(reg) > 0
                && alive {
                " (alive)"@
            } else {
                " (not running?)"@
            }),
            "  Socket: "@ + told(Some(reg), "socket"@, "?"@),
            "  Version: "@ + told(Some(reg), "version"@, "?"@),
        ],
        None => seq![],
    };
    let targets = match result {
        Some(v) => seq![
            "  Targets loaded: "@ + decimal(
                (match field(v, "targets"@) {
                    Some(t) => match unsigned_in(t) {
                        Some(n) => n,
                        None => 0,
                    },
                    None => 0u64,
                }) as nat,
            ),
        ],
        None => seq![],
    };
    first + about + targets + seq!["  Status: healthy"@]
}

fn told_value(value: &Json, key: &str) -> (r: String)
    ensures
        r@ == told(Some(value@), key@, "?"@),
{
    match value.str_field(key) {
        Some(t) => t.clone(),
        None => "?".to_owned(),
    }
}

/// What is told of a daemon that answers. `alive` says whether the process that the registry
/// names exists.
pub fn status_lines(registry: &Option<Json>, alive: bool, result: &Option<Json>) -> (r: Vec<String>)
    ensures
        views(r@) == status_report(opt_json(*registry), alive, opt_json(*result)),
{
    let mut out: Vec<String> = Vec::new();
    out.push("Daemon is running:".to_owned());
    if let Some(reg) = registry {
        let pid: u64 = registry_pid(reg);
        let mut line = "  PID: ".to_owned();
        line.push_str(decimal_text(pid).as_str());
        if pid > 0 && alive {
            line.push_str(" (alive)");
        } else {
            line.push_str(" (not running?)");
        }
        out.push(line);
        let mut line = "  Socket: ".to_owned();
        line.push_str(told_value(reg, "socket").as_str());
        out.push(line);
        let mut line = "  Version: ".to_owned();
        line.push_str(told_value(reg, "version").as_str());
        out.push(line);
    }
    if let Some(v) = result {
        let n: u64 = match v.get("targets") {
            Some(t) => match t.as_u64() {
                Some(n) => n,
                None => 0,
            },
            None => 0,
        };
        let mut line = "  Targets loaded: ".to_owned();
        line.push_str(decimal_text(n).as_str());
        out.push(line);
    }
    out.push("  Status: healthy".to_owned());
    assert(views(out@) =~= status_report(opt_json(*registry), alive, opt_json(*result)));
    out
}

/// What to do next while a daemon comes up in the background.
#[derive(Clone, Copy, Debug, PartialEq, Eq, Structural)]
pub enum BootStep {
    /// It answers: report success.
    Ready,
    /// It has exited: report failure with the end of its log.
    Exited,
    /// The time is over: report failure.
    TimedOut,
    /// Look again after a pause.
    Wait,
}

/// How long a daemon in the background has to come up, in seconds.
pub const BOOT_WAIT_SECS: u64 = 15;

/// What to do next while a daemon comes up: an answer counts before an exit, and an exit before
/// the deadline.
pub fn boot_step(answers: bool, exited: bool, waited_millis: u64) -> (r: BootStep)
    ensures
        answers ==> r == BootStep::Ready,
        !answers && exited ==> r == BootStep::Exited,
        !answers && !exited ==> r == (if waited_millis >= BOOT_WAIT_SECS * 1000 {
            BootStep::TimedOut
        } else {
            BootStep::Wait
        }),
        r == starting(answers, exited, waited_millis),
{
    if answers {
        BootStep::Ready
    } else if exited {
        BootStep::Exited
    } else if waited_millis >= BOOT_WAIT_SECS * 1000 {
        BootStep::TimedOut
    } else {
        BootStep::Wait
    }
}

/// The last lines of a log, at most `n`, the last one first.
pub open spec fn last_lines(log: Seq<char>, n: nat) -> Seq<Seq<char>> {
    let all = lines_of(log);
    let k = if all.len() < n {
        all.len()
    } else {
        n
    };
    all.reverse().take(k as int)
}

/// The last twenty lines of a log, the last one first.
pub fn log_tail(log: &str) -> (r: String)
    ensures
        r@ == joined(last_lines(log@, 20), "\n"@),
{
    let all = lines(log);
    let ghost shown = views(all@);
    let mut out: Vec<String> = Vec::new();
    let mut i: usize = all.len();
    while i > 0 && out.len() < 20
        invariant
            i <= all.len(),
            shown == views(all@),
            out.len() == all.len() - i,
            out.len() <= 20,
            forall|j: int| 0 <= j < out.len() ==> (#[trigger] out[j])@ == shown[shown.len() - 1 - j],
        decreases i,
    {
        i = i - 1;
        out.push(all[i].clone());
    }
    assert(views(out@) =~= last_lines(log@, 20));
    join(&out, "\n")
}

// ---------------------------------------------------------------------------
// What a command sends and shows
// ---------------------------------------------------------------------------

/// A client waits as many seconds as the setting says, where it says a number
/// above zero, and 630 otherwise.
pub proof fn lemma_wait_setting(n: u64, s: Seq<char>)
    ensures
        n > 0 ==> wait_secs(Some(decimal(n as nat))) == n,
        wait_secs(Some(decimal(0))) == 630,
        parsed(s, 10) is None ==> wait_secs(Some(s)) == 630,
        wait_secs(None) == 630,
{
    lemma_parse_written(n, 10);
    lemma_parse_written(0, 10);
}

/// A load sends its file, whether to analyse it, and a database only where one
/// is named.
pub proof fn lemma_load_parameters_sent(file: Seq<char>, out: Option<Seq<char>>, no_analyse: bool)
    ensures
        load_params(file, out, no_analyse)["path"@] == JsonV::Str(file),
        load_params(file, out, no_analyse)["auto_analyse"@] == JsonV::Bool(!no_analyse),
        load_params(file, out, no_analyse).dom().contains("idb_out"@) <==> out is Some,
        out is Some ==> load_params(file, out, no_analyse)["idb_out"@] == JsonV::Str(out->0),
{
    reveal_strlit("path");
    reveal_strlit("auto_analyse");
    reveal_strlit("idb_out");
    assert("path"@.len() == 4);
    assert("auto_analyse"@.len() == 12);
    assert("idb_out"@.len() == 7);
}

/// A command on a target goes to the target that the command line names; what
/// it shows may go to a file where it is longer than the command line allows.
pub proof fn lemma_commands_name_their_target(cli: Cli, setting: Option<Seq<char>>)
    requires
        !(cli.command is Daemon),
        !(cli.command is Target),
    ensures
        cli_action(cli, setting) matches CliActionV::Send { op, target, timeout_secs, show, .. }
            && target == opt_view(cli.target) && op == command_op(cli.command) && timeout_secs
            == wait_secs(setting) && show == (ShowOf::Spill { op, threshold: cli.spill_threshold }),
{
}

/// A request's ID is two numbers in hexadecimal, sixteen digits for the time
/// and eight for the process, and tells both.
pub proof fn lemma_request_ids(nanos: nat, pid: nat)
    requires
        digits(nanos, 16).len() <= 16,
        digits(pid, 16).len() <= 8,
    ensures
        request_id(nanos, pid).len() == 24,
        digits_value(request_id(nanos, pid).take(16), 16) == Some(nanos),
        digits_value(request_id(nanos, pid).skip(16), 16) == Some(pid),
{
    lemma_padding_keeps_the_number(digits(nanos, 16), 16, 16);
    lemma_padding_keeps_the_number(digits(pid, 16), 8, 16);
    lemma_digits_read_back(nanos, 16);
    lemma_digits_read_back(pid, 16);
    let a = zero_padded(digits(nanos, 16), 16);
    let b = zero_padded(digits(pid, 16), 8);
    assert((a + b).take(16) =~= a);
    assert((a + b).skip(16) =~= b);
}

/// An answer that is an error is shown as that error; any other is shown as
/// what it holds.
pub proof fn lemma_answers_are_shown(
    show: ShowOf<Seq<char>>,
    id: Seq<char>,
    v: JsonV,
    e: Seq<char>,
    op: Seq<char>,
    threshold: usize,
)
    ensures
        shown(show, answer(id, Err(e))) is Err,
        !(show is Stopped) ==> shown(show, answer(id, Err(e))) == Err::<OutputV, Seq<char>>(e),
        shown(show, answer(id, Ok(v))) is Ok,
        shown(ShowOf::Value, answer(id, Ok(v))) == Ok::<OutputV, Seq<char>>(OutputV::Value(Some(v))),
        shown(ShowOf::Spill { op, threshold }, answer(id, Ok(v))) == Ok::<OutputV, Seq<char>>(
            OutputV::Spill { op, threshold, value: Some(v) },
        ),
{
}

/// What is shown of a target that was closed or switched to is the ID that the
/// daemon names, else the one that was asked for.
pub proof fn lemma_told_ids(m: FieldsV, key: Seq<char>, id: Seq<char>, other: Seq<char>)
    ensures
        m.dom().contains(key) && m[key] == JsonV::Str(id) ==> told(Some(JsonV::Obj(m)), key, other)
            == id,
        !m.dom().contains(key) ==> told(Some(JsonV::Obj(m)), key, other) == other,
        told(None, key, other) == other,
{
}

/// A daemon's status names its process, and says that it is alive only where
/// there is one and it is; then its socket, its version and its targets.
pub proof fn lemma_status_lines(reg: JsonV, m: FieldsV, n: u64, alive: bool)
    requires
        m.dom().contains("targets"@),
        m["targets"@] == JsonV::Num(NumV::Unsigned(n)),
    ensures
        status_report(Some(reg), alive, Some(JsonV::Obj(m))) == seq![
            "Daemon is running:"@,
            "  PID: "@ + decimal(registry_pid_in(reg) as nat) + (if alive && registry_pid_in(reg) > 0 {
                " (alive)"@
            } else {
                " (not running?)"@
            }),
            "  Socket: "@ + told(Some(reg), "socket"@, "?"@),
            "  Version: "@ + told(Some(reg), "version"@, "?"@),
            "  Targets loaded: "@ + decimal(n as nat),
            "  Status: healthy"@,
        ],
        status_report(None, alive, None) == seq!["Daemon is running:"@, "  Status: healthy"@],
{
}

/// The registry's process is the number that it holds, and zero where it holds
/// none.
pub proof fn lemma_registry_pid(m: FieldsV, n: u64)
    ensures
        m.dom().contains("pid"@) && m["pid"@] == JsonV::Num(NumV::Unsigned(n)) ==> registry_pid_in(
            JsonV::Obj(m),
        ) == n,
        !m.dom().contains("pid"@) ==> registry_pid_in(JsonV::Obj(m)) == 0,
{
}

/// The last lines of a log come last first: as many as are asked for, or all.
pub proof fn lemma_last_lines(log: Seq<char>, n: nat)
    ensures
        last_lines(log, n).len() <= n,
        last_lines(log, n).len() == n || last_lines(log, n).len() == lines_of(log).len(),
        forall|i: int|
            0 <= i < last_lines(log, n).len() ==> #[trigger] last_lines(log, n)[i] == lines_of(
                log,
            )[lines_of(log).len() - 1 - i],
{
}

/// What is done while a daemon starts.
pub open spec fn starting(answers: bool, exited: bool, waited_millis: u64) -> BootStep {
    if answers {
        BootStep::Ready
    } else if exited {
        BootStep::Exited
    } else if waited_millis < 15_000 {
        BootStep::Wait
    } else {
        BootStep::TimedOut
    }
}

/// A daemon that answers is ready, however long it took. One that does not is
/// waited for while it runs, a quarter of a minute at most.
pub proof fn lemma_start_of_a_daemon(answers: bool, exited: bool, waited_millis: u64)
    ensures
        starting(answers, exited, waited_millis) == BootStep::Ready <==> answers,
        starting(answers, exited, waited_millis) == BootStep::Exited <==> !answers && exited,
        starting(answers, exited, waited_millis) == BootStep::TimedOut <==> !answers && !exited
            && waited_millis >= 15 * 1000,
        starting(answers, exited, waited_millis) == BootStep::Wait <==> !answers && !exited
            && waited_millis < 15 * 1000,
{
}

/// What the commands on the daemon and on targets send: the ID or the file that
/// they name, for no target in particular.
pub proof fn lemma_commands_on_targets(id: String, file: String, out: Option<String>, raw: bool, secs: u64)
    ensures
        target_action(TargetCommand::Close { id }, secs) matches CliActionV::Send {
            op,
            params: JsonV::Obj(m),
            target,
            timeout_secs,
            ..
        } && op == "target.close"@ && m["id"@] == JsonV::Str(id@) && target is None && timeout_secs
            == secs,
        target_action(TargetCommand::Switch { id }, secs) matches CliActionV::Send {
            op,
            params: JsonV::Obj(m),
            target,
            timeout_secs,
            ..
        } && op == "target.switch"@ && m["id"@] == JsonV::Str(id@) && target is None && timeout_secs
            == secs,
        target_action(TargetCommand::Load { file, idb_out: out, no_analyse: raw }, secs) matches CliActionV::Send {
            op,
            params: JsonV::Obj(m),
            ..
        } && op == "target.load"@ && m["path"@] == JsonV::Str(file@) && m["auto_analyse"@]
            == JsonV::Bool(!raw),
        target_action(TargetCommand::List, secs) matches CliActionV::Send { op, .. } && op
            == "target.list"@,
        daemon_action(DaemonCommand::Stop) matches CliActionV::Send { op, timeout_secs, .. } && op
            == "shutdown"@ && timeout_secs == 20,
        daemon_action(DaemonCommand::Start { background: true }) == CliActionV::StartBackground,
        daemon_action(DaemonCommand::Start { background: false }) == CliActionV::RunRouter,
{
    lemma_load_parameters_sent(file@, opt_view(out), raw);
}

/// A daemon that does not answer is reported with the time that was waited and
/// the operation.
pub proof fn lemma_no_answer(secs: nat, op: Seq<char>)
    ensures
        no_answer(secs, op) == "Daemon did not respond within "@ + decimal(secs) + "s (op '"@ + op
            + "'). It may be busy or wedged; check 'ida-rs-cli daemon status'."@,
{
}

} // verus!
