//! What the requests of tools ask for: which numbers they take, and what stands for those that are
//! not given.

use crate::bytes::{
    ascii_of, hex_encoded, le_bytes, le_value, lemma_word_read_back, without_first_zeros,
    without_last_zeros,
};
use crate::errors::ToolErrorV;
use crate::calls::{WorkerCallOf, WorkerCallV};
use crate::json::{FieldsV, JsonV, NumV};
use crate::numbers::{decimal, digits, hex};
use crate::protocol::opt_json;
use crate::text::opt_view;
use crate::tools::{
    addr_info_plan, analyze_strings_plan, apply_types_plan, basic_blocks_plan, call_at,
    callees_plan, callers_plan, callgraph_plan, conversions, declare_stack_plan,
    declare_type_plan, decompile_plan, delete_stack_plan, disasm_by_name_plan,
    disasm_function_at_plan, disasm_plan, export_plan, exports_plan, find_insn_operands_plan,
    find_insns_plan, find_paths_plan, find_string_plan, function_at_plan, get_bytes_plan,
    get_global_value_plan, get_string_plan, imports_plan, infer_types_plan, int_values_plan,
    list_functions_plan, list_globals_plan, listed_as, listed_v, load_debug_info_plan, local_types_plan,
    lookup_funcs_plan, maybe_number, number_forms, over_v, patch_asm_plan, patch_plan,
    pseudocode_at_plan, read_struct_plan, rename_plan, search_call, search_entry, search_limits,
    search_structs_plan, searches_v, set_comments_plan, stack_frame_plan, strings_plan,
    struct_info_plan, structs_plan, xref_matrix_plan, xrefs_from_plan, xrefs_to_field_plan,
    xrefs_to_plan, xrefs_to_string_plan, AddrToolOf, AddrToolV, AddressRequest, ApplyTypesRequest,
    CallGraphRequest, DeclareStackRequest, DeclareTypeRequest, DeleteStackRequest,
    DisasmByNameRequest, DisasmFunctionAtRequest, DisasmRequest, ExportFuncsRequest,
    FindInsnsRequest, FindPathsRequest, FindStringRequest, GetBytesRequest, GetStringRequest,
    ListFunctionsRequest, Listed, LoadDebugInfoRequest, LocalTypesRequest, LookupFuncsRequest,
    PaginatedRequest, PatchAsmRequest, PatchRequest, PlaceRequest, PlanOf, PlanV,
    PseudocodeAtRequest, QueryPageRequest, ReadStructRequest, RenameRequest, SearchLimits,
    SetCommentsRequest, StringsRequest, StructInfoRequest, StructsRequest, XrefMatrixRequest,
    XrefsToFieldRequest, XrefsToStringRequest,
};
use crate::values::{
    addresses_in, bytes_in_value, first_address_in, maybe_address_in, number_in, texts_in_value,
};
use vstd::prelude::*;

verus! {

/// Whether a count is the one that is given, up to a cap, and `default` where
/// none is given.
pub open spec fn is_up_to(given: Option<i64>, default: usize, cap: usize, n: usize) -> bool {
    match given {
        Some(v) => 0 <= v <= usize::MAX && n == (if v < cap { v as usize } else { cap }),
        None => n == default,
    }
}

/// Whether a count is the one that is given, and `default` where none is given.
pub open spec fn is_given(given: Option<i64>, default: usize, n: usize) -> bool {
    match given {
        Some(v) => n as int == v,
        None => n == default,
    }
}

/// Whether a time is the one that is given, and none where none is given.
pub open spec fn is_secs(given: Option<i64>, t: Option<u64>) -> bool {
    match (given, t) {
        (Some(v), Some(n)) => n as int == v,
        (None, None) => true,
        _ => false,
    }
}

/// Whether an ordinal is the one that is given, and none where none is given.
pub open spec fn is_ordinal(given: Option<i64>, t: Option<u32>) -> bool {
    match (given, t) {
        (Some(v), Some(n)) => n as int == v,
        (None, None) => true,
        _ => false,
    }
}

/// Whether a number is one that can be counted to, where one is given.
pub open spec fn is_count(given: Option<i64>) -> bool {
    given is Some ==> 0 <= given->0 <= usize::MAX
}

/// Whether a time is not below zero, where one is given.
pub open spec fn is_time(given: Option<i64>) -> bool {
    given is Some ==> 0 <= given->0
}

/// Pages of what a database holds: every parameter is taken as it is given, up to its cap where it has
/// one, and what is not given has its default. A parameter that cannot be taken
/// makes the request an error, and nothing else does.
#[verifier::rlimit(50)]
pub proof fn lemma_pages(
    list_functions: ListFunctionsRequest,
    strings: StringsRequest,
    paginated: PaginatedRequest,
    query_page: QueryPageRequest,
    structs: StructsRequest,
    local_types: LocalTypesRequest,
)
    ensures
        list_functions_plan(list_functions) matches Ok(plan) ==> plan matches PlanOf::One(
            WorkerCallOf::ListFunctions { offset, limit, filter, timeout_secs },
        ) && {
            &&& is_given(list_functions.offset, 0, offset)
            &&& is_up_to(list_functions.limit, 100, 10000, limit)
            &&& filter == opt_view(list_functions.filter)
            &&& is_secs(list_functions.timeout_secs, timeout_secs)
        },
        is_count(list_functions.limit) && is_count(list_functions.offset)
            && is_time(list_functions.timeout_secs) <==> list_functions_plan(list_functions) is Ok,
        strings_plan(strings) matches Ok(plan) ==> plan matches PlanOf::One(
            WorkerCallOf::Strings { offset, limit, filter, timeout_secs },
        ) && {
            &&& is_given(strings.offset, 0, offset)
            &&& is_up_to(strings.limit, 100, 10000, limit)
            &&& filter == opt_view(strings.filter)
            &&& is_secs(strings.timeout_secs, timeout_secs)
        },
        is_count(strings.limit) && is_count(strings.offset)
            && is_time(strings.timeout_secs) <==> strings_plan(strings) is Ok,
        imports_plan(paginated) matches Ok(plan) ==> plan matches PlanOf::One(
            WorkerCallOf::Imports { offset, limit },
        ) && {
            &&& is_given(paginated.offset, 0, offset)
            &&& is_up_to(paginated.limit, 100, 10000, limit)
        },
        is_count(paginated.limit) && is_count(paginated.offset) <==> imports_plan(paginated) is Ok,
        exports_plan(paginated) matches Ok(plan) ==> plan matches PlanOf::One(
            WorkerCallOf::Exports { offset, limit },
        ) && {
            &&& is_given(paginated.offset, 0, offset)
            &&& is_up_to(paginated.limit, 100, 10000, limit)
        },
        is_count(paginated.limit) && is_count(paginated.offset) <==> exports_plan(paginated) is Ok,
        list_globals_plan(query_page) matches Ok(plan) ==> plan matches PlanOf::One(
            WorkerCallOf::ListGlobals { query, offset, limit, timeout_secs },
        ) && {
            &&& query == opt_view(query_page.query)
            &&& is_given(query_page.offset, 0, offset)
            &&& is_up_to(query_page.limit, 100, 10000, limit)
            &&& is_secs(query_page.timeout_secs, timeout_secs)
        },
        is_count(query_page.limit) && is_count(query_page.offset)
            && is_time(query_page.timeout_secs) <==> list_globals_plan(query_page) is Ok,
        analyze_strings_plan(query_page) matches Ok(plan) ==> plan matches PlanOf::One(
            WorkerCallOf::AnalyzeStrings { query, offset, limit, timeout_secs },
        ) && {
            &&& query == opt_view(query_page.query)
            &&& is_given(query_page.offset, 0, offset)
            &&& is_up_to(query_page.limit, 100, 10000, limit)
            &&& is_secs(query_page.timeout_secs, timeout_secs)
        },
        is_count(query_page.limit) && is_count(query_page.offset)
            && is_time(query_page.timeout_secs) <==> analyze_strings_plan(query_page) is Ok,
        structs_plan(structs) matches Ok(plan) ==> plan matches PlanOf::One(
            WorkerCallOf::Structs { offset, limit, filter, timeout_secs },
        ) && {
            &&& is_given(structs.offset, 0, offset)
            &&& is_up_to(structs.limit, 100, 10000, limit)
            &&& filter == opt_view(structs.filter)
            &&& is_secs(structs.timeout_secs, timeout_secs)
        },
        is_count(structs.limit) && is_count(structs.offset)
            && is_time(structs.timeout_secs) <==> structs_plan(structs) is Ok,
        local_types_plan(local_types) matches Ok(plan) ==> plan matches PlanOf::One(
            WorkerCallOf::LocalTypes { offset, limit, filter, timeout_secs },
        ) && {
            &&& is_given(local_types.offset, 0, offset)
            &&& is_given(local_types.limit, 100, limit)
            &&& filter == opt_view(local_types.filter)
            &&& is_secs(local_types.timeout_secs, timeout_secs)
        },
        is_count(local_types.offset) && is_count(local_types.limit)
            && is_time(local_types.timeout_secs) <==> local_types_plan(local_types) is Ok,
        search_structs_plan(structs) matches Ok(plan) ==> plan matches PlanOf::One(
            WorkerCallOf::Structs { offset, limit, filter, timeout_secs },
        ) && {
            &&& is_given(structs.offset, 0, offset)
            &&& is_given(structs.limit, 100, limit)
            &&& filter == opt_view(structs.filter)
            &&& is_secs(structs.timeout_secs, timeout_secs)
        },
        is_count(structs.offset) && is_count(structs.limit)
            && is_time(structs.timeout_secs) <==> search_structs_plan(structs) is Ok,
{
}

/// Searches for a string: every parameter is taken as it is given, up to its cap where it has
/// one, and what is not given has its default. A parameter that cannot be taken
/// makes the request an error, and nothing else does.
pub proof fn lemma_string_searches(
    find_string: FindStringRequest,
    xrefs_to_string: XrefsToStringRequest,
)
    ensures
        find_string_plan(find_string) matches Ok(plan) ==> plan matches PlanOf::One(
            WorkerCallOf::FindString { query, exact, case_insensitive, offset, limit, timeout_secs },
        ) && {
            &&& query == find_string.query@
            &&& exact == (if find_string.exact is Some { find_string.exact->0 } else { false })
            &&& case_insensitive == (if find_string.case_insensitive is Some { find_string.case_insensitive->0 } else { true })
            &&& is_given(find_string.offset, 0, offset)
            &&& is_up_to(find_string.limit, 100, 10000, limit)
            &&& is_secs(find_string.timeout_secs, timeout_secs)
        },
        is_count(find_string.limit) && is_count(find_string.offset)
            && is_time(find_string.timeout_secs) <==> find_string_plan(find_string) is Ok,
        xrefs_to_string_plan(xrefs_to_string) matches Ok(plan) ==> plan matches PlanOf::One(
            WorkerCallOf::XrefsToString { query, exact, case_insensitive, offset, limit, max_xrefs, timeout_secs },
        ) && {
            &&& query == xrefs_to_string.query@
            &&& exact == (if xrefs_to_string.exact is Some { xrefs_to_string.exact->0 } else { false })
            &&& case_insensitive == (if xrefs_to_string.case_insensitive is Some { xrefs_to_string.case_insensitive->0 } else { true })
            &&& is_given(xrefs_to_string.offset, 0, offset)
            &&& is_up_to(xrefs_to_string.limit, 100, 10000, limit)
            &&& is_given(xrefs_to_string.max_xrefs, 64, max_xrefs)
            &&& is_secs(xrefs_to_string.timeout_secs, timeout_secs)
        },
        is_count(xrefs_to_string.limit) && is_count(xrefs_to_string.offset)
            && is_count(xrefs_to_string.max_xrefs)
            && is_time(xrefs_to_string.timeout_secs) <==> xrefs_to_string_plan(xrefs_to_string) is Ok,
{
}

/// Searches for instructions: every parameter is taken as it is given, up to its cap where it has
/// one, and what is not given has its default. A parameter that cannot be taken
/// makes the request an error, and nothing else does.
pub proof fn lemma_instruction_searches(
    find_insns: FindInsnsRequest,
)
    ensures
        find_insns_plan(find_insns) matches Ok(plan) ==> plan matches PlanOf::One(
            WorkerCallOf::FindInsns { patterns, max_results, case_insensitive, timeout_secs },
        ) && {
            &&& texts_in_value(find_insns.patterns@) == Ok::<Seq<Seq<char>>, ToolErrorV>(patterns)
            &&& is_given(find_insns.limit, 100, max_results)
            &&& case_insensitive == (if find_insns.case_insensitive is Some { find_insns.case_insensitive->0 } else { false })
            &&& is_secs(find_insns.timeout_secs, timeout_secs)
        },
        find_insns_plan(find_insns) is Ok <==> is_count(find_insns.limit)
            && is_time(find_insns.timeout_secs) && texts_in_value(find_insns.patterns@) is Ok
            && texts_in_value(find_insns.patterns@)->Ok_0.len() > 0,
        find_insn_operands_plan(find_insns) matches Ok(plan) ==> plan matches PlanOf::One(
            WorkerCallOf::FindInsnOperands { patterns, max_results, case_insensitive, timeout_secs },
        ) && {
            &&& texts_in_value(find_insns.patterns@) == Ok::<Seq<Seq<char>>, ToolErrorV>(patterns)
            &&& is_given(find_insns.limit, 100, max_results)
            &&& case_insensitive == (if find_insns.case_insensitive is Some { find_insns.case_insensitive->0 } else { false })
            &&& is_secs(find_insns.timeout_secs, timeout_secs)
        },
        find_insn_operands_plan(find_insns) is Ok <==> is_count(find_insns.limit)
            && is_time(find_insns.timeout_secs) && texts_in_value(find_insns.patterns@) is Ok
            && texts_in_value(find_insns.patterns@)->Ok_0.len() > 0,
{
}

/// What is asked of one place: every parameter is taken as it is given, up to its cap where it has
/// one, and what is not given has its default. A parameter that cannot be taken
/// makes the request an error, and nothing else does.
pub proof fn lemma_places(
    place: PlaceRequest,
    disasm_by_name: DisasmByNameRequest,
    disasm_function_at: DisasmFunctionAtRequest,
    address: AddressRequest,
    find_paths: FindPathsRequest,
)
    ensures
        addr_info_plan(place) matches Ok(plan) ==> plan matches PlanOf::One(
            WorkerCallOf::AddrInfo { addr, name, offset },
        ) && {
            &&& maybe_address_in(opt_json(place.address)) == Ok::<Option<u64>, ToolErrorV>(addr)
            &&& name == opt_view(place.target_name)
            &&& offset == (if place.offset is Some { place.offset->0 } else { 0 })
        },
        addr_info_plan(place) is Ok <==> maybe_address_in(opt_json(place.address)) is Ok,
        function_at_plan(place) matches Ok(plan) ==> plan matches PlanOf::One(
            WorkerCallOf::FunctionAt { addr, name, offset },
        ) && {
            &&& maybe_address_in(opt_json(place.address)) == Ok::<Option<u64>, ToolErrorV>(addr)
            &&& name == opt_view(place.target_name)
            &&& offset == (if place.offset is Some { place.offset->0 } else { 0 })
        },
        function_at_plan(place) is Ok <==> maybe_address_in(opt_json(place.address)) is Ok,
        infer_types_plan(place) matches Ok(plan) ==> plan matches PlanOf::One(
            WorkerCallOf::InferTypes { addr, name, offset },
        ) && {
            &&& maybe_address_in(opt_json(place.address)) == Ok::<Option<u64>, ToolErrorV>(addr)
            &&& name == opt_view(place.target_name)
            &&& offset == (if place.offset is Some { place.offset->0 } else { 0 })
        },
        infer_types_plan(place) is Ok <==> maybe_address_in(opt_json(place.address)) is Ok,
        disasm_by_name_plan(disasm_by_name) matches Ok(plan) ==> plan matches PlanOf::One(
            WorkerCallOf::DisasmByName { name, count },
        ) && {
            &&& name == disasm_by_name.name@
            &&& is_up_to(disasm_by_name.count, 10, 1000, count)
        },
        is_count(disasm_by_name.count) <==> disasm_by_name_plan(disasm_by_name) is Ok,
        disasm_function_at_plan(disasm_function_at) matches Ok(plan) ==> plan matches PlanOf::One(
            WorkerCallOf::DisasmFunctionAt { addr, name, offset, count },
        ) && {
            &&& maybe_address_in(opt_json(disasm_function_at.address)) == Ok::<Option<u64>, ToolErrorV>(addr)
            &&& name == opt_view(disasm_function_at.target_name)
            &&& offset == (if disasm_function_at.offset is Some { disasm_function_at.offset->0 } else { 0 })
            &&& is_up_to(disasm_function_at.count, 200, 5000, count)
        },
        disasm_function_at_plan(disasm_function_at) is Ok <==> is_count(disasm_function_at.count)
            && maybe_address_in(opt_json(disasm_function_at.address)) is Ok,
        stack_frame_plan(address) matches Ok(plan) ==> plan matches PlanOf::One(
            WorkerCallOf::StackFrame { addr },
        ) && {
            &&& first_address_in(address.address@) == Ok::<u64, ToolErrorV>(addr)
        },
        stack_frame_plan(address) is Ok <==> first_address_in(address.address@) is Ok,
        find_paths_plan(find_paths) matches Ok(plan) ==> plan matches PlanOf::One(
            WorkerCallOf::FindPaths { start, end, max_paths, max_depth },
        ) && {
            &&& first_address_in(find_paths.start@) == Ok::<u64, ToolErrorV>(start)
            &&& first_address_in(find_paths.end@) == Ok::<u64, ToolErrorV>(end)
            &&& is_up_to(find_paths.max_paths, 8, 128, max_paths)
            &&& is_up_to(find_paths.max_depth, 64, 2048, max_depth)
        },
        find_paths_plan(find_paths) is Ok <==> is_count(find_paths.max_paths)
            && is_count(find_paths.max_depth) && first_address_in(find_paths.start@) is Ok
            && first_address_in(find_paths.end@) is Ok,
{
}

/// What is asked of types: every parameter is taken as it is given, up to its cap where it has
/// one, and what is not given has its default. A parameter that cannot be taken
/// makes the request an error, and nothing else does.
pub proof fn lemma_types(
    declare_type: DeclareTypeRequest,
    apply_types: ApplyTypesRequest,
    struct_info: StructInfoRequest,
    xrefs_to_field: XrefsToFieldRequest,
    declare_stack: DeclareStackRequest,
    delete_stack: DeleteStackRequest,
)
    ensures
        declare_type_plan(declare_type) matches Ok(plan) ==> plan matches PlanOf::One(
            WorkerCallOf::DeclareType { decl, relaxed, replace, multi },
        ) && {
            &&& decl == declare_type.decl@
            &&& relaxed == (if declare_type.relaxed is Some { declare_type.relaxed->0 } else { false })
            &&& replace == (if declare_type.replace is Some { declare_type.replace->0 } else { false })
            &&& multi == (if declare_type.multi is Some { declare_type.multi->0 } else { false })
        },
        declare_type_plan(declare_type) is Ok,
        apply_types_plan(apply_types) matches Ok(plan) ==> plan matches PlanOf::One(
            WorkerCallOf::ApplyTypes { addr, name, offset, stack_offset, stack_name, decl, named_type, relaxed, delay, strict },
        ) && {
            &&& maybe_address_in(opt_json(apply_types.address)) == Ok::<Option<u64>, ToolErrorV>(addr)
            &&& name == opt_view(apply_types.target_name)
            &&& offset == (if apply_types.offset is Some { apply_types.offset->0 } else { 0 })
            &&& stack_offset == apply_types.stack_offset
            &&& stack_name == opt_view(apply_types.stack_name)
            &&& decl == opt_view(apply_types.decl)
            &&& named_type == opt_view(apply_types.named_type)
            &&& relaxed == (if apply_types.relaxed is Some { apply_types.relaxed->0 } else { false })
            &&& delay == (if apply_types.delay is Some { apply_types.delay->0 } else { false })
            &&& strict == (if apply_types.strict is Some { apply_types.strict->0 } else { false })
        },
        apply_types_plan(apply_types) is Ok <==> maybe_address_in(opt_json(apply_types.address)) is Ok,
        struct_info_plan(struct_info) matches Ok(plan) ==> plan matches PlanOf::One(
            WorkerCallOf::StructInfo { ordinal, name },
        ) && {
            &&& is_ordinal(struct_info.ordinal, ordinal)
            &&& name == opt_view(struct_info.name)
        },
        struct_info_plan(struct_info) is Ok <==> (struct_info.ordinal is Some ==> 0 <= struct_info.ordinal->0 <= u32::MAX),
        xrefs_to_field_plan(xrefs_to_field) matches Ok(plan) ==> plan matches PlanOf::One(
            WorkerCallOf::XrefsToField { ordinal, name, member_index, member_name, limit },
        ) && {
            &&& is_ordinal(xrefs_to_field.ordinal, ordinal)
            &&& name == opt_view(xrefs_to_field.name)
            &&& is_ordinal(xrefs_to_field.member_index, member_index)
            &&& member_name == opt_view(xrefs_to_field.member_name)
            &&& is_up_to(xrefs_to_field.limit, 1000, 10000, limit)
        },
        xrefs_to_field_plan(xrefs_to_field) is Ok <==> is_count(xrefs_to_field.limit)
            && (xrefs_to_field.ordinal is Some ==> 0 <= xrefs_to_field.ordinal->0 <= u32::MAX)
            && (xrefs_to_field.member_index is Some
            ==> 0 <= xrefs_to_field.member_index->0 <= u32::MAX),
        declare_stack_plan(declare_stack) matches Ok(plan) ==> plan matches PlanOf::One(
            WorkerCallOf::DeclareStack { addr, name, offset, var_name, decl, relaxed },
        ) && {
            &&& maybe_address_in(opt_json(declare_stack.address)) == Ok::<Option<u64>, ToolErrorV>(addr)
            &&& name == opt_view(declare_stack.target_name)
            &&& offset == declare_stack.offset
            &&& var_name == opt_view(declare_stack.var_name)
            &&& decl == declare_stack.decl@
            &&& relaxed == (if declare_stack.relaxed is Some { declare_stack.relaxed->0 } else { false })
        },
        declare_stack_plan(declare_stack) is Ok <==> maybe_address_in(opt_json(declare_stack.address)) is Ok,
        delete_stack_plan(delete_stack) matches Ok(plan) ==> plan matches PlanOf::One(
            WorkerCallOf::DeleteStack { addr, name, offset, var_name },
        ) && {
            &&& maybe_address_in(opt_json(delete_stack.address)) == Ok::<Option<u64>, ToolErrorV>(addr)
            &&& name == opt_view(delete_stack.target_name)
            &&& offset == delete_stack.offset
            &&& var_name == opt_view(delete_stack.var_name)
        },
        delete_stack_plan(delete_stack) is Ok <==> maybe_address_in(opt_json(delete_stack.address)) is Ok,
{
}

/// Changes to a database: every parameter is taken as it is given, up to its cap where it has
/// one, and what is not given has its default. A parameter that cannot be taken
/// makes the request an error, and nothing else does.
pub proof fn lemma_changes(
    set_comments: SetCommentsRequest,
    patch_asm: PatchAsmRequest,
    rename: RenameRequest,
    patch: PatchRequest,
    load_debug_info: LoadDebugInfoRequest,
    lookup_funcs: LookupFuncsRequest,
    xref_matrix: XrefMatrixRequest,
)
    ensures
        set_comments_plan(set_comments) matches Ok(plan) ==> plan matches PlanOf::One(
            WorkerCallOf::SetComments { addr, name, offset, comment, repeatable },
        ) && {
            &&& maybe_address_in(opt_json(set_comments.address)) == Ok::<Option<u64>, ToolErrorV>(addr)
            &&& name == opt_view(set_comments.target_name)
            &&& offset == (if set_comments.offset is Some { set_comments.offset->0 } else { 0 })
            &&& comment == set_comments.comment@
            &&& repeatable == (if set_comments.repeatable is Some { set_comments.repeatable->0 } else { false })
        },
        set_comments_plan(set_comments) is Ok <==> maybe_address_in(opt_json(set_comments.address)) is Ok,
        patch_asm_plan(patch_asm) matches Ok(plan) ==> plan matches PlanOf::One(
            WorkerCallOf::PatchAsm { addr, name, offset, line },
        ) && {
            &&& maybe_address_in(opt_json(patch_asm.address)) == Ok::<Option<u64>, ToolErrorV>(addr)
            &&& name == opt_view(patch_asm.target_name)
            &&& offset == (if patch_asm.offset is Some { patch_asm.offset->0 } else { 0 })
            &&& line == patch_asm.line@
        },
        patch_asm_plan(patch_asm) is Ok <==> maybe_address_in(opt_json(patch_asm.address)) is Ok,
        rename_plan(rename) matches Ok(plan) ==> plan matches PlanOf::One(
            WorkerCallOf::Rename { addr, current_name, new_name, flags },
        ) && {
            &&& maybe_address_in(opt_json(rename.address)) == Ok::<Option<u64>, ToolErrorV>(addr)
            &&& current_name == opt_view(rename.current_name)
            &&& new_name == rename.name@
            &&& flags == (if rename.flags is Some { rename.flags->0 as i32 } else { 0 })
        },
        rename_plan(rename) is Ok <==> maybe_address_in(opt_json(rename.address)) is Ok
            && (rename.flags is Some ==> i32::MIN <= rename.flags->0 <= i32::MAX),
        patch_plan(patch) matches Ok(plan) ==> plan matches PlanOf::One(
            WorkerCallOf::PatchBytes { addr, name, offset, bytes },
        ) && {
            &&& maybe_address_in(opt_json(patch.address)) == Ok::<Option<u64>, ToolErrorV>(addr)
            &&& name == opt_view(patch.target_name)
            &&& offset == (if patch.offset is Some { patch.offset->0 } else { 0 })
            &&& bytes_in_value(patch.bytes@) == Ok::<Seq<u8>, ToolErrorV>(bytes)
        },
        patch_plan(patch) is Ok <==> maybe_address_in(opt_json(patch.address)) is Ok
            && bytes_in_value(patch.bytes@) is Ok,
        load_debug_info_plan(load_debug_info) matches Ok(plan) ==> plan matches PlanOf::One(
            WorkerCallOf::LoadDebugInfo { path, verbose },
        ) && {
            &&& path == opt_view(load_debug_info.path)
            &&& verbose == (if load_debug_info.verbose is Some { load_debug_info.verbose->0 } else { false })
        },
        load_debug_info_plan(load_debug_info) is Ok,
        lookup_funcs_plan(lookup_funcs) matches Ok(plan) ==> plan matches PlanOf::One(
            WorkerCallOf::LookupFuncs { queries },
        ) && {
            &&& texts_in_value(lookup_funcs.queries@) == Ok::<Seq<Seq<char>>, ToolErrorV>(queries)
        },
        lookup_funcs_plan(lookup_funcs) is Ok <==> texts_in_value(lookup_funcs.queries@) is Ok,
        xref_matrix_plan(xref_matrix) matches Ok(plan) ==> plan matches PlanOf::One(
            WorkerCallOf::XrefMatrix { addrs },
        ) && {
            &&& addresses_in(xref_matrix.addrs@) == Ok::<Seq<u64>, ToolErrorV>(addrs)
        },
        xref_matrix_plan(xref_matrix) is Ok <==> addresses_in(xref_matrix.addrs@) is Ok,
{
}

/// Tools that take addresses: their counts are taken as they are given, up to
/// their caps, and what is asked is asked of every address.
pub proof fn lemma_address_tools(
    disasm: DisasmRequest,
    address: AddressRequest,
    pseudocode_at: PseudocodeAtRequest,
    get_string: GetStringRequest,
    call_graph: CallGraphRequest,
    addrs: Seq<u64>,
    count: usize,
    max_len: usize,
    max_depth: usize,
    max_nodes: usize,
    end: Option<u64>,
)
    ensures
        is_up_to(disasm.count, 10, 1000, count)
            && addresses_in(disasm.address@) == Ok::<Seq<u64>, ToolErrorV>(addrs)
            ==> disasm_plan(disasm) == Ok::<PlanV, ToolErrorV>(over_v(AddrToolV::Disasm { count }, addrs)),
        addresses_in(address.address@) == Ok::<Seq<u64>, ToolErrorV>(addrs) ==> decompile_plan(address) == Ok::<PlanV, ToolErrorV>(over_v(AddrToolV::Decompile, addrs)),
        addresses_in(pseudocode_at.address@) == Ok::<Seq<u64>, ToolErrorV>(addrs)
            && maybe_number(opt_view(pseudocode_at.end_address)) == Ok::<Option<u64>, ToolErrorV>(end)
            ==> pseudocode_at_plan(pseudocode_at) == Ok::<PlanV, ToolErrorV>(over_v(AddrToolV::PseudocodeAt { end }, addrs)),
        addresses_in(address.address@) == Ok::<Seq<u64>, ToolErrorV>(addrs) ==> xrefs_to_plan(address) == Ok::<PlanV, ToolErrorV>(over_v(AddrToolV::XrefsTo, addrs)),
        addresses_in(address.address@) == Ok::<Seq<u64>, ToolErrorV>(addrs) ==> xrefs_from_plan(address) == Ok::<PlanV, ToolErrorV>(over_v(AddrToolV::XrefsFrom, addrs)),
        addresses_in(address.address@) == Ok::<Seq<u64>, ToolErrorV>(addrs) ==> basic_blocks_plan(address) == Ok::<PlanV, ToolErrorV>(over_v(AddrToolV::BasicBlocks, addrs)),
        addresses_in(address.address@) == Ok::<Seq<u64>, ToolErrorV>(addrs) ==> callees_plan(address) == Ok::<PlanV, ToolErrorV>(over_v(AddrToolV::Callees, addrs)),
        addresses_in(address.address@) == Ok::<Seq<u64>, ToolErrorV>(addrs) ==> callers_plan(address) == Ok::<PlanV, ToolErrorV>(over_v(AddrToolV::Callers, addrs)),
        addresses_in(get_string.address@) == Ok::<Seq<u64>, ToolErrorV>(addrs)
            && is_up_to(get_string.max_len, 256, 65536, max_len)
            ==> get_string_plan(get_string) == Ok::<PlanV, ToolErrorV>(over_v(AddrToolV::GetString { max_len }, addrs)),
        addresses_in(call_graph.roots@) == Ok::<Seq<u64>, ToolErrorV>(addrs)
            && is_up_to(call_graph.max_depth, 2, 16, max_depth)
            && is_up_to(call_graph.max_nodes, 256, 10000, max_nodes)
            ==> callgraph_plan(call_graph) == Ok::<PlanV, ToolErrorV>(over_v(AddrToolV::Callgraph { max_depth, max_nodes }, addrs)),
{
}

/// What is asked of one address is one call; what is asked of several is a call
/// for each, in their order, under the address in hexadecimal.
pub proof fn lemma_calls_for_addresses(tool: AddrToolV, addrs: Seq<u64>, a: u64)
    ensures
        over_v(tool, seq![a]) == PlanV::One(call_at(tool, a)),
        addrs.len() != 1 ==> (over_v(tool, addrs) matches PlanOf::Many { calls, .. } && calls.len()
            == addrs.len() && forall|i: int|
            0 <= i < addrs.len() ==> (#[trigger] calls[i]).0 == hex(addrs[i] as nat) && calls[i].1
                == call_at(tool, addrs[i])),
{
}

/// Each of these tools is one call at its address, with the tool's own numbers.
pub proof fn lemma_call_at_an_address(addr: u64, n: usize, m: usize, end: Option<u64>)
    ensures
        call_at(AddrToolOf::Disasm { count: n }, addr) == (WorkerCallV::Disasm { addr, count: n }),
        call_at(AddrToolOf::Decompile, addr) == (WorkerCallV::Decompile { addr }),
        call_at(AddrToolOf::PseudocodeAt { end }, addr) == (WorkerCallV::PseudocodeAt {
            addr,
            end_addr: end,
        }),
        call_at(AddrToolOf::XrefsTo, addr) == (WorkerCallV::XrefsTo { addr }),
        call_at(AddrToolOf::XrefsFrom, addr) == (WorkerCallV::XrefsFrom { addr }),
        call_at(AddrToolOf::BasicBlocks, addr) == (WorkerCallV::BasicBlocks { addr }),
        call_at(AddrToolOf::Callees, addr) == (WorkerCallV::Callees { addr }),
        call_at(AddrToolOf::Callers, addr) == (WorkerCallV::Callers { addr }),
        call_at(AddrToolOf::GetString { max_len: n }, addr) == (WorkerCallV::GetString {
            addr,
            max_len: n,
        }),
        call_at(AddrToolOf::Callgraph { max_depth: n, max_nodes: m }, addr) == (
        WorkerCallV::Callgraph { addr, max_depth: n, max_nodes: m }),
        call_at(AddrToolOf::ReadInt { size: n }, addr) == (WorkerCallV::ReadInt { addr, size: n }),
        call_at(AddrToolOf::GetBytes { size: n }, addr) == (WorkerCallV::GetBytes {
            addr: Some(addr),
            name: None,
            offset: 0,
            size: n,
        }),
{
}

/// Bytes are read at addresses where some are given, else at a name and an
/// offset from it, 256 where no size is given and 65536 at most; without either
/// place it is an error.
pub proof fn lemma_bytes_asked_for(req: GetBytesRequest, size: usize, addrs: Seq<u64>)
    requires
        is_up_to(req.size, 256, 65536, size),
    ensures
        req.address is Some && addresses_in(req.address->0@) == Ok::<Seq<u64>, ToolErrorV>(addrs)
            ==> get_bytes_plan(req) == Ok::<PlanV, ToolErrorV>(
            over_v(AddrToolOf::GetBytes { size }, addrs),
        ),
        req.address is None && req.target_name is Some ==> get_bytes_plan(req) == Ok::<
            PlanV,
            ToolErrorV,
        >(
            PlanOf::One(
                WorkerCallOf::GetBytes {
                    addr: None,
                    name: Some(req.target_name->0@),
                    offset: if req.offset is Some { req.offset->0 } else { 0 },
                    size,
                },
            ),
        ),
        req.address is None && req.target_name is None ==> get_bytes_plan(req) is Err,
{
}

/// An export lists the functions that it names, else a page of all of them; no
/// other form than JSON is written.
pub proof fn lemma_exports_asked_for(
    req: ExportFuncsRequest,
    lower: Option<Seq<char>>,
    offset: usize,
    limit: usize,
)
    requires
        is_up_to(req.limit, 100, 10000, limit),
        is_given(req.offset, 0, offset),
    ensures
        (req.format is None || lower == Some("json"@)) && req.addrs is None ==> export_plan(
            req,
            lower,
        ) == Ok::<PlanV, ToolErrorV>(PlanOf::One(WorkerCallOf::ExportFuncs { offset, limit })),
        req.format is Some && lower != Some("json"@) ==> (export_plan(req, lower) matches Err(e)
            && e
            is NotSupported),
{
}

/// A search shows a page of at most the limit, 100 where none is given and
/// 10000 at most, and asks a worker for as many matches as the page ends at, up
/// to 20000. A worker is told how many to find, and shows that many.
pub proof fn lemma_limits_of_a_search(
    limit: Option<i64>,
    offset: Option<i64>,
    told: Option<i64>,
    secs: Option<i64>,
    worker: bool,
)
    requires
        is_count(limit) && is_count(offset) && is_count(told) && is_time(secs),
    ensures
        search_limits(limit, offset, told, secs, worker) matches Ok(l) && {
            &&& is_up_to(limit, 100, 10000, l.limit)
            &&& is_given(offset, 0, l.offset)
            &&& is_secs(secs, l.timeout_secs)
            &&& l.worker_max_results is Some <==> worker && told is Some
            &&& l.worker_max_results is None ==> l.shown() == l.limit && l.wanted() == (
            if l.offset + l.limit < 20000 {
                l.offset + l.limit
            } else {
                20000
            })
            &&& worker && told is Some ==> l.shown() == l.wanted() && l.wanted() == (
            if told->0 < 20000 {
                told->0 as nat
            } else {
                20000
            })
        },
{
}

/// A search for an immediate needs a number; a search for text takes any text;
/// a search that names neither is for the number where it is one, else for the
/// text.
pub proof fn lemma_kinds_of_a_search(
    kind: Seq<char>,
    target: Seq<char>,
    n: u64,
    max_results: usize,
    timeout_secs: Option<u64>,
)
    ensures
        search_call("text"@, target, max_results, timeout_secs) == Ok::<WorkerCallV, ToolErrorV>(
            WorkerCallOf::SearchText { text: target, max_results, timeout_secs },
        ),
        kind != "text"@ && kind != "string"@ && number_in(target) == Ok::<u64, ToolErrorV>(n)
            ==> search_call(kind, target, max_results, timeout_secs) == Ok::<
            WorkerCallV,
            ToolErrorV,
        >(WorkerCallOf::SearchImm { imm: n, max_results, timeout_secs }),
        number_in(target) is Err ==> search_call("imm"@, target, max_results, timeout_secs) is Err,
        kind != "imm"@ && kind != "immediate"@ && number_in(target) is Err ==> search_call(
            kind,
            target,
            max_results,
            timeout_secs,
        ) == Ok::<WorkerCallV, ToolErrorV>(
            WorkerCallOf::SearchText { text: target, max_results, timeout_secs },
        ),
{
    reveal_strlit("text");
    reveal_strlit("string");
    reveal_strlit("imm");
    reveal_strlit("immediate");
    assert("text"@.len() == 4);
    assert("string"@.len() == 6);
    assert("imm"@.len() == 3);
    assert("immediate"@.len() == 9);
}

/// A page of matches is the matches from its offset on, in their order, as many
/// as it may show; it counts all of them and names the offset of the next page
/// where there is one.
pub proof fn lemma_page_of_matches(
    name: Seq<char>,
    m: FieldsV,
    all: Seq<JsonV>,
    offset: usize,
    limit: usize,
)
    requires
        m.dom().contains("matches"@),
        m["matches"@] == JsonV::Arr(all),
        all.len() <= u64::MAX,
        offset <= all.len(),
    ensures
        search_entry("target"@, name, JsonV::Obj(m), offset, limit) matches JsonV::Obj(e) && {
            &&& e["target"@] == JsonV::Str(name)
            &&& e["total"@] == JsonV::Num(NumV::Unsigned(all.len() as u64))
            &&& e["matches"@] matches JsonV::Arr(page) && page.len() == (if all.len() - offset
                < limit {
                all.len() - offset
            } else {
                limit as int
            }) && forall|i: int|
                0 <= i < page.len() ==> #[trigger] page[i] == all[offset + i]
            &&& offset + limit < all.len() ==> e["next_offset"@] == JsonV::Num(
                NumV::Unsigned((offset + limit) as u64),
            )
            &&& offset + limit >= all.len() ==> e["next_offset"@] == JsonV::Null
        },
{
    reveal_strlit("target");
    reveal_strlit("matches");
    reveal_strlit("total");
    reveal_strlit("next_offset");
    assert("target"@.len() == 6);
    assert("matches"@.len() == 7);
    assert("total"@.len() == 5);
    assert("next_offset"@.len() == 11);
}

/// A number is shown as itself, in decimal, in hexadecimal and in binary, and as
/// bytes both ways round, without the zeros at its high end.
#[verifier::rlimit(50)]
pub proof fn lemma_number_forms(input: Seq<char>, n: u64)
    ensures
        number_forms(input, n)["input"@] == JsonV::Str(input),
        number_forms(input, n)["value"@] == JsonV::Num(NumV::Unsigned(n)),
        number_forms(input, n)["dec"@] == JsonV::Str(decimal(n as nat)),
        number_forms(input, n)["hex"@] == JsonV::Str(hex(n as nat)),
        number_forms(input, n)["bin"@] == JsonV::Str("0b"@ + digits(n as nat, 2)),
        number_forms(input, n)["bytes_le"@] == JsonV::Str(
            hex_encoded(without_last_zeros(le_bytes(n as nat, 8))),
        ),
        number_forms(input, n)["bytes_be"@] == JsonV::Str(
            hex_encoded(without_first_zeros(le_bytes(n as nat, 8).reverse())),
        ),
        number_forms(input, n)["ascii"@] == JsonV::Str(
            ascii_of(without_last_zeros(le_bytes(n as nat, 8))),
        ),
        le_value(without_last_zeros(le_bytes(n as nat, 8))) == n,
{
    reveal_strlit("input");
    reveal_strlit("value");
    reveal_strlit("dec");
    reveal_strlit("hex");
    reveal_strlit("bin");
    reveal_strlit("bytes_le");
    reveal_strlit("bytes_be");
    reveal_strlit("ascii");
    assert("input"@.len() == 5);
    assert("value"@.len() == 5);
    assert("dec"@.len() == 3);
    assert("hex"@.len() == 3);
    assert("bin"@.len() == 3);
    assert("bytes_le"@.len() == 8);
    assert("bytes_be"@.len() == 8);
    assert("ascii"@.len() == 5);
    assert("value"@[0] == 'v');
    assert("input"@[0] == 'i');
    assert("hex"@[0] == 'h');
    assert("dec"@[0] == 'd');
    assert("bin"@[0] == 'b');
    assert("bytes_be"@[6] == 'b');
    assert("bytes_le"@[6] == 'l');
    assert("ascii"@[0] == 'a');
    lemma_word_read_back(n);
}

/// Of several things that were asked for each is listed under its name, with
/// what came back or with the error.
pub proof fn lemma_listed_results(item: Listed, key: Seq<char>)
    requires
        key != "address"@,
    ensures
        listed_v(item, "address"@, key) matches JsonV::Obj(m) && m["address"@] == JsonV::Str(
            item.name@,
        ) && (item.outcome matches Ok(v) ==> m[key] == v@) && (item.outcome matches Err(e)
            ==> m["error"@] == JsonV::Str(e@)),
{
    reveal_strlit("address");
    reveal_strlit("error");
    assert("address"@.len() == 7);
    assert("error"@.len() == 5);
}

/// Values that are asked for by a query are one call for one query, and a call
/// for each of several, in their order; integers are read at each address, and so
/// are structures.
pub proof fn lemma_values_asked_for(
    query: JsonV,
    queries: Seq<Seq<char>>,
    address: JsonV,
    addrs: Seq<u64>,
    size: usize,
    req: ReadStructRequest,
    ordinal: Option<u32>,
)
    ensures
        texts_in_value(query) == Ok::<Seq<Seq<char>>, ToolErrorV>(queries) && queries.len() == 1
            ==> get_global_value_plan(query) == Ok::<PlanV, ToolErrorV>(
            PlanOf::One(WorkerCallOf::GetGlobalValue { query: queries[0] }),
        ),
        texts_in_value(query) == Ok::<Seq<Seq<char>>, ToolErrorV>(queries) && queries.len() != 1 ==> (
        get_global_value_plan(query) matches Ok(PlanOf::Many { calls, .. }) && calls.len()
            == queries.len() && forall|i: int|
            0 <= i < queries.len() ==> #[trigger] calls[i] == (
                queries[i],
                WorkerCallV::GetGlobalValue { query: queries[i] },
            )),
        addresses_in(address) == Ok::<Seq<u64>, ToolErrorV>(addrs) ==> int_values_plan(address, size)
            == Ok::<PlanV, ToolErrorV>(over_v(AddrToolOf::ReadInt { size }, addrs)),
        addresses_in(req.address@) == Ok::<Seq<u64>, ToolErrorV>(addrs) && is_ordinal(
            req.ordinal,
            ordinal,
        ) ==> read_struct_plan(req) == Ok::<PlanV, ToolErrorV>(
            over_v(AddrToolOf::ReadStruct { ordinal, name: opt_view(req.name) }, addrs),
        ),
{
}

/// What several searches found is listed search by search, in their order: a page
/// of the matches, or the error.
pub proof fn lemma_searches_in_order(items: Seq<Listed>, limits: SearchLimits)
    ensures
        searches_v("target"@, items, limits) matches JsonV::Obj(m) && (
        m["results"@] matches JsonV::Arr(results) && results.len() == items.len() && forall|i: int|
            0 <= i < items.len() ==> match items[i].outcome {
                Ok(v) => #[trigger] results[i] == search_entry(
                    "target"@,
                    items[i].name@,
                    v@,
                    limits.offset,
                    limits.shown(),
                ),
                Err(e) => results[i] matches JsonV::Obj(f) && f["error"@] == JsonV::Str(e@)
                    && f["target"@] == JsonV::Str(items[i].name@),
            }),
{
    reveal_strlit("target");
    reveal_strlit("error");
    assert("target"@.len() == 6);
    assert("error"@.len() == 5);
}

/// Numbers are converted one by one, in their order; a text that is no number is
/// an error of its own and spoils no other.
pub proof fn lemma_conversions_in_order(inputs: JsonV, texts: Seq<Seq<char>>)
    requires
        texts_in_value(inputs) == Ok::<Seq<Seq<char>>, ToolErrorV>(texts),
    ensures
        conversions(inputs) matches Ok(list) && list.len() == texts.len() && forall|i: int|
            0 <= i < texts.len() ==> (#[trigger] list[i]).0 == texts[i] && (number_in(
                texts[i],
            ) matches Ok(n) ==> list[i].1 == Ok::<JsonV, ToolErrorV>(
                JsonV::Obj(number_forms(texts[i], n)),
            )) && (number_in(texts[i]) is Err ==> list[i].1 is Err),
{
}

/// Several results are listed under their addresses, those of a call graph under
/// their roots.
pub proof fn lemma_labels_of_results(tool: AddrToolV)
    ensures
        tool is Callgraph ==> listed_as(tool) == ("root"@, "callgraph"@),
        !(tool is Callgraph) ==> listed_as(tool).0 == "address"@,
        tool is XrefsTo || tool is XrefsFrom ==> listed_as(tool).1 == "xrefs"@,
        tool is Disasm ==> listed_as(tool).1 == "disasm"@,
        tool is Decompile ==> listed_as(tool).1 == "decompile"@,
        tool is PseudocodeAt ==> listed_as(tool).1 == "pseudocode"@,
        tool is GetBytes ==> listed_as(tool).1 == "bytes"@,
        tool is BasicBlocks ==> listed_as(tool).1 == "basic_blocks"@,
        tool is Callees ==> listed_as(tool).1 == "callees"@,
        tool is Callers ==> listed_as(tool).1 == "callers"@,
        tool is GetString ==> listed_as(tool).1 == "string"@,
        tool is ReadStruct ==> listed_as(tool).1 == "struct"@,
        tool is ReadInt ==> listed_as(tool).1 == "value"@,
{
}

} // verus!
