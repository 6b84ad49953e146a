use ida_cli::calls::WorkerCallOf;
use ida_cli::dsc_task::{
    dsc_step, needs_script, DscDo, DscDoOf, DscEvent, DscEventOf, DscJob, DscStage, DscStageOf,
};
use ida_cli::errors::ToolErrorOf;
use ida_cli::json::{Json, JsonObject, Num};
use ida_cli::operations::{
    conclude, fallback_operation_snapshot, must_clean_up, operation_cancelled_message,
    operation_timeout, operation_timeout_message, run_foreground_operation, run_script_answer,
    run_script_error, script_summary, wait_end, OperationSnapshot, OperationStatus, WaitEndOf,
};
use ida_cli::schema::normalize_schema_value;
use ida_cli::scripts::{
    dsc_analysis_next_steps, run_script_error_hint, run_script_failure_message,
    run_script_last_non_empty_line, run_script_succeeded, run_script_tail_lines,
    run_script_timeout_message, run_script_truncate_chars,
};
use ida_cli::server::{
    analysis_task, analyze_funcs_background, analyze_funcs_call, apply_close_metadata, background_prompt_text,
    choose_open_idb_background,
    choose_script, close_denied_reply, close_hint_for, foreground_timeout_secs,
    input_size_above_threshold, is_database_path, open_idb_call, open_idb_elicitation_timeout_secs, path_to_check,
    plan_analyze_funcs, plan_open_idb, plan_script_time, route_open, validate_path,
    wants_analysis_task, AnalyzePlan,
    CloseTokenGrant, Elicited, Grant, OpenIdbRequest, ScriptSourceOf, ServerMode,
    OPEN_IDB_AUTO_BACKGROUND_THRESHOLD_BYTES, OPEN_IDB_ELICITATION_TIMEOUT_SECS,
};
use ida_cli::tasks::{
    analysis_task_order, dsc_task_order, task_owner,
    cancel_task, check_log_path, close_token_session, dsc_add_dylib_module,
    dsc_add_region_address, dsc_failure_text, dsc_open_request, dsc_script_result,
    dsc_started_reply, dsc_timeout, enqueue_task, get_task_result, open_dsc, plan_open_dsc,
    run_dsc_background, task_payload_result_value, task_status_reply, unknown_task, DscActionOf,
    DscFacts, DscFailureOf, DscStepOf, TaskStatus,
};
use rmcp::model::CallToolResult;

fn some(s: &str) -> Option<String> {
    Some(s.to_string())
}

fn object(fields: Vec<(&str, Json)>) -> Json {
    let mut o = JsonObject::new();
    for (k, v) in fields {
        o.put(k, v);
    }
    Json::Object(o)
}

fn to_json(v: &serde_json::Value) -> Json {
    match v {
        serde_json::Value::Null => Json::Null,
        serde_json::Value::Bool(b) => Json::Bool(*b),
        serde_json::Value::Number(n) => match (n.as_u64(), n.as_i64()) {
            (Some(u), _) => Json::number(u),
            (None, Some(i)) => Json::signed(i),
            _ => Json::Number(Num::Float(n.to_string())),
        },
        serde_json::Value::String(s) => Json::text(s),
        serde_json::Value::Array(a) => Json::Array(a.iter().map(to_json).collect()),
        serde_json::Value::Object(o) => {
            let mut out = JsonObject::new();
            for (k, v) in o {
                out.put(k, to_json(v));
            }
            Json::Object(out)
        }
    }
}

fn to_value(v: &Json) -> serde_json::Value {
    match v {
        Json::Null => serde_json::Value::Null,
        Json::Bool(b) => serde_json::Value::Bool(*b),
        Json::Number(Num::Unsigned(n)) => serde_json::Value::from(*n),
        Json::Number(Num::Negative(n)) => serde_json::Value::from(*n),
        Json::Number(Num::Float(t)) => serde_json::from_str(t).unwrap(),
        Json::Str(s) => serde_json::Value::from(s.as_str()),
        Json::Array(a) => serde_json::Value::Array(a.iter().map(to_value).collect()),
        Json::Object(o) => serde_json::Value::Object(
            o.entries.iter().map(|e| (e.0.clone(), to_value(&e.1))).collect(),
        ),
    }
}

fn parse(text: &str) -> Json {
    to_json(&serde_json::from_str(text).unwrap())
}

fn entries(v: &Json) -> &JsonObject {
    match v {
        Json::Object(o) => o,
        other => panic!("no object: {other:?}"),
    }
}

fn contains_schema_key(v: &Json) -> bool {
    match v {
        Json::Object(o) => {
            o.has("$schema") || o.entries.iter().any(|e| contains_schema_key(&e.1))
        }
        Json::Array(a) => a.iter().any(contains_schema_key),
        _ => false,
    }
}

fn contains_nullable_any_of(v: &Json) -> bool {
    match v {
        Json::Object(o) => {
            let here = match o.get("anyOf") {
                Some(Json::Array(branches)) => branches
                    .iter()
                    .any(|b| b.str_field("type").map(|s| s.as_str()) == Some("null")),
                _ => false,
            };
            here || o.entries.iter().any(|e| contains_nullable_any_of(&e.1))
        }
        Json::Array(a) => a.iter().any(contains_nullable_any_of),
        _ => false,
    }
}

#[test]
fn run_script_succeeded_only_for_explicit_true() {
    assert!(run_script_succeeded(&object(vec![("success", Json::Bool(true))])));
    assert!(!run_script_succeeded(&object(vec![("success", Json::Bool(false))])));
    assert!(!run_script_succeeded(&object(vec![])));
}

#[test]
fn run_script_failure_message_adds_syntax_hint() {
    let value = object(vec![
        ("success", Json::Bool(false)),
        ("stdout", Json::text("")),
        (
            "stderr",
            Json::text("Traceback (most recent call last):\n  File \"<string>\", line 1\nSyntaxError: invalid syntax"),
        ),
        ("error", Json::text("invalid syntax")),
    ]);
    let message = run_script_failure_message(&value);
    assert!(message.contains("IDAPython script execution failed"));
    assert!(message.contains("SyntaxError"));
    assert!(message.contains("Hint: Python syntax error detected"));
}

#[test]
fn run_script_timeout_message_includes_preview() {
    let code = "import idaapi\nfor _ in range(1000000000):\n    pass\n";
    let message = run_script_timeout_message(120, code);
    assert!(message.contains("run_script timed out after 120 seconds"));
    assert!(message.contains("Script preview: import idaapi for _ in range(1000000000): pass"));
}

#[test]
fn run_script_truncate_chars_appends_ellipsis() {
    assert_eq!(run_script_truncate_chars("abcdef", 3), "abc...");
    assert_eq!(run_script_truncate_chars("abc", 10), "abc");
}

#[test]
fn script_output_is_cut_by_lines() {
    assert_eq!(run_script_last_non_empty_line("a\n b \n\n"), some("b"));
    assert_eq!(run_script_last_non_empty_line(" \n"), None);
    assert_eq!(run_script_tail_lines("a\nb\nc", 2), "b\nc");
    assert_eq!(run_script_tail_lines("a", 2), "a");
    assert!(run_script_error_hint("NameError: name 'x' is not defined").is_some());
    assert!(run_script_error_hint("all well").is_none());
    assert_eq!(dsc_analysis_next_steps(Some(true), "go"), vec!["go".to_string()]);
    assert!(dsc_analysis_next_steps(Some(false), "go").len() > 0);
}

#[test]
fn operation_timeout_message_includes_phase_snapshot() {
    let snapshot = OperationSnapshot {
        op_id: "fg-1".to_string(),
        tool: "open_idb".to_string(),
        target_summary: "/tmp/sample.i64".to_string(),
        phase: "opening".to_string(),
        status: OperationStatus::TimedOut,
        message: "open_idb timed out".to_string(),
        started_at_ms: 1,
        last_update_ms: 2,
        elapsed_ms: 3456,
    };
    let message = operation_timeout_message("open_idb", 300, &snapshot, &some("detail"));
    assert!(message.contains("Last known phase: opening"));
    assert!(message.contains("Operation id: fg-1"));
    assert!(message.contains("detail"));
    assert!(operation_cancelled_message("open_idb", &snapshot).contains("fg-1"));
}

#[test]
fn an_operation_ends_as_it_is_recorded() {
    assert!(run_foreground_operation("fg-1", "open_idb", WaitEndOf::Succeeded, None, &None).is_none());
    match run_foreground_operation("fg-1", "open_idb", WaitEndOf::TimedOut(5), None, &None) {
        Some(ToolErrorOf::TimeoutDetailed(m)) => assert!(m.contains("after 5 seconds"), "{m}"),
        other => panic!("{other:?}"),
    }
    match run_foreground_operation("fg-1", "open_idb", WaitEndOf::Cancelled, None, &None) {
        Some(ToolErrorOf::Cancelled(_)) => {}
        other => panic!("{other:?}"),
    }
    match run_foreground_operation(
        "fg-1",
        "open_idb",
        WaitEndOf::Failed((ToolErrorOf::WorkerClosed, "closed".to_string())),
        None,
        &None,
    ) {
        Some(ToolErrorOf::WorkerClosed) => {}
        other => panic!("{other:?}"),
    }
    assert_eq!(conclude("open_idb", &WaitEndOf::Succeeded).status, OperationStatus::Completed);
    assert_eq!(conclude("open_idb", &WaitEndOf::TimedOut(5)).status, OperationStatus::TimedOut);
    assert!(must_clean_up(&WaitEndOf::Cancelled));
    assert!(!must_clean_up(&WaitEndOf::Succeeded));
    let snap = fallback_operation_snapshot(
        "fg-1",
        "open_idb",
        "failed",
        OperationStatus::Failed,
        "m".to_string(),
    );
    assert_eq!((snap.phase.as_str(), snap.elapsed_ms), ("failed", 0));
    assert_eq!(operation_timeout(None, 120), 120);
    assert_eq!(operation_timeout(Some(9999), 120), 600);
}

#[test]
fn input_size_above_threshold_is_strictly_greater_than_threshold() {
    let threshold = OPEN_IDB_AUTO_BACKGROUND_THRESHOLD_BYTES;
    assert_eq!(input_size_above_threshold(true, threshold), None);
    assert_eq!(input_size_above_threshold(true, threshold + 1), Some(threshold + 1));
    assert_eq!(input_size_above_threshold(false, threshold + 1), None);
}

#[test]
fn is_database_path_matches_existing_ida_database_extensions() {
    let home = None;
    assert!(is_database_path(" /tmp/sample.I64 ", &home));
    assert!(is_database_path("/tmp/sample.idb", &home));
    assert!(is_database_path("/tmp/sample.id0", &home));
    assert!(!is_database_path("/tmp/sample.macho", &home));
    assert!(!is_database_path("/tmp/sample", &home));
}

#[test]
fn open_idb_elicitation_timeout_is_bounded_by_prompt_and_request_timeouts() {
    assert_eq!(open_idb_elicitation_timeout_secs(None), OPEN_IDB_ELICITATION_TIMEOUT_SECS);
    assert_eq!(open_idb_elicitation_timeout_secs(Some(10)), 10);
    assert_eq!(open_idb_elicitation_timeout_secs(Some(600)), OPEN_IDB_ELICITATION_TIMEOUT_SECS);
}

#[test]
fn paths_are_checked() {
    let home = some("/home/u");
    assert_eq!(path_to_check(" ~/a ", &home), some("/home/u/a"));
    assert_eq!(path_to_check("~/a", &None), None);
    assert!(validate_path("/x/a", &home, true));
    assert!(!validate_path("/x/a", &home, false));
    assert!(!validate_path("/x/../a", &home, true));
    assert!(!validate_path("~/a", &None, true));
}

#[test]
fn opening_is_planned() {
    let req = OpenIdbRequest {
        path: " /x/a.so ".to_string(),
        load_debug_info: None,
        debug_info_path: None,
        debug_info_verbose: None,
        force: None,
        rebuild: Some(true),
        file_type: None,
        auto_analyse: None,
        timeout_secs: Some(9999),
        worker_extra_args: vec![],
    };
    let plan = plan_open_idb(&req, true, ServerMode::Stdio, false, &None).unwrap();
    assert!(plan.rebuild);
    assert!(!plan.force);
    assert_eq!(plan.open_secs, 600);
    assert!(plan_open_idb(&req, false, ServerMode::Stdio, false, &None).is_err());
    assert_eq!(foreground_timeout_secs(true, Some(120), 300), Some(130));
    assert!(choose_open_idb_background(Elicited::Answered { background: Some(true) }));
    assert!(!choose_open_idb_background(Elicited::Answered { background: Some(false) }));
    assert!(!choose_open_idb_background(Elicited::RequestCancelled));
    assert!(background_prompt_text("/x/a.so", 3 << 30).contains("/x/a.so"));
}

#[test]
fn a_large_input_is_analysed_in_the_background() {
    let mut req = OpenIdbRequest {
        path: "/x/a.so".to_string(),
        load_debug_info: None,
        debug_info_path: None,
        debug_info_verbose: None,
        force: None,
        rebuild: None,
        file_type: None,
        auto_analyse: Some(true),
        timeout_secs: None,
        worker_extra_args: vec![],
    };
    let plan = plan_open_idb(&req, true, ServerMode::Stdio, false, &None).unwrap();
    assert!(plan.size_matters);
    let route = route_open(&plan, true, Elicited::NotSupported);
    assert!(route.background && !route.auto_analyse);
    assert!(wants_analysis_task(route, false));
    assert!(!wants_analysis_task(route, true));
    let asked = open_idb_call(
        plan_open_idb(&req, true, ServerMode::Stdio, false, &None).unwrap(),
        route,
    );
    assert_eq!(asked.path, "/x/a.so");
    assert!(!asked.auto_analyse);
    assert_eq!(asked.timeout_secs, Some(300));
    let route = route_open(&plan, true, Elicited::Declined);
    assert!(!route.background && route.auto_analyse);
    let route = route_open(&plan, false, Elicited::NotSupported);
    assert!(!route.background && route.auto_analyse);
    req.path = "/x/a.i64".to_string();
    let plan = plan_open_idb(&req, true, ServerMode::Stdio, false, &None).unwrap();
    assert!(!route_open(&plan, true, Elicited::NotSupported).background);
    assert_eq!(
        analysis_task(Ok("a-1".to_string())),
        ("a-1".to_string(), "started".to_string())
    );
    assert_eq!(
        analysis_task(Err("a-1".to_string())),
        ("a-1".to_string(), "already_running".to_string())
    );
}

#[test]
fn a_script_is_answered() {
    let good = parse(r#"{"success": true, "stdout": "1"}"#);
    assert_eq!(
        run_script_answer(&good).unwrap(),
        "{\n  \"stdout\": \"1\",\n  \"success\": true\n}"
    );
    let bad = parse(r#"{"success": false, "error": "boom"}"#);
    assert!(matches!(
        run_script_answer(&bad),
        Err(ToolErrorOf::IdaError(m)) if m == run_script_failure_message(&bad)
    ));
    match run_script_error("fg-1", "print(1)", WaitEndOf::TimedOut(5), None) {
        Some(ToolErrorOf::TimeoutDetailed(m)) => {
            assert!(m.ends_with(&run_script_timeout_message(5, "print(1)")), "{m}")
        }
        other => panic!("{other:?}"),
    }
    assert!(run_script_error("fg-1", "print(1)", WaitEndOf::Succeeded, None).is_none());
}

#[test]
fn a_shared_cache_is_opened_step_by_step() {
    let facts = || DscFacts {
        out_exists: false,
        idat: None,
        written: None,
        log_path: None,
        created: None,
    };
    let mut f = facts();
    f.out_exists = true;
    assert!(matches!(open_dsc(f), DscActionOf::OpenExisting));
    assert!(matches!(open_dsc(facts()), DscActionOf::FindIdat));
    let mut f = facts();
    f.idat = Some(Err(ToolErrorOf::WorkerClosed));
    assert!(matches!(open_dsc(f), DscActionOf::Refuse(ToolErrorOf::WorkerClosed)));
    let found = || DscFacts { idat: Some(Ok(())), ..facts() };
    assert!(matches!(open_dsc(found()), DscActionOf::WriteScript));
    let mut f = found();
    f.written = Some(Err("full".to_string()));
    assert!(matches!(
        open_dsc(f),
        DscActionOf::Refuse(ToolErrorOf::InvalidParams(m)) if m == "Failed to write DSC load script: full"
    ));
    let written = || DscFacts { written: Some(Ok(())), ..found() };
    let mut f = written();
    f.log_path = some("/x/../l");
    assert!(matches!(open_dsc(f), DscActionOf::Refuse(ToolErrorOf::InvalidParams(_))));
    assert!(matches!(open_dsc(written()), DscActionOf::CreateTask));
    let mut f = written();
    f.created = Some(Ok("dsc-1".to_string()));
    assert!(matches!(open_dsc(f), DscActionOf::Start(id) if id == "dsc-1"));
    let mut f = written();
    f.created = Some(Err("dsc-0".to_string()));
    assert!(matches!(open_dsc(f), DscActionOf::Running(id) if id == "dsc-0"));
}

#[test]
fn the_script_of_a_shared_cache_is_answered() {
    let good = parse(r#"{"success": true, "stdout": "done"}"#);
    assert_eq!(dsc_script_result(Ok(good), 30, "s").unwrap(), "done");
    assert!(matches!(
        dsc_script_result(Err(ToolErrorOf::Timeout(7)), 30, "s"),
        Err(ToolErrorOf::IdaError(m)) if m == run_script_timeout_message(7, "s")
    ));
    assert!(matches!(
        dsc_script_result(Err(ToolErrorOf::TimeoutDetailed("x".to_string())), 30, "s"),
        Err(ToolErrorOf::IdaError(m)) if m == run_script_timeout_message(30, "s")
    ));
    assert!(matches!(
        dsc_script_result(Err(ToolErrorOf::WorkerClosed), 30, "s"),
        Err(ToolErrorOf::WorkerClosed)
    ));
}

#[test]
fn analysis_and_scripts_are_planned() {
    assert_eq!(
        plan_analyze_funcs(ServerMode::Worker, true, None, None, false).unwrap(),
        AnalyzePlan::Unbounded
    );
    assert_eq!(
        plan_analyze_funcs(ServerMode::Http, true, Some(true), None, false).unwrap(),
        AnalyzePlan::Background
    );
    assert!(plan_analyze_funcs(ServerMode::Http, false, None, Some(-1), false).is_err());
    let started = analyze_funcs_background(true, "task-1");
    assert_eq!(started.str_field("task_id").map(|s| s.as_str()), Some("task-1"));
    assert!(matches!(
        choose_script(some("print(1)"), None, false),
        Ok(ScriptSourceOf::Code(c)) if c == "print(1)"
    ));
    assert!(matches!(
        choose_script(None, some("/x/a.py"), true),
        Ok(ScriptSourceOf::File(f)) if f == "/x/a.py"
    ));
    assert!(choose_script(None, None, true).is_err());
    assert!(choose_script(some("a"), some("b"), true).is_err());
    assert_eq!(plan_script_time(Some(30), true).unwrap(), (30, Some(40)));
}

#[test]
fn normalizer_collapses_nullable_any_of_and_preserves_constraints() {
    let schema = parse(
        r#"{
            "$schema": "https://json-schema.org/draft/2020-12/schema",
            "type": "object",
            "properties": {
                "timeout_secs": {
                    "$schema": "https://json-schema.org/draft/2020-12/schema",
                    "description": "Timeout in seconds",
                    "anyOf": [
                        { "type": "integer", "format": "int64", "minimum": 0, "maximum": 600 },
                        { "type": "null" }
                    ],
                    "default": null
                },
                "query": {
                    "type": ["string", "null"],
                    "description": "Optional query"
                }
            }
        }"#,
    );
    let schema = normalize_schema_value(&schema);

    assert!(!contains_schema_key(&schema));
    assert!(!contains_nullable_any_of(&schema));

    let timeout = entries(schema.get("properties").unwrap().get("timeout_secs").unwrap());
    assert_eq!(timeout.get("type"), Some(&Json::text("integer")));
    assert_eq!(timeout.get("format"), Some(&Json::text("int64")));
    assert_eq!(timeout.get("minimum"), Some(&Json::number(0)));
    assert_eq!(timeout.get("maximum"), Some(&Json::number(600)));
    assert_eq!(timeout.get("description"), Some(&Json::text("Timeout in seconds")));
    assert!(!timeout.has("anyOf"));
    assert!(!timeout.has("default"));

    let query = schema.get("properties").unwrap().get("query").unwrap();
    assert_eq!(query.get("type"), Some(&Json::text("string")));
}

#[test]
fn normalizer_preserves_standard_formats() {
    let schema = normalize_schema_value(&parse(
        r#"{ "type": "integer", "format": "int64", "minimum": 0 }"#,
    ));
    assert_eq!(schema.get("format"), Some(&Json::text("int64")));
    let schema = normalize_schema_value(&parse(r#"{ "type": "string", "format": "date-time" }"#));
    assert_eq!(schema.get("format"), Some(&Json::text("date-time")));
    let schema = normalize_schema_value(&parse(r#"{ "type": "number", "format": "double" }"#));
    assert_eq!(schema.get("format"), Some(&Json::text("double")));
}

#[test]
fn task_payload_preserves_valid_call_tool_result() {
    let result = CallToolResult::success(vec![rmcp::model::Content::text("ok")]);
    let as_value = serde_json::to_value(&result).expect("serialize CallToolResult");
    let payload = task_payload_result_value(Some(to_json(&as_value)));
    assert_eq!(to_value(&payload), as_value);
}

#[test]
fn task_payload_wraps_content_array_shape_that_is_not_call_tool_result() {
    let input = parse(r#"{ "content": [1, 2, 3] }"#);
    let wrapped = task_payload_result_value(Some(input.copy()));
    assert_ne!(wrapped, input);

    let parsed: CallToolResult =
        serde_json::from_value(to_value(&wrapped)).expect("wrapped payload should be CallToolResult");
    assert_eq!(parsed.is_error, Some(false));
    let wrapped_text = parsed
        .content
        .first()
        .and_then(|c| c.as_text())
        .map(|t| t.text.as_str())
        .unwrap_or_default();
    assert!(wrapped_text.contains("\"content\""));
}

#[test]
fn a_text_as_a_tool_result_is_what_the_protocol_writes() {
    let result = CallToolResult::success(vec![rmcp::model::Content::text("null")]);
    let as_value = serde_json::to_value(&result).unwrap();
    assert_eq!(to_value(&task_payload_result_value(None)), as_value);
}

#[test]
fn tasks_are_told_apart() {
    assert_eq!(enqueue_task(&some("{\"task_id\": \"dsc-1\"}")), some("dsc-1"));
    assert_eq!(enqueue_task(&some("{\"task_id\": 5}")), None);
    assert_eq!(enqueue_task(&some("plain")), None);
    assert_eq!(enqueue_task(&None), None);
    assert_eq!(cancel_task(true, true, "a"), None);
    assert_eq!(cancel_task(false, true, "a"), some("Task not found or not running"));
    assert_eq!(cancel_task(true, false, "a"), some("Task a disappeared after cancellation"));
    assert_eq!(get_task_result(Some(TaskStatus::Completed), "m"), None);
    assert_eq!(get_task_result(Some(TaskStatus::Failed), "m"), some("m"));
    assert_eq!(get_task_result(Some(TaskStatus::Cancelled), "m"), some("Task was cancelled"));
    assert_eq!(
        get_task_result(Some(TaskStatus::Running), "m"),
        some("Task is still running; poll tasks/get first")
    );
    assert_eq!(get_task_result(None, "m"), some("Unknown task_id"));
    let reply = task_status_reply("a", TaskStatus::Running, "m", 7, None);
    assert_eq!(reply.str_field("task_id").map(|s| s.as_str()), Some("a"));
    assert_eq!(reply.str_field("status").map(|s| s.as_str()), Some("running"));
    assert!(matches!(unknown_task("a"), ToolErrorOf::InvalidParams(_)));
}

#[test]
fn shared_caches_are_planned() {
    assert!(plan_open_dsc("/x/cache", None, false).is_err());
    assert!(plan_open_dsc("/x/cache", Some(9), true).is_ok());
    assert!(check_log_path(&None).is_none());
    let started = dsc_started_reply(true, "dsc-1");
    assert_eq!(started.str_field("task_id").map(|s| s.as_str()), Some("dsc-1"));
    assert!(matches!(
        run_dsc_background(false, 0, true, "", &None),
        DscStepOf::Open
    ));
    assert!(matches!(
        run_dsc_background(false, 1, false, "bad", &None),
        DscStepOf::Fail(m) if m.contains("bad")
    ));
    assert!(dsc_add_dylib_module("  ").is_err());
    assert_eq!(
        dsc_add_dylib_module(" /usr/lib/libobjc.A.dylib ").unwrap(),
        "/usr/lib/libobjc.A.dylib"
    );
    assert_eq!(dsc_add_region_address(&Json::text("0x1000")).unwrap(), 4096);
    assert!(dsc_add_region_address(&Json::text("zz")).is_err());
    assert!(dsc_timeout(Some(-1)).is_err());
    assert_eq!(dsc_timeout(Some(30)).unwrap(), 30);
}

fn metadata_map(grant: Grant) -> JsonObject {
    let mut map = JsonObject::new();
    apply_close_metadata(&mut map, &grant, close_hint_for(ServerMode::Http, false));
    map
}

fn text<'a>(map: &'a JsonObject, key: &str) -> Option<&'a str> {
    map.get(key).and_then(|v| v.as_str()).map(|s| s.as_str())
}

#[test]
fn close_metadata_grant_emits_token_owner_and_hint() {
    let map = metadata_map(Some(Ok(CloseTokenGrant {
        token: "tok-1".to_string(),
        reused: false,
        owner_session_id: "session-a".to_string(),
    })));
    assert_eq!(text(&map, "close_token"), Some("tok-1"));
    assert_eq!(text(&map, "close_owner_session_id"), Some("session-a"));
    assert!(map.has("close_hint"));
    assert!(!map.has("close_token_reused"));
    assert!(!map.has("close_recovery_hint"));
}

#[test]
fn close_metadata_marks_reused_grant() {
    let map = metadata_map(Some(Ok(CloseTokenGrant {
        token: "tok-2".to_string(),
        reused: true,
        owner_session_id: "session-a".to_string(),
    })));
    assert_eq!(map.get("close_token_reused").and_then(|v| v.as_bool()), Some(true));
}

#[test]
fn close_metadata_denial_emits_owner_recovery_hint_and_no_token() {
    let map = metadata_map(Some(Err("session-original".to_string())));
    assert!(!map.has("close_token"));
    assert_eq!(text(&map, "close_owner_session_id"), Some("session-original"));
    assert!(text(&map, "close_recovery_hint").unwrap_or_default().contains("force=true"));
    assert!(text(&map, "close_hint").unwrap_or_default().contains("session-original"));
}

#[test]
fn close_metadata_none_emits_only_hint() {
    let map = metadata_map(None);
    assert!(map.has("close_hint"));
    assert!(!map.has("close_token"));
    assert!(!map.has("close_owner_session_id"));
    assert!(!map.has("close_recovery_hint"));
    let denied = close_denied_reply(&some("session-a"));
    assert!(to_value(&denied).to_string().contains("session-a"));
}

fn job(mode: ServerMode, owner: Option<String>) -> DscJob {
    DscJob {
        out_i64: "/x/cache.i64".to_string(),
        module: "/usr/lib/libobjc.A.dylib".to_string(),
        frameworks: vec!["Foundation".to_string()],
        owner,
        mode,
        pooled: false,
    }
}

fn play(job: &DscJob, events: Vec<DscEvent>) -> (DscStage, DscDo) {
    let mut stage = DscStageOf::Starting;
    let mut action = DscDoOf::Nothing;
    for event in events {
        let next = dsc_step(job, stage, event);
        stage = next.0;
        action = next.1;
    }
    (stage, action)
}

fn ran(exit_code: Option<i32>, out_exists: bool) -> DscEvent {
    DscEventOf::Ran { exit_code, out_exists, stderr: "bad".to_string(), log: None }
}

fn opened() -> DscEvent {
    let mut info = JsonObject::new();
    info.put("path", Json::text("/x/cache.i64"));
    DscEventOf::Opened { info }
}

#[test]
fn the_database_of_a_shared_cache_is_opened_plainly() {
    let req = dsc_open_request("/x/cache.i64");
    assert_eq!(req.path, "/x/cache.i64");
    assert!(req.auto_analyse);
    assert!(!req.load_debug_info && !req.debug_info_verbose && !req.force && !req.rebuild);
    assert!(req.debug_info_path.is_none() && req.file_type.is_none() && req.idb_out.is_none());
    assert!(req.extra_args.is_empty());
    let owner = some("session-a");
    assert_eq!(close_token_session(ServerMode::Http, &owner), owner);
    assert_eq!(close_token_session(ServerMode::Http, &None), None);
    assert_eq!(close_token_session(ServerMode::Stdio, &owner), None);
    assert_eq!(close_token_session(ServerMode::Worker, &owner), None);
    assert_eq!(
        dsc_failure_text(DscFailureOf::Panicked { cause: "boom".to_string() }),
        "idat task panicked: boom"
    );
    assert_eq!(dsc_failure_text(DscFailureOf::NotOpened { error: "no".to_string() }), "no");
}

#[test]
fn a_shared_cache_is_made_and_opened_in_the_background() {
    let http = job(ServerMode::Http, some("session-a"));
    let (stage, action) = play(&http, vec![DscEventOf::Begun]);
    assert!(needs_script(&stage));
    assert!(matches!(
        action,
        DscDoOf::Make { message, module }
            if message == "Running idat to create .i64..." && module == "/usr/lib/libobjc.A.dylib"
    ));
    let (stage, action) = play(&http, vec![DscEventOf::Begun, ran(Some(0), true)]);
    assert!(!needs_script(&stage));
    match action {
        DscDoOf::Open { message, request } => {
            assert_eq!(message, "Opening database with idalib...");
            assert_eq!(request.path, "/x/cache.i64");
        }
        other => panic!("{other:?}"),
    }
    let (_, action) = play(&http, vec![DscEventOf::Begun, ran(Some(0), true), opened()]);
    assert!(matches!(action, DscDoOf::IssueToken { session } if session == "session-a"));
    let grant = Some(Ok(CloseTokenGrant {
        token: "tok-1".to_string(),
        reused: false,
        owner_session_id: "session-a".to_string(),
    }));
    let (stage, action) = play(
        &http,
        vec![DscEventOf::Begun, ran(Some(0), true), opened(), DscEventOf::Token { grant }],
    );
    assert!(matches!(stage, DscStageOf::Ended));
    match action {
        DscDoOf::Complete { result } => {
            assert_eq!(text(&result, "close_token"), Some("tok-1"));
            assert_eq!(text(&result, "module"), Some("/usr/lib/libobjc.A.dylib"));
            assert!(result.has("frameworks_loaded"));
            assert_eq!(text(&result, "path"), Some("/x/cache.i64"));
        }
        other => panic!("{other:?}"),
    }
    let stdio = job(ServerMode::Stdio, None);
    let (_, action) = play(&stdio, vec![DscEventOf::Begun, ran(Some(0), true), opened()]);
    match action {
        DscDoOf::Complete { result } => {
            assert!(!result.has("close_token"));
            assert_eq!(text(&result, "close_hint"), Some(close_hint_for(ServerMode::Stdio, false)));
        }
        other => panic!("{other:?}"),
    }
}

#[test]
fn a_shared_cache_that_cannot_be_made_fails_its_task() {
    let job = job(ServerMode::Http, some("session-a"));
    let message = |events: Vec<DscEvent>| match play(&job, events) {
        (DscStageOf::Ended, DscDoOf::Fail { message }) => message,
        other => panic!("{other:?}"),
    };
    assert_eq!(
        message(vec![DscEventOf::Begun, ran(Some(3), true)]),
        "idat exited with code 3.\nstderr: bad"
    );
    assert_eq!(
        message(vec![DscEventOf::Begun, ran(None, true)]),
        "idat exited with code -1.\nstderr: bad"
    );
    assert_eq!(
        message(vec![DscEventOf::Begun, ran(Some(0), false)]),
        "idat exited with code 0.\nstderr: bad"
    );
    assert_eq!(
        message(vec![
            DscEventOf::Begun,
            DscEventOf::NotStarted { cause: "gone".to_string(), out_exists: false, log: None },
        ]),
        "idat exited with code -1.\nstderr: Failed to spawn idat: gone"
    );
    assert_eq!(
        message(vec![DscEventOf::Begun, DscEventOf::Panicked { cause: "boom".to_string() }]),
        "idat task panicked: boom"
    );
    assert_eq!(
        message(vec![
            DscEventOf::Begun,
            ran(Some(0), true),
            DscEventOf::NotOpened { error: "locked".to_string() },
        ]),
        "locked"
    );
    for events in [
        vec![DscEventOf::Cancelled],
        vec![DscEventOf::Begun, DscEventOf::Cancelled],
    ] {
        assert!(matches!(
            play(&job, events),
            (DscStageOf::Ended, DscDoOf::Cancel { message }) if message == "Cancelled by session shutdown"
        ));
    }
    let (stage, action) = play(&job, vec![DscEventOf::Cancelled, DscEventOf::Begun]);
    assert!(matches!(stage, DscStageOf::Ended));
    assert!(matches!(action, DscDoOf::Nothing));
}

#[test]
fn what_comes_first_ends_a_wait() {
    assert!(matches!(wait_end(Some(None), true, true, 5), Some(WaitEndOf::Succeeded)));
    let failed = Some(Some((ToolErrorOf::WorkerClosed, "closed".to_string())));
    assert!(matches!(
        wait_end(failed, true, true, 5),
        Some(WaitEndOf::Failed((ToolErrorOf::WorkerClosed, _)))
    ));
    assert!(matches!(wait_end(None, true, true, 5), Some(WaitEndOf::Cancelled)));
    assert!(matches!(wait_end(None, false, true, 5), Some(WaitEndOf::TimedOut(5))));
    assert!(wait_end(None, false, false, 5).is_none());
    assert_eq!(script_summary("é1"), "code_len=3");
}

#[test]
fn tasks_are_asked_for() {
    let order = dsc_task_order("/x/cache.i64");
    assert_eq!((order.prefix.as_str(), order.key.as_str()), ("dsc", "/x/cache.i64"));
    assert_eq!(order.message, "Running idat to create .i64 from DSC...");
    let order = analysis_task_order();
    assert_eq!((order.prefix.as_str(), order.key.as_str()), ("analyze", "analyze_funcs"));
    assert_eq!(order.message, "Waiting for IDA auto-analysis to finish");
    assert_eq!(task_owner(ServerMode::Http, "s"), some("s"));
    assert_eq!(task_owner(ServerMode::Stdio, "s"), None);
    assert!(matches!(
        analyze_funcs_call(AnalyzePlan::Foreground { secs: 9, wait_secs: None }),
        Some(WorkerCallOf::AnalyzeFuncsObserved { timeout_secs: Some(9) })
    ));
    assert!(matches!(
        analyze_funcs_call(AnalyzePlan::Unbounded),
        Some(WorkerCallOf::AnalyzeFuncsUnbounded)
    ));
    assert!(analyze_funcs_call(AnalyzePlan::Background).is_none());
}
