use ida_cli::calls::WorkerCallOf;
use ida_cli::catalog::{
    call_refusal, choose_catalog, get_tool, instructions, is_task_capable, list_tools,
    read_catalog_limit, tool_annotations_for, tool_catalog, tool_help, CatalogQuery, ToolDef,
    ToolDoc, ToolEntry, ToolGroup,
};
use ida_cli::errors::ToolErrorOf;
use ida_cli::json::{Json, JsonObject};
use ida_cli::tools::{
    get_int_values, int_convert, list_conversions, list_results, list_searches, plan_disasm,
    plan_export_funcs, plan_find_bytes, plan_get_bytes, plan_list_functions, plan_rename, search,
    DisasmRequest, ExportFuncsRequest, FindBytesRequest, GetBytesRequest, ListFunctionsRequest,
    Listed, PlanOf, RenameRequest, SearchRequest,
};

fn some(s: &str) -> Option<String> {
    Some(s.to_string())
}

fn object(fields: Vec<(&str, Json)>) -> Json {
    let mut o = JsonObject::new();
    for (k, v) in fields {
        o.put(k, v);
    }
    Json::Object(o)
}

fn search_request(targets: Json, kind: Option<&str>) -> SearchRequest {
    SearchRequest {
        targets,
        kind: kind.map(|k| k.to_string()),
        limit: None,
        offset: None,
        timeout_secs: None,
        worker_max_results: None,
    }
}

#[test]
fn lists_are_limited() {
    let plan = plan_list_functions(&ListFunctionsRequest {
        offset: None,
        limit: Some(1_000_000),
        filter: some("x"),
        timeout_secs: None,
    })
    .unwrap();
    match plan {
        PlanOf::One(WorkerCallOf::ListFunctions { offset: 0, limit: 10000, filter, .. }) => {
            assert_eq!(filter, some("x"))
        }
        other => panic!("{other:?}"),
    }
    assert!(plan_list_functions(&ListFunctionsRequest {
        offset: Some(-1),
        limit: None,
        filter: None,
        timeout_secs: None,
    })
    .is_err());
}

#[test]
fn one_address_is_one_call() {
    match plan_disasm(&DisasmRequest { address: Json::text("0x10"), count: Some(3) }).unwrap() {
        PlanOf::One(WorkerCallOf::Disasm { addr: 16, count: 3 }) => {}
        other => panic!("{other:?}"),
    }
    match plan_disasm(&DisasmRequest { address: Json::text("0x10, 32"), count: None }).unwrap() {
        PlanOf::Many { label, calls, .. } => {
            assert_eq!(label, "address");
            assert_eq!(calls.len(), 2);
        }
        other => panic!("{other:?}"),
    }
    match get_int_values(&Json::number(8), 4).unwrap() {
        PlanOf::Many { calls, .. } => assert_eq!(calls.len(), 1),
        PlanOf::One(WorkerCallOf::ReadInt { addr: 8, size: 4 }) => {}
        other => panic!("{other:?}"),
    }
    assert!(plan_get_bytes(&GetBytesRequest {
        address: None,
        target_name: None,
        offset: None,
        size: Some(-4),
    })
    .is_err());
    match plan_rename(&RenameRequest {
        address: Some(Json::number(8)),
        current_name: None,
        name: "f".to_string(),
        flags: None,
    })
    .unwrap()
    {
        PlanOf::One(WorkerCallOf::Rename { addr: Some(8), .. }) => {}
        other => panic!("{other:?}"),
    }
}

#[test]
fn the_format_of_an_export_counts_in_any_case() {
    let req = |f: Option<&str>| ExportFuncsRequest {
        addrs: None,
        offset: None,
        limit: None,
        format: f.map(|s| s.to_string()),
    };
    assert!(plan_export_funcs(&req(Some("JSON"))).is_ok());
    assert!(plan_export_funcs(&req(None)).is_ok());
    assert!(plan_export_funcs(&req(Some("xml"))).is_err());
}

#[test]
fn the_kind_of_a_search_counts_in_any_case() {
    let plan = search(&search_request(Json::text("255, main"), Some("TEXT")), false).unwrap();
    assert_eq!(plan.names, vec!["255".to_string(), "main".to_string()]);
    assert!(matches!(
        &plan.calls[0],
        Ok(WorkerCallOf::SearchText { text, max_results: 100, .. }) if text == "255"
    ));
    let plan = search(&search_request(Json::text("255, main"), None), false).unwrap();
    assert!(matches!(&plan.calls[0], Ok(WorkerCallOf::SearchImm { imm: 255, .. })));
    assert!(matches!(&plan.calls[1], Ok(WorkerCallOf::SearchText { .. })));
    let plan = search(&search_request(Json::text("main"), Some("Imm")), false).unwrap();
    assert!(matches!(&plan.calls[0], Err(ToolErrorOf::InvalidAddress(m)) if m == "main"));
}

#[test]
fn a_pool_is_given_all_that_it_wants() {
    let req = FindBytesRequest {
        patterns: Json::Array(vec![Json::text("aa,bb")]),
        limit: Some(10000),
        offset: Some(0),
        timeout_secs: Some(30),
        worker_max_results: Some(15000),
    };
    let plan = plan_find_bytes(&req, true).unwrap();
    assert_eq!(plan.names, vec!["aa,bb".to_string()]);
    assert!(matches!(
        &plan.calls[0],
        Ok(WorkerCallOf::FindBytes { pattern, max_results: 15000, timeout_secs: Some(30) }) if pattern == "aa,bb"
    ));
    let plan = plan_find_bytes(&req, false).unwrap();
    assert!(matches!(&plan.calls[0], Ok(WorkerCallOf::FindBytes { max_results: 10000, .. })));
}

#[test]
fn searches_are_answered_in_pages() {
    let plan = search(
        &SearchRequest {
            targets: Json::text("x"),
            kind: None,
            limit: Some(2),
            offset: Some(1),
            timeout_secs: None,
            worker_max_results: None,
        },
        false,
    )
    .unwrap();
    let found = object(vec![(
        "matches",
        Json::Array((0..5).map(Json::number).collect()),
    )]);
    let items = vec![
        Listed { name: "x".to_string(), outcome: Ok(found) },
        Listed { name: "y".to_string(), outcome: Err("bad".to_string()) },
    ];
    let reply = list_searches("target", &items, &plan.limits);
    let results = reply.get("results").and_then(|v| v.as_array()).unwrap();
    assert_eq!(
        results[0],
        object(vec![
            ("target", Json::text("x")),
            ("matches", Json::Array(vec![Json::number(1), Json::number(2)])),
            ("total", Json::number(5)),
            ("next_offset", Json::number(3)),
        ])
    );
    assert_eq!(
        results[1],
        object(vec![("target", Json::text("y")), ("error", Json::text("bad"))])
    );
    let listed = list_results(
        "address",
        "disasm",
        vec![Listed { name: "0x10".to_string(), outcome: Ok(Json::text("nop")) }],
    );
    assert_eq!(
        listed,
        object(vec![(
            "results",
            Json::Array(vec![object(vec![
                ("address", Json::text("0x10")),
                ("disasm", Json::text("nop")),
            ])])
        )])
    );
}

#[test]
fn numbers_have_many_forms() {
    let items = int_convert(&Json::text("0x4142, zz")).unwrap();
    assert_eq!(items.len(), 2);
    assert_eq!(
        *items[0].1.as_ref().unwrap(),
        object(vec![
            ("input", Json::text("0x4142")),
            ("value", Json::number(0x4142)),
            ("dec", Json::text("16706")),
            ("hex", Json::text("0x4142")),
            ("bin", Json::text("0b100000101000010")),
            ("bytes_le", Json::text("4241")),
            ("bytes_be", Json::text("4142")),
            ("ascii", Json::text("BA")),
        ])
    );
    assert!(matches!(&items[1].1, Err(ToolErrorOf::InvalidAddress(m)) if m == "zz"));
    let reply = list_conversions(&vec![Listed {
        name: "zz".to_string(),
        outcome: Err("bad".to_string()),
    }]);
    assert_eq!(
        reply,
        object(vec![(
            "results",
            Json::Array(vec![object(vec![
                ("input", Json::text("zz")),
                ("error", Json::text("bad")),
            ])])
        )])
    );
    assert!(int_convert(&Json::Null).is_err());
}

fn entry(name: &str, enabled: bool) -> ToolEntry {
    ToolEntry {
        name: name.to_string(),
        description: format!("does {name}"),
        category: "core".to_string(),
        enabled,
        matched: vec!["word".to_string()],
    }
}

fn group() -> ToolGroup {
    ToolGroup {
        name: "core".to_string(),
        description: "the core".to_string(),
        tools: vec![entry("a", true), entry("b", false), entry("c", true)],
    }
}

fn names(reply: &Json) -> Vec<String> {
    reply
        .get("tools")
        .and_then(|v| v.as_array())
        .unwrap()
        .iter()
        .map(|t| t.str_field("name").unwrap().clone())
        .collect()
}

#[test]
fn the_catalog_lists_usable_tools() {
    assert_eq!(read_catalog_limit(None).unwrap(), 7);
    assert_eq!(read_catalog_limit(Some(99)).unwrap(), 15);
    assert!(read_catalog_limit(Some(-1)).is_err());
    let groups = vec![group()];
    let reply = tool_catalog(&CatalogQuery::Group(0), &groups, 1, true, 2);
    assert_eq!(names(&reply), vec!["a".to_string()]);
    assert_eq!(reply.get("filtering_active"), Some(&Json::Bool(true)));
    let q = choose_catalog(None, &some("find"), vec![entry("b", false), entry("c", true)]);
    let reply = tool_catalog(&q, &groups, 7, false, 2);
    assert_eq!(names(&reply), vec!["c".to_string()]);
    assert_eq!(reply.get("filtering_active"), None);
    let q = choose_catalog(None, &None, vec![]);
    let reply = tool_catalog(&q, &groups, 7, true, 2);
    let listed = reply.get("categories").and_then(|v| v.as_array()).unwrap();
    assert_eq!(listed[0].get("tool_count"), Some(&Json::number(2)));
    assert_eq!(reply.get("enabled_tool_count"), Some(&Json::number(2)));
    assert!(matches!(choose_catalog(Some(0), &some("q"), vec![]), CatalogQuery::Group(0)));
}

#[test]
fn tool_help_and_catalog_include_recent_operations() {
    let doc = Some(ToolDoc {
        name: "recent_operations".to_string(),
        category: "core".to_string(),
        description: "Inspect recent foreground operation history.".to_string(),
        example: "{}".to_string(),
        keywords: vec!["recent".to_string()],
        parameters: Some(object(vec![(
            "properties",
            object(vec![("limit", object(vec![]))]),
        )])),
    });
    let help = tool_help("recent_operations", &doc, false, true, &vec![]);
    assert_eq!(help.get("name"), Some(&Json::text("recent_operations")));
    assert!(help.get("parameters").unwrap().get("properties").unwrap().get("limit").is_some());
    let q = choose_catalog(
        None,
        &some("recent operation history"),
        vec![entry("recent_operations", true)],
    );
    let limit = read_catalog_limit(Some(5)).unwrap();
    let reply = tool_catalog(&q, &vec![], limit, false, 1);
    assert!(names(&reply).iter().any(|n| n == "recent_operations"));
    let disabled = tool_help("recent_operations", &doc, true, false, &vec![]);
    assert!(disabled.get("parameters").is_none());
    assert!(disabled.str_field("error").unwrap().contains("disabled by current filter"));
    let unknown = tool_help("nope", &None, true, false, &vec!["a".to_string()]);
    assert_eq!(unknown.get("error"), Some(&Json::text("Tool 'nope' not found")));
    assert_eq!(unknown.get("suggestions"), Some(&Json::Array(vec![Json::text("a")])));
}

#[test]
fn tools_say_what_they_do() {
    assert!(call_refusal("patch", true, false).unwrap().starts_with("tool 'patch' is disabled"));
    assert_eq!(call_refusal("patch", false, false), None);
    assert_eq!(call_refusal("patch", true, true), None);
    let a = tool_annotations_for("run_script");
    assert_eq!((a.read_only, a.destructive, a.open_world), (false, true, Some(true)));
    let a = tool_annotations_for("patch_asm");
    assert_eq!((a.read_only, a.destructive, a.open_world), (false, true, None));
    let a = tool_annotations_for("close_idb");
    assert_eq!((a.read_only, a.destructive, a.open_world), (false, true, Some(false)));
    let a = tool_annotations_for("rename");
    assert_eq!((a.read_only, a.destructive), (false, false));
    let a = tool_annotations_for("disasm");
    assert_eq!((a.read_only, a.idempotent), (true, Some(true)));
    assert!(is_task_capable("open_dsc"));
    assert!(!is_task_capable("open_idb"));
    assert!(instructions("HINT").contains("discover usage. \nHINT \n\nTool Categories:"));
}

#[test]
fn tools_are_offered_with_clean_schemas() {
    let def = |name: &str, enabled: bool| ToolDef {
        name: name.to_string(),
        input_schema: object(vec![
            ("$schema", Json::text("x")),
            ("type", Json::text("object")),
        ]),
        enabled,
    };
    let tools = vec![def("open_dsc", true), def("patch", false)];
    let offered = list_tools(&tools, true);
    assert_eq!(offered.len(), 1);
    assert_eq!(offered[0].name, "open_dsc");
    assert!(offered[0].task_support);
    assert!(!offered[0].annotations.read_only);
    assert_eq!(offered[0].input_schema, object(vec![("type", Json::text("object"))]));
    assert_eq!(list_tools(&tools, false).len(), 2);
    assert!(get_tool(&tools[1], true).is_none());
    assert!(get_tool(&tools[1], false).is_some());
}
