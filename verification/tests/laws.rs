use ida_cli::bytes::{hex_encode, parse_hex_bytes};
use ida_cli::calendar::civil_from_days;
use ida_cli::calls::{child_request, extract_first_matches, WorkerCallOf};
use ida_cli::cli::client_timeout;
use ida_cli::daemon::{worker_socket_path, CacheEnv, WORKER_OP_TIMEOUT_SECS};
use ida_cli::json::{Json, JsonObject};
use ida_cli::numbers::{decimal_text, digits_text, hex_text, parse_addr, parse_digits, read_any_radix};
use ida_cli::paths::{
    database_paths_match, file_name, idb_path_for_raw_binary, is_idb_path, join_path,
};
use ida_cli::protocol::Response;
use ida_cli::router::{
    database_identity, ensure_single_instance, read_registry, registry_text, registry_value,
};
use ida_cli::schema::normalize_schema_value;
use ida_cli::spill::{estimate_tokens, maybe_spill, spill_dir, SpillPlan, SpillTime};
use ida_cli::text::{join, split, trim};
use ida_cli::tools::{
    list_searches, plan_find_bytes, search, FindBytesRequest, Listed, SearchRequest,
};
use ida_cli::values::{value_to_addresses, value_to_bytes};

fn object(fields: Vec<(&str, Json)>) -> Json {
    let mut o = JsonObject::new();
    for (k, v) in fields {
        o.put(k, v);
    }
    Json::Object(o)
}

#[test]
fn what_is_written_reads_back() {
    for n in [0u64, 1, 9, 10, 255, 4096, 0xdead_beef, u64::MAX] {
        assert_eq!(parse_digits(&decimal_text(n), 10), Some(n));
        assert_eq!(parse_addr(&hex_text(n)), Ok(n));
        assert_eq!(parse_addr(&decimal_text(n)), Ok(n));
        assert_eq!(read_any_radix(&format!("0b{}", digits_text(n, 2))), Ok(n));
        assert_eq!(read_any_radix(&format!("0o{}", digits_text(n, 8))), Ok(n));
        assert_eq!(value_to_addresses(&Json::number(n)).unwrap(), vec![n]);
    }
    let bytes = vec![0u8, 1, 127, 128, 255];
    assert_eq!(parse_hex_bytes(&hex_encode(&bytes)), Ok(bytes.clone()));
    assert_eq!(value_to_bytes(&Json::text(&hex_encode(&bytes))).unwrap(), bytes);
}

#[test]
fn texts_keep_what_they_hold() {
    for s in ["", " x ", "\ta\n", "a,b,,c"] {
        assert_eq!(trim(&trim(s)), trim(s));
        assert_eq!(join(&split(s, ','), ","), s);
    }
}

#[test]
fn days_follow_each_other() {
    assert_eq!(civil_from_days(0), (1970, 1, 1));
    assert_eq!(civil_from_days(-1), (1969, 12, 31));
    assert_eq!(civil_from_days(11_016), (2000, 2, 29));
    assert_eq!(civil_from_days(11_017), (2000, 3, 1));
    assert_eq!(civil_from_days(20_234), (2025, 5, 26));
    assert_eq!(spill_dir("/tmp", 20_234 * 86_400 + 5), "/tmp/ida-rs-spills/20250526");
    let mut before = civil_from_days(-800_000);
    for d in -799_999..-700_000i64 {
        let now = civil_from_days(d);
        assert!(now > before);
        before = now;
    }
}

#[test]
fn estimates_never_fall() {
    for n in 0..2_000usize {
        assert!(estimate_tokens(n) <= estimate_tokens(n + 1));
    }
}

#[test]
fn the_client_waits_longer_than_the_daemon() {
    assert!(client_timeout(&None) > WORKER_OP_TIMEOUT_SECS);
    assert_eq!(client_timeout(&None), 630);
    assert_eq!(client_timeout(&Some("5".to_string())), 5);
    assert_eq!(client_timeout(&Some("0".to_string())), 630);
    assert_eq!(client_timeout(&Some("x".to_string())), 630);
}

#[test]
fn an_answer_has_a_result_or_an_error() {
    let ok = Response::of("r".to_string(), Ok(Json::Null));
    assert!(ok.ok && ok.result.is_some() && ok.error.is_none());
    let bad = Response::of("r".to_string(), Err("e".to_string()));
    assert!(!bad.ok && bad.result.is_none() && bad.error.is_some());
}

#[test]
fn a_raw_binary_and_its_database_are_one() {
    for raw in ["/x/a.so", "/x/a", "a.b.c"] {
        let db = idb_path_for_raw_binary(raw);
        assert!(is_idb_path(&db));
        assert!(database_paths_match(raw, &db));
        assert!(database_paths_match(&db, raw));
    }
    assert_eq!(file_name(&join_path("/x/y", "n.i64")).as_deref(), Some("n.i64"));
    assert_eq!(database_identity("/x/a", &Some("/x/a.i64".to_string())), "/x/a.i64");
    assert_eq!(database_identity("/x/a.i64", &None), "/x/a.i64");
}

#[test]
fn workers_have_sockets_of_their_own() {
    let env = CacheEnv { macos: false, xdg_cache_home: None, home: None };
    let names = [
        worker_socket_path(&env, 1, "t1"),
        worker_socket_path(&env, 11, "t1"),
        worker_socket_path(&env, 1, "1-t1"),
        worker_socket_path(&env, 1, "t2"),
    ];
    for (i, a) in names.iter().enumerate() {
        for b in names.iter().skip(i + 1) {
            assert_ne!(a, b);
        }
    }
}

#[test]
fn a_registry_is_read_as_it_was_written() {
    let text = registry_text(9, "/s \"x\"\n", 3, "1.0");
    let about = registry_value(9, "/s \"x\"\n", 3, "1.0");
    let read = read_registry(&Some(text.clone())).unwrap();
    for key in ["pid", "socket", "started_at", "version"] {
        assert_eq!(read.get(key), about.get(key), "{key}");
    }
    assert_eq!(
        ensure_single_instance(&Some(text)),
        "Daemon is already running (pid 9). Use 'ida-rs-cli daemon stop' first."
    );
}

#[test]
fn what_is_spilled_reads_back() {
    let value = object(vec![
        ("a", Json::Array(vec![Json::number(u64::MAX), Json::signed(i64::MIN), Json::Null])),
        ("b", object(vec![("\u{1}\"é", Json::text("\\\n\t\u{7f}\u{10ffff}"))])),
        ("c", Json::Bool(false)),
    ]);
    let time = SpillTime { dir_secs: 0, secs: 0, millis: 0 };
    match maybe_spill(&value, "op", 1, "/tmp", time) {
        SpillPlan::Write { data, .. } => {
            let read = read_registry(&Some(data)).unwrap();
            assert_eq!(serde(&read), serde(&value));
        }
        other => panic!("{other:?}"),
    }
}

#[test]
fn a_pool_gets_back_what_its_worker_found() {
    let call = WorkerCallOf::FindBytes {
        pattern: "aa ?? bb".to_string(),
        max_results: 15_000,
        timeout_secs: Some(30),
    };
    let asked = child_request(&call).unwrap();
    let number = |key: &str| asked.args.get(key).and_then(|v| v.as_i64());
    let req = FindBytesRequest {
        patterns: asked.args.get("patterns").unwrap().copy(),
        limit: number("limit"),
        offset: number("offset"),
        timeout_secs: number("timeout_secs"),
        worker_max_results: number("_worker_max_results"),
    };
    let plan = plan_find_bytes(&req, true).unwrap();
    assert_eq!(plan.calls.len(), 1);
    assert!(matches!(
        &plan.calls[0],
        Ok(WorkerCallOf::FindBytes { pattern, max_results: 15_000, timeout_secs: Some(30) })
            if pattern == "aa ?? bb"
    ));
    let matches = Json::Array((0..12_000).map(Json::number).collect());
    let found = object(vec![("matches", matches.copy()), ("total", Json::number(12_000))]);
    let items = vec![Listed { name: "aa ?? bb".to_string(), outcome: Ok(found) }];
    let reply = list_searches("pattern", &items, &plan.limits);
    assert_eq!(
        extract_first_matches(&reply, "find_bytes").unwrap(),
        object(vec![("matches", matches)])
    );
}

#[test]
fn a_pool_searches_for_the_number_that_was_asked() {
    let call = WorkerCallOf::SearchImm { imm: u64::MAX, max_results: 7, timeout_secs: None };
    let asked = child_request(&call).unwrap();
    let number = |key: &str| asked.args.get(key).and_then(|v| v.as_i64());
    let req = SearchRequest {
        targets: asked.args.get("targets").unwrap().copy(),
        kind: asked.args.str_field("kind").cloned(),
        limit: number("limit"),
        offset: number("offset"),
        timeout_secs: number("timeout_secs"),
        worker_max_results: number("_worker_max_results"),
    };
    let plan = search(&req, true).unwrap();
    assert!(matches!(
        &plan.calls[0],
        Ok(WorkerCallOf::SearchImm { imm: u64::MAX, max_results: 7, timeout_secs: None })
    ));
}

#[test]
fn schemas_lose_only_what_clients_cannot_read() {
    let schema = object(vec![
        ("$schema", Json::text("x")),
        ("type", Json::Array(vec![Json::text("null"), Json::text("integer")])),
        ("minimum", Json::number(0)),
        ("items", object(vec![("$schema", Json::text("y")), ("title", Json::text("t"))])),
    ]);
    assert_eq!(
        serde(&normalize_schema_value(&schema)),
        serde(&object(vec![
            ("type", Json::text("integer")),
            ("minimum", Json::number(0)),
            ("items", object(vec![("title", Json::text("t"))])),
        ]))
    );
}

/// The fields of a value in the order of their names.
fn serde(v: &Json) -> String {
    match v {
        Json::Object(o) => {
            let parts: Vec<String> =
                o.names().iter().map(|n| format!("{n}:{}", serde(o.get(n).unwrap()))).collect();
            format!("{{{}}}", parts.join(","))
        }
        Json::Array(a) => format!("[{}]", a.iter().map(serde).collect::<Vec<_>>().join(",")),
        other => format!("{other:?}"),
    }
}
