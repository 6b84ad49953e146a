use ida_cli::calls::{
    analyze_funcs_child_args, child_request, extract_first_matches, find_bytes_child_args,
    open_idb_child_args, request_kind, run_script_child_args, search_child_args, ChildOpen,
    WorkerCallOf,
};
use ida_cli::errors::ToolErrorOf;
use ida_cli::dispatch::{CallOf, Place};
use ida_cli::handlers::{daemon_handler, decompile_found, handler_call, ArgOf, DaemonRunOf};
use ida_cli::json::{Json, JsonObject};
use ida_cli::pool::{ChildSlot, ChildStateOf, Lease, SlotOf, WorkerPool, WorkerPoolConfig};
use ida_cli::sessions::{
    call_failure, check_call, child_tool_error_retires_worker, close_failure,
    open_error_releases_lease, release_error_retires_worker, timeout_with_child_grace, CallEndOf,
    CloseEndOf, OpenLease, PooledSessionState,
};
use ida_cli::worker_loop::RequestKind;

fn pool_with(max_workers: usize, min_workers: usize, op_secs: u64) -> WorkerPool {
    WorkerPool::new(WorkerPoolConfig {
        max_workers,
        min_workers,
        worker_idle_timeout_millis: 300_000,
        worker_op_timeout_secs: op_secs,
    })
}

fn test_pool(max_workers: usize) -> WorkerPool {
    pool_with(max_workers, 0, 600)
}

fn idle_slot(id: usize) -> ChildSlot {
    SlotOf {
        id,
        state: ChildStateOf::Idle,
        pid: Some(100),
        spawned_at: 0,
        last_used: 0,
        idb_path: None,
    }
}

fn list(items: Vec<Json>) -> Json {
    Json::Array(items)
}

fn object(fields: Vec<(&str, Json)>) -> Json {
    let mut o = JsonObject::new();
    for (k, v) in fields {
        o.put(k, v);
    }
    Json::Object(o)
}

#[test]
fn explicit_child_timeout_gets_parent_watchdog_grace() {
    let pool = pool_with(1, 0, 1800);
    assert_eq!(pool.worker_op_timeout(Some(120)), 130);
    assert_eq!(pool.worker_op_timeout(Some(600)), 610);
    assert_eq!(
        pool.worker_op_timeout(Some(9999)),
        610,
        "child foreground timeout is capped before adding parent grace"
    );
    assert_eq!(pool.worker_op_timeout(None), 1800);
}

#[test]
fn pooled_observed_child_args_forward_timeouts() {
    let open_args = open_idb_child_args(&ChildOpen {
        path: "/tmp/a".to_string(),
        load_debug_info: true,
        debug_info_path: Some("/tmp/a.dSYM".to_string()),
        debug_info_verbose: true,
        force: false,
        rebuild: false,
        file_type: Some("pe".to_string()),
        auto_analyse: true,
        extra_args: vec!["-A".to_string()],
        timeout_secs: Some(600),
    });
    assert_eq!(open_args.get("timeout_secs"), Some(&Json::number(600)));
    assert_eq!(open_args.get("rebuild"), Some(&Json::Bool(false)));

    let analyze_args = analyze_funcs_child_args(Some(600), false);
    assert_eq!(analyze_args.get("timeout_secs"), Some(&Json::number(600)));
    assert_eq!(analyze_args.get("_worker_no_timeout"), Some(&Json::Bool(false)));

    let background_analyze_args = analyze_funcs_child_args(None, true);
    assert_eq!(background_analyze_args.get("timeout_secs"), Some(&Json::Null));
    assert_eq!(background_analyze_args.get("_worker_no_timeout"), Some(&Json::Bool(true)));

    let script_args = run_script_child_args("print(1)", Some(30));
    assert_eq!(script_args.get("timeout_secs"), Some(&Json::number(30)));
}

#[test]
fn pooled_search_child_args_preserve_single_terms_and_internal_limit() {
    let search_args = search_child_args("Hello, world", "text", 11000, Some(30));
    assert_eq!(search_args.get("targets"), Some(&list(vec![Json::text("Hello, world")])));
    assert_eq!(search_args.get("limit"), Some(&Json::number(10000)));
    assert_eq!(search_args.get("_worker_max_results"), Some(&Json::number(11000)));

    let bytes_args = find_bytes_child_args("aa,bb", 15000, None);
    assert_eq!(bytes_args.get("patterns"), Some(&list(vec![Json::text("aa,bb")])));
    assert_eq!(bytes_args.get("limit"), Some(&Json::number(10000)));
    assert_eq!(bytes_args.get("_worker_max_results"), Some(&Json::number(15000)));
}

#[test]
fn extract_first_matches_preserves_child_pattern_error() {
    let value = object(vec![(
        "results",
        list(vec![object(vec![
            ("pattern", Json::text("")),
            ("error", Json::text("empty pattern")),
        ])]),
    )]);
    let err = extract_first_matches(&value, "find_bytes")
        .expect_err("child pattern error must be surfaced");
    assert!(matches!(err, ToolErrorOf::IdaError(message) if message == "empty pattern"));
}

#[test]
fn extract_first_matches_reads_matches() {
    let found = list(vec![Json::text("0x10")]);
    let value = object(vec![(
        "results",
        list(vec![object(vec![("pattern", Json::text("aa")), ("matches", found.copy())])]),
    )]);
    assert_eq!(
        extract_first_matches(&value, "find_bytes").unwrap(),
        object(vec![("matches", found)])
    );
    let none = object(vec![("results", list(vec![]))]);
    assert_eq!(
        extract_first_matches(&none, "find_bytes").unwrap(),
        object(vec![("matches", list(vec![]))])
    );
    match extract_first_matches(&object(vec![]), "search").unwrap_err() {
        ToolErrorOf::RemoteProtocol(m) => {
            assert_eq!(m, "search response did not include results")
        }
        other => panic!("{other:?}"),
    }
    let empty = object(vec![("results", list(vec![object(vec![])]))]);
    match extract_first_matches(&empty, "search").unwrap_err() {
        ToolErrorOf::RemoteProtocol(m) => assert_eq!(
            m,
            "search response did not include results[0].matches or results[0].error"
        ),
        other => panic!("{other:?}"),
    }
}

#[test]
fn release_retire_decision_keeps_ida_tool_errors_reusable() {
    assert!(!release_error_retires_worker(&ToolErrorOf::IdaError(
        "No database is currently open".to_string()
    )));
}

#[test]
fn child_tool_error_retire_decision_keeps_routine_timeouts_reusable() {
    assert!(!child_tool_error_retires_worker(&ToolErrorOf::TimeoutDetailed(
        "run_script timed out after 5 seconds".to_string()
    )));
    assert!(!child_tool_error_retires_worker(&ToolErrorOf::Cancelled(
        "run_script cancelled".to_string()
    )));
    assert!(child_tool_error_retires_worker(&ToolErrorOf::WorkerClosed));
}

#[test]
fn release_retire_decision_retires_transport_failures() {
    assert!(release_error_retires_worker(&ToolErrorOf::RemoteProtocol(
        "transport closed".to_string()
    )));
    assert!(release_error_retires_worker(&ToolErrorOf::Timeout(5)));
    assert!(release_error_retires_worker(&ToolErrorOf::WorkerClosed));
}

#[test]
fn open_failure_releases_fresh_lease() {
    assert!(open_error_releases_lease(
        true,
        &ToolErrorOf::IdaError("A database is already open".to_string())
    ));
}

#[test]
fn open_failure_keeps_existing_lease_for_ida_errors() {
    assert!(!open_error_releases_lease(
        false,
        &ToolErrorOf::IdaError("A database is already open".to_string())
    ));
}

#[test]
fn open_failure_releases_existing_lease_for_worker_crash() {
    assert!(open_error_releases_lease(
        false,
        &ToolErrorOf::WorkerCrashed {
            worker_id: 7,
            last_op: "open_idb".to_string(),
        }
    ));
}

#[test]
fn open_failure_releases_existing_lease_for_cancellation() {
    assert!(open_error_releases_lease(
        false,
        &ToolErrorOf::Cancelled("cancelled open_idb".to_string())
    ));
}

#[test]
fn open_failure_releases_existing_lease_for_closed_worker() {
    assert!(open_error_releases_lease(false, &ToolErrorOf::WorkerClosed));
}

#[test]
fn spawn_reservation_counts_toward_pool_capacity() {
    let mut pool = test_pool(1);
    let reservation = pool.reserve_spawn_slot();

    assert_eq!(pool.live_or_reserved_count(), 1);
    let err = match pool.lease("session-b", 0) {
        Ok(_) => panic!("lease should fail while the only slot is reserved"),
        Err(err) => err,
    };
    match err {
        ToolErrorOf::PoolExhausted { active, max } => {
            assert_eq!(active, 1);
            assert_eq!(max, 1);
        }
        other => panic!("unexpected lease error: {other:?}"),
    }

    pool.finish_spawn_reservation(reservation, None);
    assert_eq!(pool.live_or_reserved_count(), 0);
}

#[test]
fn dropped_spawn_reservation_releases_pool_capacity() {
    let mut pool = test_pool(1);
    let reservation = pool.reserve_spawn_slot();
    pool.finish_spawn_reservation(reservation, None);
    assert_eq!(pool.live_or_reserved_count(), 0);
}

#[test]
fn a_released_worker_is_leased_again() {
    let mut pool = test_pool(1);
    let mut session = PooledSessionState::new("session-a".to_string());
    let id = match session.lease_for_open(&mut pool, 5) {
        Ok(OpenLease::Fresh(Lease::Spawn { worker_id })) => worker_id,
        other => panic!("{other:?}"),
    };
    pool.finish_spawn_reservation(id, Some(idle_slot(id)));
    pool.set_state(id, ChildStateOf::Leased { session_id: "session-a".to_string() }, None);
    session.adopt(id);
    assert_eq!(session.required_handle().unwrap(), id);
    assert!(matches!(
        session.lease_for_open(&mut pool, 6),
        Ok(OpenLease::Current { worker_id }) if worker_id == id
    ));
    assert!(matches!(pool.lease("session-b", 7), Err(ToolErrorOf::PoolExhausted { .. })));
    let state = pool.state(id);
    assert!(check_call(&state, id, "session-a", "disasm").is_none());
    match check_call(&state, id, "session-b", "disasm") {
        Some(ToolErrorOf::RemoteProtocol(m)) => assert_eq!(
            m,
            "worker 0 is not leased to session session-b (state: Leased { session_id: \"session-a\" })"
                .replace("worker 0", &format!("worker {id}"))
        ),
        Some(other) => panic!("{other:?}"),
        None => panic!("another session got through"),
    }

    assert_eq!(session.close().unwrap(), id);
    assert!(matches!(session.required_handle(), Err(ToolErrorOf::NoDatabaseOpen)));
    assert!(pool.begin_release(id));
    let (done, dead) = pool.finish_release(id, None, 8);
    assert!(done.is_ok());
    assert!(dead.is_none());
    assert!(matches!(pool.state(id), ChildStateOf::Idle));
    assert_eq!(pool.idle_reap_delay(id), Some(300_000));
    assert!(matches!(
        pool.lease("session-b", 9),
        Ok(Lease::Existing { worker_id }) if worker_id == id
    ));
    assert!(matches!(
        pool.state(id),
        ChildStateOf::Leased { session_id } if session_id == "session-b"
    ));
}

#[test]
fn a_broken_worker_is_retired() {
    let mut pool = test_pool(2);
    let id = pool.reserve_spawn_slot();
    pool.finish_spawn_reservation(id, Some(idle_slot(id)));
    assert_eq!(pool.shutdown_all(), vec![id]);
    pool.set_database(id, "/x/a.i64");
    let dead = pool.mark_dead(id, 4_000).unwrap();
    assert_eq!(dead.pid, Some(100));
    assert_eq!(dead.age_secs, 4);
    assert_eq!(dead.idb_path.as_deref(), Some("/x/a.i64"));
    assert!(matches!(pool.state(id), ChildStateOf::Dead));
    assert!(pool.mark_dead(id, 5_000).is_none());
    assert_eq!(pool.live_or_reserved_count(), 0);
}

#[test]
fn the_smallest_number_of_workers_is_kept() {
    let mut pool = pool_with(3, 1, 600);
    assert_eq!(pool.warm_min(), 1);
    let id = pool.ensure_min_workers().unwrap();
    assert!(pool.ensure_min_workers().is_none());
    pool.finish_spawn_reservation(id, Some(idle_slot(id)));
    assert!(pool.take_stale_idle_worker_if_above_min(id, 0, 1_000_000).is_none());
    let other = pool.reserve_spawn_slot();
    pool.finish_spawn_reservation(other, Some(idle_slot(other)));
    let dead = pool.take_stale_idle_worker_if_above_min(other, 0, 1_000_000).unwrap();
    assert_eq!((dead.pid, dead.age_secs, dead.idb_path), (Some(100), 1_000, None));
    assert_eq!(pool.live_or_reserved_count(), 1);
}

#[test]
fn calls_end_in_errors_that_name_them() {
    assert!(call_failure(CallEndOf::Answered, 3, "disasm").is_none());
    match call_failure(CallEndOf::TimedOut(9), 3, "disasm") {
        Some(ToolErrorOf::TimeoutDetailed(m)) => assert_eq!(
            m,
            "disasm exceeded worker operation timeout of 9 seconds; killed worker 3"
        ),
        other => panic!("{other:?}"),
    }
    match call_failure(CallEndOf::Cancelled, 3, "disasm") {
        Some(ToolErrorOf::Cancelled(m)) => assert_eq!(m, "cancelled disasm; killed worker 3"),
        other => panic!("{other:?}"),
    }
    match call_failure(CallEndOf::Broken("gone".to_string()), 3, "disasm") {
        Some(ToolErrorOf::WorkerCrashed { worker_id: 3, last_op }) => {
            assert_eq!(last_op, "disasm: gone")
        }
        other => panic!("{other:?}"),
    }
    assert!(close_failure(CloseEndOf::Answered { is_error: false, error: None }).is_none());
    assert!(matches!(
        close_failure(CloseEndOf::Failed(ToolErrorOf::WorkerClosed)),
        Some(ToolErrorOf::WorkerClosed)
    ));
    assert!(matches!(close_failure(CloseEndOf::TimedOut), Some(ToolErrorOf::Timeout(_))));
}

#[test]
fn pooled_foreground_timeout_gets_child_grace() {
    assert_eq!(timeout_with_child_grace(None, 300), 310);
    assert_eq!(timeout_with_child_grace(Some(120), 300), 130);
    assert_eq!(timeout_with_child_grace(Some(9999), 300), 610);
}

#[test]
fn calls_become_requests_of_children() {
    let call = WorkerCallOf::Disasm { addr: 0x1000, count: 4 };
    assert_eq!(request_kind(&call), RequestKind::Disasm);
    let r = child_request(&call).unwrap();
    assert_eq!(r.tool, "disasm");
    assert_eq!(r.args.str_field("address").map(|s| s.as_str()), Some("0x1000"));
    assert_eq!(r.args.get("count").and_then(|v| v.as_u64()), Some(4));
    let r = child_request(&WorkerCallOf::ReadInt { addr: 16, size: 4 }).unwrap();
    assert_eq!(r.tool, "get_u32");
    assert!(child_request(&WorkerCallOf::ReadInt { addr: 16, size: 3 }).is_err());
    let r = child_request(&WorkerCallOf::SearchImm {
        imm: 255,
        max_results: 5,
        timeout_secs: Some(3),
    })
    .unwrap();
    assert_eq!(r.tool, "search");
    assert_eq!(r.timeout_secs, Some(3));
    assert_eq!(r.args.get("targets"), Some(&list(vec![Json::text("0xff")])));
}

#[test]
fn a_worker_that_cannot_be_released_leaves_work_behind() {
    let mut pool = test_pool(1);
    let id = pool.reserve_spawn_slot();
    assert_eq!(id, 0);
    pool.finish_spawn_reservation(id, Some(idle_slot(id)));
    pool.set_state(id, ChildStateOf::Leased { session_id: "s".to_string() }, None);
    pool.set_database(id, "/x/a.i64");
    assert!(pool.begin_release(id));
    let (done, dead) = pool.finish_release(id, Some(ToolErrorOf::WorkerClosed), 7_500);
    assert!(matches!(done, Err(ToolErrorOf::WorkerClosed)));
    let dead = dead.unwrap();
    assert_eq!(dead.pid, Some(100));
    assert_eq!(dead.age_secs, 7);
    assert_eq!(dead.idb_path.as_deref(), Some("/x/a.i64"));
}

#[test]
fn handlers_get_their_arguments_in_order() {
    let h = handler_call(WorkerCallOf::ExportFuncs { offset: 3, limit: 7 });
    assert_eq!(h.name, "handle_list_functions");
    assert!(!h.watched);
    assert_eq!(h.args.len(), 3);
    assert!(matches!(h.args[0], ArgOf::Count(3)));
    assert!(matches!(h.args[1], ArgOf::Count(7)));
    assert!(matches!(h.args[2], ArgOf::MaybeText(None)));

    let h = handler_call(WorkerCallOf::DisasmFunctionAt {
        addr: None,
        name: Some("main".to_string()),
        offset: -4,
        count: 9,
    });
    assert_eq!(h.name, "handle_disasm_function_at");
    assert!(matches!(
        &h.args[0],
        ArgOf::Place { addr: None, name: Some(n), offset: -4 } if n == "main"
    ));
    assert!(matches!(h.args[1], ArgOf::Count(9)));

    let h = handler_call(WorkerCallOf::Rename {
        addr: Some(16),
        current_name: None,
        new_name: "f".to_string(),
        flags: 2,
    });
    assert_eq!(h.name, "handle_rename");
    assert!(matches!(h.args[0], ArgOf::MaybeAddress(Some(16))));
    assert!(matches!(h.args[1], ArgOf::MaybeText(None)));
    assert!(matches!(&h.args[2], ArgOf::Text(n) if n == "f"));
    assert!(matches!(h.args[3], ArgOf::Flags(2)));

    let h = handler_call(WorkerCallOf::RunScript {
        code: "print(1)".to_string(),
        timeout_secs: Some(5),
    });
    assert_eq!(h.name, "handle_run_script");
    assert!(h.watched);
    assert_eq!(h.args.len(), 1);
    let h = handler_call(WorkerCallOf::AnalyzeFuncsUnbounded);
    assert_eq!(h.name, "handle_analyze_funcs");
    assert!(h.watched && h.args.is_empty());
}

#[test]
fn the_daemon_gives_its_handlers_what_was_asked() {
    match daemon_handler(CallOf::GetBytes { addr: 16, size: 4 }) {
        DaemonRunOf::Run(h) => {
            assert_eq!(h.name, "handle_get_bytes");
            assert!(!h.watched);
            assert!(matches!(h.args[0], ArgOf::MaybeAddress(Some(16))));
            assert!(matches!(h.args[1], ArgOf::MaybeText(None)));
            assert!(matches!(h.args[2], ArgOf::Offset(0)));
            assert!(matches!(h.args[3], ArgOf::Count(4)));
        }
        other => panic!("{other:?}"),
    }
    match daemon_handler(CallOf::Disasm { offset: 5, count: 20, place: Place::Addr(16) }) {
        DaemonRunOf::Run(h) => {
            assert_eq!(h.name, "handle_disasm");
            assert!(matches!(h.args[1], ArgOf::Count(25)));
        }
        other => panic!("{other:?}"),
    }
    let main = Place::Name("main".to_string());
    match daemon_handler(CallOf::Decompile { max_lines: 3, place: main }) {
        DaemonRunOf::RunThenDecompile(h) => assert_eq!(h.name, "handle_resolve_function"),
        other => panic!("{other:?}"),
    }
    let h = decompile_found("0x10").unwrap();
    assert_eq!(h.name, "handle_decompile");
    assert!(matches!(h.args[0], ArgOf::Address(16)));
    assert_eq!(decompile_found("zz").unwrap_err(), "Invalid address: zz");
    assert!(matches!(daemon_handler(CallOf::Info), DaemonRunOf::Describe));
}
