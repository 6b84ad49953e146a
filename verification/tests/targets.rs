use ida_cli::json::{Json, JsonObject};
use ida_cli::manager::{TargetManager, WorkOf};
use ida_cli::output::Opened;
use ida_cli::paths::{
    base_input_path_for_database, canonicalize_lenient, database_paths_match, effective_idb_out,
    expand_path, extension, file_name, has_ida_database_extension, idb_path_for_raw_binary,
    is_idb_path, join_path, parent, paths_equal, unpacked_id0_path, with_extension,
};
use ida_cli::protocol::{Request, Response};
use ida_cli::router::{
    closed_reply, ensure_single_instance, forwarded, int_convert, is_worker_socket, load_failed, op_timeout,
    read_registry, registry_value, relay, stop_request, worker_boot_step, worker_load_handshake,
    worker_load_request, RouteOf, RouterState, WorkerBoot,
};
use ida_cli::targets::{
    bits_of, find_load_conflict, lowest_target_id, rank_number, read_id, resolve_selector,
    TargetInfo,
};

fn entry(id: &str, file: &str, path: &str) -> (String, String, String) {
    (id.to_string(), file.to_string(), path.to_string())
}

fn object(fields: Vec<(&str, Json)>) -> Json {
    let mut o = JsonObject::new();
    for (k, v) in fields {
        o.put(k, v);
    }
    Json::Object(o)
}

fn request(op: &str, params: Json, target: Option<&str>) -> Request {
    Request {
        id: "r1".to_string(),
        op: op.to_string(),
        params,
        target: target.map(|t| t.to_string()),
    }
}

fn info(path: &str) -> TargetInfo {
    TargetInfo {
        id: String::new(),
        path: path.to_string(),
        filename: file_name(path).unwrap_or_default(),
        file_type: "ELF".to_string(),
        processor: "ARM".to_string(),
        bits: 64,
        function_count: 3,
    }
}

fn load(state: &mut RouterState, path: &str) -> String {
    let id = state.alloc_id();
    state.finish_load(
        id.clone(),
        info(path),
        format!("/run/{id}.sock"),
        path.to_string(),
        idb_path_for_raw_binary(path),
    );
    id
}

#[test]
fn resolve_selector_exact_substring_active() {
    let v = vec![
        entry("t1", "libalpha.so", "/tmp/libalpha.so"),
        entry("t2", "beta.bin", "/work/beta.bin"),
    ];
    assert_eq!(resolve_selector(Some("t2"), Some("t1"), &v).unwrap(), "t2");
    assert_eq!(resolve_selector(Some("alpha"), Some("t1"), &v).unwrap(), "t1");
    assert_eq!(resolve_selector(None, Some("t2"), &v).unwrap(), "t2");
    assert_eq!(resolve_selector(Some("active"), Some("t2"), &v).unwrap(), "t2");
    assert!(resolve_selector(Some("/"), Some("t1"), &v).is_err());
    assert!(resolve_selector(Some("zzz"), Some("t1"), &v).is_err());
    assert!(resolve_selector(None, None, &v).is_err());
    let empty: Vec<(String, String, String)> = vec![];
    assert!(resolve_selector(None, None, &empty).is_err());
}

#[test]
fn lowest_target_id_picks_smallest_number() {
    let v: Vec<String> = vec!["t10".to_string(), "t2".to_string(), "t3".to_string()];
    assert_eq!(lowest_target_id(&v).as_deref(), Some("t2"));
    let empty: Vec<String> = vec![];
    assert_eq!(lowest_target_id(&empty), None);
}

#[test]
fn ids_are_numbered() {
    assert_eq!(read_id("t12"), Some(12));
    assert_eq!(read_id("12"), None);
    assert_eq!(read_id("tx"), None);
    assert_eq!(read_id(""), None);
    assert_eq!(rank_number("t5"), 5);
    assert_eq!(rank_number("bogus"), u64::MAX);
    assert_eq!(bits_of(true, true), 64);
    assert_eq!(bits_of(false, true), 32);
    assert_eq!(bits_of(false, false), 16);
}

#[test]
fn find_load_conflict_detects_same_input_and_shared_database() {
    let existing = vec![
        entry("t1", "/a/x.so", "/a/x.so.i64"),
        entry("t2", "/b/y.i64", "/b/y.i64"),
    ];
    assert_eq!(
        find_load_conflict("/a/x.so", "/a/x.so.i64", &existing),
        Some("input already loaded as t1".to_string())
    );
    assert_eq!(
        find_load_conflict("/a/x.so.i64", "/a/x.so.i64", &existing),
        Some("database /a/x.so.i64 is already in use by t1".to_string())
    );
    assert_eq!(
        find_load_conflict("/b/y", "/b/y.i64", &existing),
        Some("database /b/y.i64 is already in use by t2".to_string())
    );
    assert_eq!(find_load_conflict("/c/z.so", "/c/z.so.i64", &existing), None);
}

#[test]
fn canonicalize_lenient_resolves_symlinked_parents() {
    let real = "/private/tmp/d".to_string();
    assert_eq!(
        canonicalize_lenient("/tmp/d/x.i64", &Some("/private/tmp/d/x.i64".to_string()), &Some(real.clone())),
        "/private/tmp/d/x.i64"
    );
    assert_eq!(
        canonicalize_lenient("/tmp/d/not-there-yet.i64", &None, &Some(real)),
        "/private/tmp/d/not-there-yet.i64"
    );
    assert_eq!(
        canonicalize_lenient("/definitely/not/a/real/dir/x.i64", &None, &None),
        "/definitely/not/a/real/dir/x.i64"
    );
    assert_eq!(canonicalize_lenient("/", &None, &Some("/x".to_string())), "/");
}

#[test]
fn resolve_prefers_exact_id_then_substring() {
    let mut mgr = TargetManager::new();
    let t1 = mgr.insert_dummy("libalpha.so", "/tmp/libalpha.so");
    let t2 = mgr.insert_dummy("beta.bin", "/work/beta.bin");
    assert_eq!(mgr.resolve(Some("t2")).as_deref(), Ok("t2"));
    assert_eq!(mgr.resolve(Some("alpha")).as_deref(), Ok("t1"));
    assert_eq!(mgr.resolve(Some("/work")).as_deref(), Ok("t2"));
    assert_eq!(mgr.resolve(None).as_deref(), Ok(t1.as_str()));
    assert_eq!(mgr.resolve(Some("active")).as_deref(), Ok(t1.as_str()));
    assert_eq!(mgr.resolve(Some("")).as_deref(), Ok(t1.as_str()));
    assert!(mgr.resolve(Some("nope")).is_err());
    assert_eq!(mgr.resolve(Some("tmp")).as_deref(), Ok(t1.as_str()));
    assert!(mgr.resolve(Some("/")).is_err());
    assert_eq!(t2, "t2");
}

#[test]
fn resolve_ambiguous_selector_errors() {
    let mut mgr = TargetManager::new();
    mgr.insert_dummy("foo-a.so", "/x/foo-a.so");
    mgr.insert_dummy("foo-b.so", "/x/foo-b.so");
    let err = mgr.resolve(Some("foo")).unwrap_err();
    assert!(err.contains("Ambiguous"), "unexpected error: {err}");
}

#[test]
fn resolve_without_targets_errors() {
    let mgr = TargetManager::new();
    assert!(mgr.resolve(None).is_err());
}

#[test]
fn seed_next_id_controls_next_allocation() {
    let mut mgr = TargetManager::new();
    mgr.seed_next_id("t7");
    assert_eq!(mgr.insert_dummy("a", "/a"), "t7");
    assert_eq!(mgr.insert_dummy("b", "/b"), "t8");

    let mut mgr2 = TargetManager::new();
    mgr2.seed_next_id("bogus");
    assert_eq!(mgr2.insert_dummy("a", "/a"), "t1");
}

#[test]
fn loading_keeps_the_active_target() {
    let db = Opened {
        file_type: "ELF".to_string(),
        processor: "ARM".to_string(),
        is_64bit: true,
        is_32bit: false,
        function_count: 2,
    };
    let home = Some("/home/u".to_string());
    let mut mgr = TargetManager::new();
    let first = mgr.load("~/a.so", &home, &db);
    assert_eq!(first.id, "t1");
    assert_eq!(first.path, "/home/u/a.so");
    assert_eq!(first.filename, "a.so");
    assert_eq!(first.bits, 64);
    let second = mgr.load("/b.so", &home, &db);
    assert_eq!(second.id, "t2");
    assert_eq!(mgr.active_id().map(|s| s.as_str()), Some("t1"));
    assert!(mgr.set_active("t2").is_ok());
    assert_eq!(mgr.active_id().map(|s| s.as_str()), Some("t2"));
    assert_eq!(mgr.set_active("t9"), Err("Target not found: t9".to_string()));
    assert!(mgr.close("t2").is_ok());
    assert_eq!(mgr.active_id().map(|s| s.as_str()), Some("t1"));
    assert_eq!(mgr.list().len(), 1);
    assert!(mgr.close("t2").is_err());
}

#[test]
fn is_idb_path_by_extension() {
    assert!(is_idb_path("/x/app.i64"));
    assert!(is_idb_path("/x/app.IDB"));
    assert!(is_idb_path("/x/app.id0"));
    assert!(!is_idb_path("/x/app.so"));
    assert!(!is_idb_path("/x/noext"));
}

#[test]
fn effective_idb_out_defaults_and_explicit() {
    let home = Some("/home/u".to_string());
    assert_eq!(effective_idb_out("/x/app.i64", &None, &home), None);
    assert_eq!(
        effective_idb_out("/x/app.i64", &Some("/tmp/ignored.i64".to_string()), &home),
        None
    );
    assert_eq!(
        effective_idb_out("/x/app.so", &None, &home),
        Some("/x/app.so.i64".to_string())
    );
    assert_eq!(
        effective_idb_out("/x/app.so", &Some("/out/app.i64".to_string()), &home),
        Some("/out/app.i64".to_string())
    );
}

#[test]
fn expand_path_handles_tilde() {
    let home = Some("/home/u".to_string());
    assert_eq!(expand_path("~/x/y.so", &home), "/home/u/x/y.so");
    assert_eq!(expand_path("/abs/p", &home), "/abs/p");
    assert_eq!(expand_path("rel/p", &home), "rel/p");
    assert_eq!(expand_path("~/x", &None), "~/x");
}

#[test]
fn database_paths_match_treats_packed_and_unpacked_as_same_database() {
    let packed = "/tmp/sample.i64";
    let unpacked = "/tmp/sample.id0";
    let legacy = "/tmp/sample.idb";
    let packed_upper = "/tmp/sample.I64";
    assert!(database_paths_match(packed, unpacked));
    assert!(database_paths_match(unpacked, packed));
    assert!(database_paths_match(legacy, unpacked));
    assert!(database_paths_match(unpacked, legacy));
    assert!(database_paths_match(packed_upper, unpacked));
    assert!(!database_paths_match(packed, legacy));
}

#[test]
fn database_paths_match_treats_raw_input_and_generated_i64_as_same_database() {
    let raw = "/tmp/testA.exe";
    let generated = "/tmp/testA.exe.i64";
    let replaced_extension = "/tmp/testA.i64";
    assert!(database_paths_match(generated, raw));
    assert!(database_paths_match(raw, generated));
    assert!(!database_paths_match(raw, replaced_extension));
}

#[test]
fn has_ida_database_extension_only_matches_real_database_extensions() {
    assert!(has_ida_database_extension("/tmp/a.i64"));
    assert!(has_ida_database_extension("/tmp/a.IDB"));
    assert!(!has_ida_database_extension("/tmp/a.exe"));
}

#[test]
fn idb_path_for_raw_binary_appends_i64_to_full_path() {
    assert_eq!(idb_path_for_raw_binary("/tmp/sample"), "/tmp/sample.i64");
    assert_eq!(
        idb_path_for_raw_binary("/tmp/com.apple.driver.AppleDAPF"),
        "/tmp/com.apple.driver.AppleDAPF.i64"
    );
    assert_eq!(
        idb_path_for_raw_binary("/tmp/kernelcache.release.iphone"),
        "/tmp/kernelcache.release.iphone.i64"
    );
}

#[test]
fn base_input_path_for_database_strips_supported_database_extensions() {
    assert_eq!(base_input_path_for_database("/tmp/sample.i64"), "/tmp/sample");
    assert_eq!(base_input_path_for_database("/tmp/sample.idb"), "/tmp/sample");
    assert_eq!(base_input_path_for_database("/tmp/sample.id0"), "/tmp/sample");
    assert_eq!(base_input_path_for_database("/tmp/sample.bin"), "/tmp/sample.bin");
}

#[test]
fn paths_agree_with_the_standard_library() {
    let samples = [
        "/tmp/sample.i64", "/tmp/a.b/c", "a", "a/b/", "/", "", ".", "..", "a/..", "/x/.hidden",
        "/x/.hidden.txt", "x.", "/a//b", "a/./b", "/x/y.tar.gz", "./a", "é/ü.ö",
    ];
    for s in samples {
        let p = std::path::Path::new(s);
        assert_eq!(file_name(s).as_deref(), p.file_name().and_then(|n| n.to_str()), "{s:?}");
        assert_eq!(extension(s).as_deref(), p.extension().and_then(|n| n.to_str()), "{s:?}");
        assert_eq!(
            parent(s).map(std::path::PathBuf::from),
            p.parent().map(|q| q.to_path_buf()),
            "{s:?}"
        );
        assert_eq!(
            std::path::PathBuf::from(with_extension(s, "i64")),
            p.with_extension("i64"),
            "{s:?}"
        );
        assert_eq!(std::path::PathBuf::from(join_path(s, "n")), p.join("n"), "{s:?}");
        assert_eq!(std::path::PathBuf::from(join_path(s, "/n")), p.join("/n"), "{s:?}");
        for t in samples {
            assert_eq!(paths_equal(s, t), p == std::path::Path::new(t), "{s:?} {t:?}");
        }
    }
    assert_eq!(unpacked_id0_path("/x/a.i64"), Some("/x/a.id0".to_string()));
    assert_eq!(unpacked_id0_path("/x/a.so"), None);
}

#[test]
fn requests_find_their_target() {
    let mut state = RouterState::new();
    let no_target = state.route(&request("info", object(vec![]), None));
    assert!(matches!(no_target, RouteOf::Reply(Err(_))));
    let t1 = load(&mut state, "/a/x.so");
    let t2 = load(&mut state, "/b/y.so");
    assert_eq!((t1.as_str(), t2.as_str()), ("t1", "t2"));
    match state.route(&request("info", object(vec![]), None)) {
        RouteOf::Forward { id, sock } => {
            assert_eq!(id, "t1");
            assert_eq!(sock, "/run/t1.sock");
        }
        other => panic!("{other:?}"),
    }
    match state.route(&request("decompile", object(vec![]), Some("y.so"))) {
        RouteOf::Forward { id, .. } => assert_eq!(id, "t2"),
        other => panic!("{other:?}"),
    }
    let switch = object(vec![("id", Json::text("t2"))]);
    assert!(matches!(state.route(&request("target.switch", switch, None)), RouteOf::Reply(Ok(_))));
    assert_eq!(state.resolve(&None), Ok("t2".to_string()));
    let close = object(vec![("id", Json::text("t2"))]);
    match state.route(&request("target.close", close, None)) {
        RouteOf::Stop { id, sock } => {
            assert_eq!(id, "t2");
            assert_eq!(sock, "/run/t2.sock");
        }
        other => panic!("{other:?}"),
    }
    assert_eq!(state.resolve(&None), Ok("t1".to_string()));
    assert_eq!(state.list().len(), 1);
    assert_eq!(load(&mut state, "/c/z.so"), "t3");
    assert_eq!(state.drain().len(), 2);
    assert!(state.resolve(&None).is_err());
}

#[test]
fn a_load_is_checked_first() {
    let mut state = RouterState::new();
    load(&mut state, "/a/x.so");
    assert_eq!(
        state.check_load("/n.so", false, "/n.so", "/n.so.i64"),
        Err("File not found: /n.so".to_string())
    );
    assert!(state.check_load("/a/x.so", true, "/a/x.so", "/a/x.so.i64").is_err());
    assert_eq!(state.check_load("/b/y.so", true, "/b/y.so", "/b/y.so.i64"), Ok(()));
}

#[test]
fn both_ends_convert_numbers_alike() {
    let req = request("int_convert", object(vec![("value", Json::text("0o17"))]), None);
    let mut mgr = TargetManager::new();
    let here = match mgr.dispatch(&req) {
        WorkOf::Reply(Ok(v)) => v,
        other => panic!("{other:?}"),
    };
    let there = match RouterState::new().route(&req) {
        RouteOf::Reply(Ok(v)) => v,
        other => panic!("{other:?}"),
    };
    assert_eq!(here, there);
    assert_eq!(here.get("decimal").and_then(|v| v.as_u64()), Some(15));
}

#[test]
fn the_order_of_targets_does_not_matter() {
    let a = vec![entry("t1", "foo.so", "/a/foo.so"), entry("t2", "bar.so", "/b/bar.so")];
    let b = vec![entry("t2", "bar.so", "/b/bar.so"), entry("t1", "foo.so", "/a/foo.so")];
    for sel in [None, Some("t1"), Some("foo"), Some(".so"), Some("zzz"), Some("active")] {
        assert_eq!(
            resolve_selector(sel, Some("t2"), &a),
            resolve_selector(sel, Some("t2"), &b),
            "{sel:?}"
        );
    }
}

#[test]
fn numbers_convert_in_the_router() {
    let r = int_convert(&object(vec![("value", Json::text("0xff"))])).unwrap();
    assert_eq!(r.get("decimal").and_then(|v| v.as_u64()), Some(255));
    assert_eq!(r.str_field("hex").map(|s| s.as_str()), Some("0xff"));
    assert_eq!(r.str_field("octal").map(|s| s.as_str()), Some("0o377"));
    assert_eq!(r.str_field("binary").map(|s| s.as_str()), Some("0b11111111"));
    assert_eq!(r.get("signed").and_then(|v| v.as_i64()), Some(255));
    let r = int_convert(&object(vec![("value", Json::text("18446744073709551615"))])).unwrap();
    assert_eq!(r.get("signed").and_then(|v| v.as_i64()), Some(-1));
    for (text, n) in [("0o17", 15), ("0b1111", 15), (" 0xF ", 15), ("15", 15), ("0O17", 15)] {
        let r = int_convert(&object(vec![("value", Json::text(text))])).unwrap();
        assert_eq!(r.get("decimal").and_then(|v| v.as_u64()), Some(n), "{text}");
    }
    let r = int_convert(&object(vec![("value", Json::text("0o17"))])).unwrap();
    assert_eq!(
        r,
        object(vec![
            ("decimal", Json::number(15)),
            ("hex", Json::text("0xf")),
            ("octal", Json::text("0o17")),
            ("binary", Json::text("0b1111")),
            ("signed", Json::number(15)),
        ])
    );
    assert!(int_convert(&object(vec![("value", Json::text("0o8"))])).is_err());
    assert_eq!(
        int_convert(&object(vec![("value", Json::text(" 1_0 "))])),
        Err("Invalid address: 1_0".to_string())
    );
    assert!(int_convert(&object(vec![])).is_err());
    assert!(int_convert(&object(vec![("value", Json::text("zz"))])).is_err());
}

#[test]
fn workers_get_what_was_asked() {
    let req = worker_load_request("t3", "/a/x.so", true, &Some("/o.i64".to_string()));
    assert_eq!(req.op, "target.load");
    assert_eq!(req.params.str_field("path").map(|s| s.as_str()), Some("/a/x.so"));
    assert_eq!(req.params.str_field("idb_out").map(|s| s.as_str()), Some("/o.i64"));
    let fwd = forwarded(&request("info", object(vec![("k", Json::Bool(true))]), Some("t3")));
    assert_eq!(fwd.id, "r1");
    assert_eq!(fwd.op, "info");
    assert_eq!(fwd.target, None);
    assert_eq!(fwd.params, object(vec![("k", Json::Bool(true))]));
    assert_eq!(closed_reply("t3"), object(vec![("closed", Json::text("t3"))]));
    assert_eq!(stop_request().op, "shutdown");
    let ok = Response::success("x".to_string(), Json::Bool(true));
    assert_eq!(relay("t3", Ok(ok)), Ok(Json::Bool(true)));
    let failed = Response::error("x".to_string(), "no".to_string());
    assert_eq!(relay("t3", Ok(failed)), Err("no".to_string()));
    assert!(relay("t3", Err("gone".to_string())).is_err());
    assert!(worker_load_handshake(Err("gone".to_string())).is_err());
    assert!(load_failed("why").contains("why"));
    assert!(is_worker_socket("/d/t1.sock"));
    assert!(!is_worker_socket("/d/t1.txt"));
    assert_eq!(worker_boot_step(true, true, 0), WorkerBoot::Up);
    assert_eq!(worker_boot_step(false, true, 0), WorkerBoot::Exited);
    assert_eq!(worker_boot_step(false, false, 0), WorkerBoot::Wait);
    assert_eq!(worker_boot_step(false, false, 10_000_000), WorkerBoot::Kill);
    assert_eq!(op_timeout(&Some("7".to_string())), 7);
    assert_eq!(op_timeout(&None), 600);
}

#[test]
fn a_registry_names_its_process() {
    let v = registry_value(77, "/s.sock", 5, "1.0");
    assert_eq!(v.get("pid").and_then(|p| p.as_u64()), Some(77));
    assert_eq!(v.str_field("version").map(|s| s.as_str()), Some("1.0"));
    let contents = Some("{\"pid\": 77, \"socket\": \"/s.sock\", \"ratio\": 1.5, \"n\": -3}".to_string());
    let read = read_registry(&contents).unwrap();
    assert_eq!(read.get("pid").and_then(|p| p.as_u64()), Some(77));
    assert_eq!(read.get("n").and_then(|p| p.as_i64()), Some(-3));
    assert_eq!(
        ensure_single_instance(&contents),
        "Daemon is already running (pid 77). Use 'ida-rs-cli daemon stop' first."
    );
    assert_eq!(
        ensure_single_instance(&Some("not json".to_string())),
        "Daemon is already running. Use 'ida-rs-cli daemon stop' first."
    );
    assert_eq!(read_registry(&None), None);
}
