use ida_cli::database::{
    build_db_info, check_open, debug_info_reply, debug_info_report, dsym_path_for_binary,
    existing_idb_for_raw_binary, existing_idb_for_raw_open, handle_load_debug_info,
    init_database_args, is_analysed, non_empty_trimmed, open_failure, open_fallback, plan_debug_info, plan_open,
    reports_analysis, DebugStepOf, OpenCheckOf, OpenFacts, OpenRequest,
};
use ida_cli::errors::ToolErrorOf;
use ida_cli::json::{Json, JsonObject};
use ida_cli::opening::{
    begin_open, open_step, opening_report, Held, HeldOf, OpenAction, OpenActionOf, OpenEvent, OpenEventOf,
    OpenState,
};
use ida_cli::output::Opened;
use ida_cli::worker_loop::{
    check_license_expiry, check_version_mismatch, handler, init_ida_library, initialized,
    loop_step, needs_address, reject_with_version_error, report_analysis, report_open,
    report_script, setup_report, IdaInitState, License, LicenseEnd, LoopStepOf, OutcomeOf, RejectionOf,
    RequestKind,
};

fn object(fields: Vec<(&str, Json)>) -> Json {
    let mut o = JsonObject::new();
    for (k, v) in fields {
        o.put(k, v);
    }
    Json::Object(o)
}

fn nothing() -> Held {
    HeldOf { database: None, lock: None }
}

/// Begins to open a database and plays events until the last one.
fn play(req: OpenRequest, events: Vec<OpenEvent>) -> (OpenState, OpenAction) {
    let (mut state, mut action) = begin_open(nothing(), req, &None, None, facts(true, false));
    assert!(matches!(action, OpenActionOf::TakeLock { .. }));
    for event in events {
        let next = open_step(state, event);
        state = next.0;
        action = next.1;
    }
    (state, action)
}

fn locked() -> OpenEvent {
    OpenEventOf::Lock(Ok("/x/a.lock".to_string()))
}

fn opened() -> OpenEvent {
    OpenEventOf::Opened { database: "/x/a.i64".to_string() }
}

fn failed(unpacked_exists: bool) -> OpenEvent {
    OpenEventOf::Failed { cause: "why".to_string(), locked: None, unpacked_exists }
}

fn some(s: &str) -> Option<String> {
    Some(s.to_string())
}

fn request(path: &str) -> OpenRequest {
    OpenRequest {
        path: path.to_string(),
        load_debug_info: false,
        debug_info_path: None,
        debug_info_verbose: false,
        force: false,
        rebuild: false,
        file_type: None,
        auto_analyse: true,
        extra_args: vec![],
        idb_out: None,
    }
}

fn facts(input_exists: bool, output_exists: bool) -> OpenFacts {
    OpenFacts { input_exists, output_exists, dsym_exists: false }
}

#[test]
fn empty_optional_open_strings_are_ignored() {
    assert_eq!(non_empty_trimmed(&None), None);
    assert_eq!(non_empty_trimmed(&some("")), None);
    assert_eq!(non_empty_trimmed(&some("  \t  ")), None);
    assert_eq!(non_empty_trimmed(&some(" pe ")), some("pe"));
}

#[test]
fn init_database_args_preserves_user_args() {
    let args = init_database_args(&vec!["-Sscript.py".to_string(), "-Tpe".to_string()]);
    assert!(args.iter().any(|arg| arg == "-Sscript.py"));
    assert!(args.iter().any(|arg| arg == "-Tpe"));
}

#[test]
fn init_database_args_injects_non_interactive_flag_once() {
    let args = init_database_args(&vec![]);
    assert_eq!(args, vec!["-A".to_string()]);

    let args = init_database_args(&vec!["-A".to_string(), "-Tpe".to_string()]);
    assert_eq!(args.iter().filter(|arg| arg.as_str() == "-A").count(), 1);
}

#[test]
fn existing_idb_for_raw_binary_detects_generated_database_without_replacing_extension() {
    assert_eq!(existing_idb_for_raw_binary("/d/testA.exe", false), None);
    assert_eq!(existing_idb_for_raw_binary("/d/testA.exe", true), some("/d/testA.exe.i64"));
}

#[test]
fn explicit_idb_out_does_not_reuse_default_generated_database() {
    let raw = "/d/dyld_shared_cache_arm64e";
    let explicit = some("/d/explicit-output.i64");
    assert_eq!(existing_idb_for_raw_open(raw, &explicit, false), None);
    assert_eq!(existing_idb_for_raw_open(raw, &explicit, true), explicit);
}

#[test]
fn an_open_database_is_not_opened_again() {
    match check_open("/x/a.so", &None, None, some("/x/a.so.i64")) {
        OpenCheckOf::Same { current } => assert_eq!(current, "/x/a.so.i64"),
        other => panic!("{other:?}"),
    }
    assert!(matches!(
        check_open("/x/b.so", &None, None, some("/x/a.so.i64")),
        OpenCheckOf::Refused(_)
    ));
    assert!(matches!(
        check_open("/x/b.so", &None, Some(ToolErrorOf::Cancelled("c".to_string())), None),
        OpenCheckOf::Refused(ToolErrorOf::Cancelled(_))
    ));
    match check_open("~/b.so", &some("/home/u"), None, None) {
        OpenCheckOf::Proceed { expanded } => assert_eq!(expanded, "/home/u/b.so"),
        other => panic!("{other:?}"),
    }
}

#[test]
fn a_raw_input_makes_a_database_beside_it() {
    let plan = plan_open(&request("/x/a.so"), "/x/a.so", &None, facts(true, false)).unwrap();
    assert!(!plan.existing);
    assert_eq!(plan.input, "/x/a.so");
    assert_eq!(plan.output.as_deref(), Some("/x/a.so.i64"));
    assert_eq!(plan.args, vec!["-A".to_string()]);
    let reused = plan_open(&request("/x/a.so"), "/x/a.so", &None, facts(true, true)).unwrap();
    assert!(reused.existing);
    assert_eq!(reused.input, "/x/a.so.i64");
    assert!(plan_open(&request("/x/a.so"), "/x/a.so", &None, facts(false, false)).is_err());
    let packed = plan_open(&request("/x/a.i64"), "/x/a.i64", &None, facts(true, false)).unwrap();
    assert!(packed.existing);
    assert_eq!(open_fallback(&packed, true), some("/x/a.id0"));
    assert_eq!(open_fallback(&packed, false), None);
    assert!(matches!(
        open_failure("/x/a.i64", "why", some("locked")),
        ToolErrorOf::DatabaseLocked(_)
    ));
    assert!(matches!(open_failure("/x/a.i64", "why", None), ToolErrorOf::OpenFailed(_)));
}

#[test]
fn debug_info_is_found_and_reported() {
    assert_eq!(
        dsym_path_for_binary("/x/a", true),
        some("/x/a.dSYM/Contents/Resources/DWARF/a")
    );
    assert_eq!(dsym_path_for_binary("/x/a", false), None);
    assert!(matches!(
        plan_debug_info(&request("/x/a"), "/x/a", &None),
        DebugStepOf::Nothing
    ));
    let mut req = request("/x/a");
    req.load_debug_info = true;
    req.debug_info_path = some(" /d/a.dwarf ");
    match plan_debug_info(&req, "/x/a", &None) {
        DebugStepOf::Requested { path } => assert_eq!(path, "/d/a.dwarf"),
        other => panic!("{other:?}"),
    }
    let missing = debug_info_report("/d/a".to_string(), false, Ok(true));
    assert!(!missing.loaded);
    assert!(missing.error.is_some());
    let loaded = debug_info_report("/d/a".to_string(), true, Ok(true));
    assert!(loaded.loaded);
    assert_eq!(loaded.error, None);
    let db = Opened {
        file_type: "ELF".to_string(),
        processor: "ARM".to_string(),
        is_64bit: false,
        is_32bit: true,
        function_count: 7,
    };
    let info = build_db_info(
        "/x/a",
        &db,
        Some(loaded),
        object(vec![("auto_is_ok", Json::Bool(true))]),
    );
    assert!(is_analysed(&info));
    assert_eq!((info.bits, info.function_count), (32, 7));
    assert_eq!(
        handle_load_debug_info(&some("/d/a"), &some("/x/a.i64"), false, true).unwrap(),
        "/d/a".to_string()
    );
    assert!(handle_load_debug_info(&some("/d/a"), &some("/x/a.i64"), false, false).is_err());
    assert!(matches!(
        handle_load_debug_info(&some("/d/a"), &None, false, true),
        Err(ToolErrorOf::NoDatabaseOpen)
    ));
    let reply = debug_info_reply("/d/a", true);
    assert_eq!(reply.get("loaded"), Some(&Json::Bool(true)));
    assert!(!reports_analysis("/x/a.so", false));
}

#[test]
fn matching_major_version_passes() {
    assert!(check_version_mismatch(9, 9).is_none());
}

#[test]
fn mismatched_major_version_returns_error() {
    let msg = check_version_mismatch(9, 8);
    assert!(msg.is_some());
    let msg = msg.unwrap();
    assert!(msg.contains("major version 8"), "{msg}");
    assert!(msg.contains("IDA 9.x"), "{msg}");
}

#[test]
fn product_minor_zero_does_not_mismatch_sdk_minor_three() {
    assert!(check_version_mismatch(9, 9).is_none());
}

#[test]
fn a_license_that_ended_is_refused() {
    let day = 86_400;
    let err = check_license_expiry(false, LicenseEnd::At(10 * day), 12 * day).unwrap_err();
    assert!(err.starts_with("IDA license expired 2 days ago (end_date=864000)."), "{err}");
    assert_eq!(check_license_expiry(false, LicenseEnd::Endless, 5), Ok(License::Endless));
    assert_eq!(check_license_expiry(false, LicenseEnd::Unknown, 5), Ok(License::Unknown));
    assert_eq!(
        check_license_expiry(false, LicenseEnd::At(400 * day), 0),
        Ok(License::Ends(400))
    );
    assert!(check_license_expiry(true, LicenseEnd::Endless, 5).is_err());
}

#[test]
fn the_runtime_is_set_up_with_the_first_request() {
    let mut st = IdaInitState::deferred();
    assert!(matches!(loop_step(&st, RequestKind::Disasm, None), LoopStepOf::Initialize));
    let done = init_ida_library(None, Ok(License::Endless));
    assert!(matches!(initialized(&mut st, RequestKind::Disasm, done, None), LoopStepOf::Run));
    assert!(st.library_initialized);
    assert!(matches!(loop_step(&st, RequestKind::Disasm, None), LoopStepOf::Run));
    assert!(matches!(loop_step(&st, RequestKind::Close, None), LoopStepOf::Close));
    assert!(matches!(loop_step(&st, RequestKind::Shutdown, None), LoopStepOf::Stop));

    let mut late = IdaInitState::deferred();
    let done = init_ida_library(None, Ok(License::Endless));
    let cancelled = Some(ToolErrorOf::Cancelled("late".to_string()));
    match initialized(&mut late, RequestKind::Open, done, cancelled) {
        LoopStepOf::Reject { report: Some(p), answer: RejectionOf::Error(ToolErrorOf::Cancelled(m)) } => {
            assert_eq!(p.phase, "cancelled");
            assert_eq!(p.message, "open_idb cancelled before opening database");
            assert_eq!(m, "late");
        }
        step => panic!("{step:?}"),
    }

    let mut other = IdaInitState::deferred();
    let mismatch = init_ida_library(some("wrong version"), Ok(License::Endless));
    match initialized(&mut other, RequestKind::Disasm, mismatch, None) {
        LoopStepOf::Reject { answer: RejectionOf::Error(ToolErrorOf::SdkVersionMismatch(m)), .. } => {
            assert_eq!(m, "wrong version")
        }
        step => panic!("{step:?}"),
    }
    assert!(matches!(
        reject_with_version_error(RequestKind::Close, "m"),
        RejectionOf::Done
    ));
    assert!(matches!(
        reject_with_version_error(RequestKind::Shutdown, "m"),
        RejectionOf::Nothing
    ));
}

#[test]
fn requests_have_handlers() {
    assert!(handler(RequestKind::Disasm).is_some());
    assert!(handler(RequestKind::Shutdown).is_none());
    assert!(!needs_address(RequestKind::Segments));
}

#[test]
fn progress_is_reported() {
    let p = report_open("/x/a", OutcomeOf::Done(Json::text("/x/a.i64")));
    assert!(p.done);
    let p = report_open("/x/a", OutcomeOf::Failed("bad".to_string()));
    assert!(p.message.contains("bad"), "{}", p.message);
    let p = report_analysis(OutcomeOf::Cancelled("stop".to_string()));
    assert_eq!(p.phase, "cancelled");
    let p = report_script(OutcomeOf::Failed("oops".to_string()), 12);
    assert_eq!(p.phase, "failed");
}

#[test]
fn an_open_that_succeeds_keeps_database_and_lock() {
    let going = || OpenEventOf::Checked(None);
    let (state, action) = play(request("/x/a.i64"), vec![locked(), opened(), going(), going()]);
    match action {
        OpenActionOf::Keep { opened, debug_info } => {
            assert_eq!(opened, "/x/a.i64");
            assert!(debug_info.is_none());
        }
        other => panic!("{other:?}"),
    }
    assert!(state.run.is_none());
    assert_eq!(state.held.database.as_deref(), Some("/x/a.i64"));
    assert_eq!(state.held.lock.as_deref(), Some("/x/a.lock"));
}

#[test]
fn an_open_that_fails_lets_go_of_the_lock() {
    let (state, action) = play(request("/x/a.i64"), vec![locked(), failed(false)]);
    match action {
        OpenActionOf::GiveUp { close: None, release, error: ToolErrorOf::OpenFailed(m) } => {
            assert_eq!(release.as_deref(), Some("/x/a.lock"));
            assert_eq!(m, "/x/a.i64: why");
        }
        other => panic!("{other:?}"),
    }
    assert!(state.held.database.is_none() && state.held.lock.is_none());

    let refused = OpenEventOf::Lock(Err(ToolErrorOf::DatabaseLocked("held".to_string())));
    let (state, action) = play(request("/x/a.i64"), vec![refused]);
    assert!(matches!(
        action,
        OpenActionOf::GiveUp { close: None, release: None, error: ToolErrorOf::DatabaseLocked(_) }
    ));
    assert!(state.run.is_none());

    let cancelled = OpenEventOf::Checked(Some(ToolErrorOf::Cancelled("c".to_string())));
    let (state, action) = play(request("/x/a.i64"), vec![locked(), opened(), cancelled]);
    match action {
        OpenActionOf::GiveUp { close, release, error: ToolErrorOf::Cancelled(_) } => {
            assert_eq!(close.as_deref(), Some("/x/a.i64"));
            assert_eq!(release.as_deref(), Some("/x/a.lock"));
        }
        other => panic!("{other:?}"),
    }
    assert!(state.held.database.is_none() && state.held.lock.is_none());
}

#[test]
fn an_unpacked_database_is_tried_once() {
    let (_, action) = play(request("/x/a.i64"), vec![locked(), failed(true)]);
    match action {
        OpenActionOf::Open { path, auto_analyse: false, output: None, .. } => {
            assert_eq!(path, "/x/a.id0")
        }
        other => panic!("{other:?}"),
    }
    let (_, action) = play(request("/x/a.i64"), vec![locked(), failed(true), failed(true)]);
    assert!(matches!(
        action,
        OpenActionOf::GiveUp { error: ToolErrorOf::OpenFailed(m), .. } if m == "/x/a.id0: why"
    ));
    let going = || OpenEventOf::Checked(None);
    let (_, action) =
        play(request("/x/a.i64"), vec![locked(), failed(true), opened(), going(), going()]);
    assert!(matches!(action, OpenActionOf::Keep { opened, .. } if opened == "/x/a.id0"));
}

#[test]
fn requested_debug_information_is_loaded_and_reported() {
    let mut req = request("/x/a.so");
    req.load_debug_info = true;
    req.debug_info_verbose = true;
    let going = || OpenEventOf::Checked(None);
    let mut again = request("/x/a.so");
    again.load_debug_info = true;
    let (_, action) = play(again, vec![locked(), opened(), going()]);
    match action {
        OpenActionOf::Check { phases } => {
            assert_eq!(phases.len(), 2);
            assert_eq!(phases[0].0, "analyzing");
            assert_eq!(phases[1].0, "loading_debug_info");
        }
        other => panic!("{other:?}"),
    }
    let loaded = OpenEventOf::Loaded { exists: true, outcome: Ok(false) };
    let (state, action) =
        play(req, vec![locked(), opened(), going(), going(), loaded, going()]);
    match action {
        OpenActionOf::Keep { opened, debug_info: Some(d) } => {
            assert_eq!(opened, "/x/a.so.i64");
            assert_eq!(d.path, "/x/a.so.dSYM/Contents/Resources/DWARF/a.so");
            assert!(!d.loaded);
            assert_eq!(d.error.as_deref(), Some("load returned false"));
        }
        other => panic!("{other:?}"),
    }
    assert!(state.held.lock.is_some());
}

#[test]
fn an_open_database_stays_as_it_is() {
    let held = || HeldOf { database: some("/x/a.i64"), lock: some("/x/a.lock") };
    let (state, action) =
        begin_open(held(), request("/x/a.id0"), &None, None, facts(true, false));
    assert!(matches!(action, OpenActionOf::Describe { current } if current == "/x/a.i64"));
    assert_eq!(state.held.lock.as_deref(), Some("/x/a.lock"));
    let (state, action) =
        begin_open(held(), request("/x/b.i64"), &None, None, facts(true, false));
    assert!(matches!(
        action,
        OpenActionOf::GiveUp { error: ToolErrorOf::DatabaseAlreadyOpen(p), .. } if p == "/x/a.i64"
    ));
    assert_eq!(state.held.database.as_deref(), Some("/x/a.i64"));
    let (state, action) = open_step(state, locked());
    assert!(matches!(action, OpenActionOf::Nothing));
    assert!(state.run.is_none());
}

#[test]
fn what_takes_long_is_reported() {
    let p = setup_report();
    assert_eq!((p.phase.as_str(), p.done), ("initializing", false));
    assert_eq!(p.message, "Initializing IDA runtime on the main thread");
    let plan = plan_open(&request("/x/a.so"), "/x/a.so", &None, facts(true, false)).unwrap();
    let p = opening_report(&plan);
    assert_eq!(p.phase, "opening");
    assert_eq!(p.message, "Opening raw binary and waiting for initial auto-analysis");
}
