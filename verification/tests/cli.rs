use ida_cli::cli::{
    boot_step, cli_command_to_request, client_timeout, log_tail, make_request_id,
    no_answer_message, registry_pid, run_cli, show_response, status_lines, AddressArgs, BootStep,
    Cli, CliActionOf, CliCommand, DaemonArgs, DaemonCommand, DecompileArgs, DisasmArgs,
    FunctionsArgs, IntConvertArgs, LookupFuncsArgs, OutputOf, ShowOf, TargetArgs, TargetCommand,
};
use ida_cli::daemon::{
    log_path, registry_path, socket_path, worker_socket_path, CacheEnv,
};
use ida_cli::dispatch::{plan_analysis, CallOf, Place};
use ida_cli::json::{Json, JsonObject};
use ida_cli::protocol::Response;
use ida_cli::spill::{
    estimate_tokens, maybe_spill, plan_spill, sha256_hex, spill_dir, spill_filename, spill_result,
    value_type_name, SpillPlan, SpillTime, DEFAULT_SPILL_TOKEN_LIMIT,
};

fn some(s: &str) -> Option<String> {
    Some(s.to_string())
}

fn cli(command: CliCommand) -> Cli {
    Cli { target: some("t2"), spill_threshold: 10_000, command }
}

fn object(fields: Vec<(&str, Json)>) -> Json {
    let mut o = JsonObject::new();
    for (k, v) in fields {
        o.put(k, v);
    }
    Json::Object(o)
}

#[test]
fn commands_become_requests() {
    let (op, params) = cli_command_to_request(&CliCommand::Functions(FunctionsArgs {
        offset: 3,
        limit: 50,
        filter: some("main"),
    }));
    assert_eq!(op, "functions");
    assert_eq!(params.get("offset"), Some(&Json::number(3)));
    assert_eq!(params.get("limit"), Some(&Json::number(50)));
    assert_eq!(params.get("filter"), Some(&Json::text("main")));
    let call = plan_analysis(&op, &params).unwrap();
    assert!(matches!(
        call,
        CallOf::ListFunctions { offset: 3, limit: 50, filter: Some(f) } if f == "main"
    ));
}

#[test]
fn requests_of_the_command_line_are_understood() {
    let disasm = CliCommand::Disasm(DisasmArgs {
        address: some("0x1000"),
        name: None,
        count: 20,
        offset: 1,
    });
    let (op, params) = cli_command_to_request(&disasm);
    match plan_analysis(&op, &params).unwrap() {
        CallOf::Disasm { offset: 1, count: 20, place: Place::Addr(0x1000) } => {}
        other => panic!("{other:?}"),
    }
    let decompile = CliCommand::Decompile(DecompileArgs {
        address: None,
        name: some("main"),
        max_lines: 0,
    });
    let (op, params) = cli_command_to_request(&decompile);
    match plan_analysis(&op, &params).unwrap() {
        CallOf::Decompile { max_lines: 0, place: Place::Name(n) } => assert_eq!(n, "main"),
        other => panic!("{other:?}"),
    }
    let lookup = CliCommand::LookupFuncs(LookupFuncsArgs {
        queries: vec!["a".to_string(), "0x10".to_string()],
    });
    let (op, params) = cli_command_to_request(&lookup);
    match plan_analysis(&op, &params).unwrap() {
        CallOf::LookupFuncs { queries } => assert_eq!(queries, vec!["a".to_string(), "0x10".to_string()]),
        other => panic!("{other:?}"),
    }
    let at = CliCommand::FunctionAt(AddressArgs { address: "bogus".to_string() });
    let (op, params) = cli_command_to_request(&at);
    assert_eq!(plan_analysis(&op, &params).unwrap_err(), "Invalid address: bogus");
    let (op, _) = cli_command_to_request(&CliCommand::IntConvert(IntConvertArgs {
        value: "5".to_string(),
    }));
    assert_eq!(op, "int_convert");
    assert_eq!(
        plan_analysis("no_such_op", &object(vec![])).unwrap_err(),
        "Unknown operation: no_such_op"
    );
    assert_eq!(
        plan_analysis("resolve_function", &object(vec![])).unwrap_err(),
        "Missing parameter: name"
    );
}

#[test]
fn a_command_line_leads_to_one_action() {
    match run_cli(&cli(CliCommand::Info), &None) {
        CliActionOf::Send { op, target, timeout_secs, show: ShowOf::Spill { threshold, .. }, .. } => {
            assert_eq!(op, "info");
            assert_eq!(target, some("t2"));
            assert_eq!(timeout_secs, client_timeout(&None));
            assert_eq!(threshold, 10_000);
        }
        other => panic!("{other:?}"),
    }
    let stop = CliCommand::Daemon(DaemonArgs { command: DaemonCommand::Stop });
    match run_cli(&cli(stop), &None) {
        CliActionOf::Send { op, target, show: ShowOf::Stopped, .. } => {
            assert_eq!(op, "shutdown");
            assert_eq!(target, None);
        }
        other => panic!("{other:?}"),
    }
    let start = CliCommand::Daemon(DaemonArgs {
        command: DaemonCommand::Start { background: true },
    });
    assert!(matches!(run_cli(&cli(start), &None), CliActionOf::StartBackground));
    let load = CliCommand::Target(TargetArgs {
        command: TargetCommand::Load {
            file: "/x/a.so".to_string(),
            idb_out: None,
            no_analyse: true,
        },
    });
    match run_cli(&cli(load), &some("33")) {
        CliActionOf::Send { op, params, show: ShowOf::Value, .. } => {
            assert_eq!(op, "target.load");
            assert_eq!(params.get("auto_analyse"), Some(&Json::Bool(false)));
        }
        other => panic!("{other:?}"),
    }
}

#[test]
fn answers_are_shown() {
    let ok = Response::success("r".to_string(), object(vec![("closed", Json::text("t4"))]));
    match show_response(ShowOf::Closed { id: "x".to_string() }, ok).unwrap() {
        OutputOf::Note(n) => assert_eq!(n, "Target 't4' closed."),
        other => panic!("{other:?}"),
    }
    let ok = Response::success("r".to_string(), object(vec![]));
    match show_response(ShowOf::Switched { id: "t2".to_string() }, ok).unwrap() {
        OutputOf::Note(n) => assert_eq!(n, "Switched to target 't2'."),
        other => panic!("{other:?}"),
    }
    let bad = Response::error("r".to_string(), "no such target".to_string());
    assert_eq!(show_response(ShowOf::Value, bad).unwrap_err(), "no such target");
    let silent = Response { id: "r".to_string(), ok: false, result: None, error: None };
    assert_eq!(show_response(ShowOf::Value, silent).unwrap_err(), "Unknown error");
    let silent = Response { id: "r".to_string(), ok: false, result: None, error: None };
    assert_eq!(show_response(ShowOf::Stopped, silent).unwrap_err(), "Failed to stop daemon: ");
}

#[test]
fn small_helpers_of_the_command_line() {
    assert_eq!(make_request_id(0xabc, 0x1f), "0000000000000abc0000001f");
    assert!(no_answer_message(9, "info").contains("9"));
    assert_eq!(boot_step(true, true, 99_999), BootStep::Ready);
    assert_eq!(boot_step(false, true, 0), BootStep::Exited);
    assert_eq!(boot_step(false, false, 15_000), BootStep::TimedOut);
    assert_eq!(boot_step(false, false, 14_999), BootStep::Wait);
    assert_eq!(log_tail("a\nb\nc"), "c\nb\na");
    let reg = object(vec![
        ("pid", Json::number(5)),
        ("socket", Json::text("/s")),
        ("version", Json::text("1")),
    ]);
    assert_eq!(registry_pid(&reg), 5);
    assert_eq!(
        status_lines(&Some(reg), true, &Some(object(vec![("targets", Json::number(2))]))),
        vec![
            "Daemon is running:".to_string(),
            "  PID: 5 (alive)".to_string(),
            "  Socket: /s".to_string(),
            "  Version: 1".to_string(),
            "  Targets loaded: 2".to_string(),
            "  Status: healthy".to_string(),
        ]
    );
}

#[test]
fn files_stand_in_the_cache() {
    let env = CacheEnv { macos: false, xdg_cache_home: None, home: some("/home/u") };
    assert_eq!(socket_path(&env), "/home/u/.cache/ida-rs-cli/ida-rs-cli.sock");
    assert_eq!(registry_path(&env), "/home/u/.cache/ida-rs-cli/daemon.json");
    assert_eq!(log_path(&env), "/home/u/.cache/ida-rs-cli/daemon.log");
    assert_eq!(
        worker_socket_path(&env, 42, "t1"),
        "/home/u/.cache/ida-rs-cli/workers/r42-t1.sock"
    );
    let env = CacheEnv { macos: false, xdg_cache_home: some("/c"), home: some("/home/u") };
    assert_eq!(socket_path(&env), "/c/ida-rs-cli/ida-rs-cli.sock");
    let env = CacheEnv { macos: true, xdg_cache_home: some("/c"), home: some("/home/u") };
    assert_eq!(socket_path(&env), "/home/u/Library/Caches/ida-rs-cli/ida-rs-cli.sock");
    let env = CacheEnv { macos: false, xdg_cache_home: None, home: None };
    assert_eq!(socket_path(&env), "/tmp/ida-rs-cli/ida-rs-cli.sock");
}

#[test]
fn tokens_are_estimated() {
    assert_eq!(estimate_tokens(0), 0);
    for n in [1usize, 2, 3, 4, 18, 19, 20, 37, 38, 39, 380, 381, 1_000_000, 123_456_789] {
        assert_eq!(estimate_tokens(n), ((n as f64) / 3.8).ceil() as usize, "{n}");
    }
}

#[test]
fn hashes_and_names_of_spilled_output() {
    assert_eq!(
        sha256_hex(b"abc"),
        "ba7816bf8f01cfea414140de5dae2223b00361a396177a9cb410ff61f20015ad"
    );
    assert_eq!(spill_dir("/tmp", 0), "/tmp/ida-rs-spills/19700101");
    assert_eq!(spill_dir("/tmp", 951_782_400), "/tmp/ida-rs-spills/20000229");
    assert_eq!(spill_filename("target.list", 86_400 + 3_723, 7), "target_list-010203_007.json");
    assert_eq!(value_type_name(&Json::Null), "null");
    assert_eq!(value_type_name(&Json::Array(vec![])), "array");
}

#[test]
fn large_output_is_spilled() {
    let time = SpillTime { dir_secs: 0, secs: 0, millis: 0 };
    let value = object(vec![("b", Json::text("x")), ("a", Json::Array(vec![Json::number(1)]))]);
    let plan = maybe_spill(&value, "op", DEFAULT_SPILL_TOKEN_LIMIT, "/tmp", time);
    match &plan {
        SpillPlan::Print(out) => {
            assert_eq!(out, "{\n  \"a\": [\n    1\n  ],\n  \"b\": \"x\"\n}")
        }
        other => panic!("{other:?}"),
    }
    let r = spill_result(plan);
    assert!(!r.spilled);
    let plan = maybe_spill(&value, "op", 2, "/tmp", time);
    match &plan {
        SpillPlan::Write { dir, path, data, envelope, note } => {
            assert_eq!(dir, "/tmp/ida-rs-spills/19700101");
            assert!(path.starts_with(dir.as_str()));
            assert_eq!(data, "{\n  \"a\": [\n    1\n  ],\n  \"b\": \"x\"\n}");
            assert_eq!(envelope.str_field("artifact_path"), Some(path));
            assert_eq!(envelope.get("bytes").and_then(|v| v.as_u64()), Some(data.len() as u64));
            assert_eq!(envelope.str_field("sha256"), Some(&sha256_hex(data.as_bytes())));
            let summary = envelope.get("summary").unwrap();
            assert_eq!(summary.str_field("kind").map(|s| s.as_str()), Some("object"));
            assert_eq!(
                summary.get("keys"),
                Some(&Json::Array(vec![Json::text("a"), Json::text("b")]))
            );
            assert!(note.starts_with("[spill] Output too large ("), "{note}");
        }
        other => panic!("{other:?}"),
    }
    let r = spill_result(plan);
    assert!(r.spilled);
    assert!(r.stdout_output.contains("\"spilled\": true"));
    assert!(matches!(
        plan_spill("abcd".to_string(), &value, "op", 0, "/tmp", time),
        SpillPlan::Print(out) if out == "abcd"
    ));
}
