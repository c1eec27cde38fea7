use dap::attach::AttachArguments;
use dap::bounds::{
    truncate_variables_response, VariableEntry, VariablesBody, DEFAULT_MAX_VALUE_CHARS,
    DEFAULT_MAX_VARIABLES,
};
use dap::memory::{encode_write_payload, format_memory_read, MemoryReadBody};
use dap::plugin::target::ResolvedTarget;
use dap::render::{
    format_evaluate_pretty, format_navigate_status, format_stack_trace, format_variables,
    format_variables_table, EvaluateBody, FrameSummary, NavigateSummary, VariableSummary,
};
use dap::repl::actions::{BreakpointAction, ExceptionBreakpointAction};
use dap::repl::breakpoint::{entry_from_options, BreakpointEntry, BreakpointOptions, ClientStopPolicy};
use dap::repl::exceptions::ExceptionBreakpoints;
use dap::repl::json_response::JsonResponse;
use dap::repl::table::BreakpointTable;
use dap::reverse_request::decline_reverse_request;
use dap::routing::python_launch_arguments;
use dap::session_init::{
    build_initialize_arguments, build_launch_arguments, LaunchArguments, SessionInitConfig,
};
use dap::text_map::TextMap;

fn entry(value: &str) -> VariableEntry {
    VariableEntry { value: Some(value.to_string()) }
}

#[test]
fn truncates_variables_and_values() {
    let body = VariablesBody {
        is_object: true,
        variables: Some(vec![entry("short"), entry(&"x".repeat(20)), entry("tail")]),
    };
    let out = truncate_variables_response(&body, 2, 10).unwrap();
    assert!(out.truncated);
    assert_eq!(out.variable_count, 3);
    assert_eq!(out.variables.len(), 2);
    assert!(out.variables[1].truncated);
}

#[test]
fn truncation_cuts_values_at_the_byte_limit() {
    let body = VariablesBody {
        is_object: true,
        variables: Some(vec![entry("short"), entry(&"x".repeat(20)), VariableEntry { value: None }]),
    };
    let out = truncate_variables_response(&body, 5, 10).unwrap();
    assert!(!out.truncated);
    assert_eq!(out.variable_count, 3);
    assert_eq!(out.variables.len(), 3);
    assert_eq!(out.variables[0].value.as_deref(), Some("short"));
    assert!(!out.variables[0].truncated);
    assert_eq!(out.variables[1].value.as_deref(), Some("xxxxxxxxxx…"));
    assert_eq!(out.variables[2].value, None);
    assert!(!out.variables[2].truncated);

    // "é" takes two bytes: four of them are cut after eight bytes.
    let wide = VariablesBody { is_object: true, variables: Some(vec![entry("éééé")]) };
    let out = truncate_variables_response(&wide, 5, 4).unwrap();
    assert_eq!(out.variables[0].value.as_deref(), Some("éé…"));

    let missing = VariablesBody { is_object: true, variables: None };
    let out = truncate_variables_response(&missing, 5, 4).unwrap();
    assert_eq!(out.variable_count, 0);
    assert!(!out.truncated && out.variables.is_empty());

    let scalar = VariablesBody { is_object: false, variables: None };
    assert_eq!(truncate_variables_response(&scalar, 5, 4), None);
    assert_eq!(DEFAULT_MAX_VARIABLES, 200);
    assert_eq!(DEFAULT_MAX_VALUE_CHARS, 4096);
}

#[test]
fn write_payload_is_padded_base64_that_reads_back() {
    assert_eq!(encode_write_payload(b"Hello"), "SGVsbG8=");
    assert_eq!(encode_write_payload(b""), "");
    let body = MemoryReadBody {
        address: Some("0x1000".into()),
        data: Some(encode_write_payload(&[0x48, 0x65, 0x6C, 0x6C, 0x6F])),
        unreadable_bytes: None,
    };
    let known = MemoryReadBody {
        address: Some("0x1000".into()),
        data: Some("SGVsbG8=".into()),
        unreadable_bytes: None,
    };
    assert_eq!(format_memory_read(&body), format_memory_read(&known));
    assert!(format_memory_read(&body).unwrap().contains("Hello"));
}

#[test]
fn python_launch_arguments_fill_debugpy_fields() {
    let args = python_launch_arguments("no_such_dir_here/main.py", Some("python3"), Some(" no "));
    assert_eq!(args.launch_type, "debugpy");
    assert_eq!(args.request, "launch");
    assert_eq!(args.console, "internalConsole");
    assert!(!args.stop_on_entry);
    assert!(!args.just_my_code);
    assert_eq!(args.python.as_deref(), Some("python3"));
    assert_eq!(args.program, "no_such_dir_here/main.py");
    assert_eq!(args.cwd, None);

    let plain = python_launch_arguments("main_missing.py", None, None);
    assert!(plain.just_my_code);
    assert_eq!(plain.python, None);
    assert_eq!(plain.program, "main_missing.py");
}

#[test]
fn launch_and_initialize_arguments_follow_the_adapter() {
    let python = SessionInitConfig::new("missing_main.py").with_adapter_id("python");
    let init = build_initialize_arguments(&python);
    assert_eq!(init.adapter_id, "debugpy");
    assert_eq!(init.client_id, "dap-core");
    assert!(init.lines_start_at1 && init.columns_start_at1);
    assert_eq!(init.path_format, "path");
    assert!(init.supports_run_in_terminal_request);
    match build_launch_arguments(&python, None, Some("1")) {
        LaunchArguments::Python(a) => {
            assert_eq!(a.program, "missing_main.py");
            assert!(a.just_my_code);
        }
        other => panic!("unexpected {:?}", other),
    }

    let rust = SessionInitConfig::new("/tmp/app").with_adapter_id("rust");
    assert_eq!(build_initialize_arguments(&rust).adapter_id, "rust");
    assert_eq!(
        build_launch_arguments(&rust, None, None),
        LaunchArguments::Plain {
            program: "/tmp/app".into(),
            source_languages: Some(vec!["rust".to_string()]),
        }
    );

    let bare = SessionInitConfig::new("app.js");
    assert_eq!(build_initialize_arguments(&bare).adapter_id, "dap-proxy");
    assert_eq!(
        build_launch_arguments(&bare, None, None),
        LaunchArguments::Plain { program: "app.js".into(), source_languages: None }
    );
}

fn object(fields: &[(&str, &str)]) -> AttachArguments {
    let mut m = TextMap::new();
    for (k, v) in fields {
        m.insert(k.to_string(), v.to_string());
    }
    AttachArguments::Object(m)
}

fn field<'a>(args: &'a AttachArguments, key: &str) -> Option<&'a str> {
    match args {
        AttachArguments::Object(m) => m.get(key).map(String::as_str),
        _ => None,
    }
}

fn resolved(host: &str, port: u16, attach_fields: AttachArguments) -> ResolvedTarget {
    ResolvedTarget {
        id: "gdbserver".into(),
        name: "GDB Server".into(),
        description: None,
        spawn: None,
        host: host.into(),
        port,
        attach_fields,
    }
}

#[test]
fn attach_arguments_add_the_endpoint() {
    let target = resolved("127.0.0.1", 1234, object(&[("decompiler", "\"auto\"")]));
    let attach = target.attach_arguments();
    assert_eq!(field(&attach, "decompiler"), Some("\"auto\""));
    assert_eq!(field(&attach, "port"), Some("1234"));
    assert_eq!(field(&attach, "host"), Some("\"127.0.0.1\""));

    let own = resolved("qemu", 4321, object(&[("host", "\"board\"")]));
    let attach = own.attach_arguments();
    assert_eq!(field(&attach, "host"), Some("\"board\""));
    assert_eq!(field(&attach, "port"), Some("4321"));

    let scalar = resolved("qemu", 7, AttachArguments::Other("3".into()));
    let attach = scalar.attach_arguments();
    assert_eq!(field(&attach, "host"), Some("\"qemu\""));
    assert_eq!(field(&attach, "port"), Some("7"));
    match &attach {
        AttachArguments::Object(m) => assert_eq!(m.len(), 2),
        _ => panic!("expected an object"),
    }
}

#[test]
fn json_strings_escape_like_serde_json() {
    let quoted = |error: &str| JsonResponse::failure(None, error).to_line();
    assert_eq!(quoted("plain"), "{\"ok\":false,\"error\":\"plain\"}");
    assert_eq!(quoted("a\"b\\c"), "{\"ok\":false,\"error\":\"a\\\"b\\\\c\"}");
    assert_eq!(quoted("t\tn\nr\r"), "{\"ok\":false,\"error\":\"t\\tn\\nr\\r\"}");
    assert_eq!(
        quoted("\u{1}\u{1f}\u{8}\u{c}"),
        "{\"ok\":false,\"error\":\"\\u0001\\u001f\\b\\f\"}"
    );
    assert_eq!(quoted("é/"), "{\"ok\":false,\"error\":\"é/\"}");
    for text in ["", "x", "\u{7f}", "tab\there", "\u{2028}", "\\\"\u{0}"] {
        let expected = format!("{{\"ok\":false,\"error\":{}}}", serde_json::to_string(text).unwrap());
        assert_eq!(quoted(text), expected);
    }
}

#[test]
fn format_stack_trace_renders_frames() {
    let frames = vec![FrameSummary {
        id: Some(10),
        name: Some("foo".into()),
        line: Some(5),
        path: Some("/src/foo.rs".into()),
    }];
    let text = format_stack_trace(Some(&frames));
    assert!(text.contains("foo"));
    assert!(text.contains("foo.rs:5"));
    assert_eq!(text, "Stack trace:\n  #0 [10] foo (foo.rs:5)\n");
}

#[test]
fn stack_trace_numbers_frames_and_fills_defaults() {
    let frames = vec![
        FrameSummary {
            id: Some(1),
            name: Some("runpy".into()),
            line: Some(10),
            path: Some("/usr/lib/python3.12/runpy.py".into()),
        },
        FrameSummary { id: None, name: None, line: None, path: None },
    ];
    assert_eq!(
        format_stack_trace(Some(&frames)),
        "Stack trace:\n  #0 [1] runpy (runpy.py:10)\n  #1 [-1] ? (?:0)\n"
    );
    assert_eq!(format_stack_trace(Some(&vec![])), "Stack trace:\n  (no frames)\n");
    assert_eq!(format_stack_trace(None), "Stack trace:\n  (no frames)\n");
}

#[test]
fn navigate_status_includes_location() {
    let nav = NavigateSummary {
        navigation_type: Some("step".into()),
        stop_reason: Some("step".into()),
        thread_id: Some(1),
    };
    let top = FrameSummary {
        id: Some(1),
        name: Some("validate_config".into()),
        line: Some(75),
        path: Some("/tmp/main.py".into()),
    };
    let text = format_navigate_status(&nav, Some(&top));
    assert!(text.contains("main.py:75"));
    assert!(text.contains("validate_config"));
    assert_eq!(text, "→ main.py:75 in validate_config (step, step, thread 1)");
    let unknown = NavigateSummary { navigation_type: None, stop_reason: None, thread_id: None };
    assert_eq!(format_navigate_status(&unknown, None), "→ ? (?, ?, thread 0)");
}

#[test]
fn pretty_evaluation_shows_the_type() {
    let typed = EvaluateBody {
        result: Some("42".into()),
        result_type: Some("int".into()),
        json: "{}".into(),
    };
    assert_eq!(format_evaluate_pretty(&typed), "42 (int)");
    let untyped = EvaluateBody { result: Some("42".into()), result_type: Some("".into()), json: "{}".into() };
    assert_eq!(format_evaluate_pretty(&untyped), "42");
    let raw = EvaluateBody { result: None, result_type: None, json: "{\"x\":1}".into() };
    assert_eq!(format_evaluate_pretty(&raw), "{\"x\":1}");
}

#[test]
fn variables_table_matches_plain_variables() {
    let vars = vec![VariableSummary {
        name: Some("x".into()),
        value: Some("1".into()),
        var_type: Some("int".into()),
    }];
    assert_eq!(format_variables_table(Some(&vars)), "Locals:\n  x    = 1 (int)\n");
    assert_eq!(format_variables_table(Some(&vars)), format_variables(Some(&vars)));
}

#[test]
fn declined_reverse_requests_name_the_command() {
    let r = decline_reverse_request(7, "startDebugging");
    assert_eq!(r.request_seq, 7);
    assert!(!r.success);
    assert_eq!(r.command, "startDebugging");
    assert_eq!(
        r.message.as_deref(),
        Some("reverse request \"startDebugging\" is not supported")
    );
}

fn bp(log: Option<&str>) -> BreakpointEntry {
    let options = BreakpointOptions {
        log_message: log.map(String::from),
        ..BreakpointOptions::default()
    };
    entry_from_options(&options, ClientStopPolicy::default())
}

#[test]
fn breakpoint_table_toggles_and_clears() {
    let mut t = BreakpointTable::new();
    assert!(t.apply(BreakpointAction::Add, "a.py".into(), 10, bp(None)));
    assert!(t.apply(BreakpointAction::Toggle, "a.py".into(), 3, bp(None)));
    assert!(!t.apply(BreakpointAction::Toggle, "a.py".into(), 3, bp(None)));
    assert!(t.get("a.py", 3).is_none());
    assert!(t.apply(BreakpointAction::Add, "b.py".into(), 1, bp(None)));
    assert!(t.apply(BreakpointAction::Add, "a.py".into(), 2, bp(Some("hi"))));
    let lines: Vec<i64> = t.lines_for("a.py").iter().map(|(l, _)| *l).collect();
    assert_eq!(lines, vec![2, 10]);
    assert_eq!(t.get("a.py", 2).unwrap().log_message.as_deref(), Some("hi"));
    let mut files = t.files();
    files.sort();
    assert_eq!(files, vec!["a.py".to_string(), "b.py".to_string()]);

    assert!(!t.apply(BreakpointAction::Remove, "a.py".into(), 2, bp(None)));
    assert!(t.get("a.py", 2).is_none());
    assert!(!t.clear("a.py", Some(99)));
    assert!(t.clear("a.py", None));
    assert!(t.lines_for("a.py").is_empty());
    assert!(!t.clear("a.py", None));
    assert_eq!(t.files(), vec!["b.py".to_string()]);
}

#[test]
fn merged_breakpoints_prefer_the_debuggers_own() {
    let mut editor = BreakpointTable::new();
    editor.set("a.py".into(), 5, bp(Some("editor")));
    editor.set("c.py".into(), 1, bp(None));
    let mut repl = BreakpointTable::new();
    repl.set("a.py".into(), 5, bp(Some("repl")));
    repl.set("a.py".into(), 7, bp(None));
    let merged = BreakpointTable::merged(&editor, &repl);
    assert_eq!(merged.get("a.py", 5).unwrap().log_message.as_deref(), Some("repl"));
    assert!(merged.get("a.py", 7).is_some());
    assert!(merged.get("c.py", 1).is_some());
    assert_eq!(merged.lines_for("a.py").len(), 2);
    assert_eq!(editor.get("a.py", 5).unwrap().log_message.as_deref(), Some("editor"));
}

#[test]
fn exception_breakpoints_follow_catch_rules() {
    let mut ex = ExceptionBreakpoints::new();
    let advertised = vec![Some("raised".to_string()), Some("uncaught".to_string()), None];
    assert_eq!(
        ex.apply(ExceptionBreakpointAction::Add, Some("uncaught".into()), None, false, Some(&advertised)),
        Ok(true)
    );
    assert_eq!(
        ex.apply(
            ExceptionBreakpointAction::Add,
            Some("raised".into()),
            Some("x > 1".into()),
            true,
            Some(&advertised)
        ),
        Ok(true)
    );
    assert_eq!(
        ex.apply(ExceptionBreakpointAction::Add, Some("bogus".into()), None, false, Some(&advertised)),
        Err("unknown exception filter: bogus".to_string())
    );
    let filters: Vec<&str> = ex.entries().iter().map(|e| e.filter.as_str()).collect();
    assert_eq!(filters, vec!["raised", "uncaught"]);
    assert_eq!(ex.entries()[0].condition.as_deref(), Some("x > 1"));
    assert!(ex.entries()[0].emulated_condition);
    assert_eq!(
        ex.apply(ExceptionBreakpointAction::Add, Some("any".into()), None, false, Some(&vec![])),
        Ok(true)
    );
    assert_eq!(
        ex.apply(ExceptionBreakpointAction::Remove, None, None, false, None),
        Err("remove requires filter".to_string())
    );
    assert_eq!(
        ex.apply(ExceptionBreakpointAction::Add, None, None, false, None),
        Err("catch requires filter".to_string())
    );
    assert_eq!(ex.apply(ExceptionBreakpointAction::Remove, Some("any".into()), None, false, None), Ok(true));
    assert_eq!(ex.apply(ExceptionBreakpointAction::Remove, Some("any".into()), None, false, None), Ok(false));
    assert_eq!(ex.apply(ExceptionBreakpointAction::Clear, None, None, false, None), Ok(true));
    assert!(ex.entries().is_empty());
    assert_eq!(ex.apply(ExceptionBreakpointAction::Clear, None, None, false, None), Ok(false));
}

#[test]
fn serializes_success_and_failure() {
    let ok = JsonResponse::success(Some("1".into()), "{\"ok\":true}".into());
    let line = ok.to_line();
    assert!(line.contains("\"ok\":true"));
    assert!(line.contains("\"result\""));
    assert_eq!(line, "{\"id\":1,\"ok\":true,\"result\":{\"ok\":true}}");

    let err = JsonResponse::failure(Some("2".into()), "boom");
    let line = err.to_line();
    assert!(line.contains("\"ok\":false"));
    assert!(line.contains("boom"));
    assert_eq!(line, "{\"id\":2,\"ok\":false,\"error\":\"boom\"}");

    let anonymous = JsonResponse::failure(None, "say \"no\"");
    assert_eq!(anonymous.to_line(), "{\"ok\":false,\"error\":\"say \\\"no\\\"\"}");
}

use dap::repl::plan::{thread_snapshot_limits, top_frame_id};
use dap::repl::replies::{plain_reply, PlainReply};

#[test]
fn plain_replies_read_like_the_debugger() {
    let cases: Vec<(PlainReply, &str)> = vec![
        (PlainReply::Cleared { path: Some("a.py".into()), line: Some(3) }, "Cleared breakpoint at a.py:3"),
        (PlainReply::Cleared { path: None, line: None }, "Cleared all breakpoints in ?"),
        (PlainReply::CurrentFrame(4), "Current frame: 4"),
        (PlainReply::CurrentThread(-2), "Current thread: -2"),
        (PlainReply::SmartStep(Some(true)), "smart-step on"),
        (PlainReply::SmartStep(None), "smart-step off"),
        (PlainReply::WatchValue { expression: Some("x".into()), result: None }, "x = ?"),
        (PlainReply::RemovedWatch("x".into()), "removed watch: x"),
        (PlainReply::GotoVia("goto".into()), "goto via goto"),
        (
            PlainReply::FunctionBreakpoint { name: Some("main".into()), resolved_line: Some(12) },
            "function breakpoint: main @ line 12",
        ),
        (PlainReply::FunctionBreakpoint { name: None, resolved_line: None }, "function breakpoint: ?"),
        (PlainReply::DataWatchAdded(Some(true)), "data watch added (emulated=true)"),
        (PlainReply::DataWatchAdded(None), "data watch added (emulated=false)"),
        (PlainReply::RemovedDataWatch("y".into()), "removed data watch: y"),
        (PlainReply::RestartVia(None), "restart via restart"),
        (PlainReply::RestartVia(Some("goto".into())), "restart via goto"),
        (PlainReply::Assignment { name: Some("n".into()), value: Some("3".into()) }, "n = 3"),
        (PlainReply::Log("hit".into()), "LOG: hit"),
    ];
    for (reply, text) in cases {
        assert_eq!(plain_reply(&reply), text);
    }
}

#[test]
fn thread_snapshot_limits_are_clamped() {
    assert_eq!(thread_snapshot_limits(None, None), (10, 50));
    assert_eq!(thread_snapshot_limits(Some(0), Some(0)), (1, 1));
    assert_eq!(thread_snapshot_limits(Some(9999), Some(9999)), (512, 500));
    assert_eq!(thread_snapshot_limits(Some(-5), Some(-5)), (1, 1));
    assert_eq!(thread_snapshot_limits(Some(40), Some(7)), (40, 7));
}

#[test]
fn top_frame_id_reads_the_first_frame() {
    let frames = vec![
        FrameSummary { id: Some(3), name: None, line: None, path: None },
        FrameSummary { id: Some(4), name: None, line: None, path: None },
    ];
    assert_eq!(top_frame_id(Some(&frames)), Some(3));
    assert_eq!(top_frame_id(Some(&vec![])), None);
    assert_eq!(top_frame_id(None), None);
}

use dap::repl::exceptions::SnapshotException;
use dap::repl::table::{SnapshotBreakpoint, SnapshotFile};

fn snap(line: Option<i64>, condition: Option<&str>) -> SnapshotBreakpoint {
    SnapshotBreakpoint {
        line,
        condition: condition.map(String::from),
        hit_condition: None,
        log_message: None,
        policy: ClientStopPolicy { condition: condition.is_some(), hit: false, log: false },
    }
}

#[test]
fn editor_snapshot_imports_lines_with_their_modifiers() {
    let files = vec![
        SnapshotFile {
            path: "a.py".into(),
            breakpoints: Some(vec![snap(Some(4), None), snap(None, None), snap(Some(4), Some("x"))]),
        },
        SnapshotFile { path: "b.py".into(), breakpoints: None },
        SnapshotFile { path: "c.py".into(), breakpoints: Some(vec![snap(Some(1), None)]) },
    ];
    let table = BreakpointTable::from_snapshot(&files);
    let a4 = table.get("a.py", 4).unwrap();
    assert_eq!(a4.condition.as_deref(), Some("x"));
    assert!(a4.emulated_condition);
    assert_eq!(a4.hit_count, 0);
    assert_eq!(table.lines_for("a.py").len(), 1);
    assert!(table.lines_for("b.py").is_empty());
    assert!(table.get("c.py", 1).is_some());
    let mut files_seen = table.files();
    files_seen.sort();
    assert_eq!(files_seen, vec!["a.py".to_string(), "c.py".to_string()]);
}

#[test]
fn exception_snapshot_keeps_installed_filters() {
    let mut ex = ExceptionBreakpoints::new();
    ex.apply(ExceptionBreakpointAction::Add, Some("raised".into()), Some("mine".into()), false, None)
        .unwrap();
    let snapshot = vec![
        SnapshotException { filter: Some("raised".into()), condition: Some("theirs".into()), emulated_condition: true },
        SnapshotException { filter: Some("".into()), condition: None, emulated_condition: false },
        SnapshotException { filter: None, condition: None, emulated_condition: false },
        SnapshotException { filter: Some("uncaught".into()), condition: None, emulated_condition: false },
        SnapshotException { filter: Some("uncaught".into()), condition: Some("late".into()), emulated_condition: false },
    ];
    ex.import_snapshot(&snapshot);
    let entries = ex.entries();
    assert_eq!(entries.len(), 2);
    assert_eq!(entries[0].filter, "raised");
    assert_eq!(entries[0].condition.as_deref(), Some("mine"));
    assert_eq!(entries[1].filter, "uncaught");
    assert_eq!(entries[1].condition, None);
    assert!(ex.contains("uncaught"));
    assert!(!ex.contains(""));
}

use dap::repl::logpoints::{fill_log_message, log_expressions, log_template, LogPart};

#[test]
fn log_templates_split_and_fill() {
    let parts = log_template("x={x} y={ y }!");
    assert_eq!(
        parts,
        vec![
            LogPart::Text("x=".into()),
            LogPart::Expr("x".into()),
            LogPart::Text(" y=".into()),
            LogPart::Expr("y".into()),
            LogPart::Text("!".into()),
        ]
    );
    assert_eq!(log_expressions(&parts), vec!["x".to_string(), "y".to_string()]);
    assert_eq!(fill_log_message(&parts, &vec!["1".into(), "2".into()]), "x=1 y=2!");

    assert_eq!(log_template("plain"), vec![LogPart::Text("plain".into())]);
    assert_eq!(log_template("open {never"), vec![LogPart::Text("open {never".into())]);
    let tight = log_template("{a}{b}");
    assert_eq!(tight.len(), 5);
    assert_eq!(fill_log_message(&tight, &vec!["A".into(), "".into()]), "A");
    let tail = log_template("{a} then {b");
    assert_eq!(fill_log_message(&tail, &vec!["v".into()]), "v then {b");
}

use dap::repl::plan::{
    disassemble_count, instruction_breakpoint_plan, restart_location, InstructionBreakpointPlan,
};

#[test]
fn restart_and_disassemble_inputs() {
    assert_eq!(disassemble_count(0), 1);
    assert_eq!(disassemble_count(999), 256);
    assert_eq!(disassemble_count(4), 4);

    let frames = vec![
        FrameSummary { id: Some(1), name: None, line: Some(10), path: Some("/a.py".into()) },
        FrameSummary { id: Some(2), name: None, line: None, path: Some("/b.py".into()) },
        FrameSummary { id: Some(3), name: None, line: Some(3), path: None },
        FrameSummary { id: Some(1), name: None, line: Some(99), path: Some("/late.py".into()) },
    ];
    assert_eq!(restart_location(Some(&frames), 1), Ok(("/a.py".to_string(), 10)));
    assert_eq!(restart_location(Some(&frames), 2), Err("frame missing line".to_string()));
    assert_eq!(restart_location(Some(&frames), 3), Err("frame missing source path".to_string()));
    assert_eq!(restart_location(Some(&frames), 7), Err("frame not found in stack trace".to_string()));
    assert_eq!(restart_location(None, 1), Err("frame not found in stack trace".to_string()));

    assert_eq!(instruction_breakpoint_plan(true, false, false), InstructionBreakpointPlan::Native);
    assert_eq!(instruction_breakpoint_plan(false, false, true), InstructionBreakpointPlan::Unsupported);
    assert_eq!(instruction_breakpoint_plan(false, true, false), InstructionBreakpointPlan::RemoveEmulated);
    assert_eq!(instruction_breakpoint_plan(false, true, true), InstructionBreakpointPlan::AddEmulated);
}

use dap::repl::plan::{set_variable_method, SetVariableMethod};

#[test]
fn set_variable_prefers_the_native_request() {
    assert_eq!(set_variable_method(true, true), Ok(SetVariableMethod::SetVariable));
    assert_eq!(set_variable_method(false, true), Ok(SetVariableMethod::SetExpression));
    assert_eq!(
        set_variable_method(false, false),
        Err("adapter does not support setVariable or setExpression".to_string())
    );
}

use dap::navigation::NavigationType;

#[test]
fn navigation_arguments_name_the_thread() {
    assert_eq!(NavigationType::Continue.arguments(3), "{\"threadId\":3}");
    assert_eq!(NavigationType::StepBack.arguments(-1), "{\"threadId\":-1}");
}

use dap::repl::breakpoint::BreakpointRequest;
use dap::repl::context::ReplContext;

fn request(path: &str, line: i64, action: BreakpointAction) -> BreakpointRequest {
    BreakpointRequest { path: path.into(), line, action, options: BreakpointOptions::default() }
}

#[test]
fn repl_context_starts_with_defaults() {
    let ctx = ReplContext::new();
    assert_eq!(ctx.settings.current_thread, 1);
    assert_eq!(ctx.settings.current_frame, 1);
    assert!(ctx.settings.smart_step && ctx.settings.suppress_entry_stop);
    assert!(!ctx.settings.suppress_entry_done && ctx.settings.session_ready);
    assert_eq!(ctx.skip_paths, vec!["/rustc/", "/target/deps/", "site-packages"]);
    assert_eq!(ctx.repl_prompt(), "dap› ");
    let attached = ReplContext::attached();
    assert!(!attached.settings.suppress_entry_stop);
}

#[test]
fn repl_context_settings_and_lists() {
    let mut ctx = ReplContext::new();
    ctx.skip_add("/vendor/".into());
    ctx.skip_add("/vendor/".into());
    assert_eq!(ctx.skip_paths.len(), 4);
    ctx.skip_clear(Some("/rustc/"));
    assert_eq!(ctx.skip_paths, vec!["/target/deps/", "site-packages", "/vendor/"]);
    ctx.skip_clear(None);
    assert!(ctx.skip_paths.is_empty());
    ctx.watch_add("x".into());
    ctx.watch_add("y".into());
    ctx.watch_add("x".into());
    ctx.watch_remove("x");
    assert_eq!(ctx.watches, vec!["y"]);
    assert!(!ctx.set_smart_step(false));
    assert!(!ctx.settings.smart_step);
    ctx.settings.suppress_entry_done = true;
    assert!(ctx.set_suppress_entry_stop(true));
    assert!(ctx.settings.suppress_entry_done);
    assert!(!ctx.set_suppress_entry_stop(false));
    assert!(!ctx.settings.suppress_entry_done);
    ctx.set_thread(7);
    ctx.set_frame(9);
    assert_eq!((ctx.settings.current_thread, ctx.settings.current_frame), (7, 9));
    ctx.last_location = Some(("/src/app/main.py".into(), 12));
    assert_eq!(ctx.repl_prompt(), "main.py:12› ");
}

#[test]
fn repl_context_breakpoints_queue_apply_and_merge() {
    let mut ctx = ReplContext::new();
    ctx.settings.session_ready = false;
    assert!(ctx.queue_breakpoint(request("a.py", 1, BreakpointAction::Add)));
    assert_eq!(ctx.pending_breakpoints.len(), 1);
    ctx.settings.session_ready = true;
    assert!(!ctx.queue_breakpoint(request("a.py", 2, BreakpointAction::Add)));
    assert_eq!(ctx.pending_breakpoints.len(), 1);

    let policy = ClientStopPolicy { condition: false, hit: true, log: false };
    assert!(ctx.apply_breakpoint(&request("a.py", 5, BreakpointAction::Add), policy));
    assert!(ctx.breakpoints.get("a.py", 5).unwrap().emulated_hit);
    assert!(!ctx.apply_breakpoint(&request("a.py", 5, BreakpointAction::Toggle), policy));
    assert!(ctx.apply_breakpoint(&request("a.py", 6, BreakpointAction::Toggle), policy));

    ctx.apply_breakpoint_snapshot(
        &vec![SnapshotFile { path: "a.py".into(), breakpoints: Some(vec![snap(Some(6), Some("c"))]) }],
        &vec![SnapshotException { filter: Some("raised".into()), condition: None, emulated_condition: false }],
    );
    let merged = ctx.list_breakpoints();
    assert_eq!(merged.get("a.py", 6).unwrap().condition, None);
    assert_eq!(ctx.editor_breakpoints.get("a.py", 6).unwrap().condition.as_deref(), Some("c"));
    assert_eq!(ctx.exception_breakpoints.entries().len(), 1);

    assert!(ctx.clear_breakpoints("a.py", None));
    assert!(!ctx.clear_breakpoints("a.py", Some(6)));
    assert!(ctx.list_breakpoints().get("a.py", 6).is_some());
}

#[test]
fn repl_context_data_watches() {
    let mut ctx = ReplContext::new();
    ctx.data_watch_add("x".into(), true);
    ctx.data_watch_add("x".into(), false);
    ctx.data_watch_add("y".into(), false);
    assert_eq!(ctx.data_watches.len(), 2);
    assert!(ctx.data_watches[0].emulated);
    ctx.data_watch_remove("x");
    assert_eq!(ctx.data_watches.len(), 1);
    assert_eq!(ctx.data_watches[0].expression, "y");
}

use dap::session_init::{init_result, init_steps, InitStep};

#[test]
fn init_steps_follow_the_adapter() {
    let python = SessionInitConfig::new("main.py").with_adapter_id("python");
    assert_eq!(
        init_steps(&python, "launch", Some("/abs/main.py")),
        vec![
            InitStep::Initialize,
            InitStep::RequestUntilInitialized("launch".into()),
            InitStep::EntryBreakpoint("/abs/main.py".into()),
            InitStep::ConfigurationDone,
            InitStep::WaitResponse("launch".into()),
            InitStep::WaitEvent("stopped".into()),
        ]
    );
    assert_eq!(init_steps(&python, "attach", None)[2], InitStep::EntryBreakpoint("main.py".into()));
    let other = SessionInitConfig::new("a.out").with_adapter_id("lldb-dap");
    assert_eq!(
        init_steps(&other, "launch", None),
        vec![
            InitStep::Initialize,
            InitStep::Request("launch".into()),
            InitStep::WaitEvent("initialized".into()),
            InitStep::ConfigurationDone,
            InitStep::WaitEvent("stopped".into()),
        ]
    );
    let caps = String::from("{\"supportsConfigurationDoneRequest\":true}");
    let r = init_result(&python, Some("/abs/main.py"), caps.clone(), Some("entry".into()), Some(4));
    assert!(r.ready);
    assert_eq!(r.capabilities, caps);
    assert_eq!(r.stop_reason.as_deref(), Some("entry"));
    assert_eq!(r.thread_id, Some(4));
    let entry = r.entry_location.unwrap();
    assert_eq!((entry.path.as_str(), entry.line, entry.frame_id), ("/abs/main.py", 1, Some(1)));
    let fallback = init_result(&python, None, String::new(), None, None).entry_location.unwrap();
    assert_eq!(fallback.path, "main.py");
    let r = init_result(&other, Some("/abs/a.out"), caps.clone(), None, None);
    assert!(r.entry_location.is_none());
    assert_eq!(r.capabilities, caps);
    assert!(init_result(&SessionInitConfig::new("x"), None, String::new(), None, None)
        .entry_location
        .is_none());
}

use dap::session_init::{headless_adapter_id, uses_direct_stdio};

#[test]
fn headless_sessions_pick_their_adapter() {
    assert_eq!(headless_adapter_id(Some("python"), Some("qemu")).as_deref(), Some("python"));
    assert_eq!(headless_adapter_id(None, Some("qemu")).as_deref(), Some("gdb-remote"));
    assert_eq!(headless_adapter_id(None, None), None);
    assert!(uses_direct_stdio("python"));
    assert!(!uses_direct_stdio("lldb-dap"));
}

use dap::instruction::instruction_breakpoint_key;

#[test]
fn emulated_instruction_breakpoint_round_trip() {
    let mut ctx = ReplContext::new();
    ctx.apply_breakpoint(&request("lib.rs", 3, BreakpointAction::Add), ClientStopPolicy::default());
    let policy = ClientStopPolicy { condition: false, hit: false, log: false };
    let key = instruction_breakpoint_key("0x1000", 4);
    ctx.emulate_instruction_breakpoint(key.clone(), "/src/main.rs".into(), 12, policy);
    let entry = ctx.breakpoints.get("/src/main.rs", 12).unwrap();
    assert_eq!((entry.condition.clone(), entry.hit_count), (None, 0));
    assert_eq!(
        ctx.remove_emulated_instruction_breakpoint(&key),
        Some(("/src/main.rs".to_string(), 12))
    );
    assert!(ctx.breakpoints.get("/src/main.rs", 12).is_none());
    assert!(ctx.breakpoints.get("lib.rs", 3).is_some());
    assert_eq!(ctx.remove_emulated_instruction_breakpoint(&key), None);
    assert_eq!(ctx.remove_emulated_instruction_breakpoint("other"), None);
}

use dap::repl::sent::SourceBreakpointSpec;

#[test]
fn breakpoints_sent_for_a_file() {
    let mut ctx = ReplContext::new();
    let with_condition = BreakpointRequest {
        path: "a.py".into(),
        line: 3,
        action: BreakpointAction::Add,
        options: BreakpointOptions { condition: Some("x".into()), ..BreakpointOptions::default() },
    };
    ctx.apply_breakpoint(&with_condition, ClientStopPolicy { condition: true, hit: false, log: false });
    ctx.apply_breakpoint(&request("a.py", 4, BreakpointAction::Add), ClientStopPolicy::default());
    ctx.apply_breakpoint(&request("./a.py", 5, BreakpointAction::Add), ClientStopPolicy::default());
    let editor = |line: i64, condition: &str| SnapshotBreakpoint {
        line: Some(line),
        condition: Some(condition.into()),
        hit_condition: None,
        log_message: None,
        policy: ClientStopPolicy::default(),
    };
    ctx.apply_breakpoint_snapshot(
        &vec![
            SnapshotFile { path: "a.py".into(), breakpoints: Some(vec![editor(4, "e")]) },
            SnapshotFile { path: "/w/a.py".into(), breakpoints: Some(vec![editor(5, "f"), editor(7, "g")]) },
        ],
        &vec![],
    );
    let sent = ctx.breakpoint_specs_for_path("a.py", &vec!["./a.py".into()], &vec!["/w/a.py".into()]);
    let spec = |line: i64, condition: Option<&str>| SourceBreakpointSpec {
        line,
        condition: condition.map(String::from),
        hit_condition: None,
        log_message: None,
    };
    assert_eq!(sent, vec![spec(3, None), spec(4, Some("e")), spec(5, None), spec(7, Some("g"))]);
    assert_eq!(ctx.breakpoint_specs_for_path("b.py", &vec![], &vec![]), vec![]);
}
