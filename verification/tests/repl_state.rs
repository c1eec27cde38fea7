use dap::data_watch::DataWatchEntry;
use dap::paths::short_filename;
use dap::repl::breakpoint::{
    entry_from_options, parse_line_and_options, BreakpointOptions, ClientStopPolicy,
};
use dap::repl::lists::{add_unique, data_watch_add, data_watch_remove, remove_all, repl_prompt};
use dap::repl::sources::source_search_dirs_for_program;

#[test]
fn line_and_options_parse() {
    let (line, options) = parse_line_and_options(" 12 if n == 3 ").unwrap();
    assert_eq!(line, 12);
    assert_eq!(options.condition.as_deref(), Some("n == 3"));
    let (line, options) = parse_line_and_options("7").unwrap();
    assert_eq!(line, 7);
    assert_eq!(options, BreakpointOptions::default());
    assert_eq!(parse_line_and_options("  ").unwrap_err(), "line number required");
    assert_eq!(
        parse_line_and_options("x log hi").unwrap_err(),
        "invalid line number in break location"
    );
}

#[test]
fn entries_copy_options_and_policy() {
    let options = parse_line_and_options("3 if a hit 2 log m").unwrap().1;
    let entry = entry_from_options(
        &options,
        ClientStopPolicy {
            condition: true,
            hit: false,
            log: true,
        },
    );
    assert_eq!(entry.condition.as_deref(), Some("a"));
    assert_eq!(entry.hit_condition.as_deref(), Some("2"));
    assert_eq!(entry.log_message.as_deref(), Some("m"));
    assert_eq!(entry.hit_count, 0);
    assert!(entry.emulated_condition && !entry.emulated_hit && entry.emulated_log);
}

#[test]
fn lists_hold_items_once_in_order() {
    let mut skip: Vec<String> = Vec::new();
    add_unique(&mut skip, "/vendor/".into());
    add_unique(&mut skip, "site-packages".into());
    add_unique(&mut skip, "/vendor/".into());
    assert_eq!(skip, vec!["/vendor/", "site-packages"]);
    let mut watches = vec!["a".to_string(), "b".to_string(), "a".to_string(), "c".to_string()];
    remove_all(&mut watches, "a");
    assert_eq!(watches, vec!["b", "c"]);
    remove_all(&mut watches, "zzz");
    assert_eq!(watches, vec!["b", "c"]);
}

#[test]
fn data_watches_are_keyed_by_expression() {
    let mut watches: Vec<DataWatchEntry> = Vec::new();
    data_watch_add(&mut watches, "x".into(), true);
    data_watch_add(&mut watches, "y".into(), false);
    data_watch_add(&mut watches, "x".into(), false);
    assert_eq!(watches.len(), 2);
    assert!(watches[0].emulated);
    assert_eq!(watches[1], DataWatchEntry::new("y".into(), false));
    data_watch_remove(&mut watches, "x");
    assert_eq!(watches, vec![DataWatchEntry::new("y".into(), false)]);
}

#[test]
fn prompt_shows_stop_location() {
    assert_eq!(repl_prompt(None), "dap› ");
    assert_eq!(repl_prompt(Some(("/src/app/main.py", 12))), "main.py:12› ");
    assert_eq!(repl_prompt(Some(("/", 1))), "/:1› ");
    assert_eq!(short_filename("/a/b/c.rs"), "c.rs");
    assert_eq!(short_filename(".."), "..");
}

#[test]
fn source_dirs_start_with_the_programs_directory() {
    assert_eq!(
        source_search_dirs_for_program("/nonexistent-dap/src/main.py"),
        vec!["/nonexistent-dap/src"]
    );
    assert!(source_search_dirs_for_program("main.py").is_empty());
}

use dap::render::{
    format_data_watches, format_exception_breakpoints, format_exception_filters, format_scopes,
    format_stop_location, format_threads, format_watches, DataWatchSummary,
    ExceptionBreakpointSummary, ExceptionFilterSummary, FrameSummary, ScopeSummary,
    ThreadSummary, WatchValue,
};

#[test]
fn threads_and_scopes_render_with_defaults() {
    let threads = vec![
        ThreadSummary {
            id: Some(1),
            name: Some("main".into()),
        },
        ThreadSummary {
            id: None,
            name: None,
        },
    ];
    assert_eq!(format_threads(Some(&threads)), "Threads:\n  [1] main\n  [-1] ?\n");
    assert_eq!(format_threads(Some(&vec![])), "Threads:\n  (none)\n");
    assert_eq!(format_threads(None), "Threads:\n  (none)\n");
    let scopes = vec![ScopeSummary {
        name: Some("Locals".into()),
        variables_reference: Some(7),
        expensive: None,
    }];
    assert_eq!(
        format_scopes(Some(&scopes)),
        "Scopes:\n  Locals (variablesReference=7, expensive=false)\n"
    );
    assert_eq!(format_scopes(None), "Scopes:\n  (none)\n");
}

#[test]
fn watches_and_exceptions_render() {
    let watches = vec![WatchValue {
        expression: Some("x".into()),
        result: Some("42".into()),
    }];
    assert_eq!(format_watches(Some(&watches)), "Watches:\n  x = 42\n");
    let data = vec![
        DataWatchSummary {
            expression: Some("a".into()),
            baseline: Some("1".into()),
        },
        DataWatchSummary {
            expression: Some("b".into()),
            baseline: None,
        },
    ];
    assert_eq!(format_data_watches(Some(&data)), "Data watches:\n  a baseline=1\n  b\n");
    let installed = vec![ExceptionBreakpointSummary {
        filter: Some("uncaught".into()),
        condition: Some("err != nil".into()),
    }];
    assert!(format_exception_breakpoints(&installed).contains("uncaught if err != nil"));
    assert!(format_exception_breakpoints(&vec![]).contains("(none)"));
    let filters = vec![ExceptionFilterSummary {
        filter: Some("raised".into()),
        label: None,
        default: Some(true),
    }];
    assert_eq!(
        format_exception_filters(&filters),
        "Exception filters:\n  raised (raised) default=true\n"
    );
    assert!(format_exception_filters(&vec![]).contains("(none advertised)"));
}

#[test]
fn stop_location_uses_file_name() {
    let frame = FrameSummary {
        id: Some(1),
        name: Some("validate_config".into()),
        line: Some(75),
        path: Some("/src/app/main.py".into()),
    };
    assert_eq!(
        format_stop_location(Some(&frame)).as_deref(),
        Some("main.py:75 in validate_config")
    );
    let no_line = FrameSummary {
        id: None,
        name: None,
        line: None,
        path: Some("/x".into()),
    };
    assert_eq!(format_stop_location(Some(&no_line)), None);
    assert_eq!(format_stop_location(None), None);
}

use dap::child_session::{profile_from_name, ChildSessionProfile};
use dap::instruction::{resolve_instruction_location, InstructionSummary};
use dap::render::{
    format_breakpoints, format_breakpoints_table, format_variables, BreakpointFile,
    BreakpointLine, VariableSummary,
};

fn text(s: &str) -> Option<String> {
    Some(s.to_string())
}

#[test]
fn format_threads_renders_list() {
    let threads = vec![
        ThreadSummary {
            id: Some(1),
            name: text("main"),
        },
        ThreadSummary {
            id: Some(2),
            name: text("worker"),
        },
    ];
    let text = format_threads(Some(&threads));
    assert!(text.contains("[1] main"));
    assert!(text.contains("[2] worker"));
}

#[test]
fn format_scopes_and_variables() {
    let scopes = vec![ScopeSummary {
        name: text("Locals"),
        variables_reference: Some(1),
        expensive: Some(false),
    }];
    assert!(format_scopes(Some(&scopes)).contains("Locals"));
    let vars = vec![VariableSummary {
        name: text("x"),
        value: text("1"),
        var_type: text("int"),
    }];
    assert!(format_variables(Some(&vars)).contains("x"));
    assert!(format_variables(Some(&vars)).contains("= 1"));
}

#[test]
fn variables_are_aligned_on_the_longest_name() {
    let vars = vec![
        VariableSummary {
            name: text("x"),
            value: text("1"),
            var_type: text("int"),
        },
        VariableSummary {
            name: text("counter"),
            value: text("42"),
            var_type: None,
        },
        VariableSummary {
            name: None,
            value: None,
            var_type: text(""),
        },
    ];
    assert_eq!(
        format_variables(Some(&vars)),
        "Locals:\n  x       = 1 (int)\n  counter = 42\n  ?       = ?\n"
    );
    assert_eq!(format_variables(None), "Locals:\n  (none)\n");
    let short = vec![VariableSummary {
        name: text("é"),
        value: text("v"),
        var_type: None,
    }];
    assert_eq!(format_variables(Some(&short)), "Locals:\n  é    = v\n");
}

#[test]
fn format_breakpoints_and_exception_helpers() {
    assert!(format_breakpoints(Some(&vec![])).contains("(none)"));
    let breakpoints = vec![BreakpointFile {
        path: "/src/main.py".into(),
        entries: Some(vec![BreakpointLine {
            line: Some(10),
            condition: text("x > 0"),
            hit_condition: text("3"),
            log_message: text("here"),
        }]),
    }];
    let rendered = format_breakpoints(Some(&breakpoints));
    assert!(rendered.contains("/src/main.py:10"));
    assert!(rendered.contains("if x > 0"));

    let installed = vec![ExceptionBreakpointSummary {
        filter: text("uncaught"),
        condition: text("err != nil"),
    }];
    assert!(format_exception_breakpoints(&installed).contains("uncaught if err != nil"));
    let filters = vec![ExceptionFilterSummary {
        filter: text("raised"),
        label: text("Raised"),
        default: Some(false),
    }];
    assert!(format_exception_filters(&filters).contains("raised"));
    assert!(format_exception_breakpoints(&vec![]).contains("(none)"));
    assert!(format_exception_filters(&vec![]).contains("(none advertised)"));
}

#[test]
fn breakpoint_table_numbers_across_files() {
    let files = vec![
        BreakpointFile {
            path: "a.py".into(),
            entries: Some(vec![
                BreakpointLine {
                    line: Some(1),
                    condition: None,
                    hit_condition: None,
                    log_message: None,
                },
                BreakpointLine {
                    line: Some(5),
                    condition: None,
                    hit_condition: text("2"),
                    log_message: text("hi"),
                },
            ]),
        },
        BreakpointFile {
            path: "b.py".into(),
            entries: None,
        },
        BreakpointFile {
            path: "c.py".into(),
            entries: Some(vec![BreakpointLine {
                line: None,
                condition: None,
                hit_condition: None,
                log_message: None,
            }]),
        },
    ];
    assert_eq!(
        format_breakpoints_table(Some(&files), true),
        "Breakpoints:\n  1: a.py:1\n  2: a.py:5 hit 2 log hi\n  b.py: (none)\n  3: c.py:0\n"
    );
    assert_eq!(
        format_breakpoints_table(Some(&files), false),
        "Breakpoints:\n  a.py:1\n  a.py:5 hit 2 log hi\n  b.py: (none)\n  c.py:0\n"
    );
    assert_eq!(format_breakpoints_table(None, true), "Breakpoints:\n  (none)\n");
}

#[test]
fn resolves_instruction_location_from_disassemble_body() {
    let first = InstructionSummary {
        line: Some(42),
        path: text("/fake/main.py"),
    };
    assert_eq!(
        resolve_instruction_location(Some(&first)),
        Some(("/fake/main.py".into(), 42))
    );
    let empty_path = InstructionSummary {
        line: Some(1),
        path: text(""),
    };
    assert_eq!(resolve_instruction_location(Some(&empty_path)), None);
    assert_eq!(resolve_instruction_location(None), None);
}

#[test]
fn preset_names_deserialize() {
    let debugpy = profile_from_name("debugpy").unwrap();
    assert_eq!(debugpy, ChildSessionProfile::debugpy_preset());
    let lldb = profile_from_name("lldb-dap").unwrap();
    assert_eq!(lldb, ChildSessionProfile::lldb_dap_preset());
}

use dap::repl::actions::{BreakpointAction, ExceptionBreakpointAction, FunctionBreakpointAction};
use dap::repl::plan::{
    break_request, catch_action, function_breakpoint_target, smart_step_setting, trace_request,
};

#[test]
fn plain_commands_choose_their_requests() {
    assert_eq!(catch_action(true, true), ExceptionBreakpointAction::Remove);
    assert_eq!(catch_action(true, false), ExceptionBreakpointAction::Clear);
    assert_eq!(catch_action(false, true), ExceptionBreakpointAction::Add);
    assert_eq!(
        function_breakpoint_target("main".into(), FunctionBreakpointAction::Clear),
        None
    );
    assert_eq!(
        function_breakpoint_target(String::new(), FunctionBreakpointAction::Add),
        None
    );
    assert_eq!(
        function_breakpoint_target("main".into(), FunctionBreakpointAction::Add).as_deref(),
        Some("main")
    );
    assert!(smart_step_setting(None));
    assert!(!smart_step_setting(Some(false)));
    let t = trace_request("m.rs".into(), 4, "loop={i}".into());
    assert_eq!(t.action, BreakpointAction::Add);
    assert_eq!(t.options.log_message.as_deref(), Some("loop={i}"));
    assert_eq!(t.options.condition, None);
    let b = break_request("m.rs".into(), 9, BreakpointOptions::default());
    assert_eq!((b.path.as_str(), b.line, b.action), ("m.rs", 9, BreakpointAction::Add));
}

use dap::navigation::NavigationType;
use dap::repl::json_plan::{plan_request, JsonOp, JsonRequest};

fn request(op: &str) -> JsonRequest {
    JsonRequest {
        op: op.into(),
        ..Default::default()
    }
}

#[test]
fn json_ops_are_normalised_and_checked() {
    assert_eq!(plan_request(request("help")).unwrap(), JsonOp::Help);
    assert_eq!(
        plan_request(request("Step-Over")).unwrap(),
        JsonOp::Navigate(NavigationType::StepOver)
    );
    assert_eq!(plan_request(request("EXIT")).unwrap(), JsonOp::Disconnect);
    assert_eq!(
        plan_request(request("frobnicate")).unwrap_err(),
        "unknown op: frobnicate"
    );
    assert_eq!(
        plan_request(request("read-memory")).unwrap_err(),
        "read_memory requires memory_reference"
    );
    let mut write = request("write_memory");
    write.memory_reference = Some("0x10".into());
    assert_eq!(plan_request(write).unwrap_err(), "write_memory requires data");
    assert_eq!(
        plan_request(request("smart_step")).unwrap_err(),
        "smart_step requires value (true/false)"
    );
    let mut smart = request("smart_step");
    smart.value = Some("maybe".into());
    assert_eq!(plan_request(smart).unwrap_err(), "expected boolean value, got 'maybe'");
    let mut smart = request("smart-step");
    smart.value = Some("ON".into());
    assert_eq!(plan_request(smart).unwrap(), JsonOp::SmartStep(true));
}

#[test]
fn json_breakpoint_requests_carry_their_modifiers() {
    let mut bp = request("break");
    bp.path = Some("main.py".into());
    assert_eq!(plan_request(bp.clone()).unwrap_err(), "breakpoint requires line");
    bp.line = Some(3);
    bp.action = Some("Toggle".into());
    bp.condition = Some("x > 1".into());
    match plan_request(bp.clone()).unwrap() {
        JsonOp::Breakpoint(req) => {
            assert_eq!(req.path, "main.py");
            assert_eq!(req.line, 3);
            assert_eq!(req.action, BreakpointAction::Toggle);
            assert_eq!(req.options.condition.as_deref(), Some("x > 1"));
        }
        other => panic!("unexpected {other:?}"),
    }
    bp.action = Some("explode".into());
    assert_eq!(plan_request(bp).unwrap_err(), "unknown breakpoint action: explode");
    let mut catch = request("catch");
    catch.action = Some("clear".into());
    assert_eq!(
        plan_request(catch).unwrap(),
        JsonOp::ExceptionBreakpoint {
            filter: None,
            condition: None,
            action: ExceptionBreakpointAction::Clear
        }
    );
}

#[test]
fn json_defaults_fill_optional_arguments() {
    let mut dis = request("disasm");
    dis.memory_reference = Some("0x40".into());
    assert_eq!(
        plan_request(dis).unwrap(),
        JsonOp::Disassemble {
            memory_reference: "0x40".into(),
            offset: 0,
            count: 1
        }
    );
    let mut complete = request("complete");
    complete.text = Some("pri".into());
    assert_eq!(
        plan_request(complete).unwrap(),
        JsonOp::Completions {
            text: "pri".into(),
            column: 3
        }
    );
    let mut vars = request("variables");
    assert_eq!(plan_request(vars.clone()).unwrap(), JsonOp::Locals);
    vars.variables_reference = Some(9);
    assert_eq!(plan_request(vars).unwrap(), JsonOp::Variables { reference: 9 });
    assert_eq!(
        plan_request(request("thread_snapshot")).unwrap(),
        JsonOp::ThreadSnapshot {
            include_stacks: true,
            stack_depth: None,
            max_threads: None
        }
    );
    let mut ib = request("instruction_breakpoint");
    ib.memory_reference = Some("0x1".into());
    assert_eq!(
        plan_request(ib).unwrap(),
        JsonOp::InstructionBreakpoint {
            memory_reference: "0x1".into(),
            offset: 0,
            enabled: true
        }
    );
}

use dap::render::{format_status, ExecutionStateSummary, VersionedExecutionState};

#[test]
fn status_lists_known_fields() {
    let summary = VersionedExecutionState {
        version: 1,
        state: ExecutionStateSummary {
            status: "Stopped".into(),
            stop_reason: Some("breakpoint".into()),
            thread_id: Some(1),
            description: Some("paused".into()),
        },
    };
    assert!(format_status(&summary).contains("Stopped"));
    assert_eq!(
        format_status(&summary),
        "Status: Stopped\nStop reason: breakpoint\nThread: 1\nDescription: paused\n"
    );
    let bare = VersionedExecutionState {
        version: 2,
        state: ExecutionStateSummary {
            status: "Running".into(),
            stop_reason: None,
            thread_id: None,
            description: None,
        },
    };
    assert_eq!(format_status(&bare), "Status: Running\n");
}

use dap::render::{format_evaluate, EvaluateBody};

#[test]
fn format_evaluate_returns_result() {
    let body = EvaluateBody {
        result: Some("42".into()),
        result_type: None,
        json: "{\"result\":\"42\",\"variablesReference\":0}".into(),
    };
    assert_eq!(format_evaluate(&body), "42");
    let raw = EvaluateBody {
        result: None,
        result_type: None,
        json: "{\"variablesReference\":0}".into(),
    };
    assert_eq!(format_evaluate(&raw), "{\"variablesReference\":0}");
}

use dap::repl::plan::locals_reference;
use dap::routing::python_just_my_code;

fn scope(name: Option<&str>, reference: Option<i64>) -> ScopeSummary {
    ScopeSummary {
        name: name.map(String::from),
        variables_reference: reference,
        expensive: None,
    }
}

#[test]
fn locals_scope_is_found_by_name_or_position() {
    let scopes = vec![scope(Some("Arguments"), Some(3)), scope(Some("LOCALS"), Some(7))];
    assert_eq!(locals_reference(Some(&scopes)), Ok(7));
    let scopes = vec![scope(Some("Globals"), Some(5)), scope(Some("Registers"), Some(6))];
    assert_eq!(locals_reference(Some(&scopes)), Ok(5));
    let scopes = vec![scope(Some("Locals"), None), scope(Some("Locals"), Some(2))];
    assert_eq!(
        locals_reference(Some(&scopes)).unwrap_err(),
        "no scope with variables found"
    );
    assert!(locals_reference(Some(&vec![])).is_err());
    assert!(locals_reference(None).is_err());
}

#[test]
fn just_my_code_setting() {
    assert!(python_just_my_code(None));
    assert!(!python_just_my_code(Some(" false ")));
    assert!(!python_just_my_code(Some("NO")));
    assert!(python_just_my_code(Some("No")));
    assert!(python_just_my_code(Some("yes")));
    assert!(python_just_my_code(Some("banana")));
}

use dap::repl::json_response::local_answer;

#[test]
fn repl_ndjson_ready_and_help() {
    let help = local_answer(Some("1".into()), &plan_request(request("help")).unwrap()).unwrap();
    let line: serde_json::Value = serde_json::from_str(&help.to_line()).unwrap();
    assert_eq!(line["ok"], true);
    assert_eq!(line["id"], 1);
    assert!(line["result"]["ops"].is_array());
    assert_eq!(line["result"]["ops"].as_array().unwrap().len(), 48);
    assert_eq!(line["result"]["ops"][4]["hit_condition"], "3");
    assert_eq!(
        line["result"]["protocol"],
        "one JSON object per line on stdin; one JSON response per line on stdout"
    );

    let quit = local_answer(Some("2".into()), &plan_request(request("quit")).unwrap()).unwrap();
    let line: serde_json::Value = serde_json::from_str(&quit.to_line()).unwrap();
    assert_eq!(line["ok"], true);
    assert_eq!(line["id"], 2);
    assert_eq!(line["result"]["disconnected"], true);
    for op in ["exit", "STOP"] {
        let a = local_answer(None, &plan_request(request(op)).unwrap()).unwrap();
        assert_eq!(a.result.as_deref(), Some("{\"disconnected\":true}"));
    }
    assert!(local_answer(None, &plan_request(request("threads")).unwrap()).is_none());
}
