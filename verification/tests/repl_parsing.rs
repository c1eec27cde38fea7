use dap::repl::actions::{
    default_skip_paths, parse_bool, parse_breakpoint_action, parse_exception_breakpoint_action,
    parse_function_breakpoint_action, BreakpointAction, ExceptionBreakpointAction,
    FunctionBreakpointAction,
};
use dap::repl::breakpoint::{
    parse_break_location, parse_options_text, take_until_keyword, BreakpointOptions,
};
use dap::repl::commands::{parse_line, ReplCommand};

#[test]
fn parses_condition_hit_and_log() {
    let (_, line, options) =
        parse_break_location("main.rs:10 if x > 5 hit 3 log value={x}").unwrap();
    assert_eq!(line, 10);
    assert_eq!(options.condition.as_deref(), Some("x > 5"));
    assert_eq!(options.hit_condition.as_deref(), Some("3"));
    assert_eq!(options.log_message.as_deref(), Some("value={x}"));
}

#[test]
fn parses_log_only_option() {
    let options = parse_options_text("log entered function").unwrap();
    assert_eq!(options.log_message.as_deref(), Some("entered function"));
}

#[test]
fn rejects_invalid_break_location() {
    assert!(parse_break_location("main.rs").is_err());
    assert!(parse_break_location("main.rs:not-a-line").is_err());
}

#[test]
fn take_until_keyword_splits_on_first_match() {
    let (left, right) = take_until_keyword("x > 0 hit 3", &["hit", "log"]);
    assert_eq!(left, "x > 0 ");
    assert_eq!(right, "hit 3");
}

#[test]
fn parses_break_with_modifiers() {
    let cmd = parse_line("break main.rs:10 if x > 5 hit 3 log entered");
    assert_eq!(
        cmd,
        ReplCommand::Break {
            path: "main.rs".into(),
            line: 10,
            options: BreakpointOptions {
                condition: Some("x > 5".into()),
                hit_condition: Some("3".into()),
                log_message: Some("entered".into()),
            },
        }
    );
}

#[test]
fn parses_trace_command() {
    let cmd = parse_line("trace main.rs:4 log loop={i}");
    assert!(matches!(cmd, ReplCommand::Trace { .. }));
}

#[test]
fn parses_skip_commands() {
    assert_eq!(parse_line("skip"), ReplCommand::SkipList);
    assert_eq!(
        parse_line("skip add /vendor/"),
        ReplCommand::SkipAdd {
            pattern: "/vendor/".into()
        }
    );
}

#[test]
fn parses_info_break_and_set_variable() {
    assert_eq!(parse_line("info break"), ReplCommand::InfoBreak);
    assert_eq!(parse_line("info breakpoints"), ReplCommand::InfoBreak);
    assert_eq!(parse_line("bt full"), ReplCommand::Stack { full: true });
    assert_eq!(
        parse_line("pp x"),
        ReplCommand::Eval {
            expression: "x".into(),
            pretty: true,
        }
    );
    assert_eq!(
        parse_line("colors on"),
        ReplCommand::Colors { enable: Some(true) }
    );
    assert_eq!(parse_line("color"), ReplCommand::Colors { enable: None });
    assert_eq!(
        parse_line("set x = 42"),
        ReplCommand::SetVariable {
            name: "x".into(),
            value: "42".into(),
        }
    );
}

#[test]
fn parses_catch_commands() {
    assert_eq!(
        parse_line("catch uncaught"),
        ReplCommand::Catch {
            filter: Some("uncaught".into()),
            condition: None,
            clear: false,
        }
    );
    assert_eq!(
        parse_line("catch raised if err != nil"),
        ReplCommand::Catch {
            filter: Some("raised".into()),
            condition: Some("err != nil".into()),
            clear: false,
        }
    );
    assert_eq!(
        parse_line("catch clear"),
        ReplCommand::Catch {
            filter: None,
            condition: None,
            clear: true,
        }
    );
    assert_eq!(parse_line("info catch"), ReplCommand::InfoCatch);
    assert_eq!(parse_line("show"), ReplCommand::Show { context: None });
    assert_eq!(parse_line("show 3"), ReplCommand::Show { context: Some(3) });
}

#[test]
fn parses_clear_and_unknown_commands() {
    assert_eq!(
        parse_line("clear main.rs:10"),
        ReplCommand::Clear {
            path: "main.rs".into(),
            line: Some(10),
        }
    );
    assert!(matches!(parse_line("info foo"), ReplCommand::Unknown(_)));
    assert!(matches!(parse_line("set bad"), ReplCommand::Unknown(_)));
}

#[test]
fn parses_breakpoint_action() {
    assert_eq!(
        parse_breakpoint_action(Some("toggle")).unwrap(),
        BreakpointAction::Toggle
    );
    assert_eq!(parse_breakpoint_action(None).unwrap(), BreakpointAction::Add);
}

#[test]
fn parses_exception_breakpoint_action() {
    assert_eq!(
        parse_exception_breakpoint_action(Some("clear")).unwrap(),
        ExceptionBreakpointAction::Clear
    );
    assert_eq!(
        parse_exception_breakpoint_action(Some("catch")).unwrap(),
        ExceptionBreakpointAction::Add
    );
}

// ---------------------------------------------------------------------------
// Further cases of the grammar
// ---------------------------------------------------------------------------

#[test]
fn empty_and_whitespace_lines_are_empty() {
    assert_eq!(parse_line(""), ReplCommand::Empty);
    assert_eq!(parse_line("   \t "), ReplCommand::Empty);
}

#[test]
fn command_words_are_case_insensitive() {
    assert_eq!(parse_line("  CONTINUE  "), ReplCommand::Continue);
    assert_eq!(parse_line("Next"), ReplCommand::StepOver);
    assert_eq!(parse_line("finish"), ReplCommand::StepOut);
    assert_eq!(parse_line("s"), ReplCommand::StepIn);
    assert_eq!(parse_line("q"), ReplCommand::Quit);
    assert_eq!(parse_line("ver"), ReplCommand::Version);
    assert_eq!(parse_line("caps"), ReplCommand::Capabilities);
    assert_eq!(parse_line("bt"), ReplCommand::Stack { full: false });
}

#[test]
fn unknown_command_reports_lowercased_word() {
    assert_eq!(
        parse_line("FooBar baz"),
        ReplCommand::Unknown("unknown command: foobar".into())
    );
    assert_eq!(
        parse_line("info foo"),
        ReplCommand::Unknown("unknown info subcommand: foo".into())
    );
}

#[test]
fn help_topic_is_trimmed_rest() {
    assert_eq!(parse_line("help"), ReplCommand::Help { topic: None });
    assert_eq!(
        parse_line("help   break  "),
        ReplCommand::Help {
            topic: Some("break".into())
        }
    );
}

#[test]
fn break_location_with_space_separated_line() {
    let (path, line, options) = parse_break_location("main.rs 12 if y").unwrap();
    assert_eq!(path, "main.rs");
    assert_eq!(line, 12);
    assert_eq!(options.condition.as_deref(), Some("y"));
    assert_eq!(
        parse_break_location("main.rs").unwrap_err(),
        "line number required"
    );
    assert_eq!(
        parse_break_location("main.rs x").unwrap_err(),
        "invalid line number"
    );
    assert_eq!(
        parse_break_location("").unwrap_err(),
        "usage: break <file>:<line> [if EXPR] [hit N] [log MSG]"
    );
    assert_eq!(
        parse_break_location("main.rs:").unwrap_err(),
        "line number required"
    );
    assert_eq!(
        parse_break_location("main.rs:+7").unwrap(),
        ("main.rs".to_string(), 7, BreakpointOptions::default())
    );
    assert_eq!(parse_break_location("main.rs:-3").unwrap().1, -3);
}

#[test]
fn options_text_without_keyword_is_a_log_message() {
    let options = parse_options_text("  print me  ").unwrap();
    assert_eq!(options.log_message.as_deref(), Some("print me"));
    assert_eq!(parse_options_text("   ").unwrap(), BreakpointOptions::default());
    let options = parse_options_text("hit 2 if a == b").unwrap();
    assert_eq!(options.hit_condition.as_deref(), Some("2"));
    assert_eq!(options.condition.as_deref(), Some("a == b"));
}

#[test]
fn trace_without_log_uses_default_message() {
    assert_eq!(
        parse_line("trace main.rs:4"),
        ReplCommand::Trace {
            path: "main.rs".into(),
            line: 4,
            message: "tracepoint".into()
        }
    );
    assert_eq!(
        parse_line("tbreak main.rs:4 log loop={i}"),
        ReplCommand::Trace {
            path: "main.rs".into(),
            line: 4,
            message: "loop={i}".into()
        }
    );
    assert!(matches!(parse_line("trace nowhere"), ReplCommand::Unknown(_)));
}

#[test]
fn break_function_variants() {
    assert_eq!(
        parse_line("break function main"),
        ReplCommand::BreakFunction {
            name: "main".into(),
            action: FunctionBreakpointAction::Add
        }
    );
    assert_eq!(
        parse_line("b function clear main"),
        ReplCommand::BreakFunction {
            name: "main".into(),
            action: FunctionBreakpointAction::Remove
        }
    );
    assert_eq!(
        parse_line("break function clear"),
        ReplCommand::BreakFunction {
            name: String::new(),
            action: FunctionBreakpointAction::Clear
        }
    );
}

#[test]
fn frame_thread_and_restart_numbers() {
    assert_eq!(parse_line("frame 3"), ReplCommand::Frame(3));
    assert_eq!(parse_line("t 2"), ReplCommand::Thread(2));
    assert_eq!(
        parse_line("frame x"),
        ReplCommand::Unknown("invalid frame number: x".into())
    );
    assert_eq!(
        parse_line("thread"),
        ReplCommand::Unknown("thread requires a number".into())
    );
    assert_eq!(
        parse_line("restart"),
        ReplCommand::RestartFrame { frame_id: None }
    );
    assert_eq!(
        parse_line("restart frame 4"),
        ReplCommand::RestartFrame { frame_id: Some(4) }
    );
    assert_eq!(
        parse_line("restart 9"),
        ReplCommand::RestartFrame { frame_id: Some(9) }
    );
}

#[test]
fn disassemble_defaults() {
    assert_eq!(
        parse_line("disasm 0x10"),
        ReplCommand::Disassemble {
            memory_reference: "0x10".into(),
            offset: 0,
            count: 1
        }
    );
    assert_eq!(
        parse_line("disassemble 0x10 -4 8"),
        ReplCommand::Disassemble {
            memory_reference: "0x10".into(),
            offset: -4,
            count: 8
        }
    );
    assert!(matches!(parse_line("disasm"), ReplCommand::Unknown(_)));
}

#[test]
fn watches_and_data_watches() {
    assert_eq!(parse_line("watch"), ReplCommand::WatchList);
    assert_eq!(
        parse_line("watch a + b"),
        ReplCommand::WatchAdd {
            expression: "a + b".into()
        }
    );
    assert_eq!(
        parse_line("unwatch a"),
        ReplCommand::WatchRemove {
            expression: "a".into()
        }
    );
    assert_eq!(parse_line("dwatch list"), ReplCommand::DataWatchList);
    assert_eq!(
        parse_line("data-watch remove x"),
        ReplCommand::DataWatchRemove {
            expression: "x".into()
        }
    );
    assert_eq!(
        parse_line("data-watch y"),
        ReplCommand::DataWatchAdd {
            expression: "y".into()
        }
    );
}

#[test]
fn colors_and_smart_step() {
    assert_eq!(
        parse_line("colors OFF"),
        ReplCommand::Colors { enable: Some(false) }
    );
    assert_eq!(
        parse_line("colors maybe"),
        ReplCommand::Unknown("usage: colors [on|off] (got 'maybe')".into())
    );
    assert_eq!(
        parse_line("smart-step yes"),
        ReplCommand::SmartStep { enable: Some(true) }
    );
    assert_eq!(
        parse_line("smartstep whatever"),
        ReplCommand::SmartStep { enable: None }
    );
}

#[test]
fn set_and_goto() {
    assert_eq!(
        parse_line("set variable y=7"),
        ReplCommand::SetVariable {
            name: "y".into(),
            value: "7".into()
        }
    );
    assert_eq!(
        parse_line("set = 1"),
        ReplCommand::Unknown("set requires a variable name".into())
    );
    assert_eq!(
        parse_line("set x ="),
        ReplCommand::Unknown("set requires a value".into())
    );
    assert_eq!(
        parse_line("goto main.py:50"),
        ReplCommand::Goto {
            path: "main.py".into(),
            line: 50
        }
    );
    assert_eq!(
        parse_line("clear main.rs:x"),
        ReplCommand::Unknown("invalid line number in clear location".into())
    );
    assert_eq!(
        parse_line("clear main.rs"),
        ReplCommand::Clear {
            path: "main.rs".into(),
            line: None
        }
    );
}

#[test]
fn catch_edge_cases() {
    assert_eq!(
        parse_line("catch clear raised"),
        ReplCommand::Catch {
            filter: Some("raised".into()),
            condition: None,
            clear: true
        }
    );
    assert_eq!(
        parse_line("catch if x"),
        ReplCommand::Catch {
            filter: Some("if x".into()),
            condition: None,
            clear: false
        }
    );
    assert!(matches!(parse_line("catch"), ReplCommand::Unknown(_)));
    assert!(matches!(parse_line("eval"), ReplCommand::Unknown(_)));
    assert_eq!(
        parse_line("show x"),
        ReplCommand::Unknown("usage: show [context-lines]".into())
    );
}

#[test]
fn action_parsers_cover_all_words() {
    assert_eq!(
        parse_breakpoint_action(Some("CLEAR")).unwrap(),
        BreakpointAction::Remove
    );
    assert_eq!(
        parse_breakpoint_action(Some("bogus")).unwrap_err(),
        "unknown breakpoint action: bogus"
    );
    assert_eq!(
        parse_function_breakpoint_action(Some("delete")).unwrap(),
        FunctionBreakpointAction::Remove
    );
    assert_eq!(
        parse_function_breakpoint_action(None).unwrap(),
        FunctionBreakpointAction::Add
    );
    assert!(parse_function_breakpoint_action(Some("toggle")).is_err());
    assert_eq!(
        parse_exception_breakpoint_action(Some("x")).unwrap_err(),
        "unknown exception breakpoint action: x"
    );
    assert_eq!(parse_bool("ON").unwrap(), true);
    assert_eq!(parse_bool("no").unwrap(), false);
    assert_eq!(
        parse_bool("Maybe").unwrap_err(),
        "expected boolean value, got 'maybe'"
    );
    assert_eq!(
        default_skip_paths(),
        vec![
            "/rustc/".to_string(),
            "/target/deps/".to_string(),
            "site-packages".to_string()
        ]
    );
}

#[test]
fn command_word_case_and_surrounding_space_do_not_matter() {
    assert_eq!(parse_line("  BREAK main.rs:10  "), parse_line("break main.rs:10"));
    assert_eq!(parse_line("Continue"), ReplCommand::Continue);
    assert_eq!(parse_line(" \t "), ReplCommand::Empty);
    assert_eq!(
        parse_line("P MyVar"),
        ReplCommand::Eval { expression: "MyVar".into(), pretty: false }
    );
}

#[test]
fn if_and_hit_options_in_either_order() {
    let a = parse_options_text("if x > 1 hit 3").unwrap();
    let b = parse_options_text("hit 3 if x > 1").unwrap();
    assert_eq!(a, b);
    assert_eq!(a.condition.as_deref(), Some("x > 1"));
    assert_eq!(a.hit_condition.as_deref(), Some("3"));
    assert_eq!(a.log_message, None);
    assert_eq!(parse_options_text("   ").unwrap(), BreakpointOptions::default());
}
