use dap::repl::actions::{BreakpointAction, ExceptionBreakpointAction};
use dap::repl::breakpoint::{BreakpointOptions, BreakpointRequest, ClientStopPolicy};
use dap::repl::context::ReplContext;
use dap::repl::stop::{StopAction, StopEvent};

fn stop(reason: &str, line: i64) -> StopEvent {
    StopEvent {
        stop_reason: Some(reason.to_string()),
        line,
        exception_conditions: Vec::new(),
        at_goto_path: false,
        emulated_data_watches: false,
        watch_values: Vec::new(),
        smart_step_skip: false,
        skip_path_match: false,
        breakpoint_path: None,
        hit_matches: false,
        condition_true: false,
        log_values: Vec::new(),
    }
}

fn at_breakpoint(path: &str, line: i64) -> StopEvent {
    StopEvent { breakpoint_path: Some(path.to_string()), ..stop("breakpoint", line) }
}

fn add(ctx: &mut ReplContext, path: &str, line: i64, options: BreakpointOptions, policy: ClientStopPolicy) {
    let request = BreakpointRequest { path: path.into(), line, action: BreakpointAction::Add, options };
    assert!(ctx.apply_breakpoint(&request, policy));
}

#[test]
fn entry_stop_is_suppressed_once() {
    let mut ctx = ReplContext::new();
    assert_eq!(ctx.stop_step(&stop("entry", 1)), Ok(StopAction::Continue));
    assert!(ctx.settings.suppress_entry_done);
    assert_eq!(ctx.stop_step(&stop("entry", 1)), Ok(StopAction::Stay));
    let mut attached = ReplContext::attached();
    assert_eq!(attached.stop_step(&stop("entry", 1)), Ok(StopAction::Stay));
    assert!(!attached.settings.suppress_entry_done);
}

#[test]
fn failed_exception_condition_continues() {
    let mut ctx = ReplContext::new();
    ctx.exception_breakpoint(
        ExceptionBreakpointAction::Add,
        Some("raised".into()),
        Some("x > 1".into()),
        true,
        None,
    )
    .unwrap();
    ctx.exception_breakpoint(ExceptionBreakpointAction::Add, Some("uncaught".into()), None, false, None)
        .unwrap();
    assert_eq!(ctx.emulated_exception_conditions(), vec!["x > 1".to_string()]);
    let mut ev = stop("exception", 3);
    ev.exception_conditions = vec![false];
    assert_eq!(ctx.stop_step(&ev), Ok(StopAction::Continue));
    ev.exception_conditions = vec![true];
    assert_eq!(ctx.stop_step(&ev), Ok(StopAction::Stay));
    let mut other = stop("breakpoint", 3);
    other.exception_conditions = vec![false];
    assert_eq!(ctx.stop_step(&other), Ok(StopAction::Stay));
}

#[test]
fn reached_goto_stays_and_clears_its_breakpoint() {
    let mut ctx = ReplContext::new();
    ctx.emulate_goto("/src/a.rs".into(), 9, ClientStopPolicy::default());
    assert!(ctx.breakpoints.get("/src/a.rs", 9).is_some());
    let mut ev = stop("breakpoint", 8);
    ev.at_goto_path = true;
    ev.smart_step_skip = true;
    assert_eq!(ctx.stop_step(&ev), Ok(StopAction::Continue));
    assert!(ctx.pending_goto.is_some());
    ev.line = 9;
    assert_eq!(ctx.stop_step(&ev), Ok(StopAction::Stay));
    assert!(ctx.pending_goto.is_none());
    assert!(ctx.breakpoints.get("/src/a.rs", 9).is_none());
}

#[test]
fn changed_data_watch_is_reported() {
    let mut ctx = ReplContext::new();
    ctx.data_watch_add("x".into(), true);
    ctx.data_watch_add("y".into(), true);
    let mut ev = stop("step", 4);
    ev.emulated_data_watches = true;
    ev.watch_values = vec!["1".into(), "a".into()];
    assert_eq!(ctx.stop_step(&ev), Ok(StopAction::Stay));
    assert!(ctx.data_watches[0].armed && ctx.data_watches[1].armed);
    assert_eq!(ctx.stop_step(&ev), Ok(StopAction::Stay));
    ev.watch_values = vec!["1".into(), "b".into()];
    assert_eq!(
        ctx.stop_step(&ev),
        Ok(StopAction::DataWatchHit { expression: "y".into(), value: "b".into() })
    );
    assert_eq!(ctx.data_watches[1].baseline.as_deref(), Some("b"));
    ev.emulated_data_watches = false;
    ev.watch_values = vec!["9".into(), "9".into()];
    assert_eq!(ctx.stop_step(&ev), Ok(StopAction::Stay));
    assert_eq!(ctx.data_watches[0].baseline.as_deref(), Some("1"));
}

#[test]
fn skipped_frames_continue() {
    let mut ctx = ReplContext::new();
    let mut ev = at_breakpoint("/lib/x.py", 2);
    ev.smart_step_skip = true;
    assert_eq!(ctx.stop_step(&ev), Ok(StopAction::Continue));
    ev.smart_step_skip = false;
    ev.skip_path_match = true;
    assert_eq!(ctx.stop_step(&ev), Ok(StopAction::Continue));
}

#[test]
fn emulated_hit_condition_counts_hits() {
    let mut ctx = ReplContext::new();
    let options = BreakpointOptions { hit_condition: Some("2".into()), ..BreakpointOptions::default() };
    add(&mut ctx, "a.py", 5, options, ClientStopPolicy { condition: false, hit: true, log: false });
    let mut ev = at_breakpoint("a.py", 5);
    assert_eq!(ctx.stop_step(&ev), Ok(StopAction::Continue));
    assert_eq!(ctx.breakpoints.get("a.py", 5).unwrap().hit_count, 1);
    ev.hit_matches = true;
    assert_eq!(ctx.stop_step(&ev), Ok(StopAction::Stay));
    assert_eq!(ctx.breakpoints.get("a.py", 5).unwrap().hit_count, 2);
}

#[test]
fn emulated_condition_and_log() {
    let mut ctx = ReplContext::new();
    let options = BreakpointOptions { condition: Some("n > 2".into()), ..BreakpointOptions::default() };
    add(&mut ctx, "a.py", 7, options, ClientStopPolicy { condition: true, hit: false, log: false });
    let mut ev = at_breakpoint("a.py", 7);
    assert_eq!(ctx.stop_step(&ev), Ok(StopAction::Continue));
    ev.condition_true = true;
    assert_eq!(ctx.stop_step(&ev), Ok(StopAction::Stay));

    let options = BreakpointOptions { log_message: Some("n={n}!".into()), ..BreakpointOptions::default() };
    add(&mut ctx, "a.py", 8, options, ClientStopPolicy { condition: false, hit: false, log: true });
    let mut ev = at_breakpoint("a.py", 8);
    ev.log_values = vec!["3".into()];
    assert_eq!(ctx.stop_step(&ev), Ok(StopAction::LogAndContinue { message: "n=3!".into() }));
    ev.log_values = Vec::new();
    assert_eq!(
        ctx.stop_step(&ev),
        Err("emulated logpoint missing expression values".to_string())
    );

    add(&mut ctx, "a.py", 9, BreakpointOptions::default(), ClientStopPolicy { condition: true, hit: false, log: false });
    assert_eq!(
        ctx.stop_step(&at_breakpoint("a.py", 9)),
        Err("emulated condition missing expression".to_string())
    );
    add(&mut ctx, "a.py", 10, BreakpointOptions::default(), ClientStopPolicy { condition: false, hit: false, log: true });
    assert_eq!(
        ctx.stop_step(&at_breakpoint("a.py", 10)),
        Err("emulated logpoint missing message".to_string())
    );
}

#[test]
fn plain_breakpoint_stays_and_missing_entry_fails() {
    let mut ctx = ReplContext::new();
    add(&mut ctx, "a.py", 5, BreakpointOptions::default(), ClientStopPolicy::default());
    assert_eq!(ctx.stop_step(&at_breakpoint("a.py", 5)), Ok(StopAction::Stay));
    assert_eq!(
        ctx.stop_step(&at_breakpoint("b.py", 5)),
        Err("breakpoint entry disappeared".to_string())
    );
}

#[test]
fn stored_breakpoint_key_prefers_own_breakpoints() {
    let mut ctx = ReplContext::new();
    add(&mut ctx, "./a.py", 5, BreakpointOptions::default(), ClientStopPolicy::default());
    let own = vec!["a.py".to_string(), "./a.py".to_string()];
    let editor = vec!["/w/a.py".to_string()];
    assert_eq!(ctx.stored_breakpoint_key(5, &own, &editor), Some("./a.py".to_string()));
    assert_eq!(ctx.stored_breakpoint_key(6, &own, &editor), None);
    let key = ctx.stored_breakpoint_key(5, &own, &editor);
    assert_eq!(ctx.stop_step(&StopEvent { breakpoint_path: key, ..stop("breakpoint", 5) }), Ok(StopAction::Stay));
}
