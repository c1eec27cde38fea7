//! The gdb-style command language of the interactive debugger.
use vstd::prelude::*;
use crate::num::{parse_i64, parse_i64_in, parse_unsigned, parse_unsigned_in};
use crate::repl::actions::FunctionBreakpointAction;
use crate::repl::breakpoint::{
    break_location_in, parse_break_location_spec, BreakpointOptions, OptionsView,
};
use crate::text::{
    ascii_lower, chars_of, concat_lit_range, eq_lit, find_char_in, find_in, find_ws,
    find_ws_in, lower_chars, owned, range_is, range_strip, split_once_char,
    split_once_str, string_of, string_of_range, strip_prefix, trim, trim_range, views, words,
    words_in,
};
use crate::text::{
    is_ws, lemma_find_ws_from_facts, lemma_trail_ws_is, lemma_trim_idempotent, lemma_trim_nonblank,
    lemma_trim_prefixed, lemma_trim_trim_end, lower_char, trail_ws,
};

verus! {

/// Parsed interactive debugger command.
#[derive(Debug, Clone, PartialEq, Eq)]
pub enum ReplCommand {
    Help { topic: Option<String> },
    Version,
    Quit,
    Continue,
    StepOver,
    StepIn,
    StepOut,
    Threads,
    Stack { full: bool },
    Status,
    Sync,
    Capabilities,
    Show { context: Option<u32> },
    Break { path: String, line: i64, options: BreakpointOptions },
    Trace { path: String, line: i64, message: String },
    Clear { path: String, line: Option<i64> },
    SkipList,
    SkipAdd { pattern: String },
    SkipClear { pattern: Option<String> },
    Eval { expression: String, pretty: bool },
    Scopes,
    Locals,
    Frame(i64),
    Thread(i64),
    InfoBreak,
    InfoCatch,
    SetVariable { name: String, value: String },
    Catch { filter: Option<String>, condition: Option<String>, clear: bool },
    WatchList,
    WatchAdd { expression: String },
    WatchRemove { expression: String },
    SmartStep { enable: Option<bool> },
    Goto { path: String, line: i64 },
    BreakFunction { name: String, action: FunctionBreakpointAction },
    DataWatchList,
    DataWatchAdd { expression: String },
    DataWatchRemove { expression: String },
    RestartFrame { frame_id: Option<i64> },
    Disassemble { memory_reference: String, offset: i64, count: i64 },
    Colors { enable: Option<bool> },
    Empty,
    Unknown(String),
}

/// A command with its text fields as character sequences.
pub enum Cmd {
    Help { topic: Option<Seq<char>> },
    Version,
    Quit,
    Continue,
    StepOver,
    StepIn,
    StepOut,
    Threads,
    Stack { full: bool },
    Status,
    Sync,
    Capabilities,
    Show { context: Option<u32> },
    Break { path: Seq<char>, line: int, options: OptionsView },
    Trace { path: Seq<char>, line: int, message: Seq<char> },
    Clear { path: Seq<char>, line: Option<int> },
    SkipList,
    SkipAdd { pattern: Seq<char> },
    SkipClear { pattern: Option<Seq<char>> },
    Eval { expression: Seq<char>, pretty: bool },
    Scopes,
    Locals,
    Frame(int),
    Thread(int),
    InfoBreak,
    InfoCatch,
    SetVariable { name: Seq<char>, value: Seq<char> },
    Catch { filter: Option<Seq<char>>, condition: Option<Seq<char>>, clear: bool },
    WatchList,
    WatchAdd { expression: Seq<char> },
    WatchRemove { expression: Seq<char> },
    SmartStep { enable: Option<bool> },
    Goto { path: Seq<char>, line: int },
    BreakFunction { name: Seq<char>, action: FunctionBreakpointAction },
    DataWatchList,
    DataWatchAdd { expression: Seq<char> },
    DataWatchRemove { expression: Seq<char> },
    RestartFrame { frame_id: Option<int> },
    Disassemble { memory_reference: Seq<char>, offset: int, count: int },
    Colors { enable: Option<bool> },
    Empty,
    Unknown(Seq<char>),
}

pub open spec fn opt_int(o: Option<i64>) -> Option<int> {
    match o {
        Some(x) => Some(x as int),
        None => None,
    }
}

impl View for ReplCommand {
    type V = Cmd;

    open spec fn view(&self) -> Cmd {
        match self {
            ReplCommand::Help { topic } => Cmd::Help { topic: topic.deep_view() },
            ReplCommand::Version => Cmd::Version,
            ReplCommand::Quit => Cmd::Quit,
            ReplCommand::Continue => Cmd::Continue,
            ReplCommand::StepOver => Cmd::StepOver,
            ReplCommand::StepIn => Cmd::StepIn,
            ReplCommand::StepOut => Cmd::StepOut,
            ReplCommand::Threads => Cmd::Threads,
            ReplCommand::Stack { full } => Cmd::Stack { full: *full },
            ReplCommand::Status => Cmd::Status,
            ReplCommand::Sync => Cmd::Sync,
            ReplCommand::Capabilities => Cmd::Capabilities,
            ReplCommand::Show { context } => Cmd::Show { context: *context },
            ReplCommand::Break { path, line, options } => Cmd::Break {
                path: path@,
                line: *line as int,
                options: options@,
            },
            ReplCommand::Trace { path, line, message } => Cmd::Trace {
                path: path@,
                line: *line as int,
                message: message@,
            },
            ReplCommand::Clear { path, line } => Cmd::Clear { path: path@, line: opt_int(*line) },
            ReplCommand::SkipList => Cmd::SkipList,
            ReplCommand::SkipAdd { pattern } => Cmd::SkipAdd { pattern: pattern@ },
            ReplCommand::SkipClear { pattern } => Cmd::SkipClear { pattern: pattern.deep_view() },
            ReplCommand::Eval { expression, pretty } => Cmd::Eval {
                expression: expression@,
                pretty: *pretty,
            },
            ReplCommand::Scopes => Cmd::Scopes,
            ReplCommand::Locals => Cmd::Locals,
            ReplCommand::Frame(x) => Cmd::Frame(*x as int),
            ReplCommand::Thread(x) => Cmd::Thread(*x as int),
            ReplCommand::InfoBreak => Cmd::InfoBreak,
            ReplCommand::InfoCatch => Cmd::InfoCatch,
            ReplCommand::SetVariable { name, value } => Cmd::SetVariable {
                name: name@,
                value: value@,
            },
            ReplCommand::Catch { filter, condition, clear } => Cmd::Catch {
                filter: filter.deep_view(),
                condition: condition.deep_view(),
                clear: *clear,
            },
            ReplCommand::WatchList => Cmd::WatchList,
            ReplCommand::WatchAdd { expression } => Cmd::WatchAdd { expression: expression@ },
            ReplCommand::WatchRemove { expression } => Cmd::WatchRemove {
                expression: expression@,
            },
            ReplCommand::SmartStep { enable } => Cmd::SmartStep { enable: *enable },
            ReplCommand::Goto { path, line } => Cmd::Goto { path: path@, line: *line as int },
            ReplCommand::BreakFunction { name, action } => Cmd::BreakFunction {
                name: name@,
                action: *action,
            },
            ReplCommand::DataWatchList => Cmd::DataWatchList,
            ReplCommand::DataWatchAdd { expression } => Cmd::DataWatchAdd {
                expression: expression@,
            },
            ReplCommand::DataWatchRemove { expression } => Cmd::DataWatchRemove {
                expression: expression@,
            },
            ReplCommand::RestartFrame { frame_id } => Cmd::RestartFrame {
                frame_id: opt_int(*frame_id),
            },
            ReplCommand::Disassemble { memory_reference, offset, count } => Cmd::Disassemble {
                memory_reference: memory_reference@,
                offset: *offset as int,
                count: *count as int,
            },
            ReplCommand::Colors { enable } => Cmd::Colors { enable: *enable },
            ReplCommand::Empty => Cmd::Empty,
            ReplCommand::Unknown(m) => Cmd::Unknown(m@),
        }
    }
}

// ---------------------------------------------------------------------------
// The grammar
// ---------------------------------------------------------------------------
/// `on/1/true/yes` and `off/0/false/no`, case-insensitively, after trimming.
pub open spec fn optional_bool_spec(rest: Seq<char>) -> Option<Option<bool>> {
    let l = ascii_lower(trim(rest));
    if l.len() == 0 {
        Some(None)
    } else if l == "on"@ || l == "1"@ || l == "true"@ || l == "yes"@ {
        Some(Some(true))
    } else if l == "off"@ || l == "0"@ || l == "false"@ || l == "no"@ {
        Some(Some(false))
    } else {
        None
    }
}

pub open spec fn parse_optional_bool_spec(rest: Seq<char>) -> Option<bool> {
    match optional_bool_spec(rest) {
        Some(b) => b,
        None => None,
    }
}

/// The command word and the trimmed rest (`splitn(2, char::is_whitespace)`).
pub open spec fn split_command_spec(line: Seq<char>) -> (Seq<char>, Seq<char>) {
    match find_ws(line) {
        Some(k) => (line.take(k), trim(line.skip(k + 1))),
        None => (line, Seq::empty()),
    }
}

pub open spec fn parse_help_topic_spec(rest: Seq<char>) -> Option<Seq<char>> {
    let r = trim(rest);
    if r.len() == 0 {
        None
    } else {
        Some(r)
    }
}

pub open spec fn parse_eval_spec(rest: Seq<char>, pretty: bool) -> Cmd {
    if rest.len() == 0 {
        Cmd::Unknown("expression required"@)
    } else {
        Cmd::Eval { expression: rest, pretty }
    }
}

pub open spec fn parse_show_spec(rest: Seq<char>) -> Cmd {
    let t = trim(rest);
    if t.len() == 0 {
        Cmd::Show { context: None }
    } else {
        match parse_unsigned(t, 10, 0xFFFF_FFFF) {
            Some(n) => Cmd::Show { context: Some(n as u32) },
            None => Cmd::Unknown("usage: show [context-lines]"@),
        }
    }
}

pub open spec fn parse_trace_spec(rest: Seq<char>) -> Cmd {
    match parse_break_location_spec(rest) {
        Ok((path, line, options)) => match options.log_message {
            Some(m) => Cmd::Trace { path, line, message: m },
            None => Cmd::Trace { path, line, message: "tracepoint"@ },
        },
        Err(_) => match split_once_char(rest, ':') {
            Some((path, after)) => match parse_i64(trim(after)) {
                Some(line) => Cmd::Trace { path, line, message: "tracepoint"@ },
                None => Cmd::Unknown("usage: trace <file>:<line> [log MESSAGE]"@),
            },
            None => Cmd::Unknown("usage: trace <file>:<line> [log MESSAGE]"@),
        },
    }
}

pub open spec fn parse_skip_spec(rest: Seq<char>) -> Cmd {
    let r = trim(rest);
    if r.len() == 0 || r == "list"@ {
        Cmd::SkipList
    } else if r == "clear"@ {
        Cmd::SkipClear { pattern: None }
    } else {
        match strip_prefix(r, "add "@) {
            Some(p) => Cmd::SkipAdd { pattern: trim(p) },
            None => match strip_prefix(r, "clear "@) {
                Some(p) => Cmd::SkipClear { pattern: Some(trim(p)) },
                None => Cmd::SkipAdd { pattern: r },
            },
        }
    }
}

pub open spec fn parse_clear_spec(rest: Seq<char>) -> Cmd {
    let r = trim(rest);
    if r.len() == 0 {
        Cmd::Unknown("usage: clear <file> or clear <file>:<line>"@)
    } else {
        match split_once_char(r, ':') {
            Some((path, after)) => match parse_i64(trim(after)) {
                Some(line) => Cmd::Clear { path, line: Some(line) },
                None => Cmd::Unknown("invalid line number in clear location"@),
            },
            None => Cmd::Clear { path: r, line: None },
        }
    }
}

pub open spec fn parse_frame_spec(rest: Seq<char>) -> Cmd {
    let r = trim(rest);
    if r.len() == 0 {
        Cmd::Unknown("frame requires a number"@)
    } else {
        match parse_i64(r) {
            Some(x) => Cmd::Frame(x),
            None => Cmd::Unknown("invalid frame number: "@ + r),
        }
    }
}

pub open spec fn parse_thread_spec(rest: Seq<char>) -> Cmd {
    let r = trim(rest);
    if r.len() == 0 {
        Cmd::Unknown("thread requires a number"@)
    } else {
        match parse_i64(r) {
            Some(x) => Cmd::Thread(x),
            None => Cmd::Unknown("invalid thread id: "@ + r),
        }
    }
}

pub open spec fn parse_set_spec(rest: Seq<char>) -> Cmd {
    let r0 = trim(rest);
    let r = match strip_prefix(r0, "variable "@) {
        Some(t) => t,
        None => r0,
    };
    match split_once_char(r, '=') {
        Some((name, value)) => {
            let n = trim(name);
            let v = trim(value);
            if n.len() == 0 {
                Cmd::Unknown("set requires a variable name"@)
            } else if v.len() == 0 {
                Cmd::Unknown("set requires a value"@)
            } else {
                Cmd::SetVariable { name: n, value: v }
            }
        },
        None => Cmd::Unknown("usage: set <name> = <value>"@),
    }
}

pub open spec fn parse_goto_spec(rest: Seq<char>) -> Cmd {
    match parse_break_location_spec(rest) {
        Ok((path, line, _)) => Cmd::Goto { path, line },
        Err(m) => Cmd::Unknown(m),
    }
}

pub open spec fn parse_break_function_spec(rest: Seq<char>) -> Cmd {
    let r = trim(rest);
    if r.len() == 0 {
        Cmd::Unknown("usage: break function <name>"@)
    } else if r == "clear"@ {
        Cmd::BreakFunction { name: Seq::empty(), action: FunctionBreakpointAction::Clear }
    } else {
        match strip_prefix(r, "clear "@) {
            Some(n) => Cmd::BreakFunction {
                name: trim(n),
                action: FunctionBreakpointAction::Remove,
            },
            None => Cmd::BreakFunction { name: r, action: FunctionBreakpointAction::Add },
        }
    }
}

pub open spec fn parse_data_watch_spec(rest: Seq<char>) -> Cmd {
    let r = trim(rest);
    if r.len() == 0 || r == "list"@ {
        Cmd::DataWatchList
    } else {
        match strip_prefix(r, "remove "@) {
            Some(e) => Cmd::DataWatchRemove { expression: trim(e) },
            None => match strip_prefix(r, "add "@) {
                Some(e) => Cmd::DataWatchAdd { expression: trim(e) },
                None => Cmd::DataWatchAdd { expression: r },
            },
        }
    }
}

pub open spec fn parse_restart_spec(rest: Seq<char>) -> Cmd {
    let r = trim(rest);
    if r.len() == 0 {
        Cmd::RestartFrame { frame_id: None }
    } else {
        let r2 = match strip_prefix(r, "frame "@) {
            Some(t) => t,
            None => r,
        };
        match parse_i64(r2) {
            Some(x) => Cmd::RestartFrame { frame_id: Some(x) },
            None => Cmd::Unknown("usage: restart [frame <id>]"@),
        }
    }
}

pub open spec fn number_or(parts: Seq<Seq<char>>, i: int, default: int) -> int {
    if i < parts.len() {
        match parse_i64(parts[i]) {
            Some(x) => x,
            None => default,
        }
    } else {
        default
    }
}

pub open spec fn parse_disassemble_spec(rest: Seq<char>) -> Cmd {
    let parts = words(rest);
    if parts.len() == 0 {
        Cmd::Unknown("usage: disasm <memory-reference> [offset] [count]"@)
    } else {
        Cmd::Disassemble {
            memory_reference: parts[0],
            offset: number_or(parts, 1, 0),
            count: number_or(parts, 2, 1),
        }
    }
}

pub open spec fn parse_colors_spec(rest: Seq<char>) -> Cmd {
    match optional_bool_spec(rest) {
        Some(b) => Cmd::Colors { enable: b },
        None => Cmd::Unknown(
            "usage: colors [on|off] (got '"@ + ascii_lower(trim(rest)) + "')"@,
        ),
    }
}

pub open spec fn parse_catch_spec(rest: Seq<char>) -> Cmd {
    let r = trim(rest);
    if r.len() == 0 {
        Cmd::Unknown("usage: catch <filter> [if EXPR] or catch clear [filter]"@)
    } else if r == "clear"@ {
        Cmd::Catch { filter: None, condition: None, clear: true }
    } else {
        match strip_prefix(r, "clear "@) {
            Some(f) => if trim(f).len() == 0 {
                Cmd::Catch { filter: None, condition: None, clear: true }
            } else {
                Cmd::Catch { filter: Some(trim(f)), condition: None, clear: true }
            },
            None => match split_once_str(r, " if "@) {
                Some((f, c)) => if trim(f).len() == 0 || trim(c).len() == 0 {
                    Cmd::Unknown("usage: catch <filter> if EXPR"@)
                } else {
                    Cmd::Catch { filter: Some(trim(f)), condition: Some(trim(c)), clear: false }
                },
                None => Cmd::Catch { filter: Some(r), condition: None, clear: false },
            },
        }
    }
}

pub open spec fn parse_watch_spec(rest: Seq<char>) -> Cmd {
    let e = trim(rest);
    if e.len() == 0 {
        Cmd::Unknown("usage: watch <expression>"@)
    } else {
        Cmd::WatchAdd { expression: e }
    }
}

pub open spec fn parse_unwatch_spec(rest: Seq<char>) -> Cmd {
    let e = trim(rest);
    if e.len() == 0 {
        Cmd::Unknown("usage: unwatch <expression>"@)
    } else {
        Cmd::WatchRemove { expression: e }
    }
}

pub open spec fn parse_break_spec(rest: Seq<char>) -> Cmd {
    match strip_prefix(rest, "function "@) {
        Some(name) => parse_break_function_spec(name),
        None => match parse_break_location_spec(rest) {
            Ok((path, line, options)) => Cmd::Break { path, line, options },
            Err(m) => Cmd::Unknown(m),
        },
    }
}

/// The `info` subcommands.
pub open spec fn parse_info_spec(rest: Seq<char>) -> Cmd {
    if rest == "threads"@ {
        Cmd::Threads
    } else if rest == "scopes"@ {
        Cmd::Scopes
    } else if rest == "locals"@ {
        Cmd::Locals
    } else if rest == "break"@ || rest == "breakpoints"@ {
        Cmd::InfoBreak
    } else if rest == "catch"@ {
        Cmd::InfoCatch
    } else {
        Cmd::Unknown("unknown info subcommand: "@ + rest)
    }
}

/// Commands that take no argument or a simple one.
pub open spec fn parse_simple_spec(cmd: Seq<char>, rest: Seq<char>) -> Option<Cmd> {
    if cmd == "help"@ || cmd == "h"@ || cmd == "?"@ {
        Some(Cmd::Help { topic: parse_help_topic_spec(rest) })
    } else if cmd == "version"@ || cmd == "ver"@ {
        Some(Cmd::Version)
    } else if cmd == "quit"@ || cmd == "q"@ || cmd == "exit"@ {
        Some(Cmd::Quit)
    } else if cmd == "continue"@ || cmd == "cont"@ || cmd == "c"@ || cmd == "run"@ {
        Some(Cmd::Continue)
    } else if cmd == "next"@ || cmd == "n"@ || cmd == "step-over"@ || cmd == "stepover"@ {
        Some(Cmd::StepOver)
    } else if cmd == "step"@ || cmd == "s"@ || cmd == "step-in"@ || cmd == "stepin"@ {
        Some(Cmd::StepIn)
    } else if cmd == "finish"@ || cmd == "step-out"@ || cmd == "stepout"@ {
        Some(Cmd::StepOut)
    } else if cmd == "threads"@ {
        Some(Cmd::Threads)
    } else if cmd == "info"@ {
        Some(parse_info_spec(rest))
    } else if cmd == "bt"@ || cmd == "backtrace"@ || cmd == "stack"@ || cmd == "where"@ {
        Some(Cmd::Stack { full: ascii_lower(trim(rest)) == "full"@ })
    } else if cmd == "status"@ {
        Some(Cmd::Status)
    } else if cmd == "sync"@ {
        Some(Cmd::Sync)
    } else if cmd == "capabilities"@ || cmd == "caps"@ {
        Some(Cmd::Capabilities)
    } else {
        None
    }
}

/// Commands with their own argument grammar.
pub open spec fn parse_compound_spec(cmd: Seq<char>, rest: Seq<char>) -> Cmd {
    if cmd == "show"@ || cmd == "src"@ || cmd == "code"@ {
        parse_show_spec(rest)
    } else if cmd == "break"@ || cmd == "b"@ {
        parse_break_spec(rest)
    } else if cmd == "trace"@ || cmd == "tbreak"@ {
        parse_trace_spec(rest)
    } else if cmd == "clear"@ {
        parse_clear_spec(rest)
    } else if cmd == "skip"@ {
        parse_skip_spec(rest)
    } else if cmd == "print"@ || cmd == "p"@ || cmd == "eval"@ || cmd == "expr"@ {
        parse_eval_spec(rest, false)
    } else if cmd == "pp"@ {
        parse_eval_spec(rest, true)
    } else if cmd == "scopes"@ {
        Cmd::Scopes
    } else if cmd == "locals"@ {
        Cmd::Locals
    } else if cmd == "watch"@ {
        if rest.len() == 0 {
            Cmd::WatchList
        } else {
            parse_watch_spec(rest)
        }
    } else if cmd == "unwatch"@ {
        parse_unwatch_spec(rest)
    } else if cmd == "smart-step"@ || cmd == "smartstep"@ {
        Cmd::SmartStep { enable: parse_optional_bool_spec(rest) }
    } else if cmd == "goto"@ || cmd == "jump"@ {
        parse_goto_spec(rest)
    } else if cmd == "data-watch"@ || cmd == "dwatch"@ {
        parse_data_watch_spec(rest)
    } else if cmd == "restart"@ {
        parse_restart_spec(rest)
    } else if cmd == "disasm"@ || cmd == "disassemble"@ {
        parse_disassemble_spec(rest)
    } else if cmd == "frame"@ || cmd == "f"@ {
        parse_frame_spec(rest)
    } else if cmd == "thread"@ || cmd == "t"@ {
        parse_thread_spec(rest)
    } else if cmd == "set"@ {
        parse_set_spec(rest)
    } else if cmd == "catch"@ {
        parse_catch_spec(rest)
    } else if cmd == "colors"@ || cmd == "color"@ || cmd == "syntax-color"@ || cmd
        == "syntax-colors"@ {
        parse_colors_spec(rest)
    } else {
        Cmd::Unknown("unknown command: "@ + cmd)
    }
}

/// The command that a line of input denotes.
pub open spec fn parse_line_spec(line: Seq<char>) -> Cmd {
    let t = trim(line);
    if t.len() == 0 {
        Cmd::Empty
    } else {
        let (command, rest) = split_command_spec(t);
        let cmd = ascii_lower(command);
        match parse_simple_spec(cmd, rest) {
            Some(c) => c,
            None => parse_compound_spec(cmd, rest),
        }
    }
}

/// A line parses as its trimmed text does, and as `Empty` exactly when it
/// is blank.
pub proof fn lemma_parse_line_trims(line: Seq<char>)
    ensures
        parse_line_spec(trim(line)) == parse_line_spec(line),
        trim(line).len() == 0 ==> parse_line_spec(line) == Cmd::Empty,
        trim(line).len() > 0 ==> parse_line_spec(line) != Cmd::Empty,
{
    lemma_trim_idempotent(line);
}

/// Position `i` of `s` lies in its first word.
pub open spec fn in_first_word(s: Seq<char>, i: int) -> bool {
    forall|j: int| 0 <= j <= i ==> !is_ws(#[trigger] s[j])
}

/// `a` and `b` differ at most in the ASCII case of their first word.
pub open spec fn same_but_command_case(a: Seq<char>, b: Seq<char>) -> bool {
    &&& a.len() == b.len()
    &&& forall|i: int|
        0 <= i < a.len() ==> if in_first_word(a, i) {
            lower_char(#[trigger] a[i]) == lower_char(b[i])
        } else {
            a[i] == b[i]
        }
}

proof fn lemma_lower_keeps_ws(c: char, d: char)
    requires
        lower_char(c) == lower_char(d),
    ensures
        is_ws(c) == is_ws(d),
{
}

/// Lines that differ only in the ASCII case of the command word parse the
/// same: the command word is matched without regard to case, and the
/// arguments keep theirs.
pub proof fn lemma_parse_line_command_case(a: Seq<char>, b: Seq<char>)
    requires
        same_but_command_case(trim(a), trim(b)),
    ensures
        parse_line_spec(a) == parse_line_spec(b),
{
    let ta = trim(a);
    let tb = trim(b);
    if ta.len() > 0 {
        lemma_split_command_case(ta, tb);
        let (ca, ra) = split_command_spec(ta);
        let (cb, rb) = split_command_spec(tb);
        assert(ascii_lower(ca) == ascii_lower(cb) && ra == rb);
    }
}

proof fn lemma_split_command_case(ta: Seq<char>, tb: Seq<char>)
    requires
        same_but_command_case(ta, tb),
        ta.len() > 0,
    ensures
        ascii_lower(split_command_spec(ta).0) == ascii_lower(split_command_spec(tb).0),
        split_command_spec(ta).1 == split_command_spec(tb).1,
{
    if ta.len() > 0 {
        lemma_find_ws_from_facts(ta, 0);
        lemma_find_ws_from_facts(tb, 0);
        assert forall|j: int| 0 <= j < ta.len() && in_first_word(ta, j) implies !is_ws(
            #[trigger] tb[j],
        ) by {
            lemma_lower_keeps_ws(ta[j], tb[j]);
        }
        match find_ws(ta) {
            Some(k) => {
                assert(!in_first_word(ta, k));
                assert(tb[k] == ta[k]);
                assert forall|j: int| 0 <= j < k implies in_first_word(ta, j) by {}
                assert forall|j: int| 0 <= j < k implies !is_ws(#[trigger] tb[j]) by {
                    assert(in_first_word(ta, j));
                }
                assert(find_ws(tb) == Some(k));
                assert(ascii_lower(ta.take(k)) =~= ascii_lower(tb.take(k))) by {
                    assert forall|j: int| 0 <= j < k implies lower_char(#[trigger] ta.take(k)[j]) == lower_char(
                        tb.take(k)[j],
                    ) by {
                        assert(in_first_word(ta, j));
                    }
                }
                assert(ta.skip(k + 1) =~= tb.skip(k + 1)) by {
                    assert forall|j: int| 0 <= j < ta.len() - (k + 1) implies #[trigger] ta.skip(k + 1)[j]
                        == tb.skip(k + 1)[j] by {
                        assert(!in_first_word(ta, k + 1 + j)) by {
                            assert(is_ws(ta[k]));
                        }
                    }
                }
            },
            None => {
                assert forall|j: int| 0 <= j < ta.len() implies in_first_word(ta, j) by {}
                assert(find_ws(tb) is None) by {
                    if find_ws(tb) is Some {
                        let k = find_ws(tb)->0;
                        assert(in_first_word(ta, k));
                        assert(!is_ws(tb[k]));
                    }
                }
                assert(ascii_lower(ta) =~= ascii_lower(tb)) by {
                    assert forall|j: int| 0 <= j < ta.len() implies lower_char(#[trigger] ta[j]) == lower_char(
                        tb[j],
                    ) by {
                        assert(in_first_word(ta, j));
                    }
                }
            },
        }
    }
}


/// `skip` is none of the other command words.
proof fn lemma_skip_is_skip()
    ensures
        parse_simple_spec("skip"@, Seq::empty()) is None,
        forall|rest: Seq<char>| #[trigger] parse_simple_spec("skip"@, rest) is None,
        forall|rest: Seq<char>| #[trigger] parse_compound_spec("skip"@, rest) == parse_skip_spec(rest),
{
    reveal_strlit("skip");
    reveal_strlit("help");
    assert("skip"@ != "help"@) by {
        assert("skip"@[0] != "help"@[0]);
    }
    reveal_strlit("h");
    assert("skip"@ != "h"@) by {
        assert("skip"@[0] != "h"@[0]);
    }
    reveal_strlit("?");
    assert("skip"@ != "?"@) by {
        assert("skip"@[0] != "?"@[0]);
    }
    reveal_strlit("version");
    assert("skip"@ != "version"@) by {
        assert("skip"@[0] != "version"@[0]);
    }
    reveal_strlit("ver");
    assert("skip"@ != "ver"@) by {
        assert("skip"@[0] != "ver"@[0]);
    }
    reveal_strlit("quit");
    assert("skip"@ != "quit"@) by {
        assert("skip"@[0] != "quit"@[0]);
    }
    reveal_strlit("q");
    assert("skip"@ != "q"@) by {
        assert("skip"@[0] != "q"@[0]);
    }
    reveal_strlit("exit");
    assert("skip"@ != "exit"@) by {
        assert("skip"@[0] != "exit"@[0]);
    }
    reveal_strlit("continue");
    assert("skip"@ != "continue"@) by {
        assert("skip"@[0] != "continue"@[0]);
    }
    reveal_strlit("cont");
    assert("skip"@ != "cont"@) by {
        assert("skip"@[0] != "cont"@[0]);
    }
    reveal_strlit("c");
    assert("skip"@ != "c"@) by {
        assert("skip"@[0] != "c"@[0]);
    }
    reveal_strlit("run");
    assert("skip"@ != "run"@) by {
        assert("skip"@[0] != "run"@[0]);
    }
    reveal_strlit("next");
    assert("skip"@ != "next"@) by {
        assert("skip"@[0] != "next"@[0]);
    }
    reveal_strlit("n");
    assert("skip"@ != "n"@) by {
        assert("skip"@[0] != "n"@[0]);
    }
    reveal_strlit("step-over");
    assert("skip"@ != "step-over"@) by {
        assert("skip"@[1] != "step-over"@[1]);
    }
    reveal_strlit("stepover");
    assert("skip"@ != "stepover"@) by {
        assert("skip"@[1] != "stepover"@[1]);
    }
    reveal_strlit("step");
    assert("skip"@ != "step"@) by {
        assert("skip"@[1] != "step"@[1]);
    }
    reveal_strlit("s");
    assert("skip"@ != "s"@) by {
        assert("skip"@.len() != "s"@.len());
    }
    reveal_strlit("step-in");
    assert("skip"@ != "step-in"@) by {
        assert("skip"@[1] != "step-in"@[1]);
    }
    reveal_strlit("stepin");
    assert("skip"@ != "stepin"@) by {
        assert("skip"@[1] != "stepin"@[1]);
    }
    reveal_strlit("finish");
    assert("skip"@ != "finish"@) by {
        assert("skip"@[0] != "finish"@[0]);
    }
    reveal_strlit("step-out");
    assert("skip"@ != "step-out"@) by {
        assert("skip"@[1] != "step-out"@[1]);
    }
    reveal_strlit("stepout");
    assert("skip"@ != "stepout"@) by {
        assert("skip"@[1] != "stepout"@[1]);
    }
    reveal_strlit("threads");
    assert("skip"@ != "threads"@) by {
        assert("skip"@[0] != "threads"@[0]);
    }
    reveal_strlit("info");
    assert("skip"@ != "info"@) by {
        assert("skip"@[0] != "info"@[0]);
    }
    reveal_strlit("bt");
    assert("skip"@ != "bt"@) by {
        assert("skip"@[0] != "bt"@[0]);
    }
    reveal_strlit("backtrace");
    assert("skip"@ != "backtrace"@) by {
        assert("skip"@[0] != "backtrace"@[0]);
    }
    reveal_strlit("stack");
    assert("skip"@ != "stack"@) by {
        assert("skip"@[1] != "stack"@[1]);
    }
    reveal_strlit("where");
    assert("skip"@ != "where"@) by {
        assert("skip"@[0] != "where"@[0]);
    }
    reveal_strlit("status");
    assert("skip"@ != "status"@) by {
        assert("skip"@[1] != "status"@[1]);
    }
    reveal_strlit("sync");
    assert("skip"@ != "sync"@) by {
        assert("skip"@[1] != "sync"@[1]);
    }
    reveal_strlit("capabilities");
    assert("skip"@ != "capabilities"@) by {
        assert("skip"@[0] != "capabilities"@[0]);
    }
    reveal_strlit("caps");
    assert("skip"@ != "caps"@) by {
        assert("skip"@[0] != "caps"@[0]);
    }
    reveal_strlit("show");
    assert("skip"@ != "show"@) by {
        assert("skip"@[1] != "show"@[1]);
    }
    reveal_strlit("src");
    assert("skip"@ != "src"@) by {
        assert("skip"@[1] != "src"@[1]);
    }
    reveal_strlit("code");
    assert("skip"@ != "code"@) by {
        assert("skip"@[0] != "code"@[0]);
    }
    reveal_strlit("break");
    assert("skip"@ != "break"@) by {
        assert("skip"@[0] != "break"@[0]);
    }
    reveal_strlit("b");
    assert("skip"@ != "b"@) by {
        assert("skip"@[0] != "b"@[0]);
    }
    reveal_strlit("trace");
    assert("skip"@ != "trace"@) by {
        assert("skip"@[0] != "trace"@[0]);
    }
    reveal_strlit("tbreak");
    assert("skip"@ != "tbreak"@) by {
        assert("skip"@[0] != "tbreak"@[0]);
    }
    reveal_strlit("clear");
    assert("skip"@ != "clear"@) by {
        assert("skip"@[0] != "clear"@[0]);
    }
}

/// `skip clear P` removes the skip pattern `P` (trimmed) and no other: for
/// every pattern that is not blank, the pattern is kept.
pub proof fn lemma_skip_clear_keeps_pattern(p: Seq<char>)
    requires
        trim(p).len() > 0,
    ensures
        parse_line_spec("skip clear "@ + p) == (Cmd::SkipClear { pattern: Some(trim(p)) }),
{
    reveal_strlit("skip clear ");
    reveal_strlit("clear ");
    reveal_strlit("skip");
    reveal_strlit("list");
    reveal_strlit("clear");
    reveal_strlit("add ");
    let l = "skip clear "@;
    let line = l + p;
    assert(!is_ws(l[0]));
    lemma_trim_prefixed(l, p);
    let pe = p.take(p.len() - trail_ws(p));
    let t = l + pe;
    assert(trim(line) == t);
    lemma_trim_trim_end(p);
    assert(trim(pe) == trim(p));
    // The command word is `skip`.
    lemma_find_ws_from_facts(t, 0);
    assert(is_ws(t[4]));
    assert(!is_ws(t[0]) && !is_ws(t[1]) && !is_ws(t[2]) && !is_ws(t[3]));
    assert(find_ws(t) == Some(4int));
    assert(t.take(4) =~= "skip"@);
    assert(ascii_lower("skip"@) =~= "skip"@);
    // The rest is `clear ` and the pattern without its trailing space.
    let c = "clear "@;
    assert(t.skip(5) =~= c + pe);
    assert(!is_ws(c[0]));
    lemma_trim_prefixed(c, pe);
    lemma_trim_nonblank(p);
    assert(pe.len() > 0);
    assert(pe[pe.len() - 1] == p[p.len() - trail_ws(p) - 1]);
    lemma_trail_ws_is(pe, 0);
    assert(pe.take(pe.len() - 0) =~= pe);
    let rest = c + pe;
    assert(trim(t.skip(5)) == rest);
    assert(split_command_spec(t) == ("skip"@, rest));
    lemma_trim_idempotent(t.skip(5));
    assert(trim(rest) == rest);
    lemma_skip_is_skip();
    assert(rest != "list"@);
    assert(rest != "clear"@);
    assert(rest.take(4) != "add "@) by {
        assert(rest.take(4)[0] == 'c');
    }
    assert(rest.take(6) =~= "clear "@);
    assert(rest.skip(6) =~= pe);
}

// ---------------------------------------------------------------------------
// Implementation over a character vector: every helper reads `v[lo..hi]`.
// ---------------------------------------------------------------------------
pub open spec fn part(v: Seq<char>, lo: usize, hi: usize) -> Seq<char> {
    v.subrange(lo as int, hi as int)
}

fn parse_optional_bool_tri(v: &Vec<char>, lo: usize, hi: usize) -> (r: Option<Option<bool>>)
    requires
        lo <= hi <= v.len(),
    ensures
        r == optional_bool_spec(part(v@, lo, hi)),
{
    let (a, b) = trim_range(v, lo, hi);
    let t = crate::text::sub_chars(v, a, b);
    let l = lower_chars(&t);
    if l.len() == 0 {
        Some(None)
    } else if eq_lit(&l, "on") || eq_lit(&l, "1") || eq_lit(&l, "true") || eq_lit(&l, "yes") {
        Some(Some(true))
    } else if eq_lit(&l, "off") || eq_lit(&l, "0") || eq_lit(&l, "false") || eq_lit(&l, "no") {
        Some(Some(false))
    } else {
        None
    }
}

/// `on/off`-style argument; anything else means "not given".
pub fn parse_optional_bool(v: &Vec<char>, lo: usize, hi: usize) -> (r: Option<bool>)
    requires
        lo <= hi <= v.len(),
    ensures
        r == parse_optional_bool_spec(part(v@, lo, hi)),
{
    match parse_optional_bool_tri(v, lo, hi) {
        Some(b) => b,
        None => None,
    }
}

/// The command word and the trimmed rest of `v[lo..hi]`.
pub fn split_command(v: &Vec<char>, lo: usize, hi: usize) -> (r: (usize, usize, usize, usize))
    requires
        lo <= hi <= v.len(),
    ensures
        lo <= r.0 <= r.1 <= hi,
        lo <= r.2 <= r.3 <= hi,
        split_command_spec(part(v@, lo, hi)) == (part(v@, r.0, r.1), part(v@, r.2, r.3)),
{
    let ghost s = part(v@, lo, hi);
    match find_ws_in(v, lo, hi) {
        Some(k) => {
            assert(s.take(k as int) =~= part(v@, lo, (lo + k) as usize));
            assert(s.skip(k + 1) =~= part(v@, (lo + k + 1) as usize, hi));
            let (a, b) = trim_range(v, lo + k + 1, hi);
            (lo, lo + k, a, b)
        },
        None => {
            assert(part(v@, hi, hi) =~= Seq::<char>::empty());
            (lo, hi, hi, hi)
        },
    }
}

/// `help` topic: the trimmed rest, if any.
pub fn parse_help_topic(v: &Vec<char>, lo: usize, hi: usize) -> (r: Option<String>)
    requires
        lo <= hi <= v.len(),
    ensures
        r.deep_view() == parse_help_topic_spec(part(v@, lo, hi)),
{
    let (a, b) = trim_range(v, lo, hi);
    if a == b {
        None
    } else {
        Some(string_of_range(v, a, b))
    }
}

pub fn parse_eval(v: &Vec<char>, lo: usize, hi: usize, pretty: bool) -> (r: ReplCommand)
    requires
        lo <= hi <= v.len(),
    ensures
        r@ == parse_eval_spec(part(v@, lo, hi), pretty),
{
    if lo == hi {
        ReplCommand::Unknown(owned("expression required"))
    } else {
        ReplCommand::Eval { expression: string_of_range(v, lo, hi), pretty }
    }
}

pub fn parse_show(v: &Vec<char>, lo: usize, hi: usize) -> (r: ReplCommand)
    requires
        lo <= hi <= v.len(),
    ensures
        r@ == parse_show_spec(part(v@, lo, hi)),
{
    let (a, b) = trim_range(v, lo, hi);
    if a == b {
        return ReplCommand::Show { context: None };
    }
    match parse_unsigned_in(v, a, b, 10, 0xFFFF_FFFF) {
        Some(n) => ReplCommand::Show { context: Some(n as u32) },
        None => ReplCommand::Unknown(owned("usage: show [context-lines]")),
    }
}

pub fn parse_trace(v: &Vec<char>, lo: usize, hi: usize) -> (r: ReplCommand)
    requires
        lo <= hi <= v.len(),
    ensures
        r@ == parse_trace_spec(part(v@, lo, hi)),
{
    let ghost s = part(v@, lo, hi);
    match break_location_in(v, lo, hi) {
        Ok((path, line, options)) => match options.log_message {
            Some(m) => ReplCommand::Trace { path, line, message: m },
            None => ReplCommand::Trace { path, line, message: owned("tracepoint") },
        },
        Err(_) => {
            match find_char_in(v, lo, hi, ':') {
                Some(k) => {
                    assert(s.take(k as int) =~= part(v@, lo, (lo + k) as usize));
                    assert(s.skip(k + 1) =~= part(v@, (lo + k + 1) as usize, hi));
                    let (a, b) = trim_range(v, lo + k + 1, hi);
                    match parse_i64_in(v, a, b) {
                        Some(line) => ReplCommand::Trace {
                            path: string_of_range(v, lo, lo + k),
                            line,
                            message: owned("tracepoint"),
                        },
                        None => ReplCommand::Unknown(
                            owned("usage: trace <file>:<line> [log MESSAGE]"),
                        ),
                    }
                },
                None => ReplCommand::Unknown(owned("usage: trace <file>:<line> [log MESSAGE]")),
            }
        },
    }
}

pub fn parse_skip(v: &Vec<char>, lo: usize, hi: usize) -> (r: ReplCommand)
    requires
        lo <= hi <= v.len(),
    ensures
        r@ == parse_skip_spec(part(v@, lo, hi)),
{
    let (a, b) = trim_range(v, lo, hi);
    if a == b || range_is(v, a, b, "list") {
        return ReplCommand::SkipList;
    }
    if range_is(v, a, b, "clear") {
        return ReplCommand::SkipClear { pattern: None };
    }
    match range_strip(v, a, b, "add ") {
        Some(k) => {
            let (c, d) = trim_range(v, k, b);
            ReplCommand::SkipAdd { pattern: string_of_range(v, c, d) }
        },
        None => match range_strip(v, a, b, "clear ") {
            Some(k) => {
                let (c, d) = trim_range(v, k, b);
                ReplCommand::SkipClear { pattern: Some(string_of_range(v, c, d)) }
            },
            None => ReplCommand::SkipAdd { pattern: string_of_range(v, a, b) },
        },
    }
}

pub fn parse_clear(v: &Vec<char>, lo: usize, hi: usize) -> (r: ReplCommand)
    requires
        lo <= hi <= v.len(),
    ensures
        r@ == parse_clear_spec(part(v@, lo, hi)),
{
    let (a, b) = trim_range(v, lo, hi);
    let ghost s = part(v@, a, b);
    if a == b {
        return ReplCommand::Unknown(owned("usage: clear <file> or clear <file>:<line>"));
    }
    match find_char_in(v, a, b, ':') {
        Some(k) => {
            assert(s.take(k as int) =~= part(v@, a, (a + k) as usize));
            assert(s.skip(k + 1) =~= part(v@, (a + k + 1) as usize, b));
            let (c, d) = trim_range(v, a + k + 1, b);
            match parse_i64_in(v, c, d) {
                Some(line) => ReplCommand::Clear {
                    path: string_of_range(v, a, a + k),
                    line: Some(line),
                },
                None => ReplCommand::Unknown(owned("invalid line number in clear location")),
            }
        },
        None => ReplCommand::Clear { path: string_of_range(v, a, b), line: None },
    }
}

pub fn parse_frame(v: &Vec<char>, lo: usize, hi: usize) -> (r: ReplCommand)
    requires
        lo <= hi <= v.len(),
    ensures
        r@ == parse_frame_spec(part(v@, lo, hi)),
{
    let (a, b) = trim_range(v, lo, hi);
    if a == b {
        return ReplCommand::Unknown(owned("frame requires a number"));
    }
    match parse_i64_in(v, a, b) {
        Some(x) => ReplCommand::Frame(x),
        None => ReplCommand::Unknown(concat_lit_range("invalid frame number: ", v, a, b)),
    }
}

pub fn parse_thread(v: &Vec<char>, lo: usize, hi: usize) -> (r: ReplCommand)
    requires
        lo <= hi <= v.len(),
    ensures
        r@ == parse_thread_spec(part(v@, lo, hi)),
{
    let (a, b) = trim_range(v, lo, hi);
    if a == b {
        return ReplCommand::Unknown(owned("thread requires a number"));
    }
    match parse_i64_in(v, a, b) {
        Some(x) => ReplCommand::Thread(x),
        None => ReplCommand::Unknown(concat_lit_range("invalid thread id: ", v, a, b)),
    }
}

pub fn parse_set(v: &Vec<char>, lo: usize, hi: usize) -> (r: ReplCommand)
    requires
        lo <= hi <= v.len(),
    ensures
        r@ == parse_set_spec(part(v@, lo, hi)),
{
    let (a0, b) = trim_range(v, lo, hi);
    let a = match range_strip(v, a0, b, "variable ") {
        Some(k) => k,
        None => a0,
    };
    let ghost s = part(v@, a, b);
    match find_char_in(v, a, b, '=') {
        Some(k) => {
            assert(s.take(k as int) =~= part(v@, a, (a + k) as usize));
            assert(s.skip(k + 1) =~= part(v@, (a + k + 1) as usize, b));
            let (n0, n1) = trim_range(v, a, a + k);
            let (v0, v1) = trim_range(v, a + k + 1, b);
            if n0 == n1 {
                return ReplCommand::Unknown(owned("set requires a variable name"));
            }
            if v0 == v1 {
                return ReplCommand::Unknown(owned("set requires a value"));
            }
            ReplCommand::SetVariable {
                name: string_of_range(v, n0, n1),
                value: string_of_range(v, v0, v1),
            }
        },
        None => ReplCommand::Unknown(owned("usage: set <name> = <value>")),
    }
}

pub fn parse_goto(v: &Vec<char>, lo: usize, hi: usize) -> (r: ReplCommand)
    requires
        lo <= hi <= v.len(),
    ensures
        r@ == parse_goto_spec(part(v@, lo, hi)),
{
    match break_location_in(v, lo, hi) {
        Ok((path, line, _)) => ReplCommand::Goto { path, line },
        Err(m) => ReplCommand::Unknown(m),
    }
}

pub fn parse_break_function(v: &Vec<char>, lo: usize, hi: usize) -> (r: ReplCommand)
    requires
        lo <= hi <= v.len(),
    ensures
        r@ == parse_break_function_spec(part(v@, lo, hi)),
{
    let (a, b) = trim_range(v, lo, hi);
    if a == b {
        return ReplCommand::Unknown(owned("usage: break function <name>"));
    }
    if range_is(v, a, b, "clear") {
        return ReplCommand::BreakFunction {
            name: String::new(),
            action: FunctionBreakpointAction::Clear,
        };
    }
    match range_strip(v, a, b, "clear ") {
        Some(k) => {
            let (c, d) = trim_range(v, k, b);
            ReplCommand::BreakFunction {
                name: string_of_range(v, c, d),
                action: FunctionBreakpointAction::Remove,
            }
        },
        None => ReplCommand::BreakFunction {
            name: string_of_range(v, a, b),
            action: FunctionBreakpointAction::Add,
        },
    }
}

pub fn parse_data_watch(v: &Vec<char>, lo: usize, hi: usize) -> (r: ReplCommand)
    requires
        lo <= hi <= v.len(),
    ensures
        r@ == parse_data_watch_spec(part(v@, lo, hi)),
{
    let (a, b) = trim_range(v, lo, hi);
    if a == b || range_is(v, a, b, "list") {
        return ReplCommand::DataWatchList;
    }
    match range_strip(v, a, b, "remove ") {
        Some(k) => {
            let (c, d) = trim_range(v, k, b);
            ReplCommand::DataWatchRemove { expression: string_of_range(v, c, d) }
        },
        None => match range_strip(v, a, b, "add ") {
            Some(k) => {
                let (c, d) = trim_range(v, k, b);
                ReplCommand::DataWatchAdd { expression: string_of_range(v, c, d) }
            },
            None => ReplCommand::DataWatchAdd { expression: string_of_range(v, a, b) },
        },
    }
}

pub fn parse_restart(v: &Vec<char>, lo: usize, hi: usize) -> (r: ReplCommand)
    requires
        lo <= hi <= v.len(),
    ensures
        r@ == parse_restart_spec(part(v@, lo, hi)),
{
    let (a, b) = trim_range(v, lo, hi);
    if a == b {
        return ReplCommand::RestartFrame { frame_id: None };
    }
    let c = match range_strip(v, a, b, "frame ") {
        Some(k) => k,
        None => a,
    };
    match parse_i64_in(v, c, b) {
        Some(x) => ReplCommand::RestartFrame { frame_id: Some(x) },
        None => ReplCommand::Unknown(owned("usage: restart [frame <id>]")),
    }
}

fn number_at_or(parts: &Vec<Vec<char>>, i: usize, default: i64) -> (r: i64)
    ensures
        r as int == number_or(views(parts@), i as int, default as int),
{
    if i < parts.len() {
        assert(views(parts@)[i as int] == parts@[i as int]@);
        assert(parts@[i as int]@.subrange(0, parts@[i as int]@.len() as int) =~= parts@[i as int]@);
        match parse_i64_in(&parts[i], 0, parts[i].len()) {
            Some(x) => x,
            None => default,
        }
    } else {
        default
    }
}

pub fn parse_disassemble(v: &Vec<char>, lo: usize, hi: usize) -> (r: ReplCommand)
    requires
        lo <= hi <= v.len(),
    ensures
        r@ == parse_disassemble_spec(part(v@, lo, hi)),
{
    let parts = words_in(v, lo, hi);
    if parts.len() == 0 {
        return ReplCommand::Unknown(owned("usage: disasm <memory-reference> [offset] [count]"));
    }
    assert(views(parts@)[0] == parts@[0]@);
    let offset = number_at_or(&parts, 1, 0);
    let count = number_at_or(&parts, 2, 1);
    ReplCommand::Disassemble { memory_reference: string_of(&parts[0]), offset, count }
}

pub fn parse_colors(v: &Vec<char>, lo: usize, hi: usize) -> (r: ReplCommand)
    requires
        lo <= hi <= v.len(),
    ensures
        r@ == parse_colors_spec(part(v@, lo, hi)),
{
    match parse_optional_bool_tri(v, lo, hi) {
        Some(b) => ReplCommand::Colors { enable: b },
        None => {
            let (a, b) = trim_range(v, lo, hi);
            let t = crate::text::sub_chars(v, a, b);
            let l = lower_chars(&t);
            let mut m = concat_lit_range("usage: colors [on|off] (got '", &l, 0, l.len());
            m.append("')");
            assert(l@.subrange(0, l.len() as int) =~= l@);
            ReplCommand::Unknown(m)
        },
    }
}

pub fn parse_catch(v: &Vec<char>, lo: usize, hi: usize) -> (r: ReplCommand)
    requires
        lo <= hi <= v.len(),
    ensures
        r@ == parse_catch_spec(part(v@, lo, hi)),
{
    let (a, b) = trim_range(v, lo, hi);
    let ghost s = part(v@, a, b);
    if a == b {
        return ReplCommand::Unknown(
            owned("usage: catch <filter> [if EXPR] or catch clear [filter]"),
        );
    }
    if range_is(v, a, b, "clear") {
        return ReplCommand::Catch { filter: None, condition: None, clear: true };
    }
    match range_strip(v, a, b, "clear ") {
        Some(k) => {
            let (c, d) = trim_range(v, k, b);
            if c == d {
                ReplCommand::Catch { filter: None, condition: None, clear: true }
            } else {
                ReplCommand::Catch {
                    filter: Some(string_of_range(v, c, d)),
                    condition: None,
                    clear: true,
                }
            }
        },
        None => {
            let pat = chars_of(" if ");
            match find_in(v, a, b, &pat) {
                Some(k) => {
                    assert(s.take(k as int) =~= part(v@, a, (a + k) as usize));
                    assert(s.skip(k + pat.len()) =~= part(v@, (a + k + pat.len()) as usize, b));
                    let (f0, f1) = trim_range(v, a, a + k);
                    let (c0, c1) = trim_range(v, a + k + pat.len(), b);
                    if f0 == f1 || c0 == c1 {
                        ReplCommand::Unknown(owned("usage: catch <filter> if EXPR"))
                    } else {
                        ReplCommand::Catch {
                            filter: Some(string_of_range(v, f0, f1)),
                            condition: Some(string_of_range(v, c0, c1)),
                            clear: false,
                        }
                    }
                },
                None => ReplCommand::Catch {
                    filter: Some(string_of_range(v, a, b)),
                    condition: None,
                    clear: false,
                },
            }
        },
    }
}

pub fn parse_watch_command(v: &Vec<char>, lo: usize, hi: usize) -> (r: ReplCommand)
    requires
        lo <= hi <= v.len(),
    ensures
        r@ == parse_watch_spec(part(v@, lo, hi)),
{
    let (a, b) = trim_range(v, lo, hi);
    if a == b {
        return ReplCommand::Unknown(owned("usage: watch <expression>"));
    }
    ReplCommand::WatchAdd { expression: string_of_range(v, a, b) }
}

pub fn parse_unwatch_command(v: &Vec<char>, lo: usize, hi: usize) -> (r: ReplCommand)
    requires
        lo <= hi <= v.len(),
    ensures
        r@ == parse_unwatch_spec(part(v@, lo, hi)),
{
    let (a, b) = trim_range(v, lo, hi);
    if a == b {
        return ReplCommand::Unknown(owned("usage: unwatch <expression>"));
    }
    ReplCommand::WatchRemove { expression: string_of_range(v, a, b) }
}

fn parse_break(v: &Vec<char>, lo: usize, hi: usize) -> (r: ReplCommand)
    requires
        lo <= hi <= v.len(),
    ensures
        r@ == parse_break_spec(part(v@, lo, hi)),
{
    match range_strip(v, lo, hi, "function ") {
        Some(k) => parse_break_function(v, k, hi),
        None => match break_location_in(v, lo, hi) {
            Ok((path, line, options)) => ReplCommand::Break { path, line, options },
            Err(m) => ReplCommand::Unknown(m),
        },
    }
}

fn parse_info(v: &Vec<char>, lo: usize, hi: usize) -> (r: ReplCommand)
    requires
        lo <= hi <= v.len(),
    ensures
        r@ == parse_info_spec(part(v@, lo, hi)),
{
    if range_is(v, lo, hi, "threads") {
        ReplCommand::Threads
    } else if range_is(v, lo, hi, "scopes") {
        ReplCommand::Scopes
    } else if range_is(v, lo, hi, "locals") {
        ReplCommand::Locals
    } else if range_is(v, lo, hi, "break") || range_is(v, lo, hi, "breakpoints") {
        ReplCommand::InfoBreak
    } else if range_is(v, lo, hi, "catch") {
        ReplCommand::InfoCatch
    } else {
        ReplCommand::Unknown(concat_lit_range("unknown info subcommand: ", v, lo, hi))
    }
}

fn parse_simple(cmd: &Vec<char>, v: &Vec<char>, lo: usize, hi: usize) -> (r: Option<ReplCommand>)
    requires
        lo <= hi <= v.len(),
    ensures
        match parse_simple_spec(cmd@, part(v@, lo, hi)) {
            Some(c) => r matches Some(x) && x@ == c,
            None => r is None,
        },
{
    if eq_lit(cmd, "help") || eq_lit(cmd, "h") || eq_lit(cmd, "?") {
        Some(ReplCommand::Help { topic: parse_help_topic(v, lo, hi) })
    } else if eq_lit(cmd, "version") || eq_lit(cmd, "ver") {
        Some(ReplCommand::Version)
    } else if eq_lit(cmd, "quit") || eq_lit(cmd, "q") || eq_lit(cmd, "exit") {
        Some(ReplCommand::Quit)
    } else if eq_lit(cmd, "continue") || eq_lit(cmd, "cont") || eq_lit(cmd, "c") || eq_lit(
        cmd,
        "run",
    ) {
        Some(ReplCommand::Continue)
    } else if eq_lit(cmd, "next") || eq_lit(cmd, "n") || eq_lit(cmd, "step-over") || eq_lit(
        cmd,
        "stepover",
    ) {
        Some(ReplCommand::StepOver)
    } else if eq_lit(cmd, "step") || eq_lit(cmd, "s") || eq_lit(cmd, "step-in") || eq_lit(
        cmd,
        "stepin",
    ) {
        Some(ReplCommand::StepIn)
    } else if eq_lit(cmd, "finish") || eq_lit(cmd, "step-out") || eq_lit(cmd, "stepout") {
        Some(ReplCommand::StepOut)
    } else if eq_lit(cmd, "threads") {
        Some(ReplCommand::Threads)
    } else if eq_lit(cmd, "info") {
        Some(parse_info(v, lo, hi))
    } else if eq_lit(cmd, "bt") || eq_lit(cmd, "backtrace") || eq_lit(cmd, "stack") || eq_lit(
        cmd,
        "where",
    ) {
        let (a, b) = trim_range(v, lo, hi);
        let t = crate::text::sub_chars(v, a, b);
        let l = lower_chars(&t);
        Some(ReplCommand::Stack { full: eq_lit(&l, "full") })
    } else if eq_lit(cmd, "status") {
        Some(ReplCommand::Status)
    } else if eq_lit(cmd, "sync") {
        Some(ReplCommand::Sync)
    } else if eq_lit(cmd, "capabilities") || eq_lit(cmd, "caps") {
        Some(ReplCommand::Capabilities)
    } else {
        None
    }
}

fn parse_compound(cmd: &Vec<char>, v: &Vec<char>, lo: usize, hi: usize) -> (r: ReplCommand)
    requires
        lo <= hi <= v.len(),
    ensures
        r@ == parse_compound_spec(cmd@, part(v@, lo, hi)),
{
    if eq_lit(cmd, "show") || eq_lit(cmd, "src") || eq_lit(cmd, "code") {
        parse_show(v, lo, hi)
    } else if eq_lit(cmd, "break") || eq_lit(cmd, "b") {
        parse_break(v, lo, hi)
    } else if eq_lit(cmd, "trace") || eq_lit(cmd, "tbreak") {
        parse_trace(v, lo, hi)
    } else if eq_lit(cmd, "clear") {
        parse_clear(v, lo, hi)
    } else if eq_lit(cmd, "skip") {
        parse_skip(v, lo, hi)
    } else if eq_lit(cmd, "print") || eq_lit(cmd, "p") || eq_lit(cmd, "eval") || eq_lit(
        cmd,
        "expr",
    ) {
        parse_eval(v, lo, hi, false)
    } else if eq_lit(cmd, "pp") {
        parse_eval(v, lo, hi, true)
    } else if eq_lit(cmd, "scopes") {
        ReplCommand::Scopes
    } else if eq_lit(cmd, "locals") {
        ReplCommand::Locals
    } else if eq_lit(cmd, "watch") {
        if lo == hi {
            ReplCommand::WatchList
        } else {
            parse_watch_command(v, lo, hi)
        }
    } else if eq_lit(cmd, "unwatch") {
        parse_unwatch_command(v, lo, hi)
    } else if eq_lit(cmd, "smart-step") || eq_lit(cmd, "smartstep") {
        ReplCommand::SmartStep { enable: parse_optional_bool(v, lo, hi) }
    } else if eq_lit(cmd, "goto") || eq_lit(cmd, "jump") {
        parse_goto(v, lo, hi)
    } else if eq_lit(cmd, "data-watch") || eq_lit(cmd, "dwatch") {
        parse_data_watch(v, lo, hi)
    } else if eq_lit(cmd, "restart") {
        parse_restart(v, lo, hi)
    } else if eq_lit(cmd, "disasm") || eq_lit(cmd, "disassemble") {
        parse_disassemble(v, lo, hi)
    } else if eq_lit(cmd, "frame") || eq_lit(cmd, "f") {
        parse_frame(v, lo, hi)
    } else if eq_lit(cmd, "thread") || eq_lit(cmd, "t") {
        parse_thread(v, lo, hi)
    } else if eq_lit(cmd, "set") {
        parse_set(v, lo, hi)
    } else if eq_lit(cmd, "catch") {
        parse_catch(v, lo, hi)
    } else if eq_lit(cmd, "colors") || eq_lit(cmd, "color") || eq_lit(cmd, "syntax-color")
        || eq_lit(cmd, "syntax-colors") {
        parse_colors(v, lo, hi)
    } else {
        let m = concat_lit_range("unknown command: ", cmd, 0, cmd.len());
        assert(cmd@.subrange(0, cmd.len() as int) =~= cmd@);
        ReplCommand::Unknown(m)
    }
}

/// Parses one line of interactive input.
pub fn parse_line(line: &str) -> (r: ReplCommand)
    ensures
        r@ == parse_line_spec(line@),
{
    let v = chars_of(line);
    assert(part(v@, 0, v.len()) =~= v@);
    let (a, b) = trim_range(&v, 0, v.len());
    if a == b {
        return ReplCommand::Empty;
    }
    let (c0, c1, r0, r1) = split_command(&v, a, b);
    let word = crate::text::sub_chars(&v, c0, c1);
    let cmd = lower_chars(&word);
    match parse_simple(&cmd, &v, r0, r1) {
        Some(c) => c,
        None => parse_compound(&cmd, &v, r0, r1),
    }
}

} // verus!
