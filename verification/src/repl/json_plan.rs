//! The NDJSON protocol of the interactive debugger: which operation a
//! request asks for, with its arguments checked, before any of it is sent
//! to the session.
use vstd::prelude::*;
use crate::navigation::{name_spec, navigation_key, NavigationType};
use crate::repl::actions::{
    opt_str_view, parse_bool, parse_bool_spec, parse_breakpoint_action,
    parse_breakpoint_action_spec, parse_exception_breakpoint_action,
    parse_exception_breakpoint_action_spec, parse_function_breakpoint_action,
    parse_function_breakpoint_action_spec, str_result_view, ExceptionBreakpointAction, FunctionBreakpointAction,
};
use crate::repl::breakpoint::{BreakpointOptions, BreakpointRequest};
use crate::text::{chars_of, eq_lit, lower_char_exec, opt_view, owned, push_range};

verus! {

/// The fields of an NDJSON request that decide what it asks for. (The
/// request id and the raw `arguments` of a `dap` request are passed through
/// untouched by the caller.)
#[derive(Debug, Clone, Default)]
pub struct JsonRequest {
    pub op: String,
    pub path: Option<String>,
    pub line: Option<i64>,
    pub action: Option<String>,
    pub condition: Option<String>,
    pub hit_condition: Option<String>,
    pub log_message: Option<String>,
    pub pattern: Option<String>,
    pub thread_id: Option<i64>,
    pub frame_id: Option<i64>,
    pub expression: Option<String>,
    pub name: Option<String>,
    pub value: Option<String>,
    pub filter: Option<String>,
    pub variables_reference: Option<i64>,
    pub context_lines: Option<u32>,
    pub command: Option<String>,
    pub memory_reference: Option<String>,
    pub count: Option<i64>,
    pub offset: Option<i64>,
    pub data: Option<String>,
    pub include_stacks: Option<bool>,
    pub stack_depth: Option<i64>,
    pub max_threads: Option<i64>,
    pub text: Option<String>,
    pub column: Option<i64>,
}

/// The operations of the protocol, by name.
#[derive(Debug, Clone, Copy, PartialEq, Eq)]
pub enum OpKind {
    Help,
    Disconnect,
    Nav(NavigationType),
    Threads,
    Stack,
    Status,
    Sync,
    Show,
    Capabilities,
    Config,
    ReadMemory,
    WriteMemory,
    ThreadSnapshot,
    Scopes,
    Locals,
    Evaluate,
    Thread,
    Frame,
    Breakpoint,
    Clear,
    SkipList,
    SkipAdd,
    SkipClear,
    Breakpoints,
    SetVariable,
    ExceptionBreakpoint,
    ExceptionFilters,
    WatchAdd,
    WatchRemove,
    WatchList,
    SmartStep,
    SuppressEntryStop,
    FunctionBreakpoint,
    Goto,
    GotoTargets,
    Completions,
    DataWatchAdd,
    DataWatchRemove,
    DataWatchList,
    RestartFrame,
    Disassemble,
    InstructionBreakpoint,
    Dap,
    Context,
}

/// An operation with its checked arguments.
#[derive(Debug, Clone, PartialEq, Eq)]
pub enum JsonOp {
    Help,
    Disconnect,
    Navigate(NavigationType),
    Threads,
    Stack,
    Status,
    Sync,
    Show { context_lines: Option<u32> },
    Capabilities,
    Config,
    ReadMemory { memory_reference: String, count: Option<i64>, offset: Option<i64> },
    WriteMemory { memory_reference: String, data: String, offset: Option<i64> },
    ThreadSnapshot { include_stacks: bool, stack_depth: Option<i64>, max_threads: Option<i64> },
    Scopes,
    Locals,
    Variables { reference: i64 },
    Evaluate { expression: String },
    Thread { thread_id: i64 },
    Frame { frame_id: i64 },
    Breakpoint(BreakpointRequest),
    Clear { path: String, line: Option<i64> },
    SkipList,
    SkipAdd { pattern: String },
    SkipClear { pattern: Option<String> },
    Breakpoints,
    SetVariable { name: String, value: String, variables_reference: Option<i64> },
    ExceptionBreakpoint {
        filter: Option<String>,
        condition: Option<String>,
        action: ExceptionBreakpointAction,
    },
    ExceptionFilters,
    WatchAdd { expression: String },
    WatchRemove { expression: String },
    WatchList,
    SmartStep(bool),
    SuppressEntryStop(bool),
    FunctionBreakpoint { name: Option<String>, action: FunctionBreakpointAction },
    Goto { path: String, line: i64 },
    GotoTargets { path: String, line: i64 },
    Completions { text: String, column: i64 },
    DataWatchAdd { expression: String },
    DataWatchRemove { expression: String },
    DataWatchList,
    RestartFrame { frame_id: Option<i64> },
    Disassemble { memory_reference: String, offset: i64, count: i64 },
    InstructionBreakpoint { memory_reference: String, offset: i64, enabled: bool },
    Dap { command: String },
    Context,
}

/// The operation a normalised op name (`navigation_key`) stands for.
pub open spec fn op_kind_spec(k: Seq<char>) -> Option<OpKind> {
    if k == "help"@ {
        Some(OpKind::Help)
    } else if k == "quit"@ || k == "exit"@ || k == "stop"@ {
        Some(OpKind::Disconnect)
    } else if k == "continue"@ || k == "run"@ {
        Some(OpKind::Nav(NavigationType::Continue))
    } else if k == "step_over"@ || k == "next"@ {
        Some(OpKind::Nav(NavigationType::StepOver))
    } else if k == "step_in"@ || k == "step"@ {
        Some(OpKind::Nav(NavigationType::StepIn))
    } else if k == "step_out"@ || k == "finish"@ {
        Some(OpKind::Nav(NavigationType::StepOut))
    } else if k == "step_back"@ {
        Some(OpKind::Nav(NavigationType::StepBack))
    } else if k == "reverse_continue"@ {
        Some(OpKind::Nav(NavigationType::ReverseContinue))
    } else if k == "pause"@ {
        Some(OpKind::Nav(NavigationType::Pause))
    } else if k == "threads"@ {
        Some(OpKind::Threads)
    } else if k == "stack"@ || k == "backtrace"@ {
        Some(OpKind::Stack)
    } else if k == "status"@ {
        Some(OpKind::Status)
    } else if k == "sync"@ {
        Some(OpKind::Sync)
    } else if k == "show"@ || k == "src"@ || k == "code"@ {
        Some(OpKind::Show)
    } else if k == "capabilities"@ || k == "caps"@ {
        Some(OpKind::Capabilities)
    } else if k == "config"@ {
        Some(OpKind::Config)
    } else if k == "read_memory"@ {
        Some(OpKind::ReadMemory)
    } else if k == "write_memory"@ {
        Some(OpKind::WriteMemory)
    } else if k == "thread_snapshot"@ {
        Some(OpKind::ThreadSnapshot)
    } else if k == "scopes"@ {
        Some(OpKind::Scopes)
    } else if k == "locals"@ || k == "variables"@ {
        Some(OpKind::Locals)
    } else if k == "evaluate"@ || k == "print"@ {
        Some(OpKind::Evaluate)
    } else if k == "thread"@ {
        Some(OpKind::Thread)
    } else if k == "frame"@ {
        Some(OpKind::Frame)
    } else if k == "breakpoint"@ || k == "break"@ || k == "trace"@ {
        Some(OpKind::Breakpoint)
    } else if k == "clear"@ {
        Some(OpKind::Clear)
    } else if k == "skip_list"@ || k == "skip"@ {
        Some(OpKind::SkipList)
    } else if k == "skip_add"@ {
        Some(OpKind::SkipAdd)
    } else if k == "skip_clear"@ {
        Some(OpKind::SkipClear)
    } else if k == "breakpoints"@ || k == "info_break"@ {
        Some(OpKind::Breakpoints)
    } else if k == "set_variable"@ || k == "set"@ {
        Some(OpKind::SetVariable)
    } else if k == "exception_breakpoint"@ || k == "catch"@ {
        Some(OpKind::ExceptionBreakpoint)
    } else if k == "exception_filters"@ || k == "info_catch"@ {
        Some(OpKind::ExceptionFilters)
    } else if k == "watch_add"@ {
        Some(OpKind::WatchAdd)
    } else if k == "watch_remove"@ || k == "unwatch"@ {
        Some(OpKind::WatchRemove)
    } else if k == "watch_list"@ || k == "watches"@ {
        Some(OpKind::WatchList)
    } else if k == "smart_step"@ {
        Some(OpKind::SmartStep)
    } else if k == "suppress_entry_stop"@ {
        Some(OpKind::SuppressEntryStop)
    } else if k == "function_breakpoint"@ || k == "break_function"@ {
        Some(OpKind::FunctionBreakpoint)
    } else if k == "goto"@ {
        Some(OpKind::Goto)
    } else if k == "goto_targets"@ {
        Some(OpKind::GotoTargets)
    } else if k == "completions"@ || k == "complete"@ {
        Some(OpKind::Completions)
    } else if k == "data_watch_add"@ {
        Some(OpKind::DataWatchAdd)
    } else if k == "data_watch_remove"@ {
        Some(OpKind::DataWatchRemove)
    } else if k == "data_watch_list"@ || k == "data_watches"@ {
        Some(OpKind::DataWatchList)
    } else if k == "restart_frame"@ || k == "restart"@ {
        Some(OpKind::RestartFrame)
    } else if k == "disassemble"@ || k == "disasm"@ {
        Some(OpKind::Disassemble)
    } else if k == "instruction_breakpoint"@ {
        Some(OpKind::InstructionBreakpoint)
    } else if k == "dap"@ || k == "dap_request"@ {
        Some(OpKind::Dap)
    } else if k == "context"@ || k == "state"@ {
        Some(OpKind::Context)
    } else {
        None
    }
}

/// `str::len` as `i64`: the length of the UTF-8 encoding.
pub open spec fn byte_len_i64(s: Seq<char>) -> i64 {
    (vstd::utf8::encode_utf8(s).len() as usize) as i64
}

/// A flag given as text: required (`missing` otherwise) and parsed as a
/// boolean.
pub open spec fn required_flag(value: Option<String>, missing: Seq<char>) -> Result<bool, Seq<char>> {
    match value {
        None => Err(missing),
        Some(v) => parse_bool_spec(v@),
    }
}

/// The answer of `plan_request` for a request whose op is of `kind`.
#[verifier::spinoff_prover]
pub open spec fn plan_kind_spec(kind: OpKind, r: JsonRequest) -> Result<JsonOp, Seq<char>> {
    match kind {
        OpKind::Help => Ok(JsonOp::Help),
        OpKind::Disconnect => Ok(JsonOp::Disconnect),
        OpKind::Nav(t) => Ok(JsonOp::Navigate(t)),
        OpKind::Threads => Ok(JsonOp::Threads),
        OpKind::Stack => Ok(JsonOp::Stack),
        OpKind::Status => Ok(JsonOp::Status),
        OpKind::Sync => Ok(JsonOp::Sync),
        OpKind::Show => Ok(JsonOp::Show { context_lines: r.context_lines }),
        OpKind::Capabilities => Ok(JsonOp::Capabilities),
        OpKind::Config => Ok(JsonOp::Config),
        OpKind::ReadMemory => match r.memory_reference {
            None => Err("read_memory requires memory_reference"@),
            Some(m) => Ok(JsonOp::ReadMemory { memory_reference: m, count: r.count, offset: r.offset }),
        },
        OpKind::WriteMemory => match r.memory_reference {
            None => Err("write_memory requires memory_reference"@),
            Some(m) => match r.data {
                None => Err("write_memory requires data"@),
                Some(d) => Ok(JsonOp::WriteMemory { memory_reference: m, data: d, offset: r.offset }),
            },
        },
        OpKind::ThreadSnapshot => Ok(
            JsonOp::ThreadSnapshot {
                include_stacks: match r.include_stacks {
                    Some(b) => b,
                    None => true,
                },
                stack_depth: r.stack_depth,
                max_threads: r.max_threads,
            },
        ),
        OpKind::Scopes => Ok(JsonOp::Scopes),
        OpKind::Locals => match r.variables_reference {
            Some(v) => Ok(JsonOp::Variables { reference: v }),
            None => Ok(JsonOp::Locals),
        },
        OpKind::Evaluate => match r.expression {
            None => Err("evaluate requires expression"@),
            Some(e) => Ok(JsonOp::Evaluate { expression: e }),
        },
        OpKind::Thread => match r.thread_id {
            None => Err("thread requires thread_id"@),
            Some(t) => Ok(JsonOp::Thread { thread_id: t }),
        },
        OpKind::Frame => match r.frame_id {
            None => Err("frame requires frame_id"@),
            Some(f) => Ok(JsonOp::Frame { frame_id: f }),
        },
        OpKind::Breakpoint => match r.path {
            None => Err("breakpoint requires path"@),
            Some(p) => match r.line {
                None => Err("breakpoint requires line"@),
                Some(l) => match parse_breakpoint_action_spec(opt_view(r.action)) {
                    Err(e) => Err(e),
                    Ok(a) => Ok(
                        JsonOp::Breakpoint(
                            BreakpointRequest {
                                path: p,
                                line: l,
                                action: a,
                                options: BreakpointOptions {
                                    condition: r.condition,
                                    hit_condition: r.hit_condition,
                                    log_message: r.log_message,
                                },
                            },
                        ),
                    ),
                },
            },
        },
        OpKind::Clear => match r.path {
            None => Err("clear requires path"@),
            Some(p) => Ok(JsonOp::Clear { path: p, line: r.line }),
        },
        OpKind::SkipList => Ok(JsonOp::SkipList),
        OpKind::SkipAdd => match r.pattern {
            None => Err("skip_add requires pattern"@),
            Some(p) => Ok(JsonOp::SkipAdd { pattern: p }),
        },
        OpKind::SkipClear => Ok(JsonOp::SkipClear { pattern: r.pattern }),
        OpKind::Breakpoints => Ok(JsonOp::Breakpoints),
        OpKind::SetVariable => match r.name {
            None => Err("set_variable requires name"@),
            Some(n) => match r.value {
                None => Err("set_variable requires value"@),
                Some(v) => Ok(
                    JsonOp::SetVariable {
                        name: n,
                        value: v,
                        variables_reference: r.variables_reference,
                    },
                ),
            },
        },
        OpKind::ExceptionBreakpoint => match parse_exception_breakpoint_action_spec(opt_view(r.action)) {
            Err(e) => Err(e),
            Ok(a) => Ok(
                JsonOp::ExceptionBreakpoint { filter: r.filter, condition: r.condition, action: a },
            ),
        },
        OpKind::ExceptionFilters => Ok(JsonOp::ExceptionFilters),
        OpKind::WatchAdd => match r.expression {
            None => Err("watch_add requires expression"@),
            Some(e) => Ok(JsonOp::WatchAdd { expression: e }),
        },
        OpKind::WatchRemove => match r.expression {
            None => Err("watch_remove requires expression"@),
            Some(e) => Ok(JsonOp::WatchRemove { expression: e }),
        },
        OpKind::WatchList => Ok(JsonOp::WatchList),
        OpKind::SmartStep => match required_flag(r.value, "smart_step requires value (true/false)"@) {
            Err(e) => Err(e),
            Ok(b) => Ok(JsonOp::SmartStep(b)),
        },
        OpKind::SuppressEntryStop => match required_flag(
            r.value,
            "suppress_entry_stop requires value (true/false)"@,
        ) {
            Err(e) => Err(e),
            Ok(b) => Ok(JsonOp::SuppressEntryStop(b)),
        },
        OpKind::FunctionBreakpoint => match parse_function_breakpoint_action_spec(opt_view(r.action)) {
            Err(e) => Err(e),
            Ok(a) => Ok(JsonOp::FunctionBreakpoint { name: r.name, action: a }),
        },
        OpKind::Goto => match r.path {
            None => Err("goto requires path"@),
            Some(p) => match r.line {
                None => Err("goto requires line"@),
                Some(l) => Ok(JsonOp::Goto { path: p, line: l }),
            },
        },
        OpKind::GotoTargets => match r.path {
            None => Err("goto_targets requires path"@),
            Some(p) => match r.line {
                None => Err("goto_targets requires line"@),
                Some(l) => Ok(JsonOp::GotoTargets { path: p, line: l }),
            },
        },
        OpKind::Completions => {
            let t = match r.expression {
                Some(e) => Some(e),
                None => r.text,
            };
            match t {
                None => Err("completions requires expression or text"@),
                Some(t) => Ok(
                    JsonOp::Completions {
                        text: t,
                        column: match r.column {
                            Some(c) => c,
                            None => byte_len_i64(t@),
                        },
                    },
                ),
            }
        },
        OpKind::DataWatchAdd => match r.expression {
            None => Err("data_watch_add requires expression"@),
            Some(e) => Ok(JsonOp::DataWatchAdd { expression: e }),
        },
        OpKind::DataWatchRemove => match r.expression {
            None => Err("data_watch_remove requires expression"@),
            Some(e) => Ok(JsonOp::DataWatchRemove { expression: e }),
        },
        OpKind::DataWatchList => Ok(JsonOp::DataWatchList),
        OpKind::RestartFrame => Ok(JsonOp::RestartFrame { frame_id: r.frame_id }),
        OpKind::Disassemble => match r.memory_reference {
            None => Err("disassemble requires memory_reference"@),
            Some(m) => Ok(
                JsonOp::Disassemble {
                    memory_reference: m,
                    offset: match r.offset {
                        Some(o) => o,
                        None => 0,
                    },
                    count: match r.count {
                        Some(c) => c,
                        None => 1,
                    },
                },
            ),
        },
        OpKind::InstructionBreakpoint => match r.memory_reference {
            None => Err("instruction_breakpoint requires memory_reference"@),
            Some(m) => match r.value {
                Some(v) => match parse_bool_spec(v@) {
                    Err(e) => Err(e),
                    Ok(b) => Ok(
                        JsonOp::InstructionBreakpoint {
                            memory_reference: m,
                            offset: match r.offset {
                                Some(o) => o,
                                None => 0,
                            },
                            enabled: b,
                        },
                    ),
                },
                None => Ok(
                    JsonOp::InstructionBreakpoint {
                        memory_reference: m,
                        offset: match r.offset {
                            Some(o) => o,
                            None => 0,
                        },
                        enabled: true,
                    },
                ),
            },
        },
        OpKind::Dap => match r.command {
            None => Err("dap requires command"@),
            Some(c) => Ok(JsonOp::Dap { command: c }),
        },
        OpKind::Context => Ok(JsonOp::Context),
    }
}

/// The answer of `plan_request`: the op name is normalised (ASCII lower
/// case, `-` read as `_`) and looked up; an unknown name is an error that
/// repeats it.
pub open spec fn plan_request_spec(r: JsonRequest) -> Result<JsonOp, Seq<char>> {
    let k = navigation_key(r.op@);
    match op_kind_spec(k) {
        Some(kind) => plan_kind_spec(kind, r),
        None => Err("unknown op: "@ + k),
    }
}

/// The operation named by a normalised op name.
#[verifier::spinoff_prover]
pub fn op_kind(key: &Vec<char>) -> (r: Option<OpKind>)
    ensures
        r == op_kind_spec(key@),
{
    let k = key;
    if eq_lit(k, "help") {
        Some(OpKind::Help)
    } else if eq_lit(k, "quit") || eq_lit(k, "exit") || eq_lit(k, "stop") {
        Some(OpKind::Disconnect)
    } else if eq_lit(k, "continue") || eq_lit(k, "run") {
        Some(OpKind::Nav(NavigationType::Continue))
    } else if eq_lit(k, "step_over") || eq_lit(k, "next") {
        Some(OpKind::Nav(NavigationType::StepOver))
    } else if eq_lit(k, "step_in") || eq_lit(k, "step") {
        Some(OpKind::Nav(NavigationType::StepIn))
    } else if eq_lit(k, "step_out") || eq_lit(k, "finish") {
        Some(OpKind::Nav(NavigationType::StepOut))
    } else if eq_lit(k, "step_back") {
        Some(OpKind::Nav(NavigationType::StepBack))
    } else if eq_lit(k, "reverse_continue") {
        Some(OpKind::Nav(NavigationType::ReverseContinue))
    } else if eq_lit(k, "pause") {
        Some(OpKind::Nav(NavigationType::Pause))
    } else if eq_lit(k, "threads") {
        Some(OpKind::Threads)
    } else if eq_lit(k, "stack") || eq_lit(k, "backtrace") {
        Some(OpKind::Stack)
    } else if eq_lit(k, "status") {
        Some(OpKind::Status)
    } else if eq_lit(k, "sync") {
        Some(OpKind::Sync)
    } else if eq_lit(k, "show") || eq_lit(k, "src") || eq_lit(k, "code") {
        Some(OpKind::Show)
    } else if eq_lit(k, "capabilities") || eq_lit(k, "caps") {
        Some(OpKind::Capabilities)
    } else if eq_lit(k, "config") {
        Some(OpKind::Config)
    } else if eq_lit(k, "read_memory") {
        Some(OpKind::ReadMemory)
    } else if eq_lit(k, "write_memory") {
        Some(OpKind::WriteMemory)
    } else if eq_lit(k, "thread_snapshot") {
        Some(OpKind::ThreadSnapshot)
    } else if eq_lit(k, "scopes") {
        Some(OpKind::Scopes)
    } else if eq_lit(k, "locals") || eq_lit(k, "variables") {
        Some(OpKind::Locals)
    } else if eq_lit(k, "evaluate") || eq_lit(k, "print") {
        Some(OpKind::Evaluate)
    } else if eq_lit(k, "thread") {
        Some(OpKind::Thread)
    } else if eq_lit(k, "frame") {
        Some(OpKind::Frame)
    } else if eq_lit(k, "breakpoint") || eq_lit(k, "break") || eq_lit(k, "trace") {
        Some(OpKind::Breakpoint)
    } else if eq_lit(k, "clear") {
        Some(OpKind::Clear)
    } else if eq_lit(k, "skip_list") || eq_lit(k, "skip") {
        Some(OpKind::SkipList)
    } else if eq_lit(k, "skip_add") {
        Some(OpKind::SkipAdd)
    } else if eq_lit(k, "skip_clear") {
        Some(OpKind::SkipClear)
    } else if eq_lit(k, "breakpoints") || eq_lit(k, "info_break") {
        Some(OpKind::Breakpoints)
    } else if eq_lit(k, "set_variable") || eq_lit(k, "set") {
        Some(OpKind::SetVariable)
    } else if eq_lit(k, "exception_breakpoint") || eq_lit(k, "catch") {
        Some(OpKind::ExceptionBreakpoint)
    } else if eq_lit(k, "exception_filters") || eq_lit(k, "info_catch") {
        Some(OpKind::ExceptionFilters)
    } else if eq_lit(k, "watch_add") {
        Some(OpKind::WatchAdd)
    } else if eq_lit(k, "watch_remove") || eq_lit(k, "unwatch") {
        Some(OpKind::WatchRemove)
    } else if eq_lit(k, "watch_list") || eq_lit(k, "watches") {
        Some(OpKind::WatchList)
    } else if eq_lit(k, "smart_step") {
        Some(OpKind::SmartStep)
    } else if eq_lit(k, "suppress_entry_stop") {
        Some(OpKind::SuppressEntryStop)
    } else if eq_lit(k, "function_breakpoint") || eq_lit(k, "break_function") {
        Some(OpKind::FunctionBreakpoint)
    } else if eq_lit(k, "goto") {
        Some(OpKind::Goto)
    } else if eq_lit(k, "goto_targets") {
        Some(OpKind::GotoTargets)
    } else if eq_lit(k, "completions") || eq_lit(k, "complete") {
        Some(OpKind::Completions)
    } else if eq_lit(k, "data_watch_add") {
        Some(OpKind::DataWatchAdd)
    } else if eq_lit(k, "data_watch_remove") {
        Some(OpKind::DataWatchRemove)
    } else if eq_lit(k, "data_watch_list") || eq_lit(k, "data_watches") {
        Some(OpKind::DataWatchList)
    } else if eq_lit(k, "restart_frame") || eq_lit(k, "restart") {
        Some(OpKind::RestartFrame)
    } else if eq_lit(k, "disassemble") || eq_lit(k, "disasm") {
        Some(OpKind::Disassemble)
    } else if eq_lit(k, "instruction_breakpoint") {
        Some(OpKind::InstructionBreakpoint)
    } else if eq_lit(k, "dap") || eq_lit(k, "dap_request") {
        Some(OpKind::Dap)
    } else if eq_lit(k, "context") || eq_lit(k, "state") {
        Some(OpKind::Context)
    } else {
        None
    }
}

fn opt_as_str(o: &Option<String>) -> (r: Option<&str>)
    ensures
        opt_str_view(r) == opt_view(*o),
{
    match o {
        Some(s) => Some(s.as_str()),
        None => None,
    }
}

fn required_flag_exec(value: &Option<String>, missing: &str) -> (r: Result<bool, String>)
    ensures
        str_result_view(r) == required_flag(*value, missing@),
{
    match value {
        None => Err(owned(missing)),
        Some(v) => parse_bool(v.as_str()),
    }
}

fn require<T>(o: Option<T>, missing: &str) -> (r: Result<T, String>)
    ensures
        match o {
            Some(x) => r == Ok::<T, String>(x),
            None => r matches Err(e) && e@ == missing@,
        },
{
    match o {
        Some(x) => Ok(x),
        None => Err(owned(missing)),
    }
}

fn plan_kind(kind: OpKind, r: JsonRequest) -> (res: Result<JsonOp, String>)
    ensures
        str_result_view(res) == plan_kind_spec(kind, r),
{
    match kind {
        OpKind::Help => Ok(JsonOp::Help),
        OpKind::Disconnect => Ok(JsonOp::Disconnect),
        OpKind::Nav(t) => Ok(JsonOp::Navigate(t)),
        OpKind::Threads => Ok(JsonOp::Threads),
        OpKind::Stack => Ok(JsonOp::Stack),
        OpKind::Status => Ok(JsonOp::Status),
        OpKind::Sync => Ok(JsonOp::Sync),
        OpKind::Show => Ok(JsonOp::Show { context_lines: r.context_lines }),
        OpKind::Capabilities => Ok(JsonOp::Capabilities),
        OpKind::Config => Ok(JsonOp::Config),
        OpKind::ReadMemory => {
            let m = require(r.memory_reference, "read_memory requires memory_reference")?;
            Ok(JsonOp::ReadMemory { memory_reference: m, count: r.count, offset: r.offset })
        },
        OpKind::WriteMemory => {
            let m = require(r.memory_reference, "write_memory requires memory_reference")?;
            let d = require(r.data, "write_memory requires data")?;
            Ok(JsonOp::WriteMemory { memory_reference: m, data: d, offset: r.offset })
        },
        OpKind::ThreadSnapshot => Ok(
            JsonOp::ThreadSnapshot {
                include_stacks: match r.include_stacks {
                    Some(b) => b,
                    None => true,
                },
                stack_depth: r.stack_depth,
                max_threads: r.max_threads,
            },
        ),
        OpKind::Scopes => Ok(JsonOp::Scopes),
        OpKind::Locals => match r.variables_reference {
            Some(v) => Ok(JsonOp::Variables { reference: v }),
            None => Ok(JsonOp::Locals),
        },
        OpKind::Evaluate => {
            let e = require(r.expression, "evaluate requires expression")?;
            Ok(JsonOp::Evaluate { expression: e })
        },
        OpKind::Thread => {
            let t = require(r.thread_id, "thread requires thread_id")?;
            Ok(JsonOp::Thread { thread_id: t })
        },
        OpKind::Frame => {
            let f = require(r.frame_id, "frame requires frame_id")?;
            Ok(JsonOp::Frame { frame_id: f })
        },
        OpKind::Breakpoint => {
            let p = require(r.path, "breakpoint requires path")?;
            let l = require(r.line, "breakpoint requires line")?;
            let a = parse_breakpoint_action(opt_as_str(&r.action))?;
            Ok(
                JsonOp::Breakpoint(
                    BreakpointRequest {
                        path: p,
                        line: l,
                        action: a,
                        options: BreakpointOptions {
                            condition: r.condition,
                            hit_condition: r.hit_condition,
                            log_message: r.log_message,
                        },
                    },
                ),
            )
        },
        OpKind::Clear => {
            let p = require(r.path, "clear requires path")?;
            Ok(JsonOp::Clear { path: p, line: r.line })
        },
        OpKind::SkipList => Ok(JsonOp::SkipList),
        OpKind::SkipAdd => {
            let p = require(r.pattern, "skip_add requires pattern")?;
            Ok(JsonOp::SkipAdd { pattern: p })
        },
        OpKind::SkipClear => Ok(JsonOp::SkipClear { pattern: r.pattern }),
        OpKind::Breakpoints => Ok(JsonOp::Breakpoints),
        OpKind::SetVariable => {
            let n = require(r.name, "set_variable requires name")?;
            let v = require(r.value, "set_variable requires value")?;
            Ok(JsonOp::SetVariable { name: n, value: v, variables_reference: r.variables_reference })
        },
        OpKind::ExceptionBreakpoint => {
            let a = parse_exception_breakpoint_action(opt_as_str(&r.action))?;
            Ok(JsonOp::ExceptionBreakpoint { filter: r.filter, condition: r.condition, action: a })
        },
        OpKind::ExceptionFilters => Ok(JsonOp::ExceptionFilters),
        OpKind::WatchAdd => {
            let e = require(r.expression, "watch_add requires expression")?;
            Ok(JsonOp::WatchAdd { expression: e })
        },
        OpKind::WatchRemove => {
            let e = require(r.expression, "watch_remove requires expression")?;
            Ok(JsonOp::WatchRemove { expression: e })
        },
        OpKind::WatchList => Ok(JsonOp::WatchList),
        OpKind::SmartStep => {
            let b = required_flag_exec(&r.value, "smart_step requires value (true/false)")?;
            Ok(JsonOp::SmartStep(b))
        },
        OpKind::SuppressEntryStop => {
            let b = required_flag_exec(&r.value, "suppress_entry_stop requires value (true/false)")?;
            Ok(JsonOp::SuppressEntryStop(b))
        },
        OpKind::FunctionBreakpoint => {
            let a = parse_function_breakpoint_action(opt_as_str(&r.action))?;
            Ok(JsonOp::FunctionBreakpoint { name: r.name, action: a })
        },
        OpKind::Goto => {
            let p = require(r.path, "goto requires path")?;
            let l = require(r.line, "goto requires line")?;
            Ok(JsonOp::Goto { path: p, line: l })
        },
        OpKind::GotoTargets => {
            let p = require(r.path, "goto_targets requires path")?;
            let l = require(r.line, "goto_targets requires line")?;
            Ok(JsonOp::GotoTargets { path: p, line: l })
        },
        OpKind::Completions => {
            let t = match r.expression {
                Some(e) => Some(e),
                None => r.text,
            };
            let t = require(t, "completions requires expression or text")?;
            let column = match r.column {
                Some(c) => c,
                None => t.as_str().len() as i64,
            };
            Ok(JsonOp::Completions { text: t, column })
        },
        OpKind::DataWatchAdd => {
            let e = require(r.expression, "data_watch_add requires expression")?;
            Ok(JsonOp::DataWatchAdd { expression: e })
        },
        OpKind::DataWatchRemove => {
            let e = require(r.expression, "data_watch_remove requires expression")?;
            Ok(JsonOp::DataWatchRemove { expression: e })
        },
        OpKind::DataWatchList => Ok(JsonOp::DataWatchList),
        OpKind::RestartFrame => Ok(JsonOp::RestartFrame { frame_id: r.frame_id }),
        OpKind::Disassemble => {
            let m = require(r.memory_reference, "disassemble requires memory_reference")?;
            Ok(
                JsonOp::Disassemble {
                    memory_reference: m,
                    offset: match r.offset {
                        Some(o) => o,
                        None => 0,
                    },
                    count: match r.count {
                        Some(c) => c,
                        None => 1,
                    },
                },
            )
        },
        OpKind::InstructionBreakpoint => {
            let m = require(r.memory_reference, "instruction_breakpoint requires memory_reference")?;
            let enabled = match &r.value {
                Some(v) => parse_bool(v.as_str())?,
                None => true,
            };
            Ok(
                JsonOp::InstructionBreakpoint {
                    memory_reference: m,
                    offset: match r.offset {
                        Some(o) => o,
                        None => 0,
                    },
                    enabled,
                },
            )
        },
        OpKind::Dap => {
            let c = require(r.command, "dap requires command")?;
            Ok(JsonOp::Dap { command: c })
        },
        OpKind::Context => Ok(JsonOp::Context),
    }
}

/// What an NDJSON request asks for: its op name normalised (ASCII lower
/// case, `-` read as `_`) and looked up, and the arguments that op needs
/// checked in the order the session would read them.
pub fn plan_request(r: JsonRequest) -> (res: Result<JsonOp, String>)
    ensures
        str_result_view(res) == plan_request_spec(r),
{
    let v = chars_of(r.op.as_str());
    let mut k: Vec<char> = Vec::new();
    let mut i: usize = 0;
    while i < v.len()
        invariant
            i <= v.len(),
            k@ == navigation_key(v@.take(i as int)),
        decreases v.len() - i,
    {
        let c = v[i];
        let d = if c == '-' {
            '_'
        } else {
            c
        };
        let l = lower_char_exec(d);
        k.push(l);
        assert(navigation_key(v@.take((i + 1) as int)) =~= navigation_key(v@.take(i as int)).push(
            l,
        ));
        i = i + 1;
    }
    assert(v@.take(v.len() as int) =~= v@);
    match op_kind(&k) {
        Some(kind) => plan_kind(kind, r),
        None => {
            let mut e = owned("unknown op: ");
            push_range(&mut e, &k, 0, k.len());
            assert(k@.subrange(0, k.len() as int) =~= k@);
            Err(e)
        },
    }
}

proof fn lemma_op_continue()
    ensures
        op_kind_spec("continue"@) == Some(OpKind::Nav(NavigationType::Continue)),
{
    reveal_strlit("help");
    reveal_strlit("quit");
    reveal_strlit("exit");
    reveal_strlit("stop");
    reveal_strlit("continue");
    assert("continue"@ != "help"@) by {
        assert("continue"@.len() != "help"@.len() || "continue"@[0] != "help"@[0]);
    }
    assert("continue"@ != "quit"@) by {
        assert("continue"@.len() != "quit"@.len() || "continue"@[0] != "quit"@[0]);
    }
    assert("continue"@ != "exit"@) by {
        assert("continue"@.len() != "exit"@.len() || "continue"@[0] != "exit"@[0]);
    }
    assert("continue"@ != "stop"@) by {
        assert("continue"@.len() != "stop"@.len() || "continue"@[0] != "stop"@[0]);
    }
}

proof fn lemma_op_run()
    ensures
        op_kind_spec("run"@) == Some(OpKind::Nav(NavigationType::Continue)),
{
    reveal_strlit("help");
    reveal_strlit("quit");
    reveal_strlit("exit");
    reveal_strlit("stop");
    reveal_strlit("continue");
    reveal_strlit("run");
    assert("run"@ != "help"@) by {
        assert("run"@.len() != "help"@.len() || "run"@[0] != "help"@[0]);
    }
    assert("run"@ != "quit"@) by {
        assert("run"@.len() != "quit"@.len() || "run"@[0] != "quit"@[0]);
    }
    assert("run"@ != "exit"@) by {
        assert("run"@.len() != "exit"@.len() || "run"@[0] != "exit"@[0]);
    }
    assert("run"@ != "stop"@) by {
        assert("run"@.len() != "stop"@.len() || "run"@[0] != "stop"@[0]);
    }
    assert("run"@ != "continue"@) by {
        assert("run"@.len() != "continue"@.len() || "run"@[0] != "continue"@[0]);
    }
}

proof fn lemma_op_step_over()
    ensures
        op_kind_spec("step_over"@) == Some(OpKind::Nav(NavigationType::StepOver)),
{
    reveal_strlit("help");
    reveal_strlit("quit");
    reveal_strlit("exit");
    reveal_strlit("stop");
    reveal_strlit("continue");
    reveal_strlit("run");
    reveal_strlit("step_over");
    assert("step_over"@ != "help"@) by {
        assert("step_over"@.len() != "help"@.len() || "step_over"@[0] != "help"@[0]);
    }
    assert("step_over"@ != "quit"@) by {
        assert("step_over"@.len() != "quit"@.len() || "step_over"@[0] != "quit"@[0]);
    }
    assert("step_over"@ != "exit"@) by {
        assert("step_over"@.len() != "exit"@.len() || "step_over"@[0] != "exit"@[0]);
    }
    assert("step_over"@ != "stop"@) by {
        assert("step_over"@.len() != "stop"@.len() || "step_over"@[2] != "stop"@[2]);
    }
    assert("step_over"@ != "continue"@) by {
        assert("step_over"@.len() != "continue"@.len() || "step_over"@[0] != "continue"@[0]);
    }
    assert("step_over"@ != "run"@) by {
        assert("step_over"@.len() != "run"@.len() || "step_over"@[0] != "run"@[0]);
    }
}

proof fn lemma_op_next()
    ensures
        op_kind_spec("next"@) == Some(OpKind::Nav(NavigationType::StepOver)),
{
    reveal_strlit("help");
    reveal_strlit("quit");
    reveal_strlit("exit");
    reveal_strlit("stop");
    reveal_strlit("continue");
    reveal_strlit("run");
    reveal_strlit("step_over");
    reveal_strlit("next");
    assert("next"@ != "help"@) by {
        assert("next"@.len() != "help"@.len() || "next"@[0] != "help"@[0]);
    }
    assert("next"@ != "quit"@) by {
        assert("next"@.len() != "quit"@.len() || "next"@[0] != "quit"@[0]);
    }
    assert("next"@ != "exit"@) by {
        assert("next"@.len() != "exit"@.len() || "next"@[0] != "exit"@[0]);
    }
    assert("next"@ != "stop"@) by {
        assert("next"@.len() != "stop"@.len() || "next"@[0] != "stop"@[0]);
    }
    assert("next"@ != "continue"@) by {
        assert("next"@.len() != "continue"@.len() || "next"@[0] != "continue"@[0]);
    }
    assert("next"@ != "run"@) by {
        assert("next"@.len() != "run"@.len() || "next"@[0] != "run"@[0]);
    }
    assert("next"@ != "step_over"@) by {
        assert("next"@.len() != "step_over"@.len() || "next"@[0] != "step_over"@[0]);
    }
}

proof fn lemma_op_step_in()
    ensures
        op_kind_spec("step_in"@) == Some(OpKind::Nav(NavigationType::StepIn)),
{
    reveal_strlit("help");
    reveal_strlit("quit");
    reveal_strlit("exit");
    reveal_strlit("stop");
    reveal_strlit("continue");
    reveal_strlit("run");
    reveal_strlit("step_over");
    reveal_strlit("next");
    reveal_strlit("step_in");
    assert("step_in"@ != "help"@) by {
        assert("step_in"@.len() != "help"@.len() || "step_in"@[0] != "help"@[0]);
    }
    assert("step_in"@ != "quit"@) by {
        assert("step_in"@.len() != "quit"@.len() || "step_in"@[0] != "quit"@[0]);
    }
    assert("step_in"@ != "exit"@) by {
        assert("step_in"@.len() != "exit"@.len() || "step_in"@[0] != "exit"@[0]);
    }
    assert("step_in"@ != "stop"@) by {
        assert("step_in"@.len() != "stop"@.len() || "step_in"@[2] != "stop"@[2]);
    }
    assert("step_in"@ != "continue"@) by {
        assert("step_in"@.len() != "continue"@.len() || "step_in"@[0] != "continue"@[0]);
    }
    assert("step_in"@ != "run"@) by {
        assert("step_in"@.len() != "run"@.len() || "step_in"@[0] != "run"@[0]);
    }
    assert("step_in"@ != "step_over"@) by {
        assert("step_in"@.len() != "step_over"@.len() || "step_in"@[5] != "step_over"@[5]);
    }
    assert("step_in"@ != "next"@) by {
        assert("step_in"@.len() != "next"@.len() || "step_in"@[0] != "next"@[0]);
    }
}

proof fn lemma_op_step()
    ensures
        op_kind_spec("step"@) == Some(OpKind::Nav(NavigationType::StepIn)),
{
    reveal_strlit("help");
    reveal_strlit("quit");
    reveal_strlit("exit");
    reveal_strlit("stop");
    reveal_strlit("continue");
    reveal_strlit("run");
    reveal_strlit("step_over");
    reveal_strlit("next");
    reveal_strlit("step_in");
    reveal_strlit("step");
    assert("step"@ != "help"@) by {
        assert("step"@.len() != "help"@.len() || "step"@[0] != "help"@[0]);
    }
    assert("step"@ != "quit"@) by {
        assert("step"@.len() != "quit"@.len() || "step"@[0] != "quit"@[0]);
    }
    assert("step"@ != "exit"@) by {
        assert("step"@.len() != "exit"@.len() || "step"@[0] != "exit"@[0]);
    }
    assert("step"@ != "stop"@) by {
        assert("step"@.len() != "stop"@.len() || "step"@[2] != "stop"@[2]);
    }
    assert("step"@ != "continue"@) by {
        assert("step"@.len() != "continue"@.len() || "step"@[0] != "continue"@[0]);
    }
    assert("step"@ != "run"@) by {
        assert("step"@.len() != "run"@.len() || "step"@[0] != "run"@[0]);
    }
    assert("step"@ != "step_over"@) by {
        assert("step"@.len() != "step_over"@.len() || "step"@[4] != "step_over"@[4]);
    }
    assert("step"@ != "next"@) by {
        assert("step"@.len() != "next"@.len() || "step"@[0] != "next"@[0]);
    }
    assert("step"@ != "step_in"@) by {
        assert("step"@.len() != "step_in"@.len() || "step"@[4] != "step_in"@[4]);
    }
}

proof fn lemma_op_step_out()
    ensures
        op_kind_spec("step_out"@) == Some(OpKind::Nav(NavigationType::StepOut)),
{
    reveal_strlit("help");
    reveal_strlit("quit");
    reveal_strlit("exit");
    reveal_strlit("stop");
    reveal_strlit("continue");
    reveal_strlit("run");
    reveal_strlit("step_over");
    reveal_strlit("next");
    reveal_strlit("step_in");
    reveal_strlit("step");
    reveal_strlit("step_out");
    assert("step_out"@ != "help"@) by {
        assert("step_out"@.len() != "help"@.len() || "step_out"@[0] != "help"@[0]);
    }
    assert("step_out"@ != "quit"@) by {
        assert("step_out"@.len() != "quit"@.len() || "step_out"@[0] != "quit"@[0]);
    }
    assert("step_out"@ != "exit"@) by {
        assert("step_out"@.len() != "exit"@.len() || "step_out"@[0] != "exit"@[0]);
    }
    assert("step_out"@ != "stop"@) by {
        assert("step_out"@.len() != "stop"@.len() || "step_out"@[2] != "stop"@[2]);
    }
    assert("step_out"@ != "continue"@) by {
        assert("step_out"@.len() != "continue"@.len() || "step_out"@[0] != "continue"@[0]);
    }
    assert("step_out"@ != "run"@) by {
        assert("step_out"@.len() != "run"@.len() || "step_out"@[0] != "run"@[0]);
    }
    assert("step_out"@ != "step_over"@) by {
        assert("step_out"@.len() != "step_over"@.len() || "step_out"@[6] != "step_over"@[6]);
    }
    assert("step_out"@ != "next"@) by {
        assert("step_out"@.len() != "next"@.len() || "step_out"@[0] != "next"@[0]);
    }
    assert("step_out"@ != "step_in"@) by {
        assert("step_out"@.len() != "step_in"@.len() || "step_out"@[5] != "step_in"@[5]);
    }
    assert("step_out"@ != "step"@) by {
        assert("step_out"@.len() != "step"@.len() || "step_out"@[4] != "step"@[4]);
    }
}

proof fn lemma_op_finish()
    ensures
        op_kind_spec("finish"@) == Some(OpKind::Nav(NavigationType::StepOut)),
{
    reveal_strlit("help");
    reveal_strlit("quit");
    reveal_strlit("exit");
    reveal_strlit("stop");
    reveal_strlit("continue");
    reveal_strlit("run");
    reveal_strlit("step_over");
    reveal_strlit("next");
    reveal_strlit("step_in");
    reveal_strlit("step");
    reveal_strlit("step_out");
    reveal_strlit("finish");
    assert("finish"@ != "help"@) by {
        assert("finish"@.len() != "help"@.len() || "finish"@[0] != "help"@[0]);
    }
    assert("finish"@ != "quit"@) by {
        assert("finish"@.len() != "quit"@.len() || "finish"@[0] != "quit"@[0]);
    }
    assert("finish"@ != "exit"@) by {
        assert("finish"@.len() != "exit"@.len() || "finish"@[0] != "exit"@[0]);
    }
    assert("finish"@ != "stop"@) by {
        assert("finish"@.len() != "stop"@.len() || "finish"@[0] != "stop"@[0]);
    }
    assert("finish"@ != "continue"@) by {
        assert("finish"@.len() != "continue"@.len() || "finish"@[0] != "continue"@[0]);
    }
    assert("finish"@ != "run"@) by {
        assert("finish"@.len() != "run"@.len() || "finish"@[0] != "run"@[0]);
    }
    assert("finish"@ != "step_over"@) by {
        assert("finish"@.len() != "step_over"@.len() || "finish"@[0] != "step_over"@[0]);
    }
    assert("finish"@ != "next"@) by {
        assert("finish"@.len() != "next"@.len() || "finish"@[0] != "next"@[0]);
    }
    assert("finish"@ != "step_in"@) by {
        assert("finish"@.len() != "step_in"@.len() || "finish"@[0] != "step_in"@[0]);
    }
    assert("finish"@ != "step"@) by {
        assert("finish"@.len() != "step"@.len() || "finish"@[0] != "step"@[0]);
    }
    assert("finish"@ != "step_out"@) by {
        assert("finish"@.len() != "step_out"@.len() || "finish"@[0] != "step_out"@[0]);
    }
}

proof fn lemma_op_step_back()
    ensures
        op_kind_spec("step_back"@) == Some(OpKind::Nav(NavigationType::StepBack)),
{
    reveal_strlit("help");
    reveal_strlit("quit");
    reveal_strlit("exit");
    reveal_strlit("stop");
    reveal_strlit("continue");
    reveal_strlit("run");
    reveal_strlit("step_over");
    reveal_strlit("next");
    reveal_strlit("step_in");
    reveal_strlit("step");
    reveal_strlit("step_out");
    reveal_strlit("finish");
    reveal_strlit("step_back");
    assert("step_back"@ != "help"@) by {
        assert("step_back"@.len() != "help"@.len() || "step_back"@[0] != "help"@[0]);
    }
    assert("step_back"@ != "quit"@) by {
        assert("step_back"@.len() != "quit"@.len() || "step_back"@[0] != "quit"@[0]);
    }
    assert("step_back"@ != "exit"@) by {
        assert("step_back"@.len() != "exit"@.len() || "step_back"@[0] != "exit"@[0]);
    }
    assert("step_back"@ != "stop"@) by {
        assert("step_back"@.len() != "stop"@.len() || "step_back"@[2] != "stop"@[2]);
    }
    assert("step_back"@ != "continue"@) by {
        assert("step_back"@.len() != "continue"@.len() || "step_back"@[0] != "continue"@[0]);
    }
    assert("step_back"@ != "run"@) by {
        assert("step_back"@.len() != "run"@.len() || "step_back"@[0] != "run"@[0]);
    }
    assert("step_back"@ != "step_over"@) by {
        assert("step_back"@.len() != "step_over"@.len() || "step_back"@[5] != "step_over"@[5]);
    }
    assert("step_back"@ != "next"@) by {
        assert("step_back"@.len() != "next"@.len() || "step_back"@[0] != "next"@[0]);
    }
    assert("step_back"@ != "step_in"@) by {
        assert("step_back"@.len() != "step_in"@.len() || "step_back"@[5] != "step_in"@[5]);
    }
    assert("step_back"@ != "step"@) by {
        assert("step_back"@.len() != "step"@.len() || "step_back"@[4] != "step"@[4]);
    }
    assert("step_back"@ != "step_out"@) by {
        assert("step_back"@.len() != "step_out"@.len() || "step_back"@[5] != "step_out"@[5]);
    }
    assert("step_back"@ != "finish"@) by {
        assert("step_back"@.len() != "finish"@.len() || "step_back"@[0] != "finish"@[0]);
    }
}

proof fn lemma_op_reverse_continue()
    ensures
        op_kind_spec("reverse_continue"@) == Some(OpKind::Nav(NavigationType::ReverseContinue)),
{
    reveal_strlit("help");
    reveal_strlit("quit");
    reveal_strlit("exit");
    reveal_strlit("stop");
    reveal_strlit("continue");
    reveal_strlit("run");
    reveal_strlit("step_over");
    reveal_strlit("next");
    reveal_strlit("step_in");
    reveal_strlit("step");
    reveal_strlit("step_out");
    reveal_strlit("finish");
    reveal_strlit("step_back");
    reveal_strlit("reverse_continue");
    assert("reverse_continue"@ != "help"@) by {
        assert("reverse_continue"@.len() != "help"@.len() || "reverse_continue"@[0] != "help"@[0]);
    }
    assert("reverse_continue"@ != "quit"@) by {
        assert("reverse_continue"@.len() != "quit"@.len() || "reverse_continue"@[0] != "quit"@[0]);
    }
    assert("reverse_continue"@ != "exit"@) by {
        assert("reverse_continue"@.len() != "exit"@.len() || "reverse_continue"@[0] != "exit"@[0]);
    }
    assert("reverse_continue"@ != "stop"@) by {
        assert("reverse_continue"@.len() != "stop"@.len() || "reverse_continue"@[0] != "stop"@[0]);
    }
    assert("reverse_continue"@ != "continue"@) by {
        assert("reverse_continue"@.len() != "continue"@.len() || "reverse_continue"@[0] != "continue"@[0]);
    }
    assert("reverse_continue"@ != "run"@) by {
        assert("reverse_continue"@.len() != "run"@.len() || "reverse_continue"@[1] != "run"@[1]);
    }
    assert("reverse_continue"@ != "step_over"@) by {
        assert("reverse_continue"@.len() != "step_over"@.len() || "reverse_continue"@[0] != "step_over"@[0]);
    }
    assert("reverse_continue"@ != "next"@) by {
        assert("reverse_continue"@.len() != "next"@.len() || "reverse_continue"@[0] != "next"@[0]);
    }
    assert("reverse_continue"@ != "step_in"@) by {
        assert("reverse_continue"@.len() != "step_in"@.len() || "reverse_continue"@[0] != "step_in"@[0]);
    }
    assert("reverse_continue"@ != "step"@) by {
        assert("reverse_continue"@.len() != "step"@.len() || "reverse_continue"@[0] != "step"@[0]);
    }
    assert("reverse_continue"@ != "step_out"@) by {
        assert("reverse_continue"@.len() != "step_out"@.len() || "reverse_continue"@[0] != "step_out"@[0]);
    }
    assert("reverse_continue"@ != "finish"@) by {
        assert("reverse_continue"@.len() != "finish"@.len() || "reverse_continue"@[0] != "finish"@[0]);
    }
    assert("reverse_continue"@ != "step_back"@) by {
        assert("reverse_continue"@.len() != "step_back"@.len() || "reverse_continue"@[0] != "step_back"@[0]);
    }
}

proof fn lemma_op_pause()
    ensures
        op_kind_spec("pause"@) == Some(OpKind::Nav(NavigationType::Pause)),
{
    reveal_strlit("help");
    reveal_strlit("quit");
    reveal_strlit("exit");
    reveal_strlit("stop");
    reveal_strlit("continue");
    reveal_strlit("run");
    reveal_strlit("step_over");
    reveal_strlit("next");
    reveal_strlit("step_in");
    reveal_strlit("step");
    reveal_strlit("step_out");
    reveal_strlit("finish");
    reveal_strlit("step_back");
    reveal_strlit("reverse_continue");
    reveal_strlit("pause");
    assert("pause"@ != "help"@) by {
        assert("pause"@.len() != "help"@.len() || "pause"@[0] != "help"@[0]);
    }
    assert("pause"@ != "quit"@) by {
        assert("pause"@.len() != "quit"@.len() || "pause"@[0] != "quit"@[0]);
    }
    assert("pause"@ != "exit"@) by {
        assert("pause"@.len() != "exit"@.len() || "pause"@[0] != "exit"@[0]);
    }
    assert("pause"@ != "stop"@) by {
        assert("pause"@.len() != "stop"@.len() || "pause"@[0] != "stop"@[0]);
    }
    assert("pause"@ != "continue"@) by {
        assert("pause"@.len() != "continue"@.len() || "pause"@[0] != "continue"@[0]);
    }
    assert("pause"@ != "run"@) by {
        assert("pause"@.len() != "run"@.len() || "pause"@[0] != "run"@[0]);
    }
    assert("pause"@ != "step_over"@) by {
        assert("pause"@.len() != "step_over"@.len() || "pause"@[0] != "step_over"@[0]);
    }
    assert("pause"@ != "next"@) by {
        assert("pause"@.len() != "next"@.len() || "pause"@[0] != "next"@[0]);
    }
    assert("pause"@ != "step_in"@) by {
        assert("pause"@.len() != "step_in"@.len() || "pause"@[0] != "step_in"@[0]);
    }
    assert("pause"@ != "step"@) by {
        assert("pause"@.len() != "step"@.len() || "pause"@[0] != "step"@[0]);
    }
    assert("pause"@ != "step_out"@) by {
        assert("pause"@.len() != "step_out"@.len() || "pause"@[0] != "step_out"@[0]);
    }
    assert("pause"@ != "finish"@) by {
        assert("pause"@.len() != "finish"@.len() || "pause"@[0] != "finish"@[0]);
    }
    assert("pause"@ != "step_back"@) by {
        assert("pause"@.len() != "step_back"@.len() || "pause"@[0] != "step_back"@[0]);
    }
    assert("pause"@ != "reverse_continue"@) by {
        assert("pause"@.len() != "reverse_continue"@.len() || "pause"@[0] != "reverse_continue"@[0]);
    }
}

/// Each navigation op plans the navigation of the same name, and the
/// gdb-style aliases `run`, `next`, `step` and `finish` plan continue, step
/// over, step in and step out.
pub proof fn lemma_navigation_ops(r: JsonRequest, t: NavigationType)
    ensures
        navigation_key(r.op@) == name_spec(t) ==> plan_request_spec(r) == Ok::<JsonOp, Seq<char>>(
            JsonOp::Navigate(t),
        ),
        navigation_key(r.op@) == "run"@ ==> plan_request_spec(r) == Ok::<JsonOp, Seq<char>>(
            JsonOp::Navigate(NavigationType::Continue),
        ),
        navigation_key(r.op@) == "next"@ ==> plan_request_spec(r) == Ok::<JsonOp, Seq<char>>(
            JsonOp::Navigate(NavigationType::StepOver),
        ),
        navigation_key(r.op@) == "step"@ ==> plan_request_spec(r) == Ok::<JsonOp, Seq<char>>(
            JsonOp::Navigate(NavigationType::StepIn),
        ),
        navigation_key(r.op@) == "finish"@ ==> plan_request_spec(r) == Ok::<JsonOp, Seq<char>>(
            JsonOp::Navigate(NavigationType::StepOut),
        ),
{
    lemma_op_continue();
    lemma_op_run();
    lemma_op_step_over();
    lemma_op_next();
    lemma_op_step_in();
    lemma_op_step();
    lemma_op_step_out();
    lemma_op_finish();
    lemma_op_step_back();
    lemma_op_reverse_continue();
    lemma_op_pause();
}

} // verus!
