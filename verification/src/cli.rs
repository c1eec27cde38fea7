//! The command line of the debugger CLI: global options, subcommands, and
//! the decisions `debug` takes before it talks to a session.
use vstd::prelude::*;
use crate::navigation::NavigationType;
use crate::num::{int_str, push_u64};
use crate::text::{opt_view, owned};

verus! {

/// Options that apply to every subcommand.
#[derive(Debug, Clone)]
pub struct GlobalOpts {
    /// Emit compact JSON (default: pretty-printed).
    pub json: bool,
    /// Control attach port (default: auto-discover the sole active session).
    pub control_port: Option<u16>,
    /// Filter sessions by scope id.
    pub scope: Option<String>,
}

/// Options of the MCP server.
#[derive(Debug, Clone)]
pub struct McpOptions {
    pub globals: GlobalOpts,
    pub program: Option<String>,
    pub adapter: Option<String>,
    pub target: Option<String>,
}

/// Options of the interactive debugger.
#[derive(Debug, Clone)]
pub struct ReplOptions {
    pub program: Option<String>,
    pub adapter: Option<String>,
    /// RSP target id from `target.yaml` (e.g. gdbserver, qemu-x86-kernel).
    pub target: Option<String>,
    pub globals: GlobalOpts,
    /// NDJSON mode: one JSON request per stdin line, one JSON response per stdout line.
    pub ndjson: bool,
}

/// `debug` subcommands.
#[derive(Debug, Clone)]
pub enum DebugCommands {
    /// Start a debug session (registers the instance only).
    Start { program: String, adapter: Option<String> },
    /// List active debug sessions.
    Sessions,
    /// Send an arbitrary DAP request to a running session.
    Dap { command: String, arguments: Option<String> },
    /// List threads in a running session.
    Threads,
    /// Fetch the stack trace of a thread.
    StackTrace { thread_id: i64 },
    /// Set breakpoints in a source file.
    SetBreakpoints { path: String, lines: Vec<i64> },
    /// Show execution status for the active session.
    Status,
    /// Resume execution until the next stop.
    Continue { thread_id: i64 },
    /// Step over the current line.
    StepOver { thread_id: i64 },
    /// Step into the current line.
    StepIn { thread_id: i64 },
    /// Step out of the current frame.
    StepOut { thread_id: i64 },
    /// Reverse one source line.
    StepBack { thread_id: i64 },
    /// Reverse-continue execution.
    ReverseContinue { thread_id: i64 },
    /// Pause a running thread.
    Pause { thread_id: i64 },
    /// Evaluate an expression in the debugger.
    Evaluate { expression: String, frame_id: Option<i64> },
    /// List variable scopes for a stack frame.
    Scopes { frame_id: i64 },
    /// List variables for a variables reference.
    Variables { variables_reference: i64 },
    /// Disconnect from the debug session.
    Stop { terminate: bool },
    /// Interactive gdb-style command loop.
    Repl { program: Option<String>, adapter: Option<String>, ndjson: bool },
    /// Start the MCP server on stdio.
    Mcp,
    /// Attach to a running multiplexed session via its control port.
    Attach { port: u16, command: String },
}

/// The `debug` command.
#[derive(Debug, Clone)]
pub struct Debug {
    pub command: DebugCommands,
}

/// `plugin` subcommands.
#[derive(Debug, Clone)]
pub enum PluginCommands {
    /// List registered plugins.
    List,
    /// Show one plugin.
    Show { id: String },
}

/// The `plugin` command.
#[derive(Debug, Clone)]
pub struct Plugin {
    pub command: PluginCommands,
}

/// `session` subcommands.
#[derive(Debug, Clone)]
pub enum SessionCommands {
    /// List active debug sessions.
    List,
    /// Show one session record and reachability probes.
    Show { instance_id: String },
    /// End a debug session via the control plane.
    Kill { instance_id: String, terminate: bool },
}

/// The `session` command.
#[derive(Debug, Clone)]
pub struct Session {
    pub command: SessionCommands,
}

/// `target` subcommands.
#[derive(Debug, Clone)]
pub enum TargetCommands {
    /// List registered RSP target manifests.
    List,
    /// Show one target manifest.
    Show { id: String },
}

/// The `target` command.
#[derive(Debug, Clone)]
pub struct Target {
    pub command: TargetCommands,
}

/// The navigation a `debug` subcommand performs, with its thread.
pub open spec fn navigation_of(c: DebugCommands) -> Option<(NavigationType, i64)> {
    match c {
        DebugCommands::Continue { thread_id } => Some((NavigationType::Continue, thread_id)),
        DebugCommands::StepOver { thread_id } => Some((NavigationType::StepOver, thread_id)),
        DebugCommands::StepIn { thread_id } => Some((NavigationType::StepIn, thread_id)),
        DebugCommands::StepOut { thread_id } => Some((NavigationType::StepOut, thread_id)),
        DebugCommands::StepBack { thread_id } => Some((NavigationType::StepBack, thread_id)),
        DebugCommands::ReverseContinue { thread_id } => Some(
            (NavigationType::ReverseContinue, thread_id),
        ),
        DebugCommands::Pause { thread_id } => Some((NavigationType::Pause, thread_id)),
        _ => None,
    }
}

impl DebugCommands {
    /// The navigation this subcommand performs, if it is one of the
    /// continue/step/pause commands.
    pub fn navigation(&self) -> (r: Option<(NavigationType, i64)>)
        ensures
            r == navigation_of(*self),
    {
        match self {
            DebugCommands::Continue { thread_id } => Some((NavigationType::Continue, *thread_id)),
            DebugCommands::StepOver { thread_id } => Some((NavigationType::StepOver, *thread_id)),
            DebugCommands::StepIn { thread_id } => Some((NavigationType::StepIn, *thread_id)),
            DebugCommands::StepOut { thread_id } => Some((NavigationType::StepOut, *thread_id)),
            DebugCommands::StepBack { thread_id } => Some((NavigationType::StepBack, *thread_id)),
            DebugCommands::ReverseContinue { thread_id } => Some(
                (NavigationType::ReverseContinue, *thread_id),
            ),
            DebugCommands::Pause { thread_id } => Some((NavigationType::Pause, *thread_id)),
            _ => None,
        }
    }
}

/// The options `debug repl` starts the interactive debugger with: NDJSON
/// mode is on when asked for or when the global JSON flag is set.
pub fn repl_options(program: Option<String>, adapter: Option<String>, ndjson: bool, globals: GlobalOpts) -> (r: ReplOptions)
    ensures
        r.program == program,
        r.adapter == adapter,
        r.target is None,
        r.ndjson == (ndjson || globals.json),
        r.globals == globals,
{
    let nd = ndjson || globals.json;
    ReplOptions { program, adapter, target: None, globals, ndjson: nd }
}

/// The line `debug stop` prints in plain-text mode.
pub fn stop_message(terminate: bool) -> (r: &'static str)
    ensures
        r@ == if terminate {
            "Disconnected and terminated debuggee."@
        } else {
            "Disconnected."@
        },
{
    if terminate {
        "Disconnected and terminated debuggee."
    } else {
        "Disconnected."
    }
}

/// The arguments `debug mcp` hands to the agent binary: the control port
/// and the scope, each when given.
pub open spec fn mcp_agent_args_spec(port: Option<u16>, scope: Option<Seq<char>>) -> Seq<Seq<char>> {
    let a: Seq<Seq<char>> = match port {
        Some(p) => seq!["--control-port"@, int_str(p as int)],
        None => Seq::empty(),
    };
    match scope {
        Some(s) => a + seq!["--scope"@, s],
        None => a,
    }
}

/// The arguments `debug mcp` hands to the agent binary.
pub fn mcp_agent_args(globals: &GlobalOpts) -> (r: Vec<String>)
    ensures
        r@.map_values(|s: String| s@) == mcp_agent_args_spec(
            globals.control_port,
            opt_view(globals.scope),
        ),
{
    let mut r: Vec<String> = Vec::new();
    match globals.control_port {
        Some(p) => {
            r.push(owned("--control-port"));
            let mut n = String::new();
            push_u64(&mut n, p as u64);
            r.push(n);
        },
        None => {},
    }
    let ghost a = r@.map_values(|s: String| s@);
    match &globals.scope {
        Some(s) => {
            r.push(owned("--scope"));
            r.push(s.clone());
            assert(r@.map_values(|s: String| s@) =~= a + seq!["--scope"@, s@]);
        },
        None => {},
    }
    assert(r@.map_values(|s: String| s@) =~= mcp_agent_args_spec(
        globals.control_port,
        opt_view(globals.scope),
    ));
    r
}

} // verus!
